//! The six-state commutation cycle and its decoding into line levels.

use vstd::prelude::*;

verus! {

/// Number of states in the commutation cycle.
pub const PHASE_COUNT: usize = 6;

/// Number of output lines.
pub const LINE_COUNT: usize = 4;

/// Bit patterns of the cycle, one per state. Bit `i` of a pattern is the level
/// of line `i`, so the least significant bit drives line 0.
pub const PHASE_TABLE: [u8; 6] = [0x9, 0x1, 0x7, 0x6, 0xE, 0x8];

/// The state that follows `index` in cycle order.
pub open spec fn next_phase(index: int) -> int {
    (index + 1) % 6
}

/// The state that precedes `index` in cycle order.
pub open spec fn prev_phase(index: int) -> int {
    (index + 5) % 6
}

/// The state one step away from `index`, forwards or backwards.
pub open spec fn neighbour_phase(index: int, forward: bool) -> int {
    if forward {
        next_phase(index)
    } else {
        prev_phase(index)
    }
}

/// Whether bit `line` of `pattern` is set.
pub open spec fn bit_is_set(pattern: u8, line: int) -> bool {
    if line == 0 {
        pattern as int % 2 == 1
    } else if line == 1 {
        pattern as int / 2 % 2 == 1
    } else if line == 2 {
        pattern as int / 4 % 2 == 1
    } else {
        pattern as int / 8 % 2 == 1
    }
}

/// Whether line `line` is driven high in state `index`.
pub open spec fn phase_level(index: int, line: int) -> bool {
    bit_is_set(PHASE_TABLE[index], line)
}

/// The levels of lines 0 to 3 in state `index`, written out.
pub open spec fn phase_levels(index: int) -> Seq<bool> {
    if index == 0 {
        seq![true, false, false, true]
    } else if index == 1 {
        seq![true, false, false, false]
    } else if index == 2 {
        seq![true, true, true, false]
    } else if index == 3 {
        seq![false, true, true, false]
    } else if index == 4 {
        seq![false, true, true, true]
    } else {
        seq![false, false, false, true]
    }
}

/// The pattern of state `index`.
pub fn phase_pattern(index: usize) -> (pattern: u8)
    requires
        index < PHASE_COUNT,
    ensures
        pattern == PHASE_TABLE[index as int],
{
    PHASE_TABLE[index]
}

/// The level that `pattern` assigns to line `line`.
pub fn line_level(pattern: u8, line: usize) -> (high: bool)
    requires
        line < LINE_COUNT,
    ensures
        high == bit_is_set(pattern, line as int),
{
    let shift: u8 = line as u8;
    let bit: u8 = (pattern >> shift) & 1;
    assert(shift == 0 ==> ((pattern >> shift) & 1) == pattern % 2) by (bit_vector);
    assert(shift == 1 ==> ((pattern >> shift) & 1) == pattern / 2 % 2) by (bit_vector);
    assert(shift == 2 ==> ((pattern >> shift) & 1) == pattern / 4 % 2) by (bit_vector);
    assert(shift == 3 ==> ((pattern >> shift) & 1) == pattern / 8 % 2) by (bit_vector);
    bit == 1
}

/// The state one step forwards from `index`.
pub fn phase_after(index: usize) -> (next: usize)
    requires
        index < PHASE_COUNT,
    ensures
        next == next_phase(index as int),
        next < PHASE_COUNT,
{
    (index + 1) % PHASE_COUNT
}

/// The state one step backwards from `index`.
pub fn phase_before(index: usize) -> (prev: usize)
    requires
        index < PHASE_COUNT,
    ensures
        prev == prev_phase(index as int),
        prev < PHASE_COUNT,
{
    (index + 5) % PHASE_COUNT
}

/// The cycle is closed and its two senses undo each other: a step forwards and
/// a step backwards from any state return to it, in either order, and six
/// steps in one sense come back to the start.
pub proof fn phase_cycle_is_closed(index: int)
    requires
        0 <= index < 6,
    ensures
        0 <= next_phase(index) < 6,
        0 <= prev_phase(index) < 6,
        prev_phase(next_phase(index)) == index,
        next_phase(prev_phase(index)) == index,
        next_phase(next_phase(next_phase(next_phase(next_phase(next_phase(index)))))) == index,
        prev_phase(prev_phase(prev_phase(prev_phase(prev_phase(prev_phase(index)))))) == index,
{
}

/// Decoding the packed table bit by bit gives the written-out levels.
pub proof fn phase_table_decodes(index: int, line: int)
    requires
        0 <= index < 6,
        0 <= line < 4,
    ensures
        phase_level(index, line) == phase_levels(index)[line],
{
}

} // verus!
