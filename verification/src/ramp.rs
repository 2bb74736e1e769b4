//! The acceleration ramp: how long to wait before the next paced step.

use vstd::prelude::*;

verus! {

/// Number of tiers in the ramp.
pub const RAMP_TIERS: usize = 5;

/// The ramp, slowest tier first. Each tier is a pair: the number of steps
/// that must have accumulated to reach it, and the interval between steps, in
/// microseconds, that it allows.
pub const RAMP_TABLE: [[u16; 2]; 5] = [[20, 3000], [50, 1500], [100, 1000], [150, 800], [300, 600]];

/// The largest step count the ramp distinguishes: the threshold of its last tier.
pub const MAX_VELOCITY: u16 = 300;

/// Steps needed to reach tier `tier`.
pub open spec fn tier_threshold(tier: int) -> int {
    RAMP_TABLE[tier][0] as int
}

/// Interval between steps, in microseconds, at tier `tier`.
pub open spec fn tier_interval(tier: int) -> int {
    RAMP_TABLE[tier][1] as int
}

/// The smallest interval among those of the first `tiers` tiers whose
/// threshold `steps` has reached; the interval of the first tier if it has
/// reached none.
pub open spec fn least_reached_interval(steps: int, tiers: int) -> int
    decreases tiers,
{
    if tiers <= 1 {
        tier_interval(0)
    } else {
        let rest = least_reached_interval(steps, tiers - 1);
        if tier_threshold(tiers - 1) <= steps && tier_interval(tiers - 1) < rest {
            tier_interval(tiers - 1)
        } else {
            rest
        }
    }
}

/// The interval to keep between steps once `steps` steps have accumulated.
pub open spec fn interval_at(steps: int) -> int {
    least_reached_interval(steps, 5)
}

/// Time from `since` to `now` on a clock that counts up and wraps around at
/// the top of `usize`.
pub open spec fn elapsed_between(since: usize, now: usize) -> int {
    if now >= since {
        now - since
    } else {
        now + (usize::MAX - since) + 1
    }
}

/// The interval to keep between steps once `steps` steps have accumulated:
/// the smallest that a reached tier of the ramp offers, which is 3000
/// microseconds below 50 steps, then 1500, 1000 from 100, 800 from 150, and
/// 600 from 300 on.
pub fn step_interval(steps: u16) -> (interval: u16)
    ensures
        interval == interval_at(steps as int),
        interval == if steps >= 300 {
            600int
        } else if steps >= 150 {
            800
        } else if steps >= 100 {
            1000
        } else if steps >= 50 {
            1500
        } else {
            3000
        },
{
    proof {
        interval_at_by_range(steps as int);
    }
    let mut interval: u16 = RAMP_TABLE[0][1];
    let mut tier: usize = 1;
    while tier < RAMP_TIERS
        invariant
            1 <= tier <= RAMP_TIERS,
            interval == least_reached_interval(steps as int, tier as int),
        decreases RAMP_TIERS - tier,
    {
        if RAMP_TABLE[tier][0] <= steps && RAMP_TABLE[tier][1] < interval {
            interval = RAMP_TABLE[tier][1];
        }
        tier += 1;
    }
    interval
}

/// Time from `since` to `now` on a wrapping clock.
pub fn elapsed(since: usize, now: usize) -> (span: usize)
    ensures
        span == elapsed_between(since, now),
{
    now.wrapping_sub(since)
}

/// The ramp in closed form: 3000 microseconds below 50 accumulated steps, then
/// 1500, 1000 from 100, 800 from 150, and 600 from 300 on.
pub proof fn interval_at_by_range(steps: int)
    ensures
        interval_at(steps) == if steps >= 300 {
            600int
        } else if steps >= 150 {
            800
        } else if steps >= 100 {
            1000
        } else if steps >= 50 {
            1500
        } else {
            3000
        },
{
    reveal_with_fuel(least_reached_interval, 6);
}

/// The interval chosen is the smallest that a reached tier offers: no reached
/// tier has a smaller one, and it is the interval of a reached tier, or of the
/// first tier when none is reached.
pub proof fn interval_at_is_least_reached(steps: int)
    ensures
        forall|tier: int|
            0 <= tier < 5 && tier_threshold(tier) <= steps ==> interval_at(steps) <= #[trigger] tier_interval(tier),
        (exists|tier: int| 0 <= tier < 5 && tier_threshold(tier) <= steps && interval_at(steps) == tier_interval(tier))
            || interval_at(steps) == tier_interval(0),
{
    interval_at_by_range(steps);
    if steps >= 300 {
        assert(tier_threshold(4) <= steps && interval_at(steps) == tier_interval(4));
    } else if steps >= 150 {
        assert(tier_threshold(3) <= steps && interval_at(steps) == tier_interval(3));
    } else if steps >= 100 {
        assert(tier_threshold(2) <= steps && interval_at(steps) == tier_interval(2));
    } else if steps >= 50 {
        assert(tier_threshold(1) <= steps && interval_at(steps) == tier_interval(1));
    }
}

/// The ramp only shortens: with more accumulated steps the interval is never longer.
pub proof fn interval_at_is_monotone(fewer: int, more: int)
    requires
        fewer <= more,
    ensures
        interval_at(more) <= interval_at(fewer),
{
    interval_at_by_range(fewer);
    interval_at_by_range(more);
}

} // verus!
