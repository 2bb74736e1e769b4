//! What holds of the motor over whole operations and runs of operations.

use crate::error::Error;
use crate::model::{
    least_of, Action, Activity, Direction, Event, MotorModel, StepKind, SETTLE_MICROS,
};
use crate::phase::{neighbour_phase, phase_level, prev_phase};
use crate::ramp::{elapsed_between, interval_at, interval_at_is_monotone, MAX_VELOCITY};
use crate::runs::{commit_requests, line_writes_in, pauses_in, sweep_requests, well_spaced};
use vstd::prelude::*;

verus! {

/// Every transition keeps the invariant, and with it the position inside the
/// travel range, whatever operation is begun and whatever the driver reports.
/// What it asks of the driver is a line below four or a pause of the settle
/// interval.
pub proof fn transitions_keep_invariant(
    m: MotorModel,
    forward: bool,
    now: usize,
    event: Event,
    target: nat,
)
    requires
        m.wf(),
    ensures
        m.step(forward).0.wf() && m.step(forward).1.in_range(),
        m.zero().0.wf() && m.zero().1.in_range(),
        m.advance(now).0.wf() && m.advance(now).1.in_range(),
        m.resume(event).0.wf() && m.resume(event).1.in_range(),
        m.retargeted(target).wf(),
        m.step(forward).0.travel_limit == m.travel_limit,
        m.zero().0.travel_limit == m.travel_limit,
        m.advance(now).0.travel_limit == m.travel_limit,
        m.resume(event).0.travel_limit == m.travel_limit,
        m.retargeted(target).travel_limit == m.travel_limit,
{
}

/// Through any sequence of single steps, forwards and backwards in any
/// order, the position stays below the travel limit.
pub proof fn position_stays_in_range(m: MotorModel, senses: Seq<bool>)
    requires
        m.wf(),
        m.idle(),
    ensures
        m.stepped_through(senses).wf(),
        m.stepped_through(senses).idle(),
        m.stepped_through(senses).travel_limit == m.travel_limit,
        0 <= m.stepped_through(senses).position < m.travel_limit,
    decreases senses.len(),
{
    if senses.len() > 0 {
        let before = m.stepped_through(senses.drop_last());
        position_stays_in_range(m, senses.drop_last());
        if before.can_step(senses.last()) {
            step_in_range_moves(before, senses.last());
        } else {
            step_at_bound_is_declined(before, senses.last());
        }
    }
}

/// A single step at the end of the range is declined: nothing changes and no
/// line is asked for, however often it is tried.
pub proof fn step_at_bound_is_declined(m: MotorModel, forward: bool)
    requires
        m.wf(),
        m.idle(),
        !m.can_step(forward),
    ensures
        m.step(forward) == (m, Action::Done(Ok(()))),
        m.step(forward).0.step(forward) == (m, Action::Done(Ok(()))),
        m.performed_step(forward) == m,
{
    reveal_with_fuel(MotorModel::carried_out, 2);
}

/// A single step inside the range, with every line written: the four lines
/// are asked for in order with the levels of the neighbouring phase, and then
/// the position and the phase have moved by one.
pub proof fn step_in_range_moves(m: MotorModel, forward: bool)
    requires
        m.wf(),
        m.idle(),
        m.can_step(forward),
    ensures
        m.step(forward).0.carried_out(m.step(forward).1, 5) == (
            m.moved(forward),
            commit_requests(neighbour_phase(m.phase_index as int, forward)).push(Action::Done(Ok(()))),
        ),
        m.performed_step(forward) == m.moved(forward),
        m.moved(forward).wf(),
        m.moved(forward).idle(),
{
    reveal_with_fuel(MotorModel::carried_out, 6);
    let (begun, first) = m.step(forward);
    let (end, requests) = begun.carried_out(first, 5);
    assert(requests =~= commit_requests(neighbour_phase(m.phase_index as int, forward)).push(
        Action::Done(Ok(())),
    ));
}

/// Single steps add up. After `count` steps in one sense, none of them past
/// the end of the range, the position has moved by `count` and the phase has
/// gone `count` places round the cycle in that sense; nothing else has changed
/// but the stopped flag, which follows the position.
pub proof fn steps_add_up(m: MotorModel, forward: bool, count: nat)
    requires
        m.wf(),
        m.idle(),
        forward ==> m.position + count < m.travel_limit,
        !forward ==> count <= m.position,
    ensures
        m.stepped_by(forward, count) == (MotorModel {
            phase_index: if forward {
                ((m.phase_index + count) % 6) as nat
            } else {
                ((m.phase_index + 5 * count) % 6) as nat
            },
            ..m.placed_at(
                if forward {
                    m.position + count
                } else {
                    (m.position - count) as nat
                },
            )
        }),
        m.stepped_by(forward, count).wf(),
        m.stepped_by(forward, count).idle(),
    decreases count,
{
    if count > 0 {
        let before = m.stepped_by(forward, (count - 1) as nat);
        steps_add_up(m, forward, (count - 1) as nat);
        step_in_range_moves(before, forward);
    }
}

/// Single steps stop at the ends of the range. Of `count` steps in one
/// sense, those are taken that the range has room for and the rest are
/// declined; the position ends at the bound at most, and the phase has gone
/// round the cycle by the steps that were taken.
pub proof fn steps_stop_at_bound(m: MotorModel, forward: bool, count: nat)
    requires
        m.wf(),
        m.idle(),
    ensures
        m.stepped_by(forward, count).wf(),
        m.stepped_by(forward, count).idle(),
        m.stepped_by(forward, count).travel_limit == m.travel_limit,
        forward && m.position + count < m.travel_limit ==> m.stepped_by(forward, count).position
            == m.position + count,
        forward && m.position + count >= m.travel_limit ==> m.stepped_by(forward, count).position
            == m.travel_limit - 1,
        !forward && count <= m.position ==> m.stepped_by(forward, count).position == m.position
            - count,
        !forward && count > m.position ==> m.stepped_by(forward, count).position == 0,
        forward ==> m.stepped_by(forward, count).phase_index == (m.phase_index + (m.stepped_by(
            forward,
            count,
        ).position - m.position)) % 6,
        !forward ==> m.stepped_by(forward, count).phase_index == (m.phase_index + 5 * (m.position
            - m.stepped_by(forward, count).position)) % 6,
    decreases count,
{
    if count > 0 {
        let before = m.stepped_by(forward, (count - 1) as nat);
        steps_stop_at_bound(m, forward, (count - 1) as nat);
        if before.can_step(forward) {
            step_in_range_moves(before, forward);
        } else {
            step_at_bound_is_declined(before, forward);
        }
    }
}

/// After `count` forward steps inside the range the phase index is the
/// initial one plus `count`, modulo 6.
pub proof fn forward_steps_turn_phase(m: MotorModel, count: nat)
    requires
        m.wf(),
        m.idle(),
        m.position + count < m.travel_limit,
    ensures
        m.stepped_by(true, count).phase_index == (m.phase_index + count) % 6,
        m.stepped_by(true, count).position == m.position + count,
{
    steps_add_up(m, true, count);
}

/// There and back: `count` steps forwards inside the range and then `count`
/// steps backwards leave the motor as it was, position and phase included.
pub proof fn steps_there_and_back(m: MotorModel, count: nat)
    requires
        m.wf(),
        m.idle(),
        m.position + count < m.travel_limit,
    ensures
        m.stepped_by(true, count).stepped_by(false, count) == m,
{
    steps_add_up(m, true, count);
    steps_add_up(m.stepped_by(true, count), false, count);
}

/// Committing a step with every line written: the four lines of the
/// neighbouring phase are asked for in order, and the run goes on from where
/// the completed step leaves the motor.
proof fn commit_runs_through(m: MotorModel, forward: bool, kind: StepKind, limit: nat)
    requires
        m.wf(),
        m.can_step(forward),
        kind is Homing ==> !forward,
        limit >= 4,
    ensures
        ({
            let (begun, first) = m.begin_step(forward, kind);
            let (done, then) = m.complete_step(forward, kind);
            let (end, rest) = done.carried_out(then, (limit - 4) as nat);
            begun.carried_out(first, limit) == (
                end,
                commit_requests(neighbour_phase(m.phase_index as int, forward)) + rest,
            )
        }),
{
    let (begun, first) = m.begin_step(forward, kind);
    let (done, then) = m.complete_step(forward, kind);
    let (end, rest) = done.carried_out(then, (limit - 4) as nat);
    let written = Event::Written(Ok(()));
    let (one, second) = begun.resume(written);
    let (two, third) = one.resume(written);
    let (three, fourth) = two.resume(written);
    assert(three.resume(written) == (done, then));
    let run3 = three.carried_out(fourth, (limit - 3) as nat);
    assert(run3 == (end, seq![fourth] + rest));
    let run2 = two.carried_out(third, (limit - 2) as nat);
    assert(run2 == (end, seq![third] + run3.1));
    let run1 = one.carried_out(second, (limit - 1) as nat);
    assert(run1 == (end, seq![second] + run2.1));
    let run0 = begun.carried_out(first, limit);
    assert(run0 == (end, seq![first] + run1.1));
    assert(run0.1 =~= commit_requests(neighbour_phase(m.phase_index as int, forward)) + rest);
}

/// A homing sweep that is about to make attempt number `position + 1` from the
/// end, with every line written: it asks for exactly `sweep_requests` and
/// leaves the motor homed, the phase `position` places back round the cycle.
pub proof fn sweep_runs_through(m: MotorModel, limit: nat)
    requires
        m.wf(),
        limit >= 5 * m.position + 2,
    ensures
        m.sweep((m.position + 1) as u16).0.carried_out(m.sweep((m.position + 1) as u16).1, limit) == (
            MotorModel { phase_index: ((m.phase_index + 5 * m.position) % 6) as nat, ..m.homed() },
            sweep_requests(m.phase_index as int, m.position),
        ),
    decreases m.position,
{
    let pause = Action::Delay { micros: SETTLE_MICROS };
    let (begun, first) = m.sweep((m.position + 1) as u16);
    let run = begun.carried_out(first, limit);
    if m.position == 0 {
        let (homed, done) = begun.resume(Event::Delayed);
        assert(homed == m.homed() && done == Action::Done(Ok(())));
        assert(homed.carried_out(done, (limit - 1) as nat) == (homed, seq![done]));
        assert(run == (homed, seq![first] + seq![done]));
        assert(run.1 =~= sweep_requests(m.phase_index as int, 0));
    } else {
        let kind = StepKind::Homing { remaining: m.position as u16 };
        let settled = m.moved(false).doing(Activity::Settling { remaining: m.position as u16 });
        commit_runs_through(m, false, kind, limit);
        assert(m.complete_step(false, kind) == (settled, pause));
        let (rest_begun, rest_first) = settled.sweep(m.position as u16);
        assert(settled.resume(Event::Delayed) == (rest_begun, rest_first));
        let rest = rest_begun.carried_out(rest_first, (limit - 5) as nat);
        sweep_runs_through(settled, (limit - 5) as nat);
        assert(settled.carried_out(pause, (limit - 4) as nat) == (rest.0, seq![pause] + rest.1));
        assert(run.0 == rest.0);
        assert(run.1 =~= commit_requests(prev_phase(m.phase_index as int)).push(pause) + rest.1);
    }
}

/// Filtering a sequence with one more element at its end.
proof fn filter_of_push(requests: Seq<Action>, last: Action, keep: spec_fn(Action) -> bool)
    ensures
        requests.push(last).filter(keep) == if keep(last) {
            requests.filter(keep).push(last)
        } else {
            requests.filter(keep)
        },
{
    reveal(Seq::filter);
    assert(requests.push(last).drop_last() =~= requests);
}

/// One step of a sweep asks for four lines and one pause.
proof fn sweep_step_counted(phase: int)
    ensures
        pauses_in(commit_requests(phase).push(Action::Delay { micros: SETTLE_MICROS })) == 1,
        line_writes_in(commit_requests(phase).push(Action::Delay { micros: SETTLE_MICROS })) == 4,
{
    let pause = Action::Delay { micros: SETTLE_MICROS };
    let none = Seq::<Action>::empty();
    let a = Action::SetLine { line: 0, high: phase_level(phase, 0) };
    let b = Action::SetLine { line: 1, high: phase_level(phase, 1) };
    let c = Action::SetLine { line: 2, high: phase_level(phase, 2) };
    let d = Action::SetLine { line: 3, high: phase_level(phase, 3) };
    assert(commit_requests(phase) =~= none.push(a).push(b).push(c).push(d));
    let pauses = |action: Action| action is Delay;
    let writes = |action: Action| action is SetLine;
    assert(none.filter(pauses) =~= none && none.filter(writes) =~= none) by {
        reveal(Seq::filter);
    }
    filter_of_push(none, a, pauses);
    filter_of_push(none.push(a), b, pauses);
    filter_of_push(none.push(a).push(b), c, pauses);
    filter_of_push(none.push(a).push(b).push(c), d, pauses);
    filter_of_push(none.push(a).push(b).push(c).push(d), pause, pauses);
    filter_of_push(none, a, writes);
    filter_of_push(none.push(a), b, writes);
    filter_of_push(none.push(a).push(b), c, writes);
    filter_of_push(none.push(a).push(b).push(c), d, writes);
    filter_of_push(none.push(a).push(b).push(c).push(d), pause, writes);
}

/// The requests of a sweep, counted: from `position` steps out there are
/// `position` patterns of four lines each and `position + 1` pauses, every
/// pause is for `SETTLE_MICROS`, and the last request reports success.
pub proof fn sweep_requests_counted(phase: int, position: nat)
    ensures
        sweep_requests(phase, position).len() == 5 * position + 2,
        pauses_in(sweep_requests(phase, position)) == position + 1,
        line_writes_in(sweep_requests(phase, position)) == 4 * position,
        forall|i: int|
            0 <= i < sweep_requests(phase, position).len() && #[trigger] sweep_requests(
                phase,
                position,
            )[i] is Delay ==> sweep_requests(phase, position)[i] == (Action::Delay {
                micros: SETTLE_MICROS,
            }),
        sweep_requests(phase, position).last() == Action::Done(Ok(())),
    decreases position,
{
    let pause = Action::Delay { micros: SETTLE_MICROS };
    let pauses = |action: Action| action is Delay;
    let writes = |action: Action| action is SetLine;
    if position == 0 {
        let none = Seq::<Action>::empty();
        let done = Action::Done(Ok(()));
        assert(sweep_requests(phase, 0) =~= none.push(pause).push(done));
        assert(none.filter(pauses) =~= none && none.filter(writes) =~= none) by {
            reveal(Seq::filter);
        }
        filter_of_push(none, pause, pauses);
        filter_of_push(none.push(pause), done, pauses);
        filter_of_push(none, pause, writes);
        filter_of_push(none.push(pause), done, writes);
    } else {
        let head = commit_requests(prev_phase(phase)).push(pause);
        let tail = sweep_requests(prev_phase(phase), (position - 1) as nat);
        sweep_requests_counted(prev_phase(phase), (position - 1) as nat);
        sweep_step_counted(prev_phase(phase));
        Seq::filter_distributes_over_add(head, tail, pauses);
        Seq::filter_distributes_over_add(head, tail, writes);
        assert forall|i: int|
            0 <= i < (head + tail).len() && #[trigger] (head + tail)[i] is Delay implies (head + tail)[i]
            == pause by {
            if i >= head.len() {
                assert((head + tail)[i] == tail[i - head.len()]);
            }
        }
    }
}

/// Homing with every line written. Whatever the position was, the motor asks
/// for exactly the requests of a sweep from the far end: a pattern and a
/// pause for each position below the last, one more pause for the attempt
/// that is declined at home, as many pauses as the range has positions in
/// all, each for `SETTLE_MICROS`. It ends with position, target and velocity
/// at zero, stopped and idle.
pub proof fn homing_runs_through(m: MotorModel, limit: nat)
    requires
        m.wf(),
        m.idle(),
        limit >= 5 * m.travel_limit,
    ensures
        m.zero().0.carried_out(m.zero().1, limit) == (
            MotorModel {
                phase_index: ((m.phase_index + 5 * (m.travel_limit - 1)) % 6) as nat,
                ..m.homed()
            },
            sweep_requests(m.phase_index as int, (m.travel_limit - 1) as nat),
        ),
        m.zero().0.carried_out(m.zero().1, limit).0.position == 0,
        m.zero().0.carried_out(m.zero().1, limit).0.target_position == 0,
        m.zero().0.carried_out(m.zero().1, limit).0.velocity == 0,
        m.zero().0.carried_out(m.zero().1, limit).0.direction == Direction::Stopped,
        m.zero().0.carried_out(m.zero().1, limit).0.stopped,
        m.zero().0.carried_out(m.zero().1, limit).0.idle(),
        pauses_in(m.zero().0.carried_out(m.zero().1, limit).1) == m.travel_limit,
        line_writes_in(m.zero().0.carried_out(m.zero().1, limit).1) == 4 * (m.travel_limit - 1),
        m.zero().0.carried_out(m.zero().1, limit).1.last() == Action::Done(Ok(())),
{
    let far = m.placed_at((m.travel_limit - 1) as nat);
    sweep_runs_through(far, limit);
    sweep_requests_counted(m.phase_index as int, (m.travel_limit - 1) as nat);
}

/// A line that fails ends the operation at once with that failure. The
/// position and the phase stay as they were before the step, so a homing sweep
/// that fails is not taken to have reached home.
pub proof fn failed_write_ends_operation(m: MotorModel, reason: embedded_hal::digital::ErrorKind)
    requires
        m.wf(),
        m.activity is Committing,
    ensures
        m.resume(Event::Written(Err(reason))) == (
            m.doing(Activity::Idle),
            Action::Done(Err(Error::IoError(reason))),
        ),
        m.resume(Event::Written(Err(reason))).0.position == m.position,
        m.resume(Event::Written(Err(reason))).0.phase_index == m.phase_index,
{
}

/// A tick of paced motion away from the target when a step is due, with
/// every line written: the four lines of the neighbouring phase are asked
/// for, and then the motor is one step nearer the target, the clock is noted,
/// and the velocity is one more than before but no more than the steps that
/// are left, nor than the ramp goes. With no step left the motor is stopped.
pub proof fn tick_steps_towards_target(m: MotorModel, now: usize)
    requires
        m.wf(),
        m.idle(),
        m.position != m.target_position,
        m.headed().step_due(now),
    ensures
        m.advance(now).0.carried_out(m.advance(now).1, 5) == (
            m.headed().paced(m.target_ahead(), now),
            commit_requests(neighbour_phase(m.phase_index as int, m.target_ahead())).push(
                Action::Done(Ok(())),
            ),
        ),
        m.ticked(now) == m.headed().paced(m.target_ahead(), now),
        m.ticked(now).wf(),
        m.ticked(now).idle(),
        m.ticked(now).distance_to_target() == m.distance_to_target() - 1,
        m.ticked(now).velocity == least_of(
            m.headed().velocity + 1,
            m.ticked(now).distance_to_target(),
            MAX_VELOCITY as nat,
        ),
        m.ticked(now).last_step_time == now,
        m.ticked(now).position == m.target_position ==> m.ticked(now).stopped && m.ticked(
            now,
        ).direction == Direction::Stopped,
        m.ticked(now).position != m.target_position ==> m.ticked(now).direction
            == m.headed().direction && m.ticked(now).target_ahead() == m.target_ahead(),
{
    let underway = m.headed();
    let forward = m.target_ahead();
    commit_runs_through(underway, forward, StepKind::Paced { now }, 5);
    let (done, then) = underway.complete_step(forward, StepKind::Paced { now });
    assert(done.carried_out(then, 1) == (done, seq![then]));
    let (begun, first) = m.advance(now);
    let (end, requests) = begun.carried_out(first, 5);
    assert(requests =~= commit_requests(neighbour_phase(m.phase_index as int, forward)).push(
        Action::Done(Ok(())),
    ));
}

/// A tick of paced motion when no step is due asks for nothing and moves
/// nothing; at the target it puts the motor to rest.
pub proof fn tick_waits_or_rests(m: MotorModel, now: usize)
    requires
        m.wf(),
        m.idle(),
    ensures
        m.advance(now).0.position == m.position,
        m.advance(now).0.phase_index == m.phase_index,
        m.position == m.target_position ==> m.advance(now).1 == Action::Done(Ok(())) && m.advance(
            now,
        ).0.stopped && m.advance(now).0.velocity == 0 && m.advance(now).0.direction
            == Direction::Stopped,
        m.position != m.target_position && !m.headed().step_due(now) ==> m.advance(now) == (
            m.headed(),
            Action::Done(Ok(())),
        ),
{
}

/// Times that are well spaced stay so when the last of them is left out.
proof fn well_spaced_without_last(since: usize, times: Seq<usize>)
    requires
        times.len() > 0,
        well_spaced(since, times),
    ensures
        well_spaced(since, times.drop_last()),
{
    let earlier = times.drop_last();
    assert forall|i: int| 0 <= i < earlier.len() implies elapsed_between(
        if i == 0 {
            since
        } else {
            earlier[i - 1]
        },
        #[trigger] earlier[i],
    ) >= interval_at(0) by {
        assert(earlier[i] == times[i]);
        if i > 0 {
            assert(earlier[i - 1] == times[i - 1]);
        }
    }
}

/// The ramp goes up and comes down the same way. Take a motor with no
/// velocity, some steps from its target, and tick it at times that are each
/// the ramp's longest interval apart or more, no more often than there are
/// steps to go. Then every tick takes a step, and after `k` of them the
/// velocity is the smallest of `k`, the steps that are left, and the top of
/// the ramp: as many steps before arrival as after departure it is the same.
/// On the way the clock stands at the last tick and the motor stays turned
/// towards its target; on arrival it is stopped.
pub proof fn ramp_is_symmetric(m: MotorModel, times: Seq<usize>)
    requires
        m.wf(),
        m.idle(),
        m.velocity == 0,
        times.len() <= m.distance_to_target(),
        well_spaced(m.last_step_time, times),
    ensures
        m.ticked_through(times).wf(),
        m.ticked_through(times).idle(),
        m.ticked_through(times).target_position == m.target_position,
        m.ticked_through(times).distance_to_target() == m.distance_to_target() - times.len(),
        m.target_ahead() ==> m.ticked_through(times).position == m.position + times.len(),
        !m.target_ahead() ==> m.ticked_through(times).position == m.position - times.len(),
        m.ticked_through(times).velocity == least_of(
            times.len(),
            (m.distance_to_target() - times.len()) as nat,
            MAX_VELOCITY as nat,
        ),
        times.len() > 0 ==> m.ticked_through(times).last_step_time == times.last(),
        times.len() < m.distance_to_target() ==> m.ticked_through(times).headed().velocity
            == m.ticked_through(times).velocity && m.ticked_through(times).target_ahead()
            == m.target_ahead(),
        times.len() > 0 && times.len() == m.distance_to_target() ==> m.ticked_through(times).stopped
            && m.ticked_through(times).direction == Direction::Stopped,
    decreases times.len(),
{
    if times.len() > 0 {
        let earlier = times.drop_last();
        let now = times.last();
        let before = m.ticked_through(earlier);
        well_spaced_without_last(m.last_step_time, times);
        ramp_is_symmetric(m, earlier);
        interval_at_is_monotone(0, before.headed().velocity as int);
        assert(times[times.len() - 1] == now);
        if earlier.len() > 0 {
            assert(earlier.last() == times[times.len() - 2]);
        }
        tick_steps_towards_target(before, now);
    }
}

} // verus!
