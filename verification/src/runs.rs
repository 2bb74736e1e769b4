//! Whole operations: what the motor asks for, and where it ends up, when the
//! driver carries out one request after another.

use crate::model::{Action, Event, MotorModel, SETTLE_MICROS};
use crate::phase::{phase_level, prev_phase};
use crate::ramp::{elapsed_between, interval_at};
use vstd::prelude::*;

verus! {

impl MotorModel {
    /// The report that answers `action` when the driver succeeds at it.
    pub open spec fn success_of(action: Action) -> Event {
        if action is SetLine {
            Event::Written(Ok(()))
        } else {
            Event::Delayed
        }
    }

    /// Where the motor ends up, and the requests it makes on the way, when the
    /// driver carries out `action` and every request that follows, always with
    /// success, until the operation is done or `limit` requests have been made.
    pub open spec fn carried_out(self, action: Action, limit: nat) -> (MotorModel, Seq<Action>)
        decreases limit,
    {
        if limit == 0 {
            (self, Seq::empty())
        } else if action is Done {
            (self, seq![action])
        } else {
            let (next, then) = self.resume(Self::success_of(action));
            let (end, rest) = next.carried_out(then, (limit - 1) as nat);
            (end, seq![action] + rest)
        }
    }

    /// The motor after a single step in the given sense, carried out with success.
    pub open spec fn performed_step(self, forward: bool) -> MotorModel {
        let (begun, first) = self.step(forward);
        begun.carried_out(first, 5).0
    }

    /// The motor after a tick of paced motion at `now`, carried out with success.
    pub open spec fn ticked(self, now: usize) -> MotorModel {
        let (begun, first) = self.advance(now);
        begun.carried_out(first, 5).0
    }

    /// The motor after a tick at each of `times` in turn, each carried out
    /// with success.
    pub open spec fn ticked_through(self, times: Seq<usize>) -> MotorModel
        decreases times.len(),
    {
        if times.len() == 0 {
            self
        } else {
            self.ticked_through(times.drop_last()).ticked(times.last())
        }
    }

    /// The motor after single steps in each of `senses` in turn, forwards
    /// where the sense is true, each carried out with success or declined.
    pub open spec fn stepped_through(self, senses: Seq<bool>) -> MotorModel
        decreases senses.len(),
    {
        if senses.len() == 0 {
            self
        } else {
            self.stepped_through(senses.drop_last()).performed_step(senses.last())
        }
    }

    /// The motor after `count` single steps in the given sense, each carried
    /// out with success.
    pub open spec fn stepped_by(self, forward: bool, count: nat) -> MotorModel
        decreases count,
    {
        if count == 0 {
            self
        } else {
            self.stepped_by(forward, (count - 1) as nat).performed_step(forward)
        }
    }
}

/// Whether each of `times` comes at least the ramp's longest interval after
/// the one before it, the first of them after `since`.
pub open spec fn well_spaced(since: usize, times: Seq<usize>) -> bool {
    forall|i: int|
        0 <= i < times.len() ==> elapsed_between(
            if i == 0 {
                since
            } else {
                times[i - 1]
            },
            #[trigger] times[i],
        ) >= interval_at(0)
}

/// The four requests that write the pattern of phase `phase`, line 0 first.
pub open spec fn commit_requests(phase: int) -> Seq<Action> {
    seq![
        Action::SetLine { line: 0, high: phase_level(phase, 0) },
        Action::SetLine { line: 1, high: phase_level(phase, 1) },
        Action::SetLine { line: 2, high: phase_level(phase, 2) },
        Action::SetLine { line: 3, high: phase_level(phase, 3) },
    ]
}

/// The requests of a homing sweep that starts `position` steps from home at
/// phase `phase`: for each position down to home the pattern of the phase
/// before and a pause, then the pause of the last attempt, which is declined,
/// and the report of success.
pub open spec fn sweep_requests(phase: int, position: nat) -> Seq<Action>
    decreases position,
{
    if position == 0 {
        seq![Action::Delay { micros: SETTLE_MICROS }, Action::Done(Ok(()))]
    } else {
        commit_requests(prev_phase(phase)).push(Action::Delay { micros: SETTLE_MICROS })
            + sweep_requests(prev_phase(phase), (position - 1) as nat)
    }
}

/// How many of `requests` ask for a pause.
pub open spec fn pauses_in(requests: Seq<Action>) -> nat {
    requests.filter(|action: Action| action is Delay).len()
}

/// How many of `requests` ask for a line to be driven.
pub open spec fn line_writes_in(requests: Seq<Action>) -> nat {
    requests.filter(|action: Action| action is SetLine).len()
}

} // verus!
