//! The motor as a mathematical state machine: its state, the requests it
//! makes of the driver, the reports it takes back, and its transitions.

use crate::error::Error;
use crate::phase::{neighbour_phase, phase_level};
use crate::ramp::{elapsed_between, interval_at, MAX_VELOCITY};
use embedded_hal::digital::ErrorKind;
use vstd::prelude::*;

verus! {

/// How long, in microseconds, the motor is left to settle after each step of
/// the homing sweep.
pub const SETTLE_MICROS: u32 = 800;

/// The sense of the motion that is commanded.
#[derive(Debug, Clone, Copy, PartialEq, Eq, Structural)]
pub enum Direction {
    /// No motion is under way.
    Stopped,
    /// Towards higher positions.
    Forward,
    /// Towards position 0.
    Reverse,
}

/// What a step that is being committed belongs to.
#[derive(Debug, Clone, Copy, PartialEq, Eq)]
pub enum StepKind {
    /// A single step asked for directly.
    Manual,
    /// A step of a paced motion, issued at time `now`.
    Paced { now: usize },
    /// A step of the homing sweep, with `remaining` more to attempt after it.
    Homing { remaining: u16 },
}

/// What the motor is in the middle of.
#[derive(Debug, Clone, Copy, PartialEq, Eq)]
pub enum Activity {
    /// Nothing: the last operation has finished.
    Idle,
    /// The pattern of the neighbouring phase is being written, and the lines
    /// below `line` already carry it.
    Committing { forward: bool, line: usize, kind: StepKind },
    /// The homing sweep waits for the motor to settle, with `remaining` more
    /// steps to attempt.
    Settling { remaining: u16 },
}

/// What the driver has to do next on behalf of the motor.
#[derive(Debug, Clone, Copy, PartialEq, Eq)]
pub enum Action {
    /// Drive output line `line` high or low, then report how that went.
    SetLine { line: usize, high: bool },
    /// Block for `micros` microseconds, then report back.
    Delay { micros: u32 },
    /// Nothing more: the operation has ended with this result.
    Done(Result<(), Error>),
}

impl Action {
    /// Whether the request is one a driver of four lines can carry out: a
    /// line below four, or a pause of the settle interval.
    pub open spec fn in_range(self) -> bool {
        match self {
            Action::SetLine { line, high } => line < 4,
            Action::Delay { micros } => micros == SETTLE_MICROS,
            Action::Done(result) => true,
        }
    }
}

/// What the driver reports after carrying out an action.
#[derive(Debug, Clone, Copy, PartialEq, Eq)]
pub enum Event {
    /// The outcome of driving the line that was asked for.
    Written(Result<(), ErrorKind>),
    /// The delay that was asked for has passed.
    Delayed,
}

/// The state of a motor.
pub struct MotorModel {
    /// Number of addressable positions; positions run from 0 below this.
    pub travel_limit: nat,
    /// Where the lines stand in the commutation cycle.
    pub phase_index: nat,
    /// Steps from the home position.
    pub position: nat,
    /// Where a paced motion is headed.
    pub target_position: nat,
    /// The sense of the commanded motion.
    pub direction: Direction,
    /// How far up the ramp a paced motion has come.
    pub velocity: nat,
    /// Whether nothing is commanded or under way.
    pub stopped: bool,
    /// The time that paced steps are spaced from.
    pub last_step_time: usize,
    /// What the motor is in the middle of.
    pub activity: Activity,
}

/// The smallest of three numbers.
pub open spec fn least_of(a: nat, b: nat, c: nat) -> nat {
    if a <= b && a <= c {
        a
    } else if b <= c {
        b
    } else {
        c
    }
}

impl MotorModel {
    /// A motor as it is built: at home, at the first phase, at rest.
    pub open spec fn initial(travel_limit: nat) -> MotorModel {
        MotorModel {
            travel_limit,
            phase_index: 0,
            position: 0,
            target_position: 0,
            direction: Direction::Stopped,
            velocity: 0,
            stopped: true,
            last_step_time: 0,
            activity: Activity::Idle,
        }
    }

    /// Whether a step in the given sense stays inside the travel range.
    pub open spec fn can_step(self, forward: bool) -> bool {
        if forward {
            self.position + 1 < self.travel_limit
        } else {
            self.position > 0
        }
    }

    /// Whether the motor is where it should be and not moving.
    pub open spec fn at_rest(self) -> bool {
        self.position == self.target_position && self.velocity == 0
    }

    /// Whether no operation is under way.
    pub open spec fn idle(self) -> bool {
        self.activity == Activity::Idle
    }

    /// The invariant of a motor's state.
    pub open spec fn wf(self) -> bool {
        &&& 0 < self.travel_limit <= u16::MAX
        &&& self.phase_index < 6
        &&& self.position < self.travel_limit
        &&& self.target_position < self.travel_limit
        &&& self.velocity <= MAX_VELOCITY
        &&& self.stopped == self.at_rest()
        &&& (self.direction == Direction::Stopped ==> self.velocity == 0)
        &&& match self.activity {
            Activity::Idle => true,
            Activity::Committing { forward, line, kind } => {
                &&& line < 4
                &&& self.can_step(forward)
                &&& (kind is Homing ==> !forward)
                &&& (kind is Paced ==> self.direction != Direction::Stopped)
            },
            Activity::Settling { .. } => true,
        }
    }

    /// How many steps lie between the position and the target.
    pub open spec fn distance_to_target(self) -> nat {
        if self.position <= self.target_position {
            (self.target_position - self.position) as nat
        } else {
            (self.position - self.target_position) as nat
        }
    }

    /// The request that is outstanding: the line to drive next or the delay to
    /// take; when idle, the report that nothing is left to do.
    pub open spec fn pending_action(self) -> Action {
        match self.activity {
            Activity::Idle => Action::Done(Ok(())),
            Activity::Committing { forward, line, kind } => Action::SetLine {
                line,
                high: phase_level(neighbour_phase(self.phase_index as int, forward), line as int),
            },
            Activity::Settling { remaining } => Action::Delay { micros: SETTLE_MICROS },
        }
    }

    /// The same motor doing `activity`.
    pub open spec fn doing(self, activity: Activity) -> MotorModel {
        MotorModel { activity, ..self }
    }

    /// The same motor at `position`.
    pub open spec fn placed_at(self, position: nat) -> MotorModel {
        MotorModel {
            position,
            stopped: position == self.target_position && self.velocity == 0,
            ..self
        }
    }

    /// The motor one step further in the given sense: the position and the
    /// phase move together.
    pub open spec fn moved(self, forward: bool) -> MotorModel {
        let position = if forward {
            self.position + 1
        } else {
            (self.position - 1) as nat
        };
        MotorModel {
            phase_index: neighbour_phase(self.phase_index as int, forward) as nat,
            ..self.placed_at(position)
        }
    }

    /// The motor after a paced step issued at `now`: one step further, with
    /// the ramp climbed by one but held to the distance left, so that it comes
    /// down on arrival as it went up on departure.
    pub open spec fn paced(self, forward: bool, now: usize) -> MotorModel {
        let there = self.moved(forward);
        let left = there.distance_to_target();
        MotorModel {
            velocity: least_of(self.velocity + 1, left, MAX_VELOCITY as nat),
            stopped: left == 0,
            direction: if left == 0 {
                Direction::Stopped
            } else {
                self.direction
            },
            last_step_time: now,
            ..there
        }
    }

    /// The motor with everything at zero, as a finished homing sweep leaves it.
    pub open spec fn homed(self) -> MotorModel {
        MotorModel {
            position: 0,
            target_position: 0,
            velocity: 0,
            direction: Direction::Stopped,
            stopped: true,
            activity: Activity::Idle,
            ..self
        }
    }

    /// Starts committing a step in the given sense: asks for line 0.
    pub open spec fn begin_step(self, forward: bool, kind: StepKind) -> (MotorModel, Action) {
        let next = self.doing(Activity::Committing { forward, line: 0, kind });
        (next, next.pending_action())
    }

    /// What becomes of a step once its last line is written.
    pub open spec fn complete_step(self, forward: bool, kind: StepKind) -> (MotorModel, Action) {
        match kind {
            StepKind::Manual => (self.moved(forward).doing(Activity::Idle), Action::Done(Ok(()))),
            StepKind::Paced { now } => (
                self.paced(forward, now).doing(Activity::Idle),
                Action::Done(Ok(())),
            ),
            StepKind::Homing { remaining } => (
                self.moved(forward).doing(Activity::Settling { remaining }),
                Action::Delay { micros: SETTLE_MICROS },
            ),
        }
    }

    /// A single step in the given sense. Declined without any change at the
    /// end of the range; refused while another operation is under way, whose
    /// outstanding request is then repeated.
    pub open spec fn step(self, forward: bool) -> (MotorModel, Action) {
        if self.idle() && self.can_step(forward) {
            self.begin_step(forward, StepKind::Manual)
        } else {
            (self, self.pending_action())
        }
    }

    /// The homing sweep with `remaining` reverse steps still to attempt: the
    /// next attempt, which at position 0 is declined and only waited out, or
    /// the end of the sweep.
    pub open spec fn sweep(self, remaining: u16) -> (MotorModel, Action) {
        if remaining == 0 {
            (self.homed(), Action::Done(Ok(())))
        } else if self.position == 0 {
            (
                self.doing(Activity::Settling { remaining: (remaining - 1) as u16 }),
                Action::Delay { micros: SETTLE_MICROS },
            )
        } else {
            self.begin_step(false, StepKind::Homing { remaining: (remaining - 1) as u16 })
        }
    }

    /// Homing: the position is taken to be the far end, and as many reverse
    /// steps as the range has positions are attempted.
    pub open spec fn zero(self) -> (MotorModel, Action) {
        if self.idle() {
            self.placed_at((self.travel_limit - 1) as nat).sweep(self.travel_limit as u16)
        } else {
            (self, self.pending_action())
        }
    }

    /// Whether the target lies ahead of the position.
    pub open spec fn target_ahead(self) -> bool {
        self.position < self.target_position
    }

    /// The motor turned towards its target. Turning round puts the velocity
    /// back to zero, so that the ramp starts over.
    pub open spec fn headed(self) -> MotorModel {
        let heading = if self.target_ahead() {
            Direction::Forward
        } else {
            Direction::Reverse
        };
        MotorModel {
            direction: heading,
            velocity: if self.direction == heading {
                self.velocity
            } else {
                0
            },
            ..self
        }
    }

    /// Whether the ramp's interval has passed at `now` since the clock was
    /// last noted.
    pub open spec fn step_due(self, now: usize) -> bool {
        elapsed_between(self.last_step_time, now) >= interval_at(self.velocity as int)
    }

    /// One tick of paced motion at time `now`. At the target the motor is put
    /// to rest and the clock is noted. Away from it the motor is turned
    /// towards the target and, if a step is due, one step is begun.
    pub open spec fn advance(self, now: usize) -> (MotorModel, Action) {
        if !self.idle() {
            (self, self.pending_action())
        } else if self.position == self.target_position {
            (
                MotorModel {
                    velocity: 0,
                    stopped: true,
                    direction: Direction::Stopped,
                    last_step_time: now,
                    ..self
                },
                Action::Done(Ok(())),
            )
        } else if self.headed().step_due(now) {
            self.headed().begin_step(self.target_ahead(), StepKind::Paced { now })
        } else {
            (self.headed(), Action::Done(Ok(())))
        }
    }

    /// The next state and request once the driver reports `event`. A report
    /// that the motor was not waiting for changes nothing and has the
    /// outstanding request repeated.
    pub open spec fn resume(self, event: Event) -> (MotorModel, Action) {
        match (self.activity, event) {
            (Activity::Committing { forward, line, kind }, Event::Written(Ok(_))) => {
                if line + 1 < 4 {
                    let next = self.doing(
                        Activity::Committing { forward, line: (line + 1) as usize, kind },
                    );
                    (next, next.pending_action())
                } else {
                    self.complete_step(forward, kind)
                }
            },
            (Activity::Committing { forward, line, kind }, Event::Written(Err(reason))) => (
                self.doing(Activity::Idle),
                Action::Done(Err(Error::IoError(reason))),
            ),
            (Activity::Settling { remaining }, Event::Delayed) => self.sweep(remaining),
            _ => (self, self.pending_action()),
        }
    }

    /// The motor with a new target, held to the last position of the range.
    pub open spec fn retargeted(self, target: nat) -> MotorModel {
        let target_position = if target < self.travel_limit {
            target
        } else {
            (self.travel_limit - 1) as nat
        };
        MotorModel {
            target_position,
            stopped: self.position == target_position && self.velocity == 0,
            ..self
        }
    }
}

} // verus!
