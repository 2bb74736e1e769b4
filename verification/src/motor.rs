//! The motor: the state machine in executable form.

use crate::error::Error;
use crate::model::{Action, Activity, Direction, Event, MotorModel, StepKind, SETTLE_MICROS};
use crate::phase::{line_level, phase_after, phase_before, phase_pattern, LINE_COUNT};
use crate::ramp::{elapsed, step_interval, MAX_VELOCITY};
use vstd::prelude::*;

verus! {

/// A stepper motor: where it stands, where it is headed, and what it is in the
/// middle of. It owns no hardware. Each operation answers with the next thing
/// the driver has to do, and `resume` takes the driver's report and answers
/// with the one after, until it answers `Action::Done`.
pub struct Motor {
    travel_limit: u16,
    phase_index: usize,
    position: u16,
    target_position: u16,
    direction: Direction,
    velocity: u16,
    stopped: bool,
    last_step_time: usize,
    activity: Activity,
}

impl View for Motor {
    type V = MotorModel;

    closed spec fn view(&self) -> MotorModel {
        MotorModel {
            travel_limit: self.travel_limit as nat,
            phase_index: self.phase_index as nat,
            position: self.position as nat,
            target_position: self.target_position as nat,
            direction: self.direction,
            velocity: self.velocity as nat,
            stopped: self.stopped,
            last_step_time: self.last_step_time,
            activity: self.activity,
        }
    }
}

impl Motor {
    /// Every motor is in a well-formed state.
    #[verifier::type_invariant]
    spec fn inv(self) -> bool {
        self@.wf()
    }

    /// A motor with `travel_limit` positions, at home and at rest.
    pub fn new(travel_limit: u16) -> (motor: Motor)
        requires
            travel_limit > 0,
        ensures
            motor@ == MotorModel::initial(travel_limit as nat),
            motor@.wf(),
    {
        Motor {
            travel_limit,
            phase_index: 0,
            position: 0,
            target_position: 0,
            direction: Direction::Stopped,
            velocity: 0,
            stopped: true,
            last_step_time: 0,
            activity: Activity::Idle,
        }
    }

    /// The request that is outstanding.
    fn pending(&self) -> (action: Action)
        ensures
            action == self@.pending_action(),
    {
        proof {
            use_type_invariant(self);
        }
        match self.activity {
            Activity::Idle => Action::Done(Ok(())),
            Activity::Committing { forward, line, kind } => {
                let heading: usize = if forward {
                    phase_after(self.phase_index)
                } else {
                    phase_before(self.phase_index)
                };
                Action::SetLine { line, high: line_level(phase_pattern(heading), line) }
            },
            Activity::Settling { remaining } => Action::Delay { micros: SETTLE_MICROS },
        }
    }

    /// Starts committing a step and asks for its first line.
    fn begin_step(&mut self, forward: bool, kind: StepKind) -> (action: Action)
        requires
            old(self)@.can_step(forward),
            kind is Homing ==> !forward,
            kind is Paced ==> old(self)@.direction != Direction::Stopped,
        ensures
            (final(self)@, action) == old(self)@.begin_step(forward, kind),
    {
        proof {
            use_type_invariant(&*self);
        }
        self.activity = Activity::Committing { forward, line: 0, kind };
        self.pending()
    }

    /// Moves the bookkeeping one step in the given sense and goes on to `activity`.
    fn move_one(&mut self, forward: bool, activity: Activity)
        requires
            old(self)@.can_step(forward),
            !(activity is Committing),
        ensures
            final(self)@ == old(self)@.moved(forward).doing(activity),
    {
        proof {
            use_type_invariant(&*self);
        }
        let position: u16 = if forward {
            self.position + 1
        } else {
            self.position - 1
        };
        let phase_index: usize = if forward {
            phase_after(self.phase_index)
        } else {
            phase_before(self.phase_index)
        };
        *self = Motor {
            position,
            phase_index,
            stopped: position == self.target_position && self.velocity == 0,
            activity,
            ..*self
        };
    }

    /// A single step forwards. Away from the last position it asks for the
    /// first line of the next phase; the position and the phase move on once
    /// `resume` has seen all four lines written. At the last position it is
    /// declined: nothing changes and nothing is asked for. While another
    /// operation is under way, that operation's request is repeated instead.
    pub fn step_up(&mut self) -> (action: Action)
        ensures
            (final(self)@, action) == old(self)@.step(true),
            final(self)@.wf(),
            action.in_range(),
            final(self)@.position < final(self)@.travel_limit,
            old(self)@.position + 1 == old(self)@.travel_limit ==> final(self)@ == old(self)@,
            old(self)@.idle() && old(self)@.position + 1 == old(self)@.travel_limit ==> action
                == Action::Done(Ok(())),
            final(self)@.position == old(self)@.position,
            final(self)@.phase_index == old(self)@.phase_index,
    {
        self.step(true)
    }

    /// A single step backwards. Away from position 0 it asks for the first
    /// line of the previous phase; the position and the phase move back once
    /// `resume` has seen all four lines written. At position 0 it is declined:
    /// nothing changes and nothing is asked for. While another operation is
    /// under way, that operation's request is repeated instead.
    pub fn step_down(&mut self) -> (action: Action)
        ensures
            (final(self)@, action) == old(self)@.step(false),
            final(self)@.wf(),
            action.in_range(),
            final(self)@.position < final(self)@.travel_limit,
            old(self)@.position == 0 ==> final(self)@ == old(self)@,
            old(self)@.idle() && old(self)@.position == 0 ==> action == Action::Done(Ok(())),
            final(self)@.position == old(self)@.position,
            final(self)@.phase_index == old(self)@.phase_index,
    {
        self.step(false)
    }

    /// A single step in the given sense.
    fn step(&mut self, forward: bool) -> (action: Action)
        ensures
            (final(self)@, action) == old(self)@.step(forward),
            final(self)@.wf(),
    {
        proof {
            use_type_invariant(&*self);
        }
        let idle = match self.activity {
            Activity::Idle => true,
            _ => false,
        };
        let in_range = if forward {
            self.position < self.travel_limit - 1
        } else {
            self.position > 0
        };
        let action = if idle && in_range {
            self.begin_step(forward, StepKind::Manual)
        } else {
            self.pending()
        };
        proof {
            use_type_invariant(&*self);
        }
        action
    }

    /// Moves the bookkeeping by one paced step issued at `now` and ends the step.
    fn pace(&mut self, forward: bool, now: usize)
        requires
            old(self)@.can_step(forward),
            old(self)@.direction != Direction::Stopped,
        ensures
            final(self)@ == old(self)@.paced(forward, now).doing(Activity::Idle),
    {
        proof {
            use_type_invariant(&*self);
        }
        let position: u16 = if forward {
            self.position + 1
        } else {
            self.position - 1
        };
        let phase_index: usize = if forward {
            phase_after(self.phase_index)
        } else {
            phase_before(self.phase_index)
        };
        let left: u16 = if position <= self.target_position {
            self.target_position - position
        } else {
            position - self.target_position
        };
        let mut velocity: u16 = self.velocity + 1;
        if left < velocity {
            velocity = left;
        }
        if MAX_VELOCITY < velocity {
            velocity = MAX_VELOCITY;
        }
        let direction = if left == 0 {
            Direction::Stopped
        } else {
            self.direction
        };
        *self = Motor {
            position,
            phase_index,
            velocity,
            stopped: left == 0,
            direction,
            last_step_time: now,
            activity: Activity::Idle,
            ..*self
        };
    }

    /// Ends a step whose last line is written.
    fn complete_step(&mut self, forward: bool, kind: StepKind) -> (action: Action)
        requires
            old(self)@.can_step(forward),
            kind is Paced ==> old(self)@.direction != Direction::Stopped,
        ensures
            (final(self)@, action) == old(self)@.complete_step(forward, kind),
    {
        match kind {
            StepKind::Manual => {
                self.move_one(forward, Activity::Idle);
                Action::Done(Ok(()))
            },
            StepKind::Paced { now } => {
                self.pace(forward, now);
                Action::Done(Ok(()))
            },
            StepKind::Homing { remaining } => {
                self.move_one(forward, Activity::Settling { remaining });
                Action::Delay { micros: SETTLE_MICROS }
            },
        }
    }

    /// Goes on with the homing sweep.
    fn sweep(&mut self, remaining: u16) -> (action: Action)
        ensures
            (final(self)@, action) == old(self)@.sweep(remaining),
    {
        proof {
            use_type_invariant(&*self);
        }
        if remaining == 0 {
            *self = Motor {
                position: 0,
                target_position: 0,
                velocity: 0,
                direction: Direction::Stopped,
                stopped: true,
                activity: Activity::Idle,
                ..*self
            };
            Action::Done(Ok(()))
        } else if self.position == 0 {
            self.activity = Activity::Settling { remaining: remaining - 1 };
            Action::Delay { micros: SETTLE_MICROS }
        } else {
            self.begin_step(false, StepKind::Homing { remaining: remaining - 1 })
        }
    }

    /// Homing. The motor is taken to stand at the far end of its range and is
    /// driven backwards by as many steps as the range has positions, each
    /// followed by a pause of `SETTLE_MICROS`; the last of them is declined at
    /// position 0 and only the pause is taken. When the sweep has run through,
    /// position, target and velocity are zero and the direction is stopped. A
    /// line that fails ends the sweep there, with the position at the last
    /// step that was committed.
    pub fn zero(&mut self) -> (action: Action)
        ensures
            (final(self)@, action) == old(self)@.zero(),
            final(self)@.wf(),
            action.in_range(),
    {
        proof {
            use_type_invariant(&*self);
        }
        let action = match self.activity {
            Activity::Idle => {
                let position: u16 = self.travel_limit - 1;
                let attempts: u16 = self.travel_limit;
                *self = Motor {
                    position,
                    stopped: position == self.target_position && self.velocity == 0,
                    ..*self
                };
                self.sweep(attempts)
            },
            _ => self.pending(),
        };
        proof {
            use_type_invariant(&*self);
        }
        action
    }

    /// One tick of paced motion at time `now`. At the target the motor is put
    /// to rest and the clock is noted. Away from it the direction is set
    /// towards the target, the ramp starting over if that turns the motor
    /// round, and one step is begun if the ramp's interval has passed since
    /// the clock was last noted.
    pub fn advance(&mut self, now: usize) -> (action: Action)
        ensures
            (final(self)@, action) == old(self)@.advance(now),
            final(self)@.wf(),
            action.in_range(),
    {
        proof {
            use_type_invariant(&*self);
        }
        let idle = match self.activity {
            Activity::Idle => true,
            _ => false,
        };
        let action = if !idle {
            self.pending()
        } else if self.position == self.target_position {
            *self = Motor {
                velocity: 0,
                stopped: true,
                direction: Direction::Stopped,
                last_step_time: now,
                ..*self
            };
            Action::Done(Ok(()))
        } else {
            let forward = self.position < self.target_position;
            let heading = if forward {
                Direction::Forward
            } else {
                Direction::Reverse
            };
            let velocity: u16 = if self.direction == heading {
                self.velocity
            } else {
                0
            };
            let due = elapsed(self.last_step_time, now) >= step_interval(velocity) as usize;
            *self = Motor { direction: heading, velocity, ..*self };
            if due {
                self.begin_step(forward, StepKind::Paced { now })
            } else {
                Action::Done(Ok(()))
            }
        };
        proof {
            use_type_invariant(&*self);
        }
        action
    }

    /// Takes the driver's report on the last request and answers with the
    /// next one.
    pub fn resume(&mut self, event: Event) -> (action: Action)
        ensures
            (final(self)@, action) == old(self)@.resume(event),
            final(self)@.wf(),
            action.in_range(),
    {
        proof {
            use_type_invariant(&*self);
        }
        let action = match self.activity {
            Activity::Committing { forward, line, kind } => match event {
                Event::Written(Ok(_)) => {
                    if line + 1 < LINE_COUNT {
                        self.activity = Activity::Committing { forward, line: line + 1, kind };
                        self.pending()
                    } else {
                        self.complete_step(forward, kind)
                    }
                },
                Event::Written(Err(reason)) => {
                    self.activity = Activity::Idle;
                    Action::Done(Err(Error::from(reason)))
                },
                Event::Delayed => self.pending(),
            },
            Activity::Settling { remaining } => match event {
                Event::Delayed => self.sweep(remaining),
                Event::Written(_) => self.pending(),
            },
            Activity::Idle => self.pending(),
        };
        proof {
            use_type_invariant(&*self);
        }
        action
    }

    /// Sets where paced motion is headed. A target beyond the range is held
    /// to its last position.
    pub fn set_target(&mut self, target: u16)
        ensures
            final(self)@ == old(self)@.retargeted(target as nat),
            final(self)@.wf(),
    {
        proof {
            use_type_invariant(&*self);
        }
        let target_position: u16 = if target < self.travel_limit {
            target
        } else {
            self.travel_limit - 1
        };
        *self = Motor {
            target_position,
            stopped: self.position == target_position && self.velocity == 0,
            ..*self
        };
    }

    /// Number of positions in the travel range.
    pub fn travel_limit(&self) -> (limit: u16)
        ensures
            limit == self@.travel_limit,
            limit > 0,
    {
        proof {
            use_type_invariant(self);
        }
        self.travel_limit
    }

    /// Steps from the home position; always below the travel limit.
    pub fn position(&self) -> (position: u16)
        ensures
            position == self@.position,
            position < self@.travel_limit,
    {
        proof {
            use_type_invariant(self);
        }
        self.position
    }

    /// Where paced motion is headed; always below the travel limit.
    pub fn target_position(&self) -> (target: u16)
        ensures
            target == self@.target_position,
            target < self@.travel_limit,
    {
        proof {
            use_type_invariant(self);
        }
        self.target_position
    }

    /// Where the lines stand in the commutation cycle.
    pub fn phase_index(&self) -> (index: usize)
        ensures
            index == self@.phase_index,
            index < 6,
    {
        proof {
            use_type_invariant(self);
        }
        self.phase_index
    }

    /// The sense of the commanded motion.
    pub fn direction(&self) -> (direction: Direction)
        ensures
            direction == self@.direction,
    {
        self.direction
    }

    /// How far up the ramp a paced motion has come.
    pub fn velocity(&self) -> (velocity: u16)
        ensures
            velocity == self@.velocity,
            velocity <= MAX_VELOCITY,
    {
        proof {
            use_type_invariant(self);
        }
        self.velocity
    }

    /// Whether the motor is at its target with no velocity.
    pub fn is_stopped(&self) -> (stopped: bool)
        ensures
            stopped == self@.stopped,
            stopped == self@.at_rest(),
    {
        proof {
            use_type_invariant(self);
        }
        self.stopped
    }

    /// Whether no operation is under way.
    pub fn is_idle(&self) -> (idle: bool)
        ensures
            idle == self@.idle(),
    {
        match self.activity {
            Activity::Idle => true,
            _ => false,
        }
    }
}

} // verus!
