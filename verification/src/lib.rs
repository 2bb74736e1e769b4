//! Sequencing and position bookkeeping for a stepper motor that is driven
//! through four output lines in a cycle of six phases.
//!
//! The library owns no hardware. A [`Motor`] answers each operation with an
//! [`Action`], the next thing its driver has to do: drive one line, or pause.
//! The driver reports the outcome as an [`Event`] to [`Motor::resume`] and gets
//! the next action, until the motor answers [`Action::Done`].
//!
//! - `phase`: the commutation cycle and its decoding into line levels.
//! - `ramp`: the acceleration ramp and the clock arithmetic of paced motion.
//! - `error`: the failure an operation can report.
//! - `model`: the motor as a mathematical state machine.
//! - `motor`: the same machine in executable form.
//! - `runs`: whole operations, carried out request by request.
//! - `laws`: what holds of single steps, homing and paced motion.

pub mod error;
pub mod laws;
pub mod model;
pub mod motor;
pub mod phase;
pub mod ramp;
pub mod runs;

pub use error::Error;
pub use model::{Action, Activity, Direction, Event, MotorModel, StepKind};
pub use motor::Motor;
