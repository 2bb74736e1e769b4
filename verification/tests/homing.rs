use embedded_hal::digital::ErrorKind;
use stepper_motor::model::SETTLE_MICROS;
use stepper_motor::{Action, Direction, Error, Event, Motor};

/// What the motor asked for, in order.
#[derive(Debug, Clone, Copy, PartialEq, Eq)]
enum Asked {
    Line(usize, bool),
    Pause(u32),
}

fn carry_out(
    motor: &mut Motor,
    first: Action,
    asked: &mut Vec<Asked>,
    fail_on_write: Option<usize>,
) -> Result<(), Error> {
    let mut action = first;
    let mut writes = 0usize;
    loop {
        match action {
            Action::SetLine { line, high } => {
                asked.push(Asked::Line(line, high));
                let outcome = if fail_on_write == Some(writes) {
                    Err(ErrorKind::Other)
                } else {
                    Ok(())
                };
                writes += 1;
                action = motor.resume(Event::Written(outcome));
            }
            Action::Delay { micros } => {
                asked.push(Asked::Pause(micros));
                action = motor.resume(Event::Delayed);
            }
            Action::Done(result) => return result,
        }
    }
}

fn pauses(asked: &[Asked]) -> Vec<u32> {
    let mut found = Vec::new();
    for item in asked {
        if let Asked::Pause(micros) = item {
            found.push(*micros);
        }
    }
    found
}

fn writes(asked: &[Asked]) -> usize {
    let mut found = 0;
    for item in asked {
        if let Asked::Line(_, _) = item {
            found += 1;
        }
    }
    found
}

fn assert_homed(motor: &Motor) {
    assert_eq!(motor.position(), 0);
    assert_eq!(motor.target_position(), 0);
    assert_eq!(motor.velocity(), 0);
    assert_eq!(motor.direction(), Direction::Stopped);
    assert!(motor.is_stopped());
    assert!(motor.is_idle());
}

#[test]
fn settle_interval_is_eight_hundred_microseconds() {
    assert_eq!(SETTLE_MICROS, 800);
}

#[test]
fn fresh_motor_of_two_hundred_homes_in_two_hundred_reverse_steps() {
    let mut motor = Motor::new(200);
    let mut asked = Vec::new();
    let first = motor.zero();
    assert_eq!(carry_out(&mut motor, first, &mut asked, None), Ok(()));
    assert_eq!(pauses(&asked), vec![800u32; 200]);
    assert_eq!(writes(&asked), 4 * 199);
    assert_eq!(asked.len(), 5 * 199 + 1);
    for step in 0..199 {
        for line in 0..4 {
            assert!(matches!(asked[5 * step + line], Asked::Line(l, _) if l == line));
        }
        assert_eq!(asked[5 * step + 4], Asked::Pause(800));
    }
    assert_eq!(asked[5 * 199], Asked::Pause(800));
    assert_homed(&motor);
    assert_eq!(motor.phase_index(), (0 + 5 * 199) % 6);
}

#[test]
fn homing_of_five_asks_for_each_phase_on_the_way_back() {
    let mut motor = Motor::new(5);
    let mut asked = Vec::new();
    let first = motor.zero();
    assert_eq!(carry_out(&mut motor, first, &mut asked, None), Ok(()));
    let expected = vec![
        Asked::Line(0, false),
        Asked::Line(1, false),
        Asked::Line(2, false),
        Asked::Line(3, true),
        Asked::Pause(800),
        Asked::Line(0, false),
        Asked::Line(1, true),
        Asked::Line(2, true),
        Asked::Line(3, true),
        Asked::Pause(800),
        Asked::Line(0, false),
        Asked::Line(1, true),
        Asked::Line(2, true),
        Asked::Line(3, false),
        Asked::Pause(800),
        Asked::Line(0, true),
        Asked::Line(1, true),
        Asked::Line(2, true),
        Asked::Line(3, false),
        Asked::Pause(800),
        Asked::Pause(800),
    ];
    assert_eq!(asked, expected);
    assert_homed(&motor);
    assert_eq!(motor.phase_index(), 2);
}

#[test]
fn homing_does_not_depend_on_where_the_motor_stood() {
    let mut motor = Motor::new(50);
    let mut asked = Vec::new();
    for _ in 0..17 {
        let first = motor.step_up();
        assert_eq!(carry_out(&mut motor, first, &mut asked, None), Ok(()));
    }
    motor.set_target(30);
    let phase = motor.phase_index();
    asked.clear();
    let first = motor.zero();
    assert_eq!(carry_out(&mut motor, first, &mut asked, None), Ok(()));
    assert_eq!(pauses(&asked), vec![800u32; 50]);
    assert_eq!(writes(&asked), 4 * 49);
    assert_homed(&motor);
    assert_eq!(motor.phase_index(), (phase + 5 * 49) % 6);
}

#[test]
fn homing_a_motor_with_one_position_only_pauses() {
    let mut motor = Motor::new(1);
    let mut asked = Vec::new();
    assert_eq!(motor.zero(), Action::Delay { micros: 800 });
    assert_eq!(motor.resume(Event::Delayed), Action::Done(Ok(())));
    let first = motor.zero();
    assert_eq!(carry_out(&mut motor, first, &mut asked, None), Ok(()));
    assert_eq!(asked, vec![Asked::Pause(800)]);
    assert_homed(&motor);
    assert_eq!(motor.phase_index(), 0);
}

#[test]
fn homing_stops_at_the_first_failed_line() {
    let mut motor = Motor::new(20);
    let mut asked = Vec::new();
    let first = motor.zero();
    let result = carry_out(&mut motor, first, &mut asked, Some(4 * 6 + 2));
    assert_eq!(result, Err(Error::IoError(ErrorKind::Other)));
    assert_eq!(pauses(&asked).len(), 6);
    assert_eq!(writes(&asked), 4 * 6 + 3);
    assert_eq!(motor.position(), 19 - 6);
    assert_eq!(motor.phase_index(), (5 * 6) % 6);
    assert!(motor.is_idle());
    assert!(!motor.is_stopped());
}

#[test]
fn homing_that_fails_at_once_leaves_the_far_end_assumed() {
    let mut motor = Motor::new(20);
    let mut asked = Vec::new();
    let first = motor.zero();
    let result = carry_out(&mut motor, first, &mut asked, Some(0));
    assert_eq!(result, Err(Error::IoError(ErrorKind::Other)));
    assert_eq!(asked, vec![Asked::Line(0, false)]);
    assert_eq!(motor.position(), 19);
    assert_eq!(motor.phase_index(), 0);
}

#[test]
fn homing_waits_for_the_pause_before_the_next_step() {
    let mut motor = Motor::new(3);
    assert_eq!(motor.zero(), Action::SetLine { line: 0, high: false });
    assert_eq!(motor.position(), 2);
    assert_eq!(motor.resume(Event::Written(Ok(()))), Action::SetLine { line: 1, high: false });
    assert_eq!(motor.resume(Event::Written(Ok(()))), Action::SetLine { line: 2, high: false });
    assert_eq!(motor.resume(Event::Written(Ok(()))), Action::SetLine { line: 3, high: true });
    assert_eq!(motor.resume(Event::Written(Ok(()))), Action::Delay { micros: 800 });
    assert_eq!(motor.position(), 1);
    assert_eq!(motor.resume(Event::Written(Ok(()))), Action::Delay { micros: 800 });
    assert_eq!(motor.step_up(), Action::Delay { micros: 800 });
    assert_eq!(motor.position(), 1);
    assert_eq!(motor.resume(Event::Delayed), Action::SetLine { line: 0, high: false });
}
