use embedded_hal::digital::ErrorKind;
use stepper_motor::{Action, Direction, Error, Event, Motor};

/// Carries out a request and those that follow; returns the number of lines
/// driven and the result.
fn carry_out(motor: &mut Motor, first: Action, fail_on_write: Option<usize>) -> (usize, Result<(), Error>) {
    let mut action = first;
    let mut writes = 0usize;
    loop {
        match action {
            Action::SetLine { .. } => {
                let outcome = if fail_on_write == Some(writes) {
                    Err(ErrorKind::Other)
                } else {
                    Ok(())
                };
                writes += 1;
                action = motor.resume(Event::Written(outcome));
            }
            Action::Delay { .. } => {
                action = motor.resume(Event::Delayed);
            }
            Action::Done(result) => return (writes, result),
        }
    }
}

fn tick(motor: &mut Motor, now: usize) -> usize {
    let first = motor.advance(now);
    let (writes, result) = carry_out(motor, first, None);
    assert_eq!(result, Ok(()));
    writes
}

fn walk_to(motor: &mut Motor, position: u16) {
    while motor.position() < position {
        let first = motor.step_up();
        assert_eq!(carry_out(motor, first, None), (4, Ok(())));
    }
}

#[test]
fn set_target_keeps_the_target_inside_the_range() {
    let mut motor = Motor::new(100);
    motor.set_target(40);
    assert_eq!(motor.target_position(), 40);
    assert!(!motor.is_stopped());
    motor.set_target(99);
    assert_eq!(motor.target_position(), 99);
    motor.set_target(100);
    assert_eq!(motor.target_position(), 99);
    motor.set_target(u16::MAX);
    assert_eq!(motor.target_position(), 99);
    motor.set_target(0);
    assert_eq!(motor.target_position(), 0);
    assert!(motor.is_stopped());
}

#[test]
fn advance_at_the_target_rests_and_asks_for_nothing() {
    let mut motor = Motor::new(100);
    assert_eq!(motor.advance(123), Action::Done(Ok(())));
    assert_eq!(motor.position(), 0);
    assert!(motor.is_stopped());
    assert_eq!(motor.direction(), Direction::Stopped);
    assert_eq!(motor.velocity(), 0);
}

#[test]
fn advance_waits_for_the_first_interval() {
    let mut motor = Motor::new(100);
    assert_eq!(tick(&mut motor, 1000), 0);
    motor.set_target(10);
    assert_eq!(tick(&mut motor, 1000), 0);
    assert_eq!(motor.direction(), Direction::Forward);
    assert!(!motor.is_stopped());
    assert_eq!(tick(&mut motor, 3999), 0);
    assert_eq!(motor.position(), 0);
    assert_eq!(tick(&mut motor, 4000), 4);
    assert_eq!(motor.position(), 1);
    assert_eq!(motor.phase_index(), 1);
    assert_eq!(motor.velocity(), 1);
    assert_eq!(tick(&mut motor, 6999), 0);
    assert_eq!(tick(&mut motor, 7000), 4);
    assert_eq!(motor.position(), 2);
    assert_eq!(motor.velocity(), 2);
}

#[test]
fn advance_takes_at_most_one_step_per_call() {
    let mut motor = Motor::new(100);
    motor.set_target(50);
    assert_eq!(tick(&mut motor, 1_000_000), 4);
    assert_eq!(motor.position(), 1);
    assert_eq!(tick(&mut motor, 1_000_000), 0);
    assert_eq!(motor.position(), 1);
}

#[test]
fn velocity_climbs_and_comes_down_the_same_way() {
    let mut motor = Motor::new(100);
    motor.set_target(10);
    let mut now = 0usize;
    let mut seen = Vec::new();
    for _ in 0..10 {
        now += 3000;
        assert_eq!(tick(&mut motor, now), 4);
        seen.push(motor.velocity());
    }
    assert_eq!(seen, vec![1, 2, 3, 4, 5, 4, 3, 2, 1, 0]);
    assert_eq!(motor.position(), 10);
    assert!(motor.is_stopped());
    assert_eq!(motor.direction(), Direction::Stopped);
    now += 3000;
    assert_eq!(tick(&mut motor, now), 0);
    assert_eq!(motor.position(), 10);
}

#[test]
fn intervals_shorten_along_the_ramp() {
    let mut motor = Motor::new(2000);
    motor.set_target(1999);
    let mut now = 0usize;
    let mut steps = 0u16;
    while steps < 400 {
        let velocity = motor.velocity();
        let interval: usize = if velocity >= 300 {
            600
        } else if velocity >= 150 {
            800
        } else if velocity >= 100 {
            1000
        } else if velocity >= 50 {
            1500
        } else {
            3000
        };
        assert_eq!(tick(&mut motor, now + interval - 1), 0);
        now += interval;
        assert_eq!(tick(&mut motor, now), 4);
        steps += 1;
        assert_eq!(motor.position(), steps);
        assert_eq!(motor.velocity(), if steps < 300 { steps } else { 300 });
    }
}

#[test]
fn advance_runs_backwards_to_a_target_behind() {
    let mut motor = Motor::new(100);
    walk_to(&mut motor, 6);
    assert_eq!(motor.phase_index(), 0);
    motor.set_target(3);
    let mut now = 0usize;
    for expected in [5u16, 4, 3] {
        now += 3000;
        assert_eq!(tick(&mut motor, now), 4);
        assert_eq!(motor.position(), expected);
    }
    assert_eq!(motor.phase_index(), 3);
    assert!(motor.is_stopped());
    assert_eq!(motor.direction(), Direction::Stopped);
    assert_eq!(motor.velocity(), 0);
}

#[test]
fn turning_round_starts_the_ramp_again() {
    let mut motor = Motor::new(1000);
    motor.set_target(900);
    let mut now = 0usize;
    for _ in 0..60 {
        now += 3000;
        assert_eq!(tick(&mut motor, now), 4);
    }
    assert_eq!(motor.velocity(), 60);
    assert_eq!(motor.direction(), Direction::Forward);
    motor.set_target(0);
    assert_eq!(tick(&mut motor, now + 1500), 0);
    assert_eq!(motor.direction(), Direction::Reverse);
    assert_eq!(motor.velocity(), 0);
    assert_eq!(motor.position(), 60);
    assert_eq!(tick(&mut motor, now + 3000), 4);
    assert_eq!(motor.position(), 59);
    assert_eq!(motor.velocity(), 1);
}

#[test]
fn target_moved_onto_the_position_stops_the_motor() {
    let mut motor = Motor::new(1000);
    motor.set_target(900);
    let mut now = 0usize;
    for _ in 0..20 {
        now += 3000;
        assert_eq!(tick(&mut motor, now), 4);
    }
    motor.set_target(20);
    assert_eq!(motor.velocity(), 20);
    assert!(!motor.is_stopped());
    assert_eq!(tick(&mut motor, now + 3000), 0);
    assert_eq!(motor.position(), 20);
    assert_eq!(motor.velocity(), 0);
    assert!(motor.is_stopped());
    assert_eq!(motor.direction(), Direction::Stopped);
}

#[test]
fn advance_paces_across_a_clock_that_wraps() {
    let mut motor = Motor::new(100);
    assert_eq!(tick(&mut motor, usize::MAX - 999), 0);
    motor.set_target(5);
    assert_eq!(tick(&mut motor, usize::MAX), 0);
    assert_eq!(tick(&mut motor, 1999), 0);
    assert_eq!(motor.position(), 0);
    assert_eq!(tick(&mut motor, 2000), 4);
    assert_eq!(motor.position(), 1);
}

#[test]
fn paced_step_that_fails_is_reported_and_not_counted() {
    let mut motor = Motor::new(100);
    motor.set_target(10);
    let first = motor.advance(5000);
    assert_eq!(first, Action::SetLine { line: 0, high: true });
    assert_eq!(carry_out(&mut motor, first, Some(3)), (4, Err(Error::IoError(ErrorKind::Other))));
    assert_eq!(motor.position(), 0);
    assert_eq!(motor.phase_index(), 0);
    assert_eq!(motor.velocity(), 0);
    assert!(motor.is_idle());
    assert_eq!(tick(&mut motor, 5000), 4);
    assert_eq!(motor.position(), 1);
}
