use mousequake::controller::{Command, Controller, Decision, Event, Phase, Quaker, CHECK_MS};
use mousequake::trajectory::{LinearTrajectory, SquareTrajectory};

#[test]
fn test_controller_first_decision_moves() {
    let mut ctl = Controller::new(10_000);
    assert_eq!(ctl.step(Event::Begin, false), Decision::Move);
}

#[test]
fn test_controller_cancellation_is_prompt() {
    // With a long interval, the controller waits in half-second slices and
    // stops at the very next decision point once the flag is set: it never
    // asks to wait out the rest of the interval.
    let mut ctl = Controller::new(600_000);
    assert_eq!(ctl.step(Event::Begin, false), Decision::Move);
    assert_eq!(ctl.step(Event::MovedOk, false), Decision::Sleep(CHECK_MS));
    assert_eq!(ctl.step(Event::Slept, false), Decision::Sleep(CHECK_MS));
    // The flag is set during the wait; one slice later the run is over.
    assert_eq!(ctl.step(Event::Slept, true), Decision::ExitOk);
    assert_eq!(ctl.phase, Phase::Stopped { ok: true });
    // Every later decision repeats the success exit.
    assert_eq!(ctl.step(Event::Slept, true), Decision::ExitOk);
}

#[test]
fn test_controller_cancelled_before_first_move() {
    let mut ctl = Controller::new(10_000);
    assert_eq!(ctl.step(Event::Begin, true), Decision::ExitOk);
}

#[test]
fn test_controller_error_propagation() {
    // A failure reported for a move ends the run at once with a failure
    // exit, and no further move is ever requested.
    let mut ctl = Controller::new(1_000);
    assert_eq!(ctl.step(Event::Begin, false), Decision::Move);
    assert_eq!(ctl.step(Event::MoveFailed, false), Decision::ExitErr);
    assert_eq!(ctl.phase, Phase::Stopped { ok: false });
    for event in [Event::MovedOk, Event::Slept, Event::Begin] {
        assert_eq!(ctl.step(event, false), Decision::ExitErr);
        assert_eq!(ctl.step(event, true), Decision::ExitErr);
    }
}

#[test]
fn test_controller_failure_beats_cancellation() {
    // If a failure and the flag arrive together, the failure is surfaced.
    let mut ctl = Controller::new(1_000);
    assert_eq!(ctl.step(Event::Begin, false), Decision::Move);
    assert_eq!(ctl.step(Event::MoveFailed, true), Decision::ExitErr);
}

#[test]
fn test_controller_sleep_slices() {
    // An interval of 1.2 seconds takes three half-second slices.
    let mut ctl = Controller::new(1_200);
    assert_eq!(ctl.step(Event::Begin, false), Decision::Move);
    assert_eq!(ctl.step(Event::MovedOk, false), Decision::Sleep(500));
    assert_eq!(ctl.step(Event::Slept, false), Decision::Sleep(500));
    assert_eq!(ctl.step(Event::Slept, false), Decision::Sleep(500));
    assert_eq!(ctl.step(Event::Slept, false), Decision::Move);
}

#[test]
fn test_controller_zero_interval() {
    // A zero interval never sleeps: each tick follows the previous one.
    let mut ctl = Controller::new(0);
    assert_eq!(ctl.step(Event::Begin, false), Decision::Move);
    assert_eq!(ctl.step(Event::MovedOk, false), Decision::Move);
    assert_eq!(ctl.step(Event::MovedOk, false), Decision::Move);
}

#[test]
fn test_quaker_emits_trajectory_displacements() {
    let mut quaker = Quaker::new(LinearTrajectory::new(10), 1_000);
    match quaker.step(Event::Begin, false) {
        Command::Move(p) => {
            assert_eq!(p.x, 5_000_000);
            assert_eq!(p.y, 0);
        }
        other => panic!("expected a move, got {:?}", other),
    }
    assert_eq!(quaker.step(Event::MovedOk, false), Command::Sleep(500));
    assert_eq!(quaker.step(Event::Slept, false), Command::Sleep(500));
    match quaker.step(Event::Slept, false) {
        Command::Move(p) => {
            assert_eq!(p.x, -5_000_000);
            assert_eq!(p.y, 0);
        }
        other => panic!("expected a move, got {:?}", other),
    }
}

#[test]
fn test_quaker_square_run() {
    // A full square period through the driver, with the exact edges in
    // order, then a clean exit on cancellation.
    let mut quaker = Quaker::new(SquareTrajectory::new(10), 0);
    let expected = [(-10, 0), (0, -10), (10, 0), (0, 10)];
    for (dx, dy) in expected {
        match quaker.step(Event::MovedOk, false) {
            Command::Move(p) => assert_eq!(p.to_pixels(), (dx, dy)),
            other => panic!("expected a move, got {:?}", other),
        }
    }
    assert_eq!(quaker.step(Event::MovedOk, true), Command::ExitOk);
}

#[test]
fn test_quaker_failure_surfaces() {
    let mut quaker = Quaker::new(LinearTrajectory::new(10), 1_000);
    assert!(matches!(quaker.step(Event::Begin, false), Command::Move(_)));
    assert_eq!(quaker.step(Event::MoveFailed, false), Command::ExitErr);
    assert_eq!(quaker.step(Event::Slept, false), Command::ExitErr);
}
