use chokidar::debounce::Debouncer;
use chokidar::errors::WatchError;
use chokidar::event_loop::{step, LoopAction, LoopEvent, Phase};

#[test]
fn new_debouncer_is_idle() {
    let mut d = Debouncer::new(400);
    assert_eq!(d.window(), 400);
    assert!(!d.is_pending());
    assert_eq!(d.wait(0), None);
    assert!(!d.is_due(1_000_000));
    assert!(!d.poll(1_000_000));
}

#[test]
fn three_changes_ten_millis_apart_run_once() {
    let mut d = Debouncer::new(100);
    let mut runs = 0;
    for now in [1000u64, 1010, 1020] {
        if d.notify(now) {
            runs += 1;
        }
    }
    assert_eq!(runs, 0);
    assert!(d.is_pending());
    assert_eq!(d.wait(1020), Some(100));
    assert!(!d.poll(1119));
    assert!(d.is_pending());
    assert_eq!(d.wait(1119), Some(1));
    assert!(d.poll(1120));
    runs += 1;
    assert!(!d.is_pending());
    assert!(!d.poll(5000));
    assert_eq!(runs, 1);
}

#[test]
fn calls_a_window_apart_run_each_time() {
    let mut d = Debouncer::new(100);
    let mut runs = 0;
    for now in [0u64, 100, 250, 350] {
        if d.notify(now) {
            runs += 1;
        }
    }
    assert_eq!(runs, 3);
    assert!(!d.poll(449));
    assert!(d.poll(450));
    runs += 1;
    assert_eq!(runs, 4);
}

#[test]
fn zero_window_fires_on_every_call() {
    let mut d = Debouncer::new(0);
    assert!(!d.notify(5));
    assert_eq!(d.wait(5), Some(0));
    assert!(d.poll(5));
    assert!(!d.notify(5));
    assert!(d.notify(5));
    assert!(d.notify(9));
    assert!(d.poll(9));
    assert!(!d.is_pending());
}

#[test]
fn a_call_inside_the_window_replaces_the_pending_one() {
    let mut d = Debouncer::new(50);
    assert!(!d.notify(10));
    assert!(!d.notify(59));
    assert!(!d.poll(60));
    assert!(!d.poll(108));
    assert!(d.poll(109));
}

#[test]
fn wait_counts_down_and_saturates() {
    let mut d = Debouncer::new(100);
    d.notify(1000);
    assert_eq!(d.wait(1000), Some(100));
    assert_eq!(d.wait(1040), Some(60));
    assert_eq!(d.wait(1100), Some(0));
    assert_eq!(d.wait(9999), Some(0));
    assert_eq!(d.wait(990), Some(110));
    let mut late = Debouncer::new(u64::MAX);
    late.notify(10);
    assert_eq!(late.wait(0), Some(u64::MAX));
    assert_eq!(late.wait(10), Some(u64::MAX));
    assert_eq!(late.wait(11), Some(u64::MAX - 1));
    assert!(!late.is_due(u64::MAX));
}

#[test]
fn a_clock_that_went_back_is_never_due() {
    let mut d = Debouncer::new(0);
    d.notify(100);
    assert!(!d.is_due(99));
    assert!(d.is_due(100));
}

#[test]
fn startup_with_initial_run() {
    assert_eq!(
        step(Phase::Starting, LoopEvent::Ready, true),
        (Phase::Watching, LoopAction::RunThenAnnounce)
    );
    assert_eq!(
        step(Phase::Starting, LoopEvent::Ready, false),
        (Phase::Watching, LoopAction::Announce)
    );
}

#[test]
fn startup_failure_terminates() {
    for e in [WatchError::InvalidPattern, WatchError::PathResolution, WatchError::WatchRegistration] {
        assert_eq!(
            step(Phase::Starting, LoopEvent::StartupFailed(e), true),
            (Phase::Terminated, LoopAction::Exit)
        );
    }
}

#[test]
fn watching_handles_changes_and_errors_without_leaving() {
    assert_eq!(step(Phase::Watching, LoopEvent::Change, false), (Phase::Watching, LoopAction::Notify));
    assert_eq!(
        step(Phase::Watching, LoopEvent::StreamError, false),
        (Phase::Watching, LoopAction::Report)
    );
    assert_eq!(step(Phase::Watching, LoopEvent::Ready, true), (Phase::Watching, LoopAction::Ignore));
    assert_eq!(
        step(Phase::Watching, LoopEvent::StartupFailed(WatchError::PathResolution), true),
        (Phase::Watching, LoopAction::Ignore)
    );
}

#[test]
fn events_out_of_phase_are_ignored() {
    assert_eq!(step(Phase::Starting, LoopEvent::Change, true), (Phase::Starting, LoopAction::Ignore));
    assert_eq!(
        step(Phase::Starting, LoopEvent::StreamError, true),
        (Phase::Starting, LoopAction::Ignore)
    );
    for event in [LoopEvent::Ready, LoopEvent::Change, LoopEvent::StreamError] {
        assert_eq!(step(Phase::Terminated, event, true), (Phase::Terminated, LoopAction::Ignore));
    }
}

#[test]
fn polling_inside_a_burst_changes_nothing() {
    let mut d = Debouncer::new(100);
    let mut runs = 0;
    for now in [1000u64, 1010, 1020] {
        if d.poll(now) {
            runs += 1;
        }
        if d.notify(now) {
            runs += 1;
        }
        if d.poll(now + 5) {
            runs += 1;
        }
    }
    assert_eq!(runs, 0);
    assert!(!d.poll(1119));
    assert!(d.poll(1120));
    assert!(!d.poll(1121));
    assert!(!d.is_pending());
}

#[test]
fn polling_between_spaced_calls_delivers_each_once() {
    let mut d = Debouncer::new(100);
    let mut runs = 0;
    for now in [0u64, 100, 250, 350] {
        if d.notify(now) {
            runs += 1;
        }
        for later in [now + 50, now + 99, now + 100] {
            if d.poll(later) {
                runs += 1;
            }
        }
    }
    assert_eq!(runs, 4);
    assert!(!d.is_pending());
}
