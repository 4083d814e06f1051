use n_body::watchdog::{SimulationWatchdog, WatchdogAlert};

#[test]
fn new_watchdog_is_running_at_frame_zero() {
    let w = SimulationWatchdog::new();
    assert!(w.is_running());
    assert_eq!(w.last_frame(), 0);
}

#[test]
fn heartbeat_records_frame() {
    let mut w = SimulationWatchdog::new();
    w.heartbeat(42);
    assert_eq!(w.last_frame(), 42);
    w.heartbeat(43);
    assert_eq!(w.last_frame(), 43);
}

#[test]
fn stop_clears_running_flag() {
    let mut w = SimulationWatchdog::new();
    w.stop();
    assert!(!w.is_running());
}

#[test]
fn progressing_counter_raises_nothing() {
    let mut w = SimulationWatchdog::new();
    for t in 1..20u64 {
        w.heartbeat(t);
        assert_eq!(w.sample(t, 10), WatchdogAlert::Quiet);
    }
}

#[test]
fn stall_escalates_from_warning_to_error() {
    let mut w = SimulationWatchdog::new();
    w.heartbeat(7);
    // First sample notes the new frame, second opens the stall window at t=2.
    assert_eq!(w.sample(1, 10), WatchdogAlert::Quiet);
    assert_eq!(w.sample(2, 10), WatchdogAlert::Quiet);
    assert_eq!(w.sample(6, 10), WatchdogAlert::Quiet);
    assert_eq!(w.sample(7, 10), WatchdogAlert::Stalled { seconds: 5, frame: 7 });
    assert_eq!(w.sample(11, 10), WatchdogAlert::Stalled { seconds: 9, frame: 7 });
    assert_eq!(w.sample(12, 10), WatchdogAlert::Hung { seconds: 10, frame: 7, reminder: false });
    assert_eq!(w.sample(32, 10), WatchdogAlert::Hung { seconds: 30, frame: 7, reminder: true });
}

#[test]
fn alert_fires_once_timeout_has_passed_since_last_heartbeat() {
    let mut w = SimulationWatchdog::new();
    w.heartbeat(3);
    let mut strongest = WatchdogAlert::Quiet;
    for t in 1..=12u64 {
        let a = w.sample(t, 10);
        if a != WatchdogAlert::Quiet {
            strongest = a;
        }
    }
    assert!(matches!(strongest, WatchdogAlert::Stalled { .. } | WatchdogAlert::Hung { .. }));
}

#[test]
fn recovery_is_reported_once() {
    let mut w = SimulationWatchdog::new();
    w.heartbeat(5);
    w.sample(1, 10);
    w.sample(2, 10);
    w.sample(9, 10);
    w.heartbeat(6);
    assert_eq!(w.sample(10, 10), WatchdogAlert::Recovered { seconds: 8 });
    let mut recoveries = 0;
    for t in 11..60u64 {
        if matches!(w.sample(t, 10), WatchdogAlert::Recovered { .. }) {
            recoveries += 1;
        }
    }
    assert_eq!(recoveries, 0);
}

#[test]
fn short_stall_recovers_silently() {
    let mut w = SimulationWatchdog::new();
    w.heartbeat(5);
    w.sample(1, 10);
    w.sample(2, 10);
    w.heartbeat(6);
    assert_eq!(w.sample(5, 10), WatchdogAlert::Quiet);
}
