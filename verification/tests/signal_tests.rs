use yt_dl_service::signal::{RunSignal, StopSignal, StopState};

#[test]
fn run_signal_starts_empty() {
    let mut signal = RunSignal::new();
    assert!(!signal.is_pending());
    assert!(!signal.take());
}

#[test]
fn run_signal_keeps_one_post() {
    let mut signal = RunSignal::new();
    assert!(signal.post());
    assert!(signal.is_pending());
    assert!(signal.take());
    assert!(!signal.is_pending());
    assert!(!signal.take());
}

#[test]
fn run_signal_drops_posts_while_one_is_pending() {
    let mut signal = RunSignal::new();
    assert!(signal.post());
    assert!(!signal.post());
    assert!(!signal.post());
    assert!(signal.take());
    assert!(!signal.take());
    assert!(signal.post());
    assert!(signal.take());
}

#[test]
fn stop_signal_is_raised_once() {
    let mut signal = StopSignal::new();
    assert_eq!(signal.state(), StopState::Idle);
    assert!(signal.raise());
    assert_eq!(signal.state(), StopState::Raised);
    assert!(!signal.raise());
    assert_eq!(signal.state(), StopState::Raised);
}

#[test]
fn stop_signal_is_taken_once() {
    let mut signal = StopSignal::new();
    assert!(!signal.take());
    assert_eq!(signal.state(), StopState::Idle);
    assert!(signal.raise());
    assert!(signal.take());
    assert_eq!(signal.state(), StopState::Taken);
    assert!(!signal.take());
    assert!(!signal.raise());
    assert!(!signal.take());
    assert_eq!(signal.state(), StopState::Taken);
}
