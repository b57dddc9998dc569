use asr_debugger::liveness::MAX_LOCK_ATTEMPTS;
use asr_debugger::liveness::resolve_swap;

#[test]
fn stalled_module_is_interrupted_exactly_once_within_the_bound() {
    let outcomes = vec![false; 200];
    let r = resolve_swap(&outcomes);
    assert!(!r.acquired);
    assert_eq!(r.attempts, MAX_LOCK_ATTEMPTS);
    assert!(r.interrupted);
}

#[test]
fn a_released_lock_is_acquired_without_interrupt() {
    let mut outcomes = vec![false; 100];
    outcomes[5] = true;
    let r = resolve_swap(&outcomes);
    assert!(r.acquired);
    assert_eq!(r.attempts, 6);
    assert!(!r.interrupted);
}

#[test]
fn a_lock_released_on_the_first_try_takes_one_attempt() {
    let mut outcomes = vec![false; 100];
    outcomes[0] = true;
    let r = resolve_swap(&outcomes);
    assert!(r.acquired);
    assert_eq!(r.attempts, 1);
    assert!(!r.interrupted);
}

#[test]
fn a_release_after_the_window_is_too_late() {
    let mut outcomes = vec![false; 150];
    outcomes[120] = true;
    let r = resolve_swap(&outcomes);
    assert!(!r.acquired);
    assert_eq!(r.attempts, MAX_LOCK_ATTEMPTS);
    assert!(r.interrupted);
}
