use spin_sync::once::{COMPLETE, INCOMPLETE};
use spin_sync::Once;

#[test]
fn once_test() {
    let mut once = Once::new();
    let mut hellos = Vec::new();
    once.call_once(|| hellos.push("hello , I only hello once"));
    once.call_once(|| hellos.push("hello , I only hello once"));
    assert_eq!(vec!["hello , I only hello once"], hellos);
    assert!(once.is_completed());
}

#[test]
fn once_runs_exactly_once_for_many_callers() {
    let mut once = Once::new();
    let mut counter = 0;
    for _ in 0..8 {
        once.call_once(|| counter += 1);
    }
    assert_eq!(1, counter);
    assert!(once.is_completed());
}

#[test]
fn once_fresh_gate_is_incomplete() {
    let once = Once::new();
    assert!(!once.is_completed());
    assert!(!once.is_poisoned());
    assert_eq!(Err(INCOMPLETE), once.poll());
}

#[test]
fn once_poll_after_completion() {
    let mut once = Once::new();
    once.call_once(|| ());
    assert_eq!(Ok(()), once.poll());
    assert_ne!(COMPLETE, INCOMPLETE);
}

#[test]
fn once_failed_run_poisons() {
    let mut once = Once::new();
    let r: Result<(), &str> = once.call(|| Err("boom"));
    assert_eq!(Err("boom"), r);
    assert!(once.is_poisoned());
    assert!(!once.is_completed());
}

#[test]
fn once_call_skips_completed_gate() {
    let mut once = Once::new();
    let mut runs = 0;
    let first: Result<(), ()> = once.call(|| {
        runs += 1;
        Ok(())
    });
    assert_eq!(Ok(()), first);
    let second: Result<(), ()> = once.call(|| {
        runs += 1;
        Err(())
    });
    assert_eq!(Ok(()), second);
    assert_eq!(1, runs);
    assert!(once.is_completed());
    assert!(!once.is_poisoned());
}
