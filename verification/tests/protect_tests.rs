use magnus::error::{CallOutcome, JumpTag};
use magnus::{Qnil, Ruby};

#[test]
fn protected_completion_passes_through() {
    let mut rt = Ruby::new();
    let v = rt.into_value(7i64);
    let r = magnus::error::protect(&mut rt, || CallOutcome::Completed(v));
    assert_eq!(r.unwrap(), v);
    assert!(rt.pending_exception.is_none());
}

#[test]
fn protected_raise_is_captured_and_parked() {
    let mut rt = Ruby::new();
    // Some heap value standing for the raised exception.
    let exc = magnus::RArray::new(&mut rt).as_value();
    let r = magnus::error::protect(&mut rt, || CallOutcome::Raised(exc));
    let state = r.unwrap_err();
    // Before resolution the state reports an exception and the slot is set.
    assert!(state.is_exception());
    assert_eq!(rt.pending_exception, Some(exc));
    // Reading the exception out clears the slot.
    let read = state.into_exception(&mut rt);
    assert_eq!(read, exc);
    assert!(rt.pending_exception.is_none());
    // A later unrelated protected call succeeds with the slot still clear.
    let v = Qnil::new().as_value();
    let r = magnus::error::protect(&mut rt, || CallOutcome::Completed(v));
    assert!(r.is_ok());
    assert!(rt.pending_exception.is_none());
}

#[test]
fn non_local_jumps_are_not_exceptions() {
    let mut rt = Ruby::new();
    let r = magnus::error::protect(&mut rt, || CallOutcome::Jumped(JumpTag::Break));
    let state = r.unwrap_err();
    assert!(!state.is_exception());
    assert!(rt.pending_exception.is_none());
    assert_eq!(state.resume_tag(), JumpTag::Break);
}

#[test]
fn dismissing_a_state_still_clears_the_slot() {
    let mut rt = Ruby::new();
    let exc = magnus::RArray::new(&mut rt).as_value();
    let r = magnus::error::protect(&mut rt, || CallOutcome::Raised(exc));
    let state = r.unwrap_err();
    assert!(rt.pending_exception.is_some());
    state.dismiss(&mut rt);
    assert!(rt.pending_exception.is_none());
}

#[test]
fn into_exception_on_a_jump_reads_nil() {
    let mut rt = Ruby::new();
    let r = magnus::error::protect(&mut rt, || CallOutcome::Jumped(JumpTag::Retry));
    let state = r.unwrap_err();
    let read = state.into_exception(&mut rt);
    assert!(read.is_nil());
    assert!(rt.pending_exception.is_none());
}
