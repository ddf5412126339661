use std::cell::Cell;

use magnus::error::{CallOutcome, Error, ErrorKind};
use magnus::method::{
    handle_call_outcome, Completion, HostOutcome, Init, Method0, Method1, Method2, MethodCAry,
    MethodRbAry,
};
use magnus::{Qnil, Qtrue, Ruby, Value};

#[test]
fn zero_arity_call_converts_self_and_result() {
    let mut rt = Ruby::new();
    let m = Method0::new(|s: i64| s + 1);
    let rb_self = rt.into_value(41i64);
    match m.call_handle_error(&mut rt, rb_self) {
        Completion::Return(v) => {
            assert_eq!(<i64 as magnus::TryConvert>::try_convert(&rt, v).unwrap(), 42)
        },
        Completion::Raise(_) => panic!("expected a return"),
    }
}

#[test]
fn two_arity_call_converts_left_to_right() {
    let mut rt = Ruby::new();
    let m = Method2::new(|_s: Value, a: i64, b: i64| a * 10 + b);
    let rb_self = Qnil::new().as_value();
    let a = rt.into_value(3i64);
    let b = rt.into_value(4i64);
    match m.call_handle_error(&mut rt, rb_self, a, b) {
        Completion::Return(v) => {
            assert_eq!(<i64 as magnus::TryConvert>::try_convert(&rt, v).unwrap(), 34)
        },
        Completion::Raise(_) => panic!("expected a return"),
    }
}

#[test]
fn failing_first_argument_is_fail_fast() {
    let mut rt = Ruby::new();
    let called = Cell::new(false);
    let m = Method2::new(|_s: Value, a: i64, _b: bool| {
        called.set(true);
        a
    });
    let rb_self = Qnil::new().as_value();
    // The first argument cannot convert to an integer; the second would.
    let bad = Qtrue::new().as_value();
    let fine = Qtrue::new().as_value();
    match m.call_handle_error(&mut rt, rb_self, bad, fine) {
        Completion::Raise(e) => {
            // The error names the first argument's expected type.
            assert_eq!(e.kind(), Some(ErrorKind::TypeError));
            assert_eq!(e.message(), "no implicit conversion of TrueClass into Integer");
        },
        Completion::Return(_) => panic!("expected a raise"),
    }
    // The host function was never invoked.
    assert!(!called.get());
}

#[test]
fn failing_second_argument_reports_its_own_error() {
    let mut rt = Ruby::new();
    let called = Cell::new(false);
    let m = Method2::new(|_s: Value, _a: bool, b: i64| {
        called.set(true);
        b
    });
    let rb_self = Qnil::new().as_value();
    let fine = Qtrue::new().as_value();
    let bad = Qnil::new().as_value();
    match m.call_handle_error(&mut rt, rb_self, fine, bad) {
        Completion::Raise(e) => {
            assert_eq!(e.message(), "no implicit conversion of NilClass into Integer");
        },
        Completion::Return(_) => panic!("expected a raise"),
    }
    assert!(!called.get());
}

#[test]
fn host_error_results_become_raises() {
    let mut rt = Ruby::new();
    let m = Method1::new(|_s: Value, a: i64| -> Result<i64, Error> {
        if a < 0 {
            Err(Error::range_error("negative input"))
        } else {
            Ok(a)
        }
    });
    let rb_self = Qnil::new().as_value();
    let neg = rt.into_value(-5i64);
    match m.call_handle_error(&mut rt, rb_self, neg) {
        Completion::Raise(e) => {
            assert_eq!(e.kind(), Some(ErrorKind::RangeError));
            assert_eq!(e.message(), "negative input");
        },
        Completion::Return(_) => panic!("expected a raise"),
    }
}

#[test]
fn panic_firewall_yields_a_bug_class_raise() {
    let mut rt = Ruby::new();
    // The boundary caught a panic; the payload crosses as a bug-class raise,
    // distinct from every user-input error.
    let outcome = HostOutcome::Panicked(String::from("panic in native call"));
    match handle_call_outcome(outcome) {
        Completion::Raise(e) => {
            assert_eq!(e.kind(), Some(ErrorKind::Bug));
            assert_eq!(e.message(), "panic in native call");
        },
        Completion::Return(_) => panic!("expected a raise"),
    }
    // The runtime was never touched: a later protected call still succeeds
    // with a clear pending-exception slot.
    let v = Qnil::new().as_value();
    let r = magnus::error::protect(&mut rt, || CallOutcome::Completed(v));
    assert!(r.is_ok());
    assert!(rt.pending_exception.is_none());
}

#[test]
fn completed_outcomes_pass_the_firewall_unchanged() {
    let mut rt = Ruby::new();
    let v = rt.into_value(1i64);
    match handle_call_outcome(HostOutcome::Completed(Ok(v))) {
        Completion::Return(out) => assert_eq!(out, v),
        Completion::Raise(_) => panic!("expected a return"),
    }
    match handle_call_outcome(HostOutcome::Completed(Err(Error::type_error("no")))) {
        Completion::Raise(e) => assert_eq!(e.kind(), Some(ErrorKind::TypeError)),
        Completion::Return(_) => panic!("expected a raise"),
    }
}

#[test]
fn init_adapter_returns_nil_or_raises() {
    let m = Init::new(|| ());
    match m.call_handle_error() {
        Completion::Return(v) => assert!(v.is_nil()),
        Completion::Raise(_) => panic!("expected a return"),
    }
    let m = Init::new(|| -> Result<(), Error> { Err(Error::type_error("boom")) });
    match m.call_handle_error() {
        Completion::Raise(e) => assert_eq!(e.message(), "boom"),
        Completion::Return(_) => panic!("expected a raise"),
    }
}

#[test]
fn array_argument_adapter_converts_the_array() {
    let mut rt = Ruby::new();
    let m = MethodRbAry::new(|_s: Value, args: Value| args);
    let rb_self = Qnil::new().as_value();
    let one = rt.into_value(1i64);
    let ary = magnus::RArray::from_slice(&mut rt, &[one]).as_value();
    match m.call_handle_error(&mut rt, rb_self, ary) {
        Completion::Return(v) => assert_eq!(v, ary),
        Completion::Raise(_) => panic!("expected a return"),
    }
}

#[test]
fn slice_argument_adapter_hands_the_values_through() {
    let mut rt = Ruby::new();
    let m = MethodCAry::new(|_s: Value, args: Vec<Value>| args.len() as i64);
    let rb_self = Qnil::new().as_value();
    let one = rt.into_value(1i64);
    let two = rt.into_value(2i64);
    match m.call_handle_error(&mut rt, rb_self, vec![one, two]) {
        Completion::Return(v) => {
            assert_eq!(<i64 as magnus::TryConvert>::try_convert(&rt, v).unwrap(), 2)
        },
        Completion::Raise(_) => panic!("expected a return"),
    }
}
