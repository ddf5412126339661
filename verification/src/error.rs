//! Errors, the protected-call engine, and the captured exceptional state.
//!
//! A call into the foreign runtime ends one of three ways: it completes with
//! a value, it raises, or it leaves through a non-local jump (a break or an
//! early return crossing the boundary). The protected-call engine turns the
//! last two into an [`ExceptionalState`] data value instead of letting them
//! unwind through host stack frames. A captured raise sets the runtime's
//! process-wide pending-exception slot, and the state must be resolved
//! exactly once: reading the exception out clears the slot, and dismissing
//! the state unread clears it too. A lingering pending exception would
//! corrupt every later protected call.

use vstd::prelude::*;
use vstd::string::StringExecFns;

use crate::runtime::Ruby;
use crate::value::{Value, QNIL_RAW};

verus! {

/// The classes of error the library itself reports, mirroring the runtime's
/// exception classes.
#[derive(Clone, Copy, PartialEq, Eq, Debug, Structural)]
pub enum ErrorKind {
    /// A value could not be read as the requested host type.
    TypeError,
    /// A number lies outside the requested width.
    RangeError,
    /// A mutation was attempted on a frozen object.
    FrozenError,
    /// A key was not present where one was demanded.
    KeyError,
    /// An index pointed before the start of a collection.
    IndexError,
    /// A symbol name was not valid text.
    EncodingError,
    /// A script could not be handed to the runtime at all.
    ScriptError,
    /// A defect inside the binding itself, such as a panicking callback;
    /// deliberately distinct from every user-input error.
    Bug,
}

/// The completion codes the runtime reports for a call that did not finish
/// normally. `Raise` is an exception; the others are non-local control
/// transfers.
#[derive(Clone, Copy, PartialEq, Eq, Debug, Structural)]
pub enum JumpTag {
    Return,
    Break,
    Next,
    Retry,
    Redo,
    Raise,
    Throw,
    Fatal,
}

/// An error from this library: a newly reported error with its kind and
/// message, a concrete foreign exception object, or a captured non-local
/// jump.
#[derive(Debug)]
pub enum Error {
    /// An error this library reports itself, to be raised as the matching
    /// foreign exception class.
    Raised { kind: ErrorKind, message: String },
    /// An exception object captured from the foreign runtime.
    Exception(Value),
    /// A non-local jump captured from the foreign runtime; resuming it is the
    /// only way to honour it.
    Jump(JumpTag),
}

impl Error {
    pub fn type_error(message: &str) -> (r: Error)
        ensures
            r matches Error::Raised { kind, message: m } && kind == ErrorKind::TypeError && m@
                == message@,
    {
        Error::Raised { kind: ErrorKind::TypeError, message: String::from_str(message) }
    }

    pub fn range_error(message: &str) -> (r: Error)
        ensures
            r matches Error::Raised { kind, message: m } && kind == ErrorKind::RangeError && m@
                == message@,
    {
        Error::Raised { kind: ErrorKind::RangeError, message: String::from_str(message) }
    }

    pub fn frozen_error(message: &str) -> (r: Error)
        ensures
            r matches Error::Raised { kind, message: m } && kind == ErrorKind::FrozenError && m@
                == message@,
    {
        Error::Raised { kind: ErrorKind::FrozenError, message: String::from_str(message) }
    }

    pub fn encoding_error(message: &str) -> (r: Error)
        ensures
            r matches Error::Raised { kind, message: m } && kind == ErrorKind::EncodingError && m@
                == message@,
    {
        Error::Raised { kind: ErrorKind::EncodingError, message: String::from_str(message) }
    }

    /// The translation of a host panic caught at a native-call boundary: a
    /// bug-class error, so foreign-side code can tell a broken binding from
    /// wrong user input.
    pub fn from_panic(message: String) -> (r: Error)
        ensures
            r matches Error::Raised { kind, message: m } && kind == ErrorKind::Bug && m == message,
    {
        Error::Raised { kind: ErrorKind::Bug, message }
    }

    /// The kind of a library-reported error, for callers that route on it.
    pub fn kind(&self) -> (r: Option<ErrorKind>)
        ensures
            r == (match self {
                Error::Raised { kind, .. } => Some(*kind),
                _ => None::<ErrorKind>,
            }),
    {
        match self {
            Error::Raised { kind, .. } => Some(*kind),
            _ => None,
        }
    }

    /// The message of a library-reported error; empty for a captured
    /// exception or jump.
    pub fn message(&self) -> (r: &str)
        ensures
            r@ == (match self {
                Error::Raised { message, .. } => message@,
                _ => Seq::<char>::empty(),
            }),
    {
        match self {
            Error::Raised { message, .. } => message.as_str(),
            _ => {
                let empty: &str = "";
                proof {
                    reveal_strlit("");
                    assert(empty@ =~= Seq::<char>::empty());
                }
                empty
            },
        }
    }
}

/// How a call across the boundary came back: completed with a value, raised
/// an exception object, or left through a non-local jump.
pub enum CallOutcome {
    Completed(Value),
    Raised(Value),
    Jumped(JumpTag),
}

/// An outcome the runtime at hand could actually report: its values are well
/// formed, and a non-local jump never carries the raise code, which always
/// comes as `Raised` with its exception object.
pub open spec fn outcome_wf(rt: &Ruby, o: CallOutcome) -> bool {
    match o {
        CallOutcome::Completed(v) => rt.wf_value(v),
        CallOutcome::Raised(exc) => rt.wf_value(exc),
        CallOutcome::Jumped(tag) => tag != JumpTag::Raise,
    }
}

/// The captured result of a protected call that did not complete normally.
/// It must be resolved exactly once: read out as an exception, resumed, or
/// dismissed. Each of the three clears what it owes to the runtime's
/// pending-exception slot.
#[derive(Debug)]
pub struct ExceptionalState {
    tag: JumpTag,
}

impl ExceptionalState {
    /// The captured completion code.
    pub closed spec fn spec_tag(self) -> JumpTag {
        self.tag
    }

    /// Whether the captured state is a raised exception, as opposed to a
    /// non-local jump.
    pub fn is_exception(&self) -> (r: bool)
        ensures
            r == (self.spec_tag() == JumpTag::Raise),
    {
        self.tag == JumpTag::Raise
    }

    /// Read the pending exception out of the runtime's slot and clear the
    /// slot — the clearing is not optional: a lingering pending exception
    /// corrupts every later protected call. Returns nil when the state was a
    /// non-exception jump, which leaves nothing in the slot.
    pub fn into_exception(self, rt: &mut Ruby) -> (r: Value)
        requires
            old(rt).wf(),
        ensures
            final(rt).wf(),
            final(rt).pending_exception is None,
            final(rt).heap == old(rt).heap,
            final(rt).symbols == old(rt).symbols,
            final(rt).globals == old(rt).globals,
            final(rt).roots == old(rt).roots,
            match old(rt).pending_exception {
                Some(exc) => r == exc,
                None => r.spec_raw() == QNIL_RAW,
            },
    {
        let pending: Option<Value> = rt.pending_exception;
        rt.pending_exception = None;
        proof {
            old(rt).lemma_wf_same_heap(rt);
        }
        match pending {
            Some(exc) => exc,
            None => Value::new(QNIL_RAW),
        }
    }

    /// Give the captured state up without reading the exception. The slot is
    /// still cleared, so the dropped state cannot leak error state into later
    /// unrelated calls.
    pub fn dismiss(self, rt: &mut Ruby)
        requires
            old(rt).wf(),
        ensures
            final(rt).wf(),
            final(rt).pending_exception is None,
            final(rt).heap == old(rt).heap,
            final(rt).symbols == old(rt).symbols,
            final(rt).globals == old(rt).globals,
            final(rt).roots == old(rt).roots,
    {
        rt.pending_exception = None;
        proof {
            old(rt).lemma_wf_same_heap(rt);
        }
    }

    /// Hand the captured completion code back, to re-enter the foreign
    /// runtime's unwind with. Consumes the state: the caller's stack frames
    /// between capture and resume must still be live, which only the boundary
    /// that owns the native frames can guarantee.
    pub fn resume_tag(self) -> (r: JumpTag)
        ensures
            r == self.spec_tag(),
    {
        self.tag
    }
}

/// The relation between the runtime before and after a protected call, the
/// outcome the call body reported, and what the caller gets back. This is the
/// whole behaviour of the protected-call engine:
///
/// * a completed call passes its value through untouched;
/// * a raise is captured as an exceptional state whose tag is the raise code,
///   and the exception object is parked in the pending-exception slot;
/// * a non-local jump is captured as an exceptional state with its own code
///   and leaves the pending-exception slot alone.
pub open spec fn protect_spec(
    rt_old: Ruby,
    rt_new: Ruby,
    o: CallOutcome,
    r: Result<Value, ExceptionalState>,
) -> bool {
    &&& rt_new.heap == rt_old.heap
    &&& rt_new.symbols == rt_old.symbols
    &&& rt_new.globals == rt_old.globals
    &&& rt_new.roots == rt_old.roots
    &&& match o {
        CallOutcome::Completed(v) => r == Ok::<Value, ExceptionalState>(v)
            && rt_new.pending_exception == rt_old.pending_exception,
        CallOutcome::Raised(exc) => (r matches Err(st) && st.spec_tag() == JumpTag::Raise)
            && rt_new.pending_exception == Some(exc),
        CallOutcome::Jumped(tag) => (r matches Err(st) && st.spec_tag() == tag)
            && rt_new.pending_exception == rt_old.pending_exception,
    }
}

/// The decision core of the protected-call engine: given how the call body
/// came back, either pass the value through or capture the failure as an
/// [`ExceptionalState`], parking a raised exception in the pending slot.
pub fn run_protected(rt: &mut Ruby, outcome: CallOutcome) -> (r: Result<Value, ExceptionalState>)
    requires
        old(rt).wf(),
        outcome_wf(&*old(rt), outcome),
    ensures
        final(rt).wf(),
        protect_spec(*old(rt), *final(rt), outcome, r),
{
    match outcome {
        CallOutcome::Completed(v) => Ok(v),
        CallOutcome::Raised(exc) => {
            rt.pending_exception = Some(exc);
            proof {
                old(rt).lemma_wf_same_heap(rt);
            }
            Err(ExceptionalState { tag: JumpTag::Raise })
        },
        CallOutcome::Jumped(tag) => Err(ExceptionalState { tag }),
    }
}

/// Run a one-shot call body under the engine's protection. All that can be
/// said without knowing the body is said: whatever outcome the body reports,
/// the result relates to it as [`protect_spec`] states.
pub fn protect<F: FnOnce() -> CallOutcome>(rt: &mut Ruby, f: F) -> (r: Result<
    Value,
    ExceptionalState,
>)
    requires
        old(rt).wf(),
        call_requires(f, ()),
        forall|o: CallOutcome| call_ensures(f, (), o) ==> outcome_wf(&*old(rt), o),
    ensures
        final(rt).wf(),
        exists|o: CallOutcome|
            call_ensures(f, (), o) && protect_spec(*old(rt), *final(rt), o, r),
{
    let outcome: CallOutcome = f();
    run_protected(rt, outcome)
}

/// Exception-slot hygiene: once a captured exception has been read out, the
/// slot is clear, and a later unrelated protected call that completes finds
/// it still clear and passes its value through.
pub proof fn lemma_exception_slot_hygiene(
    rt_after_read: Ruby,
    rt_final: Ruby,
    v: Value,
    r: Result<Value, ExceptionalState>,
)
    requires
        rt_after_read.pending_exception is None,
        protect_spec(rt_after_read, rt_final, CallOutcome::Completed(v), r),
    ensures
        r == Ok::<Value, ExceptionalState>(v),
        rt_final.pending_exception is None,
{
}

} // verus!
