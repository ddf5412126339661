//! The arity-polymorphic native-call adapters.
//!
//! A native callable of fixed arity n receives a tagged self and n tagged
//! arguments, converts each through the conversion protocol — strictly left
//! to right, stopping at the first failure — invokes the host function on the
//! converted values, and turns its result back into a tagged value. Beside
//! the fixed arities stand two variadic shapes: one that receives the
//! argument array as a single value, and one that receives the raw
//! argument slice.
//!
//! A failed conversion never reaches the host function: the adapter hands the
//! failing argument's own error out, and the runtime is left exactly as it
//! was. A host panic must never unwind across the boundary either: the
//! boundary that owns the native frames catches it and routes it through
//! [`handle_call_outcome`], which turns it into a raise of the bug class,
//! distinct from every user-input error.

use vstd::prelude::*;

use core::marker::PhantomData;

use crate::error::{CallOutcome, Error, ErrorKind, ExceptionalState};
use crate::into_value::IntoValue;
use crate::runtime::{extends, Ruby};
use crate::try_convert::{converts, TryConvert};
use crate::value::{is_undef_raw, Value};

verus! {

/// How a native-call adapter answers the runtime: return a value, or raise.
/// The boundary that owns the native frames performs the raise on the foreign
/// side; nothing unwinds through it.
pub enum Completion {
    Return(Value),
    Raise(Error),
}

/// How the host side of a native call ended: it completed with a result, or
/// it panicked and the boundary caught the payload.
pub enum HostOutcome {
    Completed(Result<Value, Error>),
    Panicked(String),
}

/// The panic firewall's whole behaviour: a completed call passes through, a
/// caught panic becomes a raise of the bug class carrying the payload text —
/// never an unwind, and never an ordinary conversion error.
pub open spec fn firewall_rel(outcome: HostOutcome, c: Completion) -> bool {
    match outcome {
        HostOutcome::Completed(r) => match r {
            Ok(v) => c == Completion::Return(v),
            Err(e) => c == Completion::Raise(e),
        },
        HostOutcome::Panicked(msg) => c matches Completion::Raise(e) && (e
            matches Error::Raised { kind, message } && kind == ErrorKind::Bug && message == msg),
    }
}

/// Decide what crosses back to the runtime once the host side has ended.
/// The runtime is not touched: in particular, no pending-exception state is
/// created or cleared here, so unrelated protected calls stay unaffected.
pub fn handle_call_outcome(outcome: HostOutcome) -> (done: Completion)
    ensures
        firewall_rel(outcome, done),
{
    match outcome {
        HostOutcome::Completed(r) => match r {
            Ok(v) => Completion::Return(v),
            Err(e) => Completion::Raise(e),
        },
        HostOutcome::Panicked(msg) => Completion::Raise(Error::from_panic(msg)),
    }
}

/// The panic firewall, as a law: a panicking call body yields a raise of the
/// bug class and leaves the runtime alone, so a later unrelated protected
/// call that completes still passes its value through, with the
/// pending-exception slot exactly as it was.
pub proof fn lemma_panic_firewall(
    msg: String,
    c: Completion,
    rt: Ruby,
    rt_after: Ruby,
    v: Value,
    r: Result<Value, ExceptionalState>,
)
    requires
        firewall_rel(HostOutcome::Panicked(msg), c),
        crate::error::protect_spec(rt, rt_after, CallOutcome::Completed(v), r),
    ensures
        c matches Completion::Raise(e) && (e matches Error::Raised { kind, .. } && kind
            == ErrorKind::Bug),
        r == Ok::<Value, ExceptionalState>(v),
        rt_after.pending_exception == rt.pending_exception,
{
}

/// What a host function may hand back to the adapter: either a value to
/// convert into the runtime, or an error to raise there. Returning a plain
/// convertible value is the infallible case.
pub trait ReturnValue: Sized {
    /// What the returned host value must satisfy against the runtime before
    /// it can cross back.
    spec fn ret_wf(&self, rt: &Ruby) -> bool;

    /// How the host result crosses, as a relation between the runtime before
    /// and after and what reaches the boundary: a plain value crosses as `Ok`
    /// of its own conversion, a host error crosses as exactly that error.
    spec fn ret_rel(self, rt_old: Ruby, rt_new: Ruby, r: Result<Value, Error>) -> bool;

    fn into_return_value(self, rt: &mut Ruby) -> (r: Result<Value, Error>)
        requires
            old(rt).wf(),
            old(rt).has_room(),
            self.ret_wf(&*old(rt)),
        ensures
            final(rt).wf(),
            extends(&*old(rt), &*final(rt)),
            (r matches Ok(v) ==> final(rt).wf_value(v)),
            self.ret_rel(*old(rt), *final(rt), r),
    ;
}

impl<T: IntoValue> ReturnValue for T {
    open spec fn ret_wf(&self, rt: &Ruby) -> bool {
        self.into_wf(rt)
    }

    /// An infallible host value always crosses as `Ok` of its conversion.
    open spec fn ret_rel(self, rt_old: Ruby, rt_new: Ruby, r: Result<Value, Error>) -> bool {
        r matches Ok(v) && self.into_rel(rt_old, rt_new, v)
    }

    fn into_return_value(self, rt: &mut Ruby) -> (r: Result<Value, Error>) {
        Ok(self.into_value(rt))
    }
}

impl<T: IntoValue> ReturnValue for Result<T, Error> {
    open spec fn ret_wf(&self, rt: &Ruby) -> bool {
        match self {
            Ok(t) => t.into_wf(rt),
            Err(_) => true,
        }
    }

    /// A host `Ok` crosses as `Ok` of its conversion; a host error crosses
    /// unchanged, touching nothing.
    open spec fn ret_rel(self, rt_old: Ruby, rt_new: Ruby, r: Result<Value, Error>) -> bool {
        match self {
            Ok(t) => r matches Ok(v) && t.into_rel(rt_old, rt_new, v),
            Err(e) => (r matches Err(e2) && e2 == e) && rt_new == rt_old,
        }
    }

    fn into_return_value(self, rt: &mut Ruby) -> (r: Result<Value, Error>) {
        match self {
            Ok(t) => Ok(t.into_value(rt)),
            Err(e) => {
                proof {
                    assert(rt.heap@.subrange(0, old(rt).heap@.len() as int) =~= old(rt).heap@);
                }
                Err(e)
            },
        }
    }
}

/// A completion, read back as the result it crossed from: what the adapter
/// returned, or the error it raised.
pub open spec fn completion_result(done: Completion) -> Result<Value, Error> {
    match done {
        Completion::Return(v) => Ok(v),
        Completion::Raise(e) => Err(e),
    }
}

/// What an extension's init function may hand back: nothing, or an error to
/// raise.
pub trait InitReturn: Sized {
    /// The relation between the init result and what crosses the boundary.
    spec fn init_rel(v: Self, r: Result<(), Error>) -> bool;

    fn into_init_return(self) -> (r: Result<(), Error>)
        ensures
            Self::init_rel(self, r),
    ;
}

impl InitReturn for () {
    open spec fn init_rel(v: (), r: Result<(), Error>) -> bool {
        r is Ok
    }

    fn into_init_return(self) -> (r: Result<(), Error>) {
        Ok(())
    }
}

impl InitReturn for Result<(), Error> {
    open spec fn init_rel(v: Result<(), Error>, r: Result<(), Error>) -> bool {
        r == v
    }

    fn into_init_return(self) -> (r: Result<(), Error>) {
        self
    }
}

/// The adapter for an extension's init function: no self, no arguments, no
/// result value.
pub struct Init<Func, Res> {
    func: Func,
    res: PhantomData<Res>,
}

impl<Func, Res> Init<Func, Res> where Func: Fn() -> Res, Res: InitReturn {
    /// The wrapped host function, for specifications.
    pub closed spec fn spec_func(&self) -> Func {
        self.func
    }

    pub fn new(func: Func) -> (m: Self)
        ensures
            m.spec_func() == func,
    {
        Init { func, res: PhantomData }
    }

    /// Run the init function and decide what crosses back: nothing on
    /// success, a raise on error.
    pub fn call_handle_error(self) -> (done: Completion)
        requires
            call_requires(self.spec_func(), ()),
        ensures
            exists|res: Res, r: Result<(), Error>|
                call_ensures(self.spec_func(), (), res) && Res::init_rel(res, r) && (match r {
                    Ok(_) => done matches Completion::Return(v) && v.spec_raw()
                        == crate::value::QNIL_RAW,
                    Err(e) => done == Completion::Raise(e),
                }),
    {
        let res: Res = (self.func)();
        match res.into_init_return() {
            Ok(_) => Completion::Return(Value::new(crate::value::QNIL_RAW)),
            Err(e) => Completion::Raise(e),
        }
    }
}

/// The adapter for a native callable taking self and no arguments.
pub struct Method0<Func, RbSelf, Res> {
    func: Func,
    rb_self: PhantomData<RbSelf>,
    res: PhantomData<Res>,
}

impl<Func, RbSelf, Res> Method0<Func, RbSelf, Res> where Func: Fn(RbSelf) -> Res, RbSelf: TryConvert, Res: ReturnValue {
    /// The wrapped host function, for specifications.
    pub closed spec fn spec_func(&self) -> Func {
        self.func
    }

    pub fn new(func: Func) -> (m: Self)
        ensures
            m.spec_func() == func,
    {
        Method0 {
            func,
            rb_self: PhantomData,
            res: PhantomData,
        }
    }

    /// Convert self and the arguments left to right, stopping at the first
    /// failure without touching the runtime or the host function; on full
    /// success, invoke the host function and convert its result back.
    pub fn call_convert_value(self, rt: &mut Ruby, rb_self: Value) -> (r: Result<Value, Error>)
        requires
            old(rt).wf(),
            old(rt).has_room(),
            old(rt).wf_value(rb_self),
            !is_undef_raw(rb_self.spec_raw()),
            forall|s: RbSelf| call_requires(self.spec_func(), (s,)),
            forall|s: RbSelf, res: Res| #[trigger] call_ensures(self.spec_func(), (s,), res) ==> res.ret_wf(&*old(rt)),
        ensures
            final(rt).wf(),
            extends(&*old(rt), &*final(rt)),
            (r matches Ok(v) ==> final(rt).wf_value(v)),
            (!converts::<RbSelf>(&*old(rt), rb_self) ==> *final(rt) == *old(rt) && (r matches Err(err)
                && RbSelf::convert_rel(&*old(rt), rb_self, Err(err)))),
            (converts::<RbSelf>(&*old(rt), rb_self) ==> exists|s: RbSelf, res: Res|
                RbSelf::convert_rel(&*old(rt), rb_self, Ok(s)) && #[trigger] call_ensures(self.spec_func(), (s,), res)
                && res.ret_rel(*old(rt), *final(rt), r)),
    {
        let s: RbSelf = match RbSelf::try_convert(&*rt, rb_self) {
            Ok(s) => s,
            Err(err) => {
                proof {
                    assert forall|x: RbSelf| !RbSelf::convert_rel(
                        &*old(rt),
                        rb_self,
                        Ok(x),
                    ) by {
                        RbSelf::lemma_convert_exclusive(&*old(rt), rb_self, x, err);
                    }
                    assert(rt.heap@.subrange(0, old(rt).heap@.len() as int) =~= old(rt).heap@);
                }
                return Err(err);
            },
        };
        proof {
            assert(call_requires(self.spec_func(), (s,)));
        }
        let res: Res = (self.func)(s);
        proof {
            assert(call_ensures(self.spec_func(), (s,), res));
        }
        res.into_return_value(rt)
    }

    /// As `call_convert_value`, but decide what crosses back to the runtime:
    /// the value, or a raise carrying the error.
    pub fn call_handle_error(self, rt: &mut Ruby, rb_self: Value) -> (done: Completion)
        requires
            old(rt).wf(),
            old(rt).has_room(),
            old(rt).wf_value(rb_self),
            !is_undef_raw(rb_self.spec_raw()),
            forall|s: RbSelf| call_requires(self.spec_func(), (s,)),
            forall|s: RbSelf, res: Res| #[trigger] call_ensures(self.spec_func(), (s,), res) ==> res.ret_wf(&*old(rt)),
        ensures
            final(rt).wf(),
            extends(&*old(rt), &*final(rt)),
            (done matches Completion::Return(v) ==> final(rt).wf_value(v)),
            (!converts::<RbSelf>(&*old(rt), rb_self) ==> *final(rt) == *old(rt) && (done matches Completion::Raise(
                e,
            ) && RbSelf::convert_rel(&*old(rt), rb_self, Err(e)))),
            (converts::<RbSelf>(&*old(rt), rb_self) ==> exists|s: RbSelf, res: Res|
                RbSelf::convert_rel(&*old(rt), rb_self, Ok(s)) && #[trigger] call_ensures(self.spec_func(), (s,), res)
                && res.ret_rel(*old(rt), *final(rt), completion_result(done))),
    {
        match self.call_convert_value(rt, rb_self) {
            Ok(v) => Completion::Return(v),
            Err(e) => Completion::Raise(e),
        }
    }
}

/// The adapter for a native callable taking self and one argument.
pub struct Method1<Func, RbSelf, A, Res> {
    func: Func,
    rb_self: PhantomData<RbSelf>,
    a: PhantomData<A>,
    res: PhantomData<Res>,
}

impl<Func, RbSelf, A, Res> Method1<Func, RbSelf, A, Res> where Func: Fn(RbSelf, A) -> Res, RbSelf: TryConvert, A: TryConvert, Res: ReturnValue {
    /// The wrapped host function, for specifications.
    pub closed spec fn spec_func(&self) -> Func {
        self.func
    }

    pub fn new(func: Func) -> (m: Self)
        ensures
            m.spec_func() == func,
    {
        Method1 {
            func,
            rb_self: PhantomData,
            a: PhantomData,
            res: PhantomData,
        }
    }

    /// Convert self and the arguments left to right, stopping at the first
    /// failure without touching the runtime or the host function; on full
    /// success, invoke the host function and convert its result back.
    pub fn call_convert_value(self, rt: &mut Ruby, rb_self: Value, a: Value) -> (r: Result<Value, Error>)
        requires
            old(rt).wf(),
            old(rt).has_room(),
            old(rt).wf_value(rb_self),
            !is_undef_raw(rb_self.spec_raw()),
            old(rt).wf_value(a),
            !is_undef_raw(a.spec_raw()),
            forall|s: RbSelf, xa: A| call_requires(self.spec_func(), (s, xa)),
            forall|s: RbSelf, xa: A, res: Res| #[trigger] call_ensures(self.spec_func(), (s, xa), res) ==> res.ret_wf(&*old(rt)),
        ensures
            final(rt).wf(),
            extends(&*old(rt), &*final(rt)),
            (r matches Ok(v) ==> final(rt).wf_value(v)),
            (!converts::<RbSelf>(&*old(rt), rb_self) ==> *final(rt) == *old(rt) && (r matches Err(err)
                && RbSelf::convert_rel(&*old(rt), rb_self, Err(err)))),
            (converts::<RbSelf>(&*old(rt), rb_self) && !converts::<A>(&*old(rt), a)
                ==> *final(rt) == *old(rt) && (r matches Err(err) && A::convert_rel(
                &*old(rt),
                a,
                Err(err),
            ))),
            (converts::<RbSelf>(&*old(rt), rb_self) && converts::<A>(&*old(rt), a) ==> exists|s: RbSelf, xa: A, res: Res|
                RbSelf::convert_rel(&*old(rt), rb_self, Ok(s)) && A::convert_rel(&*old(rt), a, Ok(xa)) && #[trigger] call_ensures(self.spec_func(), (s, xa), res)
                && res.ret_rel(*old(rt), *final(rt), r)),
    {
        let s: RbSelf = match RbSelf::try_convert(&*rt, rb_self) {
            Ok(s) => s,
            Err(err) => {
                proof {
                    assert forall|x: RbSelf| !RbSelf::convert_rel(
                        &*old(rt),
                        rb_self,
                        Ok(x),
                    ) by {
                        RbSelf::lemma_convert_exclusive(&*old(rt), rb_self, x, err);
                    }
                    assert(rt.heap@.subrange(0, old(rt).heap@.len() as int) =~= old(rt).heap@);
                }
                return Err(err);
            },
        };
        let xa: A = match A::try_convert(&*rt, a) {
            Ok(x) => x,
            Err(err) => {
                proof {
                    assert forall|x: A| !A::convert_rel(&*old(rt), a, Ok(x)) by {
                        A::lemma_convert_exclusive(&*old(rt), a, x, err);
                    }
                    assert(rt.heap@.subrange(0, old(rt).heap@.len() as int) =~= old(rt).heap@);
                }
                return Err(err);
            },
        };
        proof {
            assert(call_requires(self.spec_func(), (s, xa)));
        }
        let res: Res = (self.func)(s, xa);
        proof {
            assert(call_ensures(self.spec_func(), (s, xa), res));
        }
        res.into_return_value(rt)
    }

    /// As `call_convert_value`, but decide what crosses back to the runtime:
    /// the value, or a raise carrying the error.
    pub fn call_handle_error(self, rt: &mut Ruby, rb_self: Value, a: Value) -> (done: Completion)
        requires
            old(rt).wf(),
            old(rt).has_room(),
            old(rt).wf_value(rb_self),
            !is_undef_raw(rb_self.spec_raw()),
            old(rt).wf_value(a),
            !is_undef_raw(a.spec_raw()),
            forall|s: RbSelf, xa: A| call_requires(self.spec_func(), (s, xa)),
            forall|s: RbSelf, xa: A, res: Res| #[trigger] call_ensures(self.spec_func(), (s, xa), res) ==> res.ret_wf(&*old(rt)),
        ensures
            final(rt).wf(),
            extends(&*old(rt), &*final(rt)),
            (done matches Completion::Return(v) ==> final(rt).wf_value(v)),
            (!converts::<RbSelf>(&*old(rt), rb_self) ==> *final(rt) == *old(rt) && (done matches Completion::Raise(
                e,
            ) && RbSelf::convert_rel(&*old(rt), rb_self, Err(e)))),
            (converts::<RbSelf>(&*old(rt), rb_self) && !converts::<A>(&*old(rt), a)
                ==> *final(rt) == *old(rt) && (done matches Completion::Raise(err) && A::convert_rel(
                &*old(rt),
                a,
                Err(err),
            ))),
            (converts::<RbSelf>(&*old(rt), rb_self) && converts::<A>(&*old(rt), a) ==> exists|s: RbSelf, xa: A, res: Res|
                RbSelf::convert_rel(&*old(rt), rb_self, Ok(s)) && A::convert_rel(&*old(rt), a, Ok(xa)) && #[trigger] call_ensures(self.spec_func(), (s, xa), res)
                && res.ret_rel(*old(rt), *final(rt), completion_result(done))),
    {
        match self.call_convert_value(rt, rb_self, a) {
            Ok(v) => Completion::Return(v),
            Err(e) => Completion::Raise(e),
        }
    }
}

/// The adapter for a native callable taking self and 2 arguments.
pub struct Method2<Func, RbSelf, A, B, Res> {
    func: Func,
    rb_self: PhantomData<RbSelf>,
    a: PhantomData<A>,
    b: PhantomData<B>,
    res: PhantomData<Res>,
}

impl<Func, RbSelf, A, B, Res> Method2<Func, RbSelf, A, B, Res> where Func: Fn(RbSelf, A, B) -> Res, RbSelf: TryConvert, A: TryConvert, B: TryConvert, Res: ReturnValue {
    /// The wrapped host function, for specifications.
    pub closed spec fn spec_func(&self) -> Func {
        self.func
    }

    pub fn new(func: Func) -> (m: Self)
        ensures
            m.spec_func() == func,
    {
        Method2 {
            func,
            rb_self: PhantomData,
            a: PhantomData,
            b: PhantomData,
            res: PhantomData,
        }
    }

    /// Convert self and the arguments left to right, stopping at the first
    /// failure without touching the runtime or the host function; on full
    /// success, invoke the host function and convert its result back.
    pub fn call_convert_value(self, rt: &mut Ruby, rb_self: Value, a: Value, b: Value) -> (r: Result<Value, Error>)
        requires
            old(rt).wf(),
            old(rt).has_room(),
            old(rt).wf_value(rb_self),
            !is_undef_raw(rb_self.spec_raw()),
            old(rt).wf_value(a),
            !is_undef_raw(a.spec_raw()),
            old(rt).wf_value(b),
            !is_undef_raw(b.spec_raw()),
            forall|s: RbSelf, xa: A, xb: B| call_requires(self.spec_func(), (s, xa, xb)),
            forall|s: RbSelf, xa: A, xb: B, res: Res| #[trigger] call_ensures(self.spec_func(), (s, xa, xb), res) ==> res.ret_wf(&*old(rt)),
        ensures
            final(rt).wf(),
            extends(&*old(rt), &*final(rt)),
            (r matches Ok(v) ==> final(rt).wf_value(v)),
            (!converts::<RbSelf>(&*old(rt), rb_self) ==> *final(rt) == *old(rt) && (r matches Err(err)
                && RbSelf::convert_rel(&*old(rt), rb_self, Err(err)))),
            (converts::<RbSelf>(&*old(rt), rb_self) && !converts::<A>(&*old(rt), a)
                ==> *final(rt) == *old(rt) && (r matches Err(err) && A::convert_rel(
                &*old(rt),
                a,
                Err(err),
            ))),
            (converts::<RbSelf>(&*old(rt), rb_self) && converts::<A>(&*old(rt), a) && !converts::<B>(&*old(rt), b)
                ==> *final(rt) == *old(rt) && (r matches Err(err) && B::convert_rel(
                &*old(rt),
                b,
                Err(err),
            ))),
            (converts::<RbSelf>(&*old(rt), rb_self) && converts::<A>(&*old(rt), a) && converts::<B>(&*old(rt), b) ==> exists|s: RbSelf, xa: A, xb: B, res: Res|
                RbSelf::convert_rel(&*old(rt), rb_self, Ok(s)) && A::convert_rel(&*old(rt), a, Ok(xa)) && B::convert_rel(&*old(rt), b, Ok(xb)) && #[trigger] call_ensures(self.spec_func(), (s, xa, xb), res)
                && res.ret_rel(*old(rt), *final(rt), r)),
    {
        let s: RbSelf = match RbSelf::try_convert(&*rt, rb_self) {
            Ok(s) => s,
            Err(err) => {
                proof {
                    assert forall|x: RbSelf| !RbSelf::convert_rel(
                        &*old(rt),
                        rb_self,
                        Ok(x),
                    ) by {
                        RbSelf::lemma_convert_exclusive(&*old(rt), rb_self, x, err);
                    }
                    assert(rt.heap@.subrange(0, old(rt).heap@.len() as int) =~= old(rt).heap@);
                }
                return Err(err);
            },
        };
        let xa: A = match A::try_convert(&*rt, a) {
            Ok(x) => x,
            Err(err) => {
                proof {
                    assert forall|x: A| !A::convert_rel(&*old(rt), a, Ok(x)) by {
                        A::lemma_convert_exclusive(&*old(rt), a, x, err);
                    }
                    assert(rt.heap@.subrange(0, old(rt).heap@.len() as int) =~= old(rt).heap@);
                }
                return Err(err);
            },
        };
        let xb: B = match B::try_convert(&*rt, b) {
            Ok(x) => x,
            Err(err) => {
                proof {
                    assert forall|x: B| !B::convert_rel(&*old(rt), b, Ok(x)) by {
                        B::lemma_convert_exclusive(&*old(rt), b, x, err);
                    }
                    assert(rt.heap@.subrange(0, old(rt).heap@.len() as int) =~= old(rt).heap@);
                }
                return Err(err);
            },
        };
        proof {
            assert(call_requires(self.spec_func(), (s, xa, xb)));
        }
        let res: Res = (self.func)(s, xa, xb);
        proof {
            assert(call_ensures(self.spec_func(), (s, xa, xb), res));
        }
        res.into_return_value(rt)
    }

    /// As `call_convert_value`, but decide what crosses back to the runtime:
    /// the value, or a raise carrying the error.
    pub fn call_handle_error(self, rt: &mut Ruby, rb_self: Value, a: Value, b: Value) -> (done: Completion)
        requires
            old(rt).wf(),
            old(rt).has_room(),
            old(rt).wf_value(rb_self),
            !is_undef_raw(rb_self.spec_raw()),
            old(rt).wf_value(a),
            !is_undef_raw(a.spec_raw()),
            old(rt).wf_value(b),
            !is_undef_raw(b.spec_raw()),
            forall|s: RbSelf, xa: A, xb: B| call_requires(self.spec_func(), (s, xa, xb)),
            forall|s: RbSelf, xa: A, xb: B, res: Res| #[trigger] call_ensures(self.spec_func(), (s, xa, xb), res) ==> res.ret_wf(&*old(rt)),
        ensures
            final(rt).wf(),
            extends(&*old(rt), &*final(rt)),
            (done matches Completion::Return(v) ==> final(rt).wf_value(v)),
            (!converts::<RbSelf>(&*old(rt), rb_self) ==> *final(rt) == *old(rt) && (done matches Completion::Raise(
                e,
            ) && RbSelf::convert_rel(&*old(rt), rb_self, Err(e)))),
            (converts::<RbSelf>(&*old(rt), rb_self) && !converts::<A>(&*old(rt), a)
                ==> *final(rt) == *old(rt) && (done matches Completion::Raise(err) && A::convert_rel(
                &*old(rt),
                a,
                Err(err),
            ))),
            (converts::<RbSelf>(&*old(rt), rb_self) && converts::<A>(&*old(rt), a) && !converts::<B>(&*old(rt), b)
                ==> *final(rt) == *old(rt) && (done matches Completion::Raise(err) && B::convert_rel(
                &*old(rt),
                b,
                Err(err),
            ))),
            (converts::<RbSelf>(&*old(rt), rb_self) && converts::<A>(&*old(rt), a) && converts::<B>(&*old(rt), b) ==> exists|s: RbSelf, xa: A, xb: B, res: Res|
                RbSelf::convert_rel(&*old(rt), rb_self, Ok(s)) && A::convert_rel(&*old(rt), a, Ok(xa)) && B::convert_rel(&*old(rt), b, Ok(xb)) && #[trigger] call_ensures(self.spec_func(), (s, xa, xb), res)
                && res.ret_rel(*old(rt), *final(rt), completion_result(done))),
    {
        match self.call_convert_value(rt, rb_self, a, b) {
            Ok(v) => Completion::Return(v),
            Err(e) => Completion::Raise(e),
        }
    }
}

/// The adapter for a native callable taking self and 3 arguments.
pub struct Method3<Func, RbSelf, A, B, C, Res> {
    func: Func,
    rb_self: PhantomData<RbSelf>,
    a: PhantomData<A>,
    b: PhantomData<B>,
    c: PhantomData<C>,
    res: PhantomData<Res>,
}

impl<Func, RbSelf, A, B, C, Res> Method3<Func, RbSelf, A, B, C, Res> where Func: Fn(RbSelf, A, B, C) -> Res, RbSelf: TryConvert, A: TryConvert, B: TryConvert, C: TryConvert, Res: ReturnValue {
    /// The wrapped host function, for specifications.
    pub closed spec fn spec_func(&self) -> Func {
        self.func
    }

    pub fn new(func: Func) -> (m: Self)
        ensures
            m.spec_func() == func,
    {
        Method3 {
            func,
            rb_self: PhantomData,
            a: PhantomData,
            b: PhantomData,
            c: PhantomData,
            res: PhantomData,
        }
    }

    /// Convert self and the arguments left to right, stopping at the first
    /// failure without touching the runtime or the host function; on full
    /// success, invoke the host function and convert its result back.
    pub fn call_convert_value(self, rt: &mut Ruby, rb_self: Value, a: Value, b: Value, c: Value) -> (r: Result<Value, Error>)
        requires
            old(rt).wf(),
            old(rt).has_room(),
            old(rt).wf_value(rb_self),
            !is_undef_raw(rb_self.spec_raw()),
            old(rt).wf_value(a),
            !is_undef_raw(a.spec_raw()),
            old(rt).wf_value(b),
            !is_undef_raw(b.spec_raw()),
            old(rt).wf_value(c),
            !is_undef_raw(c.spec_raw()),
            forall|s: RbSelf, xa: A, xb: B, xc: C| call_requires(self.spec_func(), (s, xa, xb, xc)),
            forall|s: RbSelf, xa: A, xb: B, xc: C, res: Res| #[trigger] call_ensures(self.spec_func(), (s, xa, xb, xc), res) ==> res.ret_wf(&*old(rt)),
        ensures
            final(rt).wf(),
            extends(&*old(rt), &*final(rt)),
            (r matches Ok(v) ==> final(rt).wf_value(v)),
            (!converts::<RbSelf>(&*old(rt), rb_self) ==> *final(rt) == *old(rt) && (r matches Err(err)
                && RbSelf::convert_rel(&*old(rt), rb_self, Err(err)))),
            (converts::<RbSelf>(&*old(rt), rb_self) && !converts::<A>(&*old(rt), a)
                ==> *final(rt) == *old(rt) && (r matches Err(err) && A::convert_rel(
                &*old(rt),
                a,
                Err(err),
            ))),
            (converts::<RbSelf>(&*old(rt), rb_self) && converts::<A>(&*old(rt), a) && !converts::<B>(&*old(rt), b)
                ==> *final(rt) == *old(rt) && (r matches Err(err) && B::convert_rel(
                &*old(rt),
                b,
                Err(err),
            ))),
            (converts::<RbSelf>(&*old(rt), rb_self) && converts::<A>(&*old(rt), a) && converts::<B>(&*old(rt), b) && !converts::<C>(&*old(rt), c)
                ==> *final(rt) == *old(rt) && (r matches Err(err) && C::convert_rel(
                &*old(rt),
                c,
                Err(err),
            ))),
            (converts::<RbSelf>(&*old(rt), rb_self) && converts::<A>(&*old(rt), a) && converts::<B>(&*old(rt), b) && converts::<C>(&*old(rt), c) ==> exists|s: RbSelf, xa: A, xb: B, xc: C, res: Res|
                RbSelf::convert_rel(&*old(rt), rb_self, Ok(s)) && A::convert_rel(&*old(rt), a, Ok(xa)) && B::convert_rel(&*old(rt), b, Ok(xb)) && C::convert_rel(&*old(rt), c, Ok(xc)) && #[trigger] call_ensures(self.spec_func(), (s, xa, xb, xc), res)
                && res.ret_rel(*old(rt), *final(rt), r)),
    {
        let s: RbSelf = match RbSelf::try_convert(&*rt, rb_self) {
            Ok(s) => s,
            Err(err) => {
                proof {
                    assert forall|x: RbSelf| !RbSelf::convert_rel(
                        &*old(rt),
                        rb_self,
                        Ok(x),
                    ) by {
                        RbSelf::lemma_convert_exclusive(&*old(rt), rb_self, x, err);
                    }
                    assert(rt.heap@.subrange(0, old(rt).heap@.len() as int) =~= old(rt).heap@);
                }
                return Err(err);
            },
        };
        let xa: A = match A::try_convert(&*rt, a) {
            Ok(x) => x,
            Err(err) => {
                proof {
                    assert forall|x: A| !A::convert_rel(&*old(rt), a, Ok(x)) by {
                        A::lemma_convert_exclusive(&*old(rt), a, x, err);
                    }
                    assert(rt.heap@.subrange(0, old(rt).heap@.len() as int) =~= old(rt).heap@);
                }
                return Err(err);
            },
        };
        let xb: B = match B::try_convert(&*rt, b) {
            Ok(x) => x,
            Err(err) => {
                proof {
                    assert forall|x: B| !B::convert_rel(&*old(rt), b, Ok(x)) by {
                        B::lemma_convert_exclusive(&*old(rt), b, x, err);
                    }
                    assert(rt.heap@.subrange(0, old(rt).heap@.len() as int) =~= old(rt).heap@);
                }
                return Err(err);
            },
        };
        let xc: C = match C::try_convert(&*rt, c) {
            Ok(x) => x,
            Err(err) => {
                proof {
                    assert forall|x: C| !C::convert_rel(&*old(rt), c, Ok(x)) by {
                        C::lemma_convert_exclusive(&*old(rt), c, x, err);
                    }
                    assert(rt.heap@.subrange(0, old(rt).heap@.len() as int) =~= old(rt).heap@);
                }
                return Err(err);
            },
        };
        proof {
            assert(call_requires(self.spec_func(), (s, xa, xb, xc)));
        }
        let res: Res = (self.func)(s, xa, xb, xc);
        proof {
            assert(call_ensures(self.spec_func(), (s, xa, xb, xc), res));
        }
        res.into_return_value(rt)
    }

    /// As `call_convert_value`, but decide what crosses back to the runtime:
    /// the value, or a raise carrying the error.
    pub fn call_handle_error(self, rt: &mut Ruby, rb_self: Value, a: Value, b: Value, c: Value) -> (done: Completion)
        requires
            old(rt).wf(),
            old(rt).has_room(),
            old(rt).wf_value(rb_self),
            !is_undef_raw(rb_self.spec_raw()),
            old(rt).wf_value(a),
            !is_undef_raw(a.spec_raw()),
            old(rt).wf_value(b),
            !is_undef_raw(b.spec_raw()),
            old(rt).wf_value(c),
            !is_undef_raw(c.spec_raw()),
            forall|s: RbSelf, xa: A, xb: B, xc: C| call_requires(self.spec_func(), (s, xa, xb, xc)),
            forall|s: RbSelf, xa: A, xb: B, xc: C, res: Res| #[trigger] call_ensures(self.spec_func(), (s, xa, xb, xc), res) ==> res.ret_wf(&*old(rt)),
        ensures
            final(rt).wf(),
            extends(&*old(rt), &*final(rt)),
            (done matches Completion::Return(v) ==> final(rt).wf_value(v)),
            (!converts::<RbSelf>(&*old(rt), rb_self) ==> *final(rt) == *old(rt) && (done matches Completion::Raise(
                e,
            ) && RbSelf::convert_rel(&*old(rt), rb_self, Err(e)))),
            (converts::<RbSelf>(&*old(rt), rb_self) && !converts::<A>(&*old(rt), a)
                ==> *final(rt) == *old(rt) && (done matches Completion::Raise(err) && A::convert_rel(
                &*old(rt),
                a,
                Err(err),
            ))),
            (converts::<RbSelf>(&*old(rt), rb_self) && converts::<A>(&*old(rt), a) && !converts::<B>(&*old(rt), b)
                ==> *final(rt) == *old(rt) && (done matches Completion::Raise(err) && B::convert_rel(
                &*old(rt),
                b,
                Err(err),
            ))),
            (converts::<RbSelf>(&*old(rt), rb_self) && converts::<A>(&*old(rt), a) && converts::<B>(&*old(rt), b) && !converts::<C>(&*old(rt), c)
                ==> *final(rt) == *old(rt) && (done matches Completion::Raise(err) && C::convert_rel(
                &*old(rt),
                c,
                Err(err),
            ))),
            (converts::<RbSelf>(&*old(rt), rb_self) && converts::<A>(&*old(rt), a) && converts::<B>(&*old(rt), b) && converts::<C>(&*old(rt), c) ==> exists|s: RbSelf, xa: A, xb: B, xc: C, res: Res|
                RbSelf::convert_rel(&*old(rt), rb_self, Ok(s)) && A::convert_rel(&*old(rt), a, Ok(xa)) && B::convert_rel(&*old(rt), b, Ok(xb)) && C::convert_rel(&*old(rt), c, Ok(xc)) && #[trigger] call_ensures(self.spec_func(), (s, xa, xb, xc), res)
                && res.ret_rel(*old(rt), *final(rt), completion_result(done))),
    {
        match self.call_convert_value(rt, rb_self, a, b, c) {
            Ok(v) => Completion::Return(v),
            Err(e) => Completion::Raise(e),
        }
    }
}

/// The adapter for a native callable taking self and 4 arguments.
pub struct Method4<Func, RbSelf, A, B, C, D, Res> {
    func: Func,
    rb_self: PhantomData<RbSelf>,
    a: PhantomData<A>,
    b: PhantomData<B>,
    c: PhantomData<C>,
    d: PhantomData<D>,
    res: PhantomData<Res>,
}

impl<Func, RbSelf, A, B, C, D, Res> Method4<Func, RbSelf, A, B, C, D, Res> where Func: Fn(RbSelf, A, B, C, D) -> Res, RbSelf: TryConvert, A: TryConvert, B: TryConvert, C: TryConvert, D: TryConvert, Res: ReturnValue {
    /// The wrapped host function, for specifications.
    pub closed spec fn spec_func(&self) -> Func {
        self.func
    }

    pub fn new(func: Func) -> (m: Self)
        ensures
            m.spec_func() == func,
    {
        Method4 {
            func,
            rb_self: PhantomData,
            a: PhantomData,
            b: PhantomData,
            c: PhantomData,
            d: PhantomData,
            res: PhantomData,
        }
    }

    /// Convert self and the arguments left to right, stopping at the first
    /// failure without touching the runtime or the host function; on full
    /// success, invoke the host function and convert its result back.
    pub fn call_convert_value(self, rt: &mut Ruby, rb_self: Value, a: Value, b: Value, c: Value, d: Value) -> (r: Result<Value, Error>)
        requires
            old(rt).wf(),
            old(rt).has_room(),
            old(rt).wf_value(rb_self),
            !is_undef_raw(rb_self.spec_raw()),
            old(rt).wf_value(a),
            !is_undef_raw(a.spec_raw()),
            old(rt).wf_value(b),
            !is_undef_raw(b.spec_raw()),
            old(rt).wf_value(c),
            !is_undef_raw(c.spec_raw()),
            old(rt).wf_value(d),
            !is_undef_raw(d.spec_raw()),
            forall|s: RbSelf, xa: A, xb: B, xc: C, xd: D| call_requires(self.spec_func(), (s, xa, xb, xc, xd)),
            forall|s: RbSelf, xa: A, xb: B, xc: C, xd: D, res: Res| #[trigger] call_ensures(self.spec_func(), (s, xa, xb, xc, xd), res) ==> res.ret_wf(&*old(rt)),
        ensures
            final(rt).wf(),
            extends(&*old(rt), &*final(rt)),
            (r matches Ok(v) ==> final(rt).wf_value(v)),
            (!converts::<RbSelf>(&*old(rt), rb_self) ==> *final(rt) == *old(rt) && (r matches Err(err)
                && RbSelf::convert_rel(&*old(rt), rb_self, Err(err)))),
            (converts::<RbSelf>(&*old(rt), rb_self) && !converts::<A>(&*old(rt), a)
                ==> *final(rt) == *old(rt) && (r matches Err(err) && A::convert_rel(
                &*old(rt),
                a,
                Err(err),
            ))),
            (converts::<RbSelf>(&*old(rt), rb_self) && converts::<A>(&*old(rt), a) && !converts::<B>(&*old(rt), b)
                ==> *final(rt) == *old(rt) && (r matches Err(err) && B::convert_rel(
                &*old(rt),
                b,
                Err(err),
            ))),
            (converts::<RbSelf>(&*old(rt), rb_self) && converts::<A>(&*old(rt), a) && converts::<B>(&*old(rt), b) && !converts::<C>(&*old(rt), c)
                ==> *final(rt) == *old(rt) && (r matches Err(err) && C::convert_rel(
                &*old(rt),
                c,
                Err(err),
            ))),
            (converts::<RbSelf>(&*old(rt), rb_self) && converts::<A>(&*old(rt), a) && converts::<B>(&*old(rt), b) && converts::<C>(&*old(rt), c) && !converts::<D>(&*old(rt), d)
                ==> *final(rt) == *old(rt) && (r matches Err(err) && D::convert_rel(
                &*old(rt),
                d,
                Err(err),
            ))),
            (converts::<RbSelf>(&*old(rt), rb_self) && converts::<A>(&*old(rt), a) && converts::<B>(&*old(rt), b) && converts::<C>(&*old(rt), c) && converts::<D>(&*old(rt), d) ==> exists|s: RbSelf, xa: A, xb: B, xc: C, xd: D, res: Res|
                RbSelf::convert_rel(&*old(rt), rb_self, Ok(s)) && A::convert_rel(&*old(rt), a, Ok(xa)) && B::convert_rel(&*old(rt), b, Ok(xb)) && C::convert_rel(&*old(rt), c, Ok(xc)) && D::convert_rel(&*old(rt), d, Ok(xd)) && #[trigger] call_ensures(self.spec_func(), (s, xa, xb, xc, xd), res)
                && res.ret_rel(*old(rt), *final(rt), r)),
    {
        let s: RbSelf = match RbSelf::try_convert(&*rt, rb_self) {
            Ok(s) => s,
            Err(err) => {
                proof {
                    assert forall|x: RbSelf| !RbSelf::convert_rel(
                        &*old(rt),
                        rb_self,
                        Ok(x),
                    ) by {
                        RbSelf::lemma_convert_exclusive(&*old(rt), rb_self, x, err);
                    }
                    assert(rt.heap@.subrange(0, old(rt).heap@.len() as int) =~= old(rt).heap@);
                }
                return Err(err);
            },
        };
        let xa: A = match A::try_convert(&*rt, a) {
            Ok(x) => x,
            Err(err) => {
                proof {
                    assert forall|x: A| !A::convert_rel(&*old(rt), a, Ok(x)) by {
                        A::lemma_convert_exclusive(&*old(rt), a, x, err);
                    }
                    assert(rt.heap@.subrange(0, old(rt).heap@.len() as int) =~= old(rt).heap@);
                }
                return Err(err);
            },
        };
        let xb: B = match B::try_convert(&*rt, b) {
            Ok(x) => x,
            Err(err) => {
                proof {
                    assert forall|x: B| !B::convert_rel(&*old(rt), b, Ok(x)) by {
                        B::lemma_convert_exclusive(&*old(rt), b, x, err);
                    }
                    assert(rt.heap@.subrange(0, old(rt).heap@.len() as int) =~= old(rt).heap@);
                }
                return Err(err);
            },
        };
        let xc: C = match C::try_convert(&*rt, c) {
            Ok(x) => x,
            Err(err) => {
                proof {
                    assert forall|x: C| !C::convert_rel(&*old(rt), c, Ok(x)) by {
                        C::lemma_convert_exclusive(&*old(rt), c, x, err);
                    }
                    assert(rt.heap@.subrange(0, old(rt).heap@.len() as int) =~= old(rt).heap@);
                }
                return Err(err);
            },
        };
        let xd: D = match D::try_convert(&*rt, d) {
            Ok(x) => x,
            Err(err) => {
                proof {
                    assert forall|x: D| !D::convert_rel(&*old(rt), d, Ok(x)) by {
                        D::lemma_convert_exclusive(&*old(rt), d, x, err);
                    }
                    assert(rt.heap@.subrange(0, old(rt).heap@.len() as int) =~= old(rt).heap@);
                }
                return Err(err);
            },
        };
        proof {
            assert(call_requires(self.spec_func(), (s, xa, xb, xc, xd)));
        }
        let res: Res = (self.func)(s, xa, xb, xc, xd);
        proof {
            assert(call_ensures(self.spec_func(), (s, xa, xb, xc, xd), res));
        }
        res.into_return_value(rt)
    }

    /// As `call_convert_value`, but decide what crosses back to the runtime:
    /// the value, or a raise carrying the error.
    pub fn call_handle_error(self, rt: &mut Ruby, rb_self: Value, a: Value, b: Value, c: Value, d: Value) -> (done: Completion)
        requires
            old(rt).wf(),
            old(rt).has_room(),
            old(rt).wf_value(rb_self),
            !is_undef_raw(rb_self.spec_raw()),
            old(rt).wf_value(a),
            !is_undef_raw(a.spec_raw()),
            old(rt).wf_value(b),
            !is_undef_raw(b.spec_raw()),
            old(rt).wf_value(c),
            !is_undef_raw(c.spec_raw()),
            old(rt).wf_value(d),
            !is_undef_raw(d.spec_raw()),
            forall|s: RbSelf, xa: A, xb: B, xc: C, xd: D| call_requires(self.spec_func(), (s, xa, xb, xc, xd)),
            forall|s: RbSelf, xa: A, xb: B, xc: C, xd: D, res: Res| #[trigger] call_ensures(self.spec_func(), (s, xa, xb, xc, xd), res) ==> res.ret_wf(&*old(rt)),
        ensures
            final(rt).wf(),
            extends(&*old(rt), &*final(rt)),
            (done matches Completion::Return(v) ==> final(rt).wf_value(v)),
            (!converts::<RbSelf>(&*old(rt), rb_self) ==> *final(rt) == *old(rt) && (done matches Completion::Raise(
                e,
            ) && RbSelf::convert_rel(&*old(rt), rb_self, Err(e)))),
            (converts::<RbSelf>(&*old(rt), rb_self) && !converts::<A>(&*old(rt), a)
                ==> *final(rt) == *old(rt) && (done matches Completion::Raise(err) && A::convert_rel(
                &*old(rt),
                a,
                Err(err),
            ))),
            (converts::<RbSelf>(&*old(rt), rb_self) && converts::<A>(&*old(rt), a) && !converts::<B>(&*old(rt), b)
                ==> *final(rt) == *old(rt) && (done matches Completion::Raise(err) && B::convert_rel(
                &*old(rt),
                b,
                Err(err),
            ))),
            (converts::<RbSelf>(&*old(rt), rb_self) && converts::<A>(&*old(rt), a) && converts::<B>(&*old(rt), b) && !converts::<C>(&*old(rt), c)
                ==> *final(rt) == *old(rt) && (done matches Completion::Raise(err) && C::convert_rel(
                &*old(rt),
                c,
                Err(err),
            ))),
            (converts::<RbSelf>(&*old(rt), rb_self) && converts::<A>(&*old(rt), a) && converts::<B>(&*old(rt), b) && converts::<C>(&*old(rt), c) && !converts::<D>(&*old(rt), d)
                ==> *final(rt) == *old(rt) && (done matches Completion::Raise(err) && D::convert_rel(
                &*old(rt),
                d,
                Err(err),
            ))),
            (converts::<RbSelf>(&*old(rt), rb_self) && converts::<A>(&*old(rt), a) && converts::<B>(&*old(rt), b) && converts::<C>(&*old(rt), c) && converts::<D>(&*old(rt), d) ==> exists|s: RbSelf, xa: A, xb: B, xc: C, xd: D, res: Res|
                RbSelf::convert_rel(&*old(rt), rb_self, Ok(s)) && A::convert_rel(&*old(rt), a, Ok(xa)) && B::convert_rel(&*old(rt), b, Ok(xb)) && C::convert_rel(&*old(rt), c, Ok(xc)) && D::convert_rel(&*old(rt), d, Ok(xd)) && #[trigger] call_ensures(self.spec_func(), (s, xa, xb, xc, xd), res)
                && res.ret_rel(*old(rt), *final(rt), completion_result(done))),
    {
        match self.call_convert_value(rt, rb_self, a, b, c, d) {
            Ok(v) => Completion::Return(v),
            Err(e) => Completion::Raise(e),
        }
    }
}

/// The adapter for a native callable taking self and 5 arguments.
pub struct Method5<Func, RbSelf, A, B, C, D, E, Res> {
    func: Func,
    rb_self: PhantomData<RbSelf>,
    a: PhantomData<A>,
    b: PhantomData<B>,
    c: PhantomData<C>,
    d: PhantomData<D>,
    e: PhantomData<E>,
    res: PhantomData<Res>,
}

impl<Func, RbSelf, A, B, C, D, E, Res> Method5<Func, RbSelf, A, B, C, D, E, Res> where Func: Fn(RbSelf, A, B, C, D, E) -> Res, RbSelf: TryConvert, A: TryConvert, B: TryConvert, C: TryConvert, D: TryConvert, E: TryConvert, Res: ReturnValue {
    /// The wrapped host function, for specifications.
    pub closed spec fn spec_func(&self) -> Func {
        self.func
    }

    pub fn new(func: Func) -> (m: Self)
        ensures
            m.spec_func() == func,
    {
        Method5 {
            func,
            rb_self: PhantomData,
            a: PhantomData,
            b: PhantomData,
            c: PhantomData,
            d: PhantomData,
            e: PhantomData,
            res: PhantomData,
        }
    }

    /// Convert self and the arguments left to right, stopping at the first
    /// failure without touching the runtime or the host function; on full
    /// success, invoke the host function and convert its result back.
    pub fn call_convert_value(self, rt: &mut Ruby, rb_self: Value, a: Value, b: Value, c: Value, d: Value, e: Value) -> (r: Result<Value, Error>)
        requires
            old(rt).wf(),
            old(rt).has_room(),
            old(rt).wf_value(rb_self),
            !is_undef_raw(rb_self.spec_raw()),
            old(rt).wf_value(a),
            !is_undef_raw(a.spec_raw()),
            old(rt).wf_value(b),
            !is_undef_raw(b.spec_raw()),
            old(rt).wf_value(c),
            !is_undef_raw(c.spec_raw()),
            old(rt).wf_value(d),
            !is_undef_raw(d.spec_raw()),
            old(rt).wf_value(e),
            !is_undef_raw(e.spec_raw()),
            forall|s: RbSelf, xa: A, xb: B, xc: C, xd: D, xe: E| call_requires(self.spec_func(), (s, xa, xb, xc, xd, xe)),
            forall|s: RbSelf, xa: A, xb: B, xc: C, xd: D, xe: E, res: Res| #[trigger] call_ensures(self.spec_func(), (s, xa, xb, xc, xd, xe), res) ==> res.ret_wf(&*old(rt)),
        ensures
            final(rt).wf(),
            extends(&*old(rt), &*final(rt)),
            (r matches Ok(v) ==> final(rt).wf_value(v)),
            (!converts::<RbSelf>(&*old(rt), rb_self) ==> *final(rt) == *old(rt) && (r matches Err(err)
                && RbSelf::convert_rel(&*old(rt), rb_self, Err(err)))),
            (converts::<RbSelf>(&*old(rt), rb_self) && !converts::<A>(&*old(rt), a)
                ==> *final(rt) == *old(rt) && (r matches Err(err) && A::convert_rel(
                &*old(rt),
                a,
                Err(err),
            ))),
            (converts::<RbSelf>(&*old(rt), rb_self) && converts::<A>(&*old(rt), a) && !converts::<B>(&*old(rt), b)
                ==> *final(rt) == *old(rt) && (r matches Err(err) && B::convert_rel(
                &*old(rt),
                b,
                Err(err),
            ))),
            (converts::<RbSelf>(&*old(rt), rb_self) && converts::<A>(&*old(rt), a) && converts::<B>(&*old(rt), b) && !converts::<C>(&*old(rt), c)
                ==> *final(rt) == *old(rt) && (r matches Err(err) && C::convert_rel(
                &*old(rt),
                c,
                Err(err),
            ))),
            (converts::<RbSelf>(&*old(rt), rb_self) && converts::<A>(&*old(rt), a) && converts::<B>(&*old(rt), b) && converts::<C>(&*old(rt), c) && !converts::<D>(&*old(rt), d)
                ==> *final(rt) == *old(rt) && (r matches Err(err) && D::convert_rel(
                &*old(rt),
                d,
                Err(err),
            ))),
            (converts::<RbSelf>(&*old(rt), rb_self) && converts::<A>(&*old(rt), a) && converts::<B>(&*old(rt), b) && converts::<C>(&*old(rt), c) && converts::<D>(&*old(rt), d) && !converts::<E>(&*old(rt), e)
                ==> *final(rt) == *old(rt) && (r matches Err(err) && E::convert_rel(
                &*old(rt),
                e,
                Err(err),
            ))),
            (converts::<RbSelf>(&*old(rt), rb_self) && converts::<A>(&*old(rt), a) && converts::<B>(&*old(rt), b) && converts::<C>(&*old(rt), c) && converts::<D>(&*old(rt), d) && converts::<E>(&*old(rt), e) ==> exists|s: RbSelf, xa: A, xb: B, xc: C, xd: D, xe: E, res: Res|
                RbSelf::convert_rel(&*old(rt), rb_self, Ok(s)) && A::convert_rel(&*old(rt), a, Ok(xa)) && B::convert_rel(&*old(rt), b, Ok(xb)) && C::convert_rel(&*old(rt), c, Ok(xc)) && D::convert_rel(&*old(rt), d, Ok(xd)) && E::convert_rel(&*old(rt), e, Ok(xe)) && #[trigger] call_ensures(self.spec_func(), (s, xa, xb, xc, xd, xe), res)
                && res.ret_rel(*old(rt), *final(rt), r)),
    {
        let s: RbSelf = match RbSelf::try_convert(&*rt, rb_self) {
            Ok(s) => s,
            Err(err) => {
                proof {
                    assert forall|x: RbSelf| !RbSelf::convert_rel(
                        &*old(rt),
                        rb_self,
                        Ok(x),
                    ) by {
                        RbSelf::lemma_convert_exclusive(&*old(rt), rb_self, x, err);
                    }
                    assert(rt.heap@.subrange(0, old(rt).heap@.len() as int) =~= old(rt).heap@);
                }
                return Err(err);
            },
        };
        let xa: A = match A::try_convert(&*rt, a) {
            Ok(x) => x,
            Err(err) => {
                proof {
                    assert forall|x: A| !A::convert_rel(&*old(rt), a, Ok(x)) by {
                        A::lemma_convert_exclusive(&*old(rt), a, x, err);
                    }
                    assert(rt.heap@.subrange(0, old(rt).heap@.len() as int) =~= old(rt).heap@);
                }
                return Err(err);
            },
        };
        let xb: B = match B::try_convert(&*rt, b) {
            Ok(x) => x,
            Err(err) => {
                proof {
                    assert forall|x: B| !B::convert_rel(&*old(rt), b, Ok(x)) by {
                        B::lemma_convert_exclusive(&*old(rt), b, x, err);
                    }
                    assert(rt.heap@.subrange(0, old(rt).heap@.len() as int) =~= old(rt).heap@);
                }
                return Err(err);
            },
        };
        let xc: C = match C::try_convert(&*rt, c) {
            Ok(x) => x,
            Err(err) => {
                proof {
                    assert forall|x: C| !C::convert_rel(&*old(rt), c, Ok(x)) by {
                        C::lemma_convert_exclusive(&*old(rt), c, x, err);
                    }
                    assert(rt.heap@.subrange(0, old(rt).heap@.len() as int) =~= old(rt).heap@);
                }
                return Err(err);
            },
        };
        let xd: D = match D::try_convert(&*rt, d) {
            Ok(x) => x,
            Err(err) => {
                proof {
                    assert forall|x: D| !D::convert_rel(&*old(rt), d, Ok(x)) by {
                        D::lemma_convert_exclusive(&*old(rt), d, x, err);
                    }
                    assert(rt.heap@.subrange(0, old(rt).heap@.len() as int) =~= old(rt).heap@);
                }
                return Err(err);
            },
        };
        let xe: E = match E::try_convert(&*rt, e) {
            Ok(x) => x,
            Err(err) => {
                proof {
                    assert forall|x: E| !E::convert_rel(&*old(rt), e, Ok(x)) by {
                        E::lemma_convert_exclusive(&*old(rt), e, x, err);
                    }
                    assert(rt.heap@.subrange(0, old(rt).heap@.len() as int) =~= old(rt).heap@);
                }
                return Err(err);
            },
        };
        proof {
            assert(call_requires(self.spec_func(), (s, xa, xb, xc, xd, xe)));
        }
        let res: Res = (self.func)(s, xa, xb, xc, xd, xe);
        proof {
            assert(call_ensures(self.spec_func(), (s, xa, xb, xc, xd, xe), res));
        }
        res.into_return_value(rt)
    }

    /// As `call_convert_value`, but decide what crosses back to the runtime:
    /// the value, or a raise carrying the error.
    pub fn call_handle_error(self, rt: &mut Ruby, rb_self: Value, a: Value, b: Value, c: Value, d: Value, e: Value) -> (done: Completion)
        requires
            old(rt).wf(),
            old(rt).has_room(),
            old(rt).wf_value(rb_self),
            !is_undef_raw(rb_self.spec_raw()),
            old(rt).wf_value(a),
            !is_undef_raw(a.spec_raw()),
            old(rt).wf_value(b),
            !is_undef_raw(b.spec_raw()),
            old(rt).wf_value(c),
            !is_undef_raw(c.spec_raw()),
            old(rt).wf_value(d),
            !is_undef_raw(d.spec_raw()),
            old(rt).wf_value(e),
            !is_undef_raw(e.spec_raw()),
            forall|s: RbSelf, xa: A, xb: B, xc: C, xd: D, xe: E| call_requires(self.spec_func(), (s, xa, xb, xc, xd, xe)),
            forall|s: RbSelf, xa: A, xb: B, xc: C, xd: D, xe: E, res: Res| #[trigger] call_ensures(self.spec_func(), (s, xa, xb, xc, xd, xe), res) ==> res.ret_wf(&*old(rt)),
        ensures
            final(rt).wf(),
            extends(&*old(rt), &*final(rt)),
            (done matches Completion::Return(v) ==> final(rt).wf_value(v)),
            (!converts::<RbSelf>(&*old(rt), rb_self) ==> *final(rt) == *old(rt) && (done matches Completion::Raise(
                e,
            ) && RbSelf::convert_rel(&*old(rt), rb_self, Err(e)))),
            (converts::<RbSelf>(&*old(rt), rb_self) && !converts::<A>(&*old(rt), a)
                ==> *final(rt) == *old(rt) && (done matches Completion::Raise(err) && A::convert_rel(
                &*old(rt),
                a,
                Err(err),
            ))),
            (converts::<RbSelf>(&*old(rt), rb_self) && converts::<A>(&*old(rt), a) && !converts::<B>(&*old(rt), b)
                ==> *final(rt) == *old(rt) && (done matches Completion::Raise(err) && B::convert_rel(
                &*old(rt),
                b,
                Err(err),
            ))),
            (converts::<RbSelf>(&*old(rt), rb_self) && converts::<A>(&*old(rt), a) && converts::<B>(&*old(rt), b) && !converts::<C>(&*old(rt), c)
                ==> *final(rt) == *old(rt) && (done matches Completion::Raise(err) && C::convert_rel(
                &*old(rt),
                c,
                Err(err),
            ))),
            (converts::<RbSelf>(&*old(rt), rb_self) && converts::<A>(&*old(rt), a) && converts::<B>(&*old(rt), b) && converts::<C>(&*old(rt), c) && !converts::<D>(&*old(rt), d)
                ==> *final(rt) == *old(rt) && (done matches Completion::Raise(err) && D::convert_rel(
                &*old(rt),
                d,
                Err(err),
            ))),
            (converts::<RbSelf>(&*old(rt), rb_self) && converts::<A>(&*old(rt), a) && converts::<B>(&*old(rt), b) && converts::<C>(&*old(rt), c) && converts::<D>(&*old(rt), d) && !converts::<E>(&*old(rt), e)
                ==> *final(rt) == *old(rt) && (done matches Completion::Raise(err) && E::convert_rel(
                &*old(rt),
                e,
                Err(err),
            ))),
            (converts::<RbSelf>(&*old(rt), rb_self) && converts::<A>(&*old(rt), a) && converts::<B>(&*old(rt), b) && converts::<C>(&*old(rt), c) && converts::<D>(&*old(rt), d) && converts::<E>(&*old(rt), e) ==> exists|s: RbSelf, xa: A, xb: B, xc: C, xd: D, xe: E, res: Res|
                RbSelf::convert_rel(&*old(rt), rb_self, Ok(s)) && A::convert_rel(&*old(rt), a, Ok(xa)) && B::convert_rel(&*old(rt), b, Ok(xb)) && C::convert_rel(&*old(rt), c, Ok(xc)) && D::convert_rel(&*old(rt), d, Ok(xd)) && E::convert_rel(&*old(rt), e, Ok(xe)) && #[trigger] call_ensures(self.spec_func(), (s, xa, xb, xc, xd, xe), res)
                && res.ret_rel(*old(rt), *final(rt), completion_result(done))),
    {
        match self.call_convert_value(rt, rb_self, a, b, c, d, e) {
            Ok(v) => Completion::Return(v),
            Err(e) => Completion::Raise(e),
        }
    }
}

/// The adapter for a native callable taking self and 6 arguments.
pub struct Method6<Func, RbSelf, A, B, C, D, E, F, Res> {
    func: Func,
    rb_self: PhantomData<RbSelf>,
    a: PhantomData<A>,
    b: PhantomData<B>,
    c: PhantomData<C>,
    d: PhantomData<D>,
    e: PhantomData<E>,
    f: PhantomData<F>,
    res: PhantomData<Res>,
}

impl<Func, RbSelf, A, B, C, D, E, F, Res> Method6<Func, RbSelf, A, B, C, D, E, F, Res> where Func: Fn(RbSelf, A, B, C, D, E, F) -> Res, RbSelf: TryConvert, A: TryConvert, B: TryConvert, C: TryConvert, D: TryConvert, E: TryConvert, F: TryConvert, Res: ReturnValue {
    /// The wrapped host function, for specifications.
    pub closed spec fn spec_func(&self) -> Func {
        self.func
    }

    pub fn new(func: Func) -> (m: Self)
        ensures
            m.spec_func() == func,
    {
        Method6 {
            func,
            rb_self: PhantomData,
            a: PhantomData,
            b: PhantomData,
            c: PhantomData,
            d: PhantomData,
            e: PhantomData,
            f: PhantomData,
            res: PhantomData,
        }
    }

    /// Convert self and the arguments left to right, stopping at the first
    /// failure without touching the runtime or the host function; on full
    /// success, invoke the host function and convert its result back.
    pub fn call_convert_value(self, rt: &mut Ruby, rb_self: Value, a: Value, b: Value, c: Value, d: Value, e: Value, f: Value) -> (r: Result<Value, Error>)
        requires
            old(rt).wf(),
            old(rt).has_room(),
            old(rt).wf_value(rb_self),
            !is_undef_raw(rb_self.spec_raw()),
            old(rt).wf_value(a),
            !is_undef_raw(a.spec_raw()),
            old(rt).wf_value(b),
            !is_undef_raw(b.spec_raw()),
            old(rt).wf_value(c),
            !is_undef_raw(c.spec_raw()),
            old(rt).wf_value(d),
            !is_undef_raw(d.spec_raw()),
            old(rt).wf_value(e),
            !is_undef_raw(e.spec_raw()),
            old(rt).wf_value(f),
            !is_undef_raw(f.spec_raw()),
            forall|s: RbSelf, xa: A, xb: B, xc: C, xd: D, xe: E, xf: F| call_requires(self.spec_func(), (s, xa, xb, xc, xd, xe, xf)),
            forall|s: RbSelf, xa: A, xb: B, xc: C, xd: D, xe: E, xf: F, res: Res| #[trigger] call_ensures(self.spec_func(), (s, xa, xb, xc, xd, xe, xf), res) ==> res.ret_wf(&*old(rt)),
        ensures
            final(rt).wf(),
            extends(&*old(rt), &*final(rt)),
            (r matches Ok(v) ==> final(rt).wf_value(v)),
            (!converts::<RbSelf>(&*old(rt), rb_self) ==> *final(rt) == *old(rt) && (r matches Err(err)
                && RbSelf::convert_rel(&*old(rt), rb_self, Err(err)))),
            (converts::<RbSelf>(&*old(rt), rb_self) && !converts::<A>(&*old(rt), a)
                ==> *final(rt) == *old(rt) && (r matches Err(err) && A::convert_rel(
                &*old(rt),
                a,
                Err(err),
            ))),
            (converts::<RbSelf>(&*old(rt), rb_self) && converts::<A>(&*old(rt), a) && !converts::<B>(&*old(rt), b)
                ==> *final(rt) == *old(rt) && (r matches Err(err) && B::convert_rel(
                &*old(rt),
                b,
                Err(err),
            ))),
            (converts::<RbSelf>(&*old(rt), rb_self) && converts::<A>(&*old(rt), a) && converts::<B>(&*old(rt), b) && !converts::<C>(&*old(rt), c)
                ==> *final(rt) == *old(rt) && (r matches Err(err) && C::convert_rel(
                &*old(rt),
                c,
                Err(err),
            ))),
            (converts::<RbSelf>(&*old(rt), rb_self) && converts::<A>(&*old(rt), a) && converts::<B>(&*old(rt), b) && converts::<C>(&*old(rt), c) && !converts::<D>(&*old(rt), d)
                ==> *final(rt) == *old(rt) && (r matches Err(err) && D::convert_rel(
                &*old(rt),
                d,
                Err(err),
            ))),
            (converts::<RbSelf>(&*old(rt), rb_self) && converts::<A>(&*old(rt), a) && converts::<B>(&*old(rt), b) && converts::<C>(&*old(rt), c) && converts::<D>(&*old(rt), d) && !converts::<E>(&*old(rt), e)
                ==> *final(rt) == *old(rt) && (r matches Err(err) && E::convert_rel(
                &*old(rt),
                e,
                Err(err),
            ))),
            (converts::<RbSelf>(&*old(rt), rb_self) && converts::<A>(&*old(rt), a) && converts::<B>(&*old(rt), b) && converts::<C>(&*old(rt), c) && converts::<D>(&*old(rt), d) && converts::<E>(&*old(rt), e) && !converts::<F>(&*old(rt), f)
                ==> *final(rt) == *old(rt) && (r matches Err(err) && F::convert_rel(
                &*old(rt),
                f,
                Err(err),
            ))),
            (converts::<RbSelf>(&*old(rt), rb_self) && converts::<A>(&*old(rt), a) && converts::<B>(&*old(rt), b) && converts::<C>(&*old(rt), c) && converts::<D>(&*old(rt), d) && converts::<E>(&*old(rt), e) && converts::<F>(&*old(rt), f) ==> exists|s: RbSelf, xa: A, xb: B, xc: C, xd: D, xe: E, xf: F, res: Res|
                RbSelf::convert_rel(&*old(rt), rb_self, Ok(s)) && A::convert_rel(&*old(rt), a, Ok(xa)) && B::convert_rel(&*old(rt), b, Ok(xb)) && C::convert_rel(&*old(rt), c, Ok(xc)) && D::convert_rel(&*old(rt), d, Ok(xd)) && E::convert_rel(&*old(rt), e, Ok(xe)) && F::convert_rel(&*old(rt), f, Ok(xf)) && #[trigger] call_ensures(self.spec_func(), (s, xa, xb, xc, xd, xe, xf), res)
                && res.ret_rel(*old(rt), *final(rt), r)),
    {
        let s: RbSelf = match RbSelf::try_convert(&*rt, rb_self) {
            Ok(s) => s,
            Err(err) => {
                proof {
                    assert forall|x: RbSelf| !RbSelf::convert_rel(
                        &*old(rt),
                        rb_self,
                        Ok(x),
                    ) by {
                        RbSelf::lemma_convert_exclusive(&*old(rt), rb_self, x, err);
                    }
                    assert(rt.heap@.subrange(0, old(rt).heap@.len() as int) =~= old(rt).heap@);
                }
                return Err(err);
            },
        };
        let xa: A = match A::try_convert(&*rt, a) {
            Ok(x) => x,
            Err(err) => {
                proof {
                    assert forall|x: A| !A::convert_rel(&*old(rt), a, Ok(x)) by {
                        A::lemma_convert_exclusive(&*old(rt), a, x, err);
                    }
                    assert(rt.heap@.subrange(0, old(rt).heap@.len() as int) =~= old(rt).heap@);
                }
                return Err(err);
            },
        };
        let xb: B = match B::try_convert(&*rt, b) {
            Ok(x) => x,
            Err(err) => {
                proof {
                    assert forall|x: B| !B::convert_rel(&*old(rt), b, Ok(x)) by {
                        B::lemma_convert_exclusive(&*old(rt), b, x, err);
                    }
                    assert(rt.heap@.subrange(0, old(rt).heap@.len() as int) =~= old(rt).heap@);
                }
                return Err(err);
            },
        };
        let xc: C = match C::try_convert(&*rt, c) {
            Ok(x) => x,
            Err(err) => {
                proof {
                    assert forall|x: C| !C::convert_rel(&*old(rt), c, Ok(x)) by {
                        C::lemma_convert_exclusive(&*old(rt), c, x, err);
                    }
                    assert(rt.heap@.subrange(0, old(rt).heap@.len() as int) =~= old(rt).heap@);
                }
                return Err(err);
            },
        };
        let xd: D = match D::try_convert(&*rt, d) {
            Ok(x) => x,
            Err(err) => {
                proof {
                    assert forall|x: D| !D::convert_rel(&*old(rt), d, Ok(x)) by {
                        D::lemma_convert_exclusive(&*old(rt), d, x, err);
                    }
                    assert(rt.heap@.subrange(0, old(rt).heap@.len() as int) =~= old(rt).heap@);
                }
                return Err(err);
            },
        };
        let xe: E = match E::try_convert(&*rt, e) {
            Ok(x) => x,
            Err(err) => {
                proof {
                    assert forall|x: E| !E::convert_rel(&*old(rt), e, Ok(x)) by {
                        E::lemma_convert_exclusive(&*old(rt), e, x, err);
                    }
                    assert(rt.heap@.subrange(0, old(rt).heap@.len() as int) =~= old(rt).heap@);
                }
                return Err(err);
            },
        };
        let xf: F = match F::try_convert(&*rt, f) {
            Ok(x) => x,
            Err(err) => {
                proof {
                    assert forall|x: F| !F::convert_rel(&*old(rt), f, Ok(x)) by {
                        F::lemma_convert_exclusive(&*old(rt), f, x, err);
                    }
                    assert(rt.heap@.subrange(0, old(rt).heap@.len() as int) =~= old(rt).heap@);
                }
                return Err(err);
            },
        };
        proof {
            assert(call_requires(self.spec_func(), (s, xa, xb, xc, xd, xe, xf)));
        }
        let res: Res = (self.func)(s, xa, xb, xc, xd, xe, xf);
        proof {
            assert(call_ensures(self.spec_func(), (s, xa, xb, xc, xd, xe, xf), res));
        }
        res.into_return_value(rt)
    }

    /// As `call_convert_value`, but decide what crosses back to the runtime:
    /// the value, or a raise carrying the error.
    pub fn call_handle_error(self, rt: &mut Ruby, rb_self: Value, a: Value, b: Value, c: Value, d: Value, e: Value, f: Value) -> (done: Completion)
        requires
            old(rt).wf(),
            old(rt).has_room(),
            old(rt).wf_value(rb_self),
            !is_undef_raw(rb_self.spec_raw()),
            old(rt).wf_value(a),
            !is_undef_raw(a.spec_raw()),
            old(rt).wf_value(b),
            !is_undef_raw(b.spec_raw()),
            old(rt).wf_value(c),
            !is_undef_raw(c.spec_raw()),
            old(rt).wf_value(d),
            !is_undef_raw(d.spec_raw()),
            old(rt).wf_value(e),
            !is_undef_raw(e.spec_raw()),
            old(rt).wf_value(f),
            !is_undef_raw(f.spec_raw()),
            forall|s: RbSelf, xa: A, xb: B, xc: C, xd: D, xe: E, xf: F| call_requires(self.spec_func(), (s, xa, xb, xc, xd, xe, xf)),
            forall|s: RbSelf, xa: A, xb: B, xc: C, xd: D, xe: E, xf: F, res: Res| #[trigger] call_ensures(self.spec_func(), (s, xa, xb, xc, xd, xe, xf), res) ==> res.ret_wf(&*old(rt)),
        ensures
            final(rt).wf(),
            extends(&*old(rt), &*final(rt)),
            (done matches Completion::Return(v) ==> final(rt).wf_value(v)),
            (!converts::<RbSelf>(&*old(rt), rb_self) ==> *final(rt) == *old(rt) && (done matches Completion::Raise(
                e,
            ) && RbSelf::convert_rel(&*old(rt), rb_self, Err(e)))),
            (converts::<RbSelf>(&*old(rt), rb_self) && !converts::<A>(&*old(rt), a)
                ==> *final(rt) == *old(rt) && (done matches Completion::Raise(err) && A::convert_rel(
                &*old(rt),
                a,
                Err(err),
            ))),
            (converts::<RbSelf>(&*old(rt), rb_self) && converts::<A>(&*old(rt), a) && !converts::<B>(&*old(rt), b)
                ==> *final(rt) == *old(rt) && (done matches Completion::Raise(err) && B::convert_rel(
                &*old(rt),
                b,
                Err(err),
            ))),
            (converts::<RbSelf>(&*old(rt), rb_self) && converts::<A>(&*old(rt), a) && converts::<B>(&*old(rt), b) && !converts::<C>(&*old(rt), c)
                ==> *final(rt) == *old(rt) && (done matches Completion::Raise(err) && C::convert_rel(
                &*old(rt),
                c,
                Err(err),
            ))),
            (converts::<RbSelf>(&*old(rt), rb_self) && converts::<A>(&*old(rt), a) && converts::<B>(&*old(rt), b) && converts::<C>(&*old(rt), c) && !converts::<D>(&*old(rt), d)
                ==> *final(rt) == *old(rt) && (done matches Completion::Raise(err) && D::convert_rel(
                &*old(rt),
                d,
                Err(err),
            ))),
            (converts::<RbSelf>(&*old(rt), rb_self) && converts::<A>(&*old(rt), a) && converts::<B>(&*old(rt), b) && converts::<C>(&*old(rt), c) && converts::<D>(&*old(rt), d) && !converts::<E>(&*old(rt), e)
                ==> *final(rt) == *old(rt) && (done matches Completion::Raise(err) && E::convert_rel(
                &*old(rt),
                e,
                Err(err),
            ))),
            (converts::<RbSelf>(&*old(rt), rb_self) && converts::<A>(&*old(rt), a) && converts::<B>(&*old(rt), b) && converts::<C>(&*old(rt), c) && converts::<D>(&*old(rt), d) && converts::<E>(&*old(rt), e) && !converts::<F>(&*old(rt), f)
                ==> *final(rt) == *old(rt) && (done matches Completion::Raise(err) && F::convert_rel(
                &*old(rt),
                f,
                Err(err),
            ))),
            (converts::<RbSelf>(&*old(rt), rb_self) && converts::<A>(&*old(rt), a) && converts::<B>(&*old(rt), b) && converts::<C>(&*old(rt), c) && converts::<D>(&*old(rt), d) && converts::<E>(&*old(rt), e) && converts::<F>(&*old(rt), f) ==> exists|s: RbSelf, xa: A, xb: B, xc: C, xd: D, xe: E, xf: F, res: Res|
                RbSelf::convert_rel(&*old(rt), rb_self, Ok(s)) && A::convert_rel(&*old(rt), a, Ok(xa)) && B::convert_rel(&*old(rt), b, Ok(xb)) && C::convert_rel(&*old(rt), c, Ok(xc)) && D::convert_rel(&*old(rt), d, Ok(xd)) && E::convert_rel(&*old(rt), e, Ok(xe)) && F::convert_rel(&*old(rt), f, Ok(xf)) && #[trigger] call_ensures(self.spec_func(), (s, xa, xb, xc, xd, xe, xf), res)
                && res.ret_rel(*old(rt), *final(rt), completion_result(done))),
    {
        match self.call_convert_value(rt, rb_self, a, b, c, d, e, f) {
            Ok(v) => Completion::Return(v),
            Err(e) => Completion::Raise(e),
        }
    }
}

/// The adapter for a native callable taking self and 7 arguments.
pub struct Method7<Func, RbSelf, A, B, C, D, E, F, G, Res> {
    func: Func,
    rb_self: PhantomData<RbSelf>,
    a: PhantomData<A>,
    b: PhantomData<B>,
    c: PhantomData<C>,
    d: PhantomData<D>,
    e: PhantomData<E>,
    f: PhantomData<F>,
    g: PhantomData<G>,
    res: PhantomData<Res>,
}

impl<Func, RbSelf, A, B, C, D, E, F, G, Res> Method7<Func, RbSelf, A, B, C, D, E, F, G, Res> where Func: Fn(RbSelf, A, B, C, D, E, F, G) -> Res, RbSelf: TryConvert, A: TryConvert, B: TryConvert, C: TryConvert, D: TryConvert, E: TryConvert, F: TryConvert, G: TryConvert, Res: ReturnValue {
    /// The wrapped host function, for specifications.
    pub closed spec fn spec_func(&self) -> Func {
        self.func
    }

    pub fn new(func: Func) -> (m: Self)
        ensures
            m.spec_func() == func,
    {
        Method7 {
            func,
            rb_self: PhantomData,
            a: PhantomData,
            b: PhantomData,
            c: PhantomData,
            d: PhantomData,
            e: PhantomData,
            f: PhantomData,
            g: PhantomData,
            res: PhantomData,
        }
    }

    /// Convert self and the arguments left to right, stopping at the first
    /// failure without touching the runtime or the host function; on full
    /// success, invoke the host function and convert its result back.
    pub fn call_convert_value(self, rt: &mut Ruby, rb_self: Value, a: Value, b: Value, c: Value, d: Value, e: Value, f: Value, g: Value) -> (r: Result<Value, Error>)
        requires
            old(rt).wf(),
            old(rt).has_room(),
            old(rt).wf_value(rb_self),
            !is_undef_raw(rb_self.spec_raw()),
            old(rt).wf_value(a),
            !is_undef_raw(a.spec_raw()),
            old(rt).wf_value(b),
            !is_undef_raw(b.spec_raw()),
            old(rt).wf_value(c),
            !is_undef_raw(c.spec_raw()),
            old(rt).wf_value(d),
            !is_undef_raw(d.spec_raw()),
            old(rt).wf_value(e),
            !is_undef_raw(e.spec_raw()),
            old(rt).wf_value(f),
            !is_undef_raw(f.spec_raw()),
            old(rt).wf_value(g),
            !is_undef_raw(g.spec_raw()),
            forall|s: RbSelf, xa: A, xb: B, xc: C, xd: D, xe: E, xf: F, xg: G| call_requires(self.spec_func(), (s, xa, xb, xc, xd, xe, xf, xg)),
            forall|s: RbSelf, xa: A, xb: B, xc: C, xd: D, xe: E, xf: F, xg: G, res: Res| #[trigger] call_ensures(self.spec_func(), (s, xa, xb, xc, xd, xe, xf, xg), res) ==> res.ret_wf(&*old(rt)),
        ensures
            final(rt).wf(),
            extends(&*old(rt), &*final(rt)),
            (r matches Ok(v) ==> final(rt).wf_value(v)),
            (!converts::<RbSelf>(&*old(rt), rb_self) ==> *final(rt) == *old(rt) && (r matches Err(err)
                && RbSelf::convert_rel(&*old(rt), rb_self, Err(err)))),
            (converts::<RbSelf>(&*old(rt), rb_self) && !converts::<A>(&*old(rt), a)
                ==> *final(rt) == *old(rt) && (r matches Err(err) && A::convert_rel(
                &*old(rt),
                a,
                Err(err),
            ))),
            (converts::<RbSelf>(&*old(rt), rb_self) && converts::<A>(&*old(rt), a) && !converts::<B>(&*old(rt), b)
                ==> *final(rt) == *old(rt) && (r matches Err(err) && B::convert_rel(
                &*old(rt),
                b,
                Err(err),
            ))),
            (converts::<RbSelf>(&*old(rt), rb_self) && converts::<A>(&*old(rt), a) && converts::<B>(&*old(rt), b) && !converts::<C>(&*old(rt), c)
                ==> *final(rt) == *old(rt) && (r matches Err(err) && C::convert_rel(
                &*old(rt),
                c,
                Err(err),
            ))),
            (converts::<RbSelf>(&*old(rt), rb_self) && converts::<A>(&*old(rt), a) && converts::<B>(&*old(rt), b) && converts::<C>(&*old(rt), c) && !converts::<D>(&*old(rt), d)
                ==> *final(rt) == *old(rt) && (r matches Err(err) && D::convert_rel(
                &*old(rt),
                d,
                Err(err),
            ))),
            (converts::<RbSelf>(&*old(rt), rb_self) && converts::<A>(&*old(rt), a) && converts::<B>(&*old(rt), b) && converts::<C>(&*old(rt), c) && converts::<D>(&*old(rt), d) && !converts::<E>(&*old(rt), e)
                ==> *final(rt) == *old(rt) && (r matches Err(err) && E::convert_rel(
                &*old(rt),
                e,
                Err(err),
            ))),
            (converts::<RbSelf>(&*old(rt), rb_self) && converts::<A>(&*old(rt), a) && converts::<B>(&*old(rt), b) && converts::<C>(&*old(rt), c) && converts::<D>(&*old(rt), d) && converts::<E>(&*old(rt), e) && !converts::<F>(&*old(rt), f)
                ==> *final(rt) == *old(rt) && (r matches Err(err) && F::convert_rel(
                &*old(rt),
                f,
                Err(err),
            ))),
            (converts::<RbSelf>(&*old(rt), rb_self) && converts::<A>(&*old(rt), a) && converts::<B>(&*old(rt), b) && converts::<C>(&*old(rt), c) && converts::<D>(&*old(rt), d) && converts::<E>(&*old(rt), e) && converts::<F>(&*old(rt), f) && !converts::<G>(&*old(rt), g)
                ==> *final(rt) == *old(rt) && (r matches Err(err) && G::convert_rel(
                &*old(rt),
                g,
                Err(err),
            ))),
            (converts::<RbSelf>(&*old(rt), rb_self) && converts::<A>(&*old(rt), a) && converts::<B>(&*old(rt), b) && converts::<C>(&*old(rt), c) && converts::<D>(&*old(rt), d) && converts::<E>(&*old(rt), e) && converts::<F>(&*old(rt), f) && converts::<G>(&*old(rt), g) ==> exists|s: RbSelf, xa: A, xb: B, xc: C, xd: D, xe: E, xf: F, xg: G, res: Res|
                RbSelf::convert_rel(&*old(rt), rb_self, Ok(s)) && A::convert_rel(&*old(rt), a, Ok(xa)) && B::convert_rel(&*old(rt), b, Ok(xb)) && C::convert_rel(&*old(rt), c, Ok(xc)) && D::convert_rel(&*old(rt), d, Ok(xd)) && E::convert_rel(&*old(rt), e, Ok(xe)) && F::convert_rel(&*old(rt), f, Ok(xf)) && G::convert_rel(&*old(rt), g, Ok(xg)) && #[trigger] call_ensures(self.spec_func(), (s, xa, xb, xc, xd, xe, xf, xg), res)
                && res.ret_rel(*old(rt), *final(rt), r)),
    {
        let s: RbSelf = match RbSelf::try_convert(&*rt, rb_self) {
            Ok(s) => s,
            Err(err) => {
                proof {
                    assert forall|x: RbSelf| !RbSelf::convert_rel(
                        &*old(rt),
                        rb_self,
                        Ok(x),
                    ) by {
                        RbSelf::lemma_convert_exclusive(&*old(rt), rb_self, x, err);
                    }
                    assert(rt.heap@.subrange(0, old(rt).heap@.len() as int) =~= old(rt).heap@);
                }
                return Err(err);
            },
        };
        let xa: A = match A::try_convert(&*rt, a) {
            Ok(x) => x,
            Err(err) => {
                proof {
                    assert forall|x: A| !A::convert_rel(&*old(rt), a, Ok(x)) by {
                        A::lemma_convert_exclusive(&*old(rt), a, x, err);
                    }
                    assert(rt.heap@.subrange(0, old(rt).heap@.len() as int) =~= old(rt).heap@);
                }
                return Err(err);
            },
        };
        let xb: B = match B::try_convert(&*rt, b) {
            Ok(x) => x,
            Err(err) => {
                proof {
                    assert forall|x: B| !B::convert_rel(&*old(rt), b, Ok(x)) by {
                        B::lemma_convert_exclusive(&*old(rt), b, x, err);
                    }
                    assert(rt.heap@.subrange(0, old(rt).heap@.len() as int) =~= old(rt).heap@);
                }
                return Err(err);
            },
        };
        let xc: C = match C::try_convert(&*rt, c) {
            Ok(x) => x,
            Err(err) => {
                proof {
                    assert forall|x: C| !C::convert_rel(&*old(rt), c, Ok(x)) by {
                        C::lemma_convert_exclusive(&*old(rt), c, x, err);
                    }
                    assert(rt.heap@.subrange(0, old(rt).heap@.len() as int) =~= old(rt).heap@);
                }
                return Err(err);
            },
        };
        let xd: D = match D::try_convert(&*rt, d) {
            Ok(x) => x,
            Err(err) => {
                proof {
                    assert forall|x: D| !D::convert_rel(&*old(rt), d, Ok(x)) by {
                        D::lemma_convert_exclusive(&*old(rt), d, x, err);
                    }
                    assert(rt.heap@.subrange(0, old(rt).heap@.len() as int) =~= old(rt).heap@);
                }
                return Err(err);
            },
        };
        let xe: E = match E::try_convert(&*rt, e) {
            Ok(x) => x,
            Err(err) => {
                proof {
                    assert forall|x: E| !E::convert_rel(&*old(rt), e, Ok(x)) by {
                        E::lemma_convert_exclusive(&*old(rt), e, x, err);
                    }
                    assert(rt.heap@.subrange(0, old(rt).heap@.len() as int) =~= old(rt).heap@);
                }
                return Err(err);
            },
        };
        let xf: F = match F::try_convert(&*rt, f) {
            Ok(x) => x,
            Err(err) => {
                proof {
                    assert forall|x: F| !F::convert_rel(&*old(rt), f, Ok(x)) by {
                        F::lemma_convert_exclusive(&*old(rt), f, x, err);
                    }
                    assert(rt.heap@.subrange(0, old(rt).heap@.len() as int) =~= old(rt).heap@);
                }
                return Err(err);
            },
        };
        let xg: G = match G::try_convert(&*rt, g) {
            Ok(x) => x,
            Err(err) => {
                proof {
                    assert forall|x: G| !G::convert_rel(&*old(rt), g, Ok(x)) by {
                        G::lemma_convert_exclusive(&*old(rt), g, x, err);
                    }
                    assert(rt.heap@.subrange(0, old(rt).heap@.len() as int) =~= old(rt).heap@);
                }
                return Err(err);
            },
        };
        proof {
            assert(call_requires(self.spec_func(), (s, xa, xb, xc, xd, xe, xf, xg)));
        }
        let res: Res = (self.func)(s, xa, xb, xc, xd, xe, xf, xg);
        proof {
            assert(call_ensures(self.spec_func(), (s, xa, xb, xc, xd, xe, xf, xg), res));
        }
        res.into_return_value(rt)
    }

    /// As `call_convert_value`, but decide what crosses back to the runtime:
    /// the value, or a raise carrying the error.
    pub fn call_handle_error(self, rt: &mut Ruby, rb_self: Value, a: Value, b: Value, c: Value, d: Value, e: Value, f: Value, g: Value) -> (done: Completion)
        requires
            old(rt).wf(),
            old(rt).has_room(),
            old(rt).wf_value(rb_self),
            !is_undef_raw(rb_self.spec_raw()),
            old(rt).wf_value(a),
            !is_undef_raw(a.spec_raw()),
            old(rt).wf_value(b),
            !is_undef_raw(b.spec_raw()),
            old(rt).wf_value(c),
            !is_undef_raw(c.spec_raw()),
            old(rt).wf_value(d),
            !is_undef_raw(d.spec_raw()),
            old(rt).wf_value(e),
            !is_undef_raw(e.spec_raw()),
            old(rt).wf_value(f),
            !is_undef_raw(f.spec_raw()),
            old(rt).wf_value(g),
            !is_undef_raw(g.spec_raw()),
            forall|s: RbSelf, xa: A, xb: B, xc: C, xd: D, xe: E, xf: F, xg: G| call_requires(self.spec_func(), (s, xa, xb, xc, xd, xe, xf, xg)),
            forall|s: RbSelf, xa: A, xb: B, xc: C, xd: D, xe: E, xf: F, xg: G, res: Res| #[trigger] call_ensures(self.spec_func(), (s, xa, xb, xc, xd, xe, xf, xg), res) ==> res.ret_wf(&*old(rt)),
        ensures
            final(rt).wf(),
            extends(&*old(rt), &*final(rt)),
            (done matches Completion::Return(v) ==> final(rt).wf_value(v)),
            (!converts::<RbSelf>(&*old(rt), rb_self) ==> *final(rt) == *old(rt) && (done matches Completion::Raise(
                e,
            ) && RbSelf::convert_rel(&*old(rt), rb_self, Err(e)))),
            (converts::<RbSelf>(&*old(rt), rb_self) && !converts::<A>(&*old(rt), a)
                ==> *final(rt) == *old(rt) && (done matches Completion::Raise(err) && A::convert_rel(
                &*old(rt),
                a,
                Err(err),
            ))),
            (converts::<RbSelf>(&*old(rt), rb_self) && converts::<A>(&*old(rt), a) && !converts::<B>(&*old(rt), b)
                ==> *final(rt) == *old(rt) && (done matches Completion::Raise(err) && B::convert_rel(
                &*old(rt),
                b,
                Err(err),
            ))),
            (converts::<RbSelf>(&*old(rt), rb_self) && converts::<A>(&*old(rt), a) && converts::<B>(&*old(rt), b) && !converts::<C>(&*old(rt), c)
                ==> *final(rt) == *old(rt) && (done matches Completion::Raise(err) && C::convert_rel(
                &*old(rt),
                c,
                Err(err),
            ))),
            (converts::<RbSelf>(&*old(rt), rb_self) && converts::<A>(&*old(rt), a) && converts::<B>(&*old(rt), b) && converts::<C>(&*old(rt), c) && !converts::<D>(&*old(rt), d)
                ==> *final(rt) == *old(rt) && (done matches Completion::Raise(err) && D::convert_rel(
                &*old(rt),
                d,
                Err(err),
            ))),
            (converts::<RbSelf>(&*old(rt), rb_self) && converts::<A>(&*old(rt), a) && converts::<B>(&*old(rt), b) && converts::<C>(&*old(rt), c) && converts::<D>(&*old(rt), d) && !converts::<E>(&*old(rt), e)
                ==> *final(rt) == *old(rt) && (done matches Completion::Raise(err) && E::convert_rel(
                &*old(rt),
                e,
                Err(err),
            ))),
            (converts::<RbSelf>(&*old(rt), rb_self) && converts::<A>(&*old(rt), a) && converts::<B>(&*old(rt), b) && converts::<C>(&*old(rt), c) && converts::<D>(&*old(rt), d) && converts::<E>(&*old(rt), e) && !converts::<F>(&*old(rt), f)
                ==> *final(rt) == *old(rt) && (done matches Completion::Raise(err) && F::convert_rel(
                &*old(rt),
                f,
                Err(err),
            ))),
            (converts::<RbSelf>(&*old(rt), rb_self) && converts::<A>(&*old(rt), a) && converts::<B>(&*old(rt), b) && converts::<C>(&*old(rt), c) && converts::<D>(&*old(rt), d) && converts::<E>(&*old(rt), e) && converts::<F>(&*old(rt), f) && !converts::<G>(&*old(rt), g)
                ==> *final(rt) == *old(rt) && (done matches Completion::Raise(err) && G::convert_rel(
                &*old(rt),
                g,
                Err(err),
            ))),
            (converts::<RbSelf>(&*old(rt), rb_self) && converts::<A>(&*old(rt), a) && converts::<B>(&*old(rt), b) && converts::<C>(&*old(rt), c) && converts::<D>(&*old(rt), d) && converts::<E>(&*old(rt), e) && converts::<F>(&*old(rt), f) && converts::<G>(&*old(rt), g) ==> exists|s: RbSelf, xa: A, xb: B, xc: C, xd: D, xe: E, xf: F, xg: G, res: Res|
                RbSelf::convert_rel(&*old(rt), rb_self, Ok(s)) && A::convert_rel(&*old(rt), a, Ok(xa)) && B::convert_rel(&*old(rt), b, Ok(xb)) && C::convert_rel(&*old(rt), c, Ok(xc)) && D::convert_rel(&*old(rt), d, Ok(xd)) && E::convert_rel(&*old(rt), e, Ok(xe)) && F::convert_rel(&*old(rt), f, Ok(xf)) && G::convert_rel(&*old(rt), g, Ok(xg)) && #[trigger] call_ensures(self.spec_func(), (s, xa, xb, xc, xd, xe, xf, xg), res)
                && res.ret_rel(*old(rt), *final(rt), completion_result(done))),
    {
        match self.call_convert_value(rt, rb_self, a, b, c, d, e, f, g) {
            Ok(v) => Completion::Return(v),
            Err(e) => Completion::Raise(e),
        }
    }
}

/// The adapter for a native callable taking self and 8 arguments.
pub struct Method8<Func, RbSelf, A, B, C, D, E, F, G, H, Res> {
    func: Func,
    rb_self: PhantomData<RbSelf>,
    a: PhantomData<A>,
    b: PhantomData<B>,
    c: PhantomData<C>,
    d: PhantomData<D>,
    e: PhantomData<E>,
    f: PhantomData<F>,
    g: PhantomData<G>,
    h: PhantomData<H>,
    res: PhantomData<Res>,
}

impl<Func, RbSelf, A, B, C, D, E, F, G, H, Res> Method8<Func, RbSelf, A, B, C, D, E, F, G, H, Res> where Func: Fn(RbSelf, A, B, C, D, E, F, G, H) -> Res, RbSelf: TryConvert, A: TryConvert, B: TryConvert, C: TryConvert, D: TryConvert, E: TryConvert, F: TryConvert, G: TryConvert, H: TryConvert, Res: ReturnValue {
    /// The wrapped host function, for specifications.
    pub closed spec fn spec_func(&self) -> Func {
        self.func
    }

    pub fn new(func: Func) -> (m: Self)
        ensures
            m.spec_func() == func,
    {
        Method8 {
            func,
            rb_self: PhantomData,
            a: PhantomData,
            b: PhantomData,
            c: PhantomData,
            d: PhantomData,
            e: PhantomData,
            f: PhantomData,
            g: PhantomData,
            h: PhantomData,
            res: PhantomData,
        }
    }

    /// Convert self and the arguments left to right, stopping at the first
    /// failure without touching the runtime or the host function; on full
    /// success, invoke the host function and convert its result back.
    pub fn call_convert_value(self, rt: &mut Ruby, rb_self: Value, a: Value, b: Value, c: Value, d: Value, e: Value, f: Value, g: Value, h: Value) -> (r: Result<Value, Error>)
        requires
            old(rt).wf(),
            old(rt).has_room(),
            old(rt).wf_value(rb_self),
            !is_undef_raw(rb_self.spec_raw()),
            old(rt).wf_value(a),
            !is_undef_raw(a.spec_raw()),
            old(rt).wf_value(b),
            !is_undef_raw(b.spec_raw()),
            old(rt).wf_value(c),
            !is_undef_raw(c.spec_raw()),
            old(rt).wf_value(d),
            !is_undef_raw(d.spec_raw()),
            old(rt).wf_value(e),
            !is_undef_raw(e.spec_raw()),
            old(rt).wf_value(f),
            !is_undef_raw(f.spec_raw()),
            old(rt).wf_value(g),
            !is_undef_raw(g.spec_raw()),
            old(rt).wf_value(h),
            !is_undef_raw(h.spec_raw()),
            forall|s: RbSelf, xa: A, xb: B, xc: C, xd: D, xe: E, xf: F, xg: G, xh: H| call_requires(self.spec_func(), (s, xa, xb, xc, xd, xe, xf, xg, xh)),
            forall|s: RbSelf, xa: A, xb: B, xc: C, xd: D, xe: E, xf: F, xg: G, xh: H, res: Res| #[trigger] call_ensures(self.spec_func(), (s, xa, xb, xc, xd, xe, xf, xg, xh), res) ==> res.ret_wf(&*old(rt)),
        ensures
            final(rt).wf(),
            extends(&*old(rt), &*final(rt)),
            (r matches Ok(v) ==> final(rt).wf_value(v)),
            (!converts::<RbSelf>(&*old(rt), rb_self) ==> *final(rt) == *old(rt) && (r matches Err(err)
                && RbSelf::convert_rel(&*old(rt), rb_self, Err(err)))),
            (converts::<RbSelf>(&*old(rt), rb_self) && !converts::<A>(&*old(rt), a)
                ==> *final(rt) == *old(rt) && (r matches Err(err) && A::convert_rel(
                &*old(rt),
                a,
                Err(err),
            ))),
            (converts::<RbSelf>(&*old(rt), rb_self) && converts::<A>(&*old(rt), a) && !converts::<B>(&*old(rt), b)
                ==> *final(rt) == *old(rt) && (r matches Err(err) && B::convert_rel(
                &*old(rt),
                b,
                Err(err),
            ))),
            (converts::<RbSelf>(&*old(rt), rb_self) && converts::<A>(&*old(rt), a) && converts::<B>(&*old(rt), b) && !converts::<C>(&*old(rt), c)
                ==> *final(rt) == *old(rt) && (r matches Err(err) && C::convert_rel(
                &*old(rt),
                c,
                Err(err),
            ))),
            (converts::<RbSelf>(&*old(rt), rb_self) && converts::<A>(&*old(rt), a) && converts::<B>(&*old(rt), b) && converts::<C>(&*old(rt), c) && !converts::<D>(&*old(rt), d)
                ==> *final(rt) == *old(rt) && (r matches Err(err) && D::convert_rel(
                &*old(rt),
                d,
                Err(err),
            ))),
            (converts::<RbSelf>(&*old(rt), rb_self) && converts::<A>(&*old(rt), a) && converts::<B>(&*old(rt), b) && converts::<C>(&*old(rt), c) && converts::<D>(&*old(rt), d) && !converts::<E>(&*old(rt), e)
                ==> *final(rt) == *old(rt) && (r matches Err(err) && E::convert_rel(
                &*old(rt),
                e,
                Err(err),
            ))),
            (converts::<RbSelf>(&*old(rt), rb_self) && converts::<A>(&*old(rt), a) && converts::<B>(&*old(rt), b) && converts::<C>(&*old(rt), c) && converts::<D>(&*old(rt), d) && converts::<E>(&*old(rt), e) && !converts::<F>(&*old(rt), f)
                ==> *final(rt) == *old(rt) && (r matches Err(err) && F::convert_rel(
                &*old(rt),
                f,
                Err(err),
            ))),
            (converts::<RbSelf>(&*old(rt), rb_self) && converts::<A>(&*old(rt), a) && converts::<B>(&*old(rt), b) && converts::<C>(&*old(rt), c) && converts::<D>(&*old(rt), d) && converts::<E>(&*old(rt), e) && converts::<F>(&*old(rt), f) && !converts::<G>(&*old(rt), g)
                ==> *final(rt) == *old(rt) && (r matches Err(err) && G::convert_rel(
                &*old(rt),
                g,
                Err(err),
            ))),
            (converts::<RbSelf>(&*old(rt), rb_self) && converts::<A>(&*old(rt), a) && converts::<B>(&*old(rt), b) && converts::<C>(&*old(rt), c) && converts::<D>(&*old(rt), d) && converts::<E>(&*old(rt), e) && converts::<F>(&*old(rt), f) && converts::<G>(&*old(rt), g) && !converts::<H>(&*old(rt), h)
                ==> *final(rt) == *old(rt) && (r matches Err(err) && H::convert_rel(
                &*old(rt),
                h,
                Err(err),
            ))),
            (converts::<RbSelf>(&*old(rt), rb_self) && converts::<A>(&*old(rt), a) && converts::<B>(&*old(rt), b) && converts::<C>(&*old(rt), c) && converts::<D>(&*old(rt), d) && converts::<E>(&*old(rt), e) && converts::<F>(&*old(rt), f) && converts::<G>(&*old(rt), g) && converts::<H>(&*old(rt), h) ==> exists|s: RbSelf, xa: A, xb: B, xc: C, xd: D, xe: E, xf: F, xg: G, xh: H, res: Res|
                RbSelf::convert_rel(&*old(rt), rb_self, Ok(s)) && A::convert_rel(&*old(rt), a, Ok(xa)) && B::convert_rel(&*old(rt), b, Ok(xb)) && C::convert_rel(&*old(rt), c, Ok(xc)) && D::convert_rel(&*old(rt), d, Ok(xd)) && E::convert_rel(&*old(rt), e, Ok(xe)) && F::convert_rel(&*old(rt), f, Ok(xf)) && G::convert_rel(&*old(rt), g, Ok(xg)) && H::convert_rel(&*old(rt), h, Ok(xh)) && #[trigger] call_ensures(self.spec_func(), (s, xa, xb, xc, xd, xe, xf, xg, xh), res)
                && res.ret_rel(*old(rt), *final(rt), r)),
    {
        let s: RbSelf = match RbSelf::try_convert(&*rt, rb_self) {
            Ok(s) => s,
            Err(err) => {
                proof {
                    assert forall|x: RbSelf| !RbSelf::convert_rel(
                        &*old(rt),
                        rb_self,
                        Ok(x),
                    ) by {
                        RbSelf::lemma_convert_exclusive(&*old(rt), rb_self, x, err);
                    }
                    assert(rt.heap@.subrange(0, old(rt).heap@.len() as int) =~= old(rt).heap@);
                }
                return Err(err);
            },
        };
        let xa: A = match A::try_convert(&*rt, a) {
            Ok(x) => x,
            Err(err) => {
                proof {
                    assert forall|x: A| !A::convert_rel(&*old(rt), a, Ok(x)) by {
                        A::lemma_convert_exclusive(&*old(rt), a, x, err);
                    }
                    assert(rt.heap@.subrange(0, old(rt).heap@.len() as int) =~= old(rt).heap@);
                }
                return Err(err);
            },
        };
        let xb: B = match B::try_convert(&*rt, b) {
            Ok(x) => x,
            Err(err) => {
                proof {
                    assert forall|x: B| !B::convert_rel(&*old(rt), b, Ok(x)) by {
                        B::lemma_convert_exclusive(&*old(rt), b, x, err);
                    }
                    assert(rt.heap@.subrange(0, old(rt).heap@.len() as int) =~= old(rt).heap@);
                }
                return Err(err);
            },
        };
        let xc: C = match C::try_convert(&*rt, c) {
            Ok(x) => x,
            Err(err) => {
                proof {
                    assert forall|x: C| !C::convert_rel(&*old(rt), c, Ok(x)) by {
                        C::lemma_convert_exclusive(&*old(rt), c, x, err);
                    }
                    assert(rt.heap@.subrange(0, old(rt).heap@.len() as int) =~= old(rt).heap@);
                }
                return Err(err);
            },
        };
        let xd: D = match D::try_convert(&*rt, d) {
            Ok(x) => x,
            Err(err) => {
                proof {
                    assert forall|x: D| !D::convert_rel(&*old(rt), d, Ok(x)) by {
                        D::lemma_convert_exclusive(&*old(rt), d, x, err);
                    }
                    assert(rt.heap@.subrange(0, old(rt).heap@.len() as int) =~= old(rt).heap@);
                }
                return Err(err);
            },
        };
        let xe: E = match E::try_convert(&*rt, e) {
            Ok(x) => x,
            Err(err) => {
                proof {
                    assert forall|x: E| !E::convert_rel(&*old(rt), e, Ok(x)) by {
                        E::lemma_convert_exclusive(&*old(rt), e, x, err);
                    }
                    assert(rt.heap@.subrange(0, old(rt).heap@.len() as int) =~= old(rt).heap@);
                }
                return Err(err);
            },
        };
        let xf: F = match F::try_convert(&*rt, f) {
            Ok(x) => x,
            Err(err) => {
                proof {
                    assert forall|x: F| !F::convert_rel(&*old(rt), f, Ok(x)) by {
                        F::lemma_convert_exclusive(&*old(rt), f, x, err);
                    }
                    assert(rt.heap@.subrange(0, old(rt).heap@.len() as int) =~= old(rt).heap@);
                }
                return Err(err);
            },
        };
        let xg: G = match G::try_convert(&*rt, g) {
            Ok(x) => x,
            Err(err) => {
                proof {
                    assert forall|x: G| !G::convert_rel(&*old(rt), g, Ok(x)) by {
                        G::lemma_convert_exclusive(&*old(rt), g, x, err);
                    }
                    assert(rt.heap@.subrange(0, old(rt).heap@.len() as int) =~= old(rt).heap@);
                }
                return Err(err);
            },
        };
        let xh: H = match H::try_convert(&*rt, h) {
            Ok(x) => x,
            Err(err) => {
                proof {
                    assert forall|x: H| !H::convert_rel(&*old(rt), h, Ok(x)) by {
                        H::lemma_convert_exclusive(&*old(rt), h, x, err);
                    }
                    assert(rt.heap@.subrange(0, old(rt).heap@.len() as int) =~= old(rt).heap@);
                }
                return Err(err);
            },
        };
        proof {
            assert(call_requires(self.spec_func(), (s, xa, xb, xc, xd, xe, xf, xg, xh)));
        }
        let res: Res = (self.func)(s, xa, xb, xc, xd, xe, xf, xg, xh);
        proof {
            assert(call_ensures(self.spec_func(), (s, xa, xb, xc, xd, xe, xf, xg, xh), res));
        }
        res.into_return_value(rt)
    }

    /// As `call_convert_value`, but decide what crosses back to the runtime:
    /// the value, or a raise carrying the error.
    pub fn call_handle_error(self, rt: &mut Ruby, rb_self: Value, a: Value, b: Value, c: Value, d: Value, e: Value, f: Value, g: Value, h: Value) -> (done: Completion)
        requires
            old(rt).wf(),
            old(rt).has_room(),
            old(rt).wf_value(rb_self),
            !is_undef_raw(rb_self.spec_raw()),
            old(rt).wf_value(a),
            !is_undef_raw(a.spec_raw()),
            old(rt).wf_value(b),
            !is_undef_raw(b.spec_raw()),
            old(rt).wf_value(c),
            !is_undef_raw(c.spec_raw()),
            old(rt).wf_value(d),
            !is_undef_raw(d.spec_raw()),
            old(rt).wf_value(e),
            !is_undef_raw(e.spec_raw()),
            old(rt).wf_value(f),
            !is_undef_raw(f.spec_raw()),
            old(rt).wf_value(g),
            !is_undef_raw(g.spec_raw()),
            old(rt).wf_value(h),
            !is_undef_raw(h.spec_raw()),
            forall|s: RbSelf, xa: A, xb: B, xc: C, xd: D, xe: E, xf: F, xg: G, xh: H| call_requires(self.spec_func(), (s, xa, xb, xc, xd, xe, xf, xg, xh)),
            forall|s: RbSelf, xa: A, xb: B, xc: C, xd: D, xe: E, xf: F, xg: G, xh: H, res: Res| #[trigger] call_ensures(self.spec_func(), (s, xa, xb, xc, xd, xe, xf, xg, xh), res) ==> res.ret_wf(&*old(rt)),
        ensures
            final(rt).wf(),
            extends(&*old(rt), &*final(rt)),
            (done matches Completion::Return(v) ==> final(rt).wf_value(v)),
            (!converts::<RbSelf>(&*old(rt), rb_self) ==> *final(rt) == *old(rt) && (done matches Completion::Raise(
                e,
            ) && RbSelf::convert_rel(&*old(rt), rb_self, Err(e)))),
            (converts::<RbSelf>(&*old(rt), rb_self) && !converts::<A>(&*old(rt), a)
                ==> *final(rt) == *old(rt) && (done matches Completion::Raise(err) && A::convert_rel(
                &*old(rt),
                a,
                Err(err),
            ))),
            (converts::<RbSelf>(&*old(rt), rb_self) && converts::<A>(&*old(rt), a) && !converts::<B>(&*old(rt), b)
                ==> *final(rt) == *old(rt) && (done matches Completion::Raise(err) && B::convert_rel(
                &*old(rt),
                b,
                Err(err),
            ))),
            (converts::<RbSelf>(&*old(rt), rb_self) && converts::<A>(&*old(rt), a) && converts::<B>(&*old(rt), b) && !converts::<C>(&*old(rt), c)
                ==> *final(rt) == *old(rt) && (done matches Completion::Raise(err) && C::convert_rel(
                &*old(rt),
                c,
                Err(err),
            ))),
            (converts::<RbSelf>(&*old(rt), rb_self) && converts::<A>(&*old(rt), a) && converts::<B>(&*old(rt), b) && converts::<C>(&*old(rt), c) && !converts::<D>(&*old(rt), d)
                ==> *final(rt) == *old(rt) && (done matches Completion::Raise(err) && D::convert_rel(
                &*old(rt),
                d,
                Err(err),
            ))),
            (converts::<RbSelf>(&*old(rt), rb_self) && converts::<A>(&*old(rt), a) && converts::<B>(&*old(rt), b) && converts::<C>(&*old(rt), c) && converts::<D>(&*old(rt), d) && !converts::<E>(&*old(rt), e)
                ==> *final(rt) == *old(rt) && (done matches Completion::Raise(err) && E::convert_rel(
                &*old(rt),
                e,
                Err(err),
            ))),
            (converts::<RbSelf>(&*old(rt), rb_self) && converts::<A>(&*old(rt), a) && converts::<B>(&*old(rt), b) && converts::<C>(&*old(rt), c) && converts::<D>(&*old(rt), d) && converts::<E>(&*old(rt), e) && !converts::<F>(&*old(rt), f)
                ==> *final(rt) == *old(rt) && (done matches Completion::Raise(err) && F::convert_rel(
                &*old(rt),
                f,
                Err(err),
            ))),
            (converts::<RbSelf>(&*old(rt), rb_self) && converts::<A>(&*old(rt), a) && converts::<B>(&*old(rt), b) && converts::<C>(&*old(rt), c) && converts::<D>(&*old(rt), d) && converts::<E>(&*old(rt), e) && converts::<F>(&*old(rt), f) && !converts::<G>(&*old(rt), g)
                ==> *final(rt) == *old(rt) && (done matches Completion::Raise(err) && G::convert_rel(
                &*old(rt),
                g,
                Err(err),
            ))),
            (converts::<RbSelf>(&*old(rt), rb_self) && converts::<A>(&*old(rt), a) && converts::<B>(&*old(rt), b) && converts::<C>(&*old(rt), c) && converts::<D>(&*old(rt), d) && converts::<E>(&*old(rt), e) && converts::<F>(&*old(rt), f) && converts::<G>(&*old(rt), g) && !converts::<H>(&*old(rt), h)
                ==> *final(rt) == *old(rt) && (done matches Completion::Raise(err) && H::convert_rel(
                &*old(rt),
                h,
                Err(err),
            ))),
            (converts::<RbSelf>(&*old(rt), rb_self) && converts::<A>(&*old(rt), a) && converts::<B>(&*old(rt), b) && converts::<C>(&*old(rt), c) && converts::<D>(&*old(rt), d) && converts::<E>(&*old(rt), e) && converts::<F>(&*old(rt), f) && converts::<G>(&*old(rt), g) && converts::<H>(&*old(rt), h) ==> exists|s: RbSelf, xa: A, xb: B, xc: C, xd: D, xe: E, xf: F, xg: G, xh: H, res: Res|
                RbSelf::convert_rel(&*old(rt), rb_self, Ok(s)) && A::convert_rel(&*old(rt), a, Ok(xa)) && B::convert_rel(&*old(rt), b, Ok(xb)) && C::convert_rel(&*old(rt), c, Ok(xc)) && D::convert_rel(&*old(rt), d, Ok(xd)) && E::convert_rel(&*old(rt), e, Ok(xe)) && F::convert_rel(&*old(rt), f, Ok(xf)) && G::convert_rel(&*old(rt), g, Ok(xg)) && H::convert_rel(&*old(rt), h, Ok(xh)) && #[trigger] call_ensures(self.spec_func(), (s, xa, xb, xc, xd, xe, xf, xg, xh), res)
                && res.ret_rel(*old(rt), *final(rt), completion_result(done))),
    {
        match self.call_convert_value(rt, rb_self, a, b, c, d, e, f, g, h) {
            Ok(v) => Completion::Return(v),
            Err(e) => Completion::Raise(e),
        }
    }
}

/// The adapter for a native callable taking self and 9 arguments.
pub struct Method9<Func, RbSelf, A, B, C, D, E, F, G, H, I, Res> {
    func: Func,
    rb_self: PhantomData<RbSelf>,
    a: PhantomData<A>,
    b: PhantomData<B>,
    c: PhantomData<C>,
    d: PhantomData<D>,
    e: PhantomData<E>,
    f: PhantomData<F>,
    g: PhantomData<G>,
    h: PhantomData<H>,
    i: PhantomData<I>,
    res: PhantomData<Res>,
}

impl<Func, RbSelf, A, B, C, D, E, F, G, H, I, Res> Method9<Func, RbSelf, A, B, C, D, E, F, G, H, I, Res> where Func: Fn(RbSelf, A, B, C, D, E, F, G, H, I) -> Res, RbSelf: TryConvert, A: TryConvert, B: TryConvert, C: TryConvert, D: TryConvert, E: TryConvert, F: TryConvert, G: TryConvert, H: TryConvert, I: TryConvert, Res: ReturnValue {
    /// The wrapped host function, for specifications.
    pub closed spec fn spec_func(&self) -> Func {
        self.func
    }

    pub fn new(func: Func) -> (m: Self)
        ensures
            m.spec_func() == func,
    {
        Method9 {
            func,
            rb_self: PhantomData,
            a: PhantomData,
            b: PhantomData,
            c: PhantomData,
            d: PhantomData,
            e: PhantomData,
            f: PhantomData,
            g: PhantomData,
            h: PhantomData,
            i: PhantomData,
            res: PhantomData,
        }
    }

    /// Convert self and the arguments left to right, stopping at the first
    /// failure without touching the runtime or the host function; on full
    /// success, invoke the host function and convert its result back.
    pub fn call_convert_value(self, rt: &mut Ruby, rb_self: Value, a: Value, b: Value, c: Value, d: Value, e: Value, f: Value, g: Value, h: Value, i: Value) -> (r: Result<Value, Error>)
        requires
            old(rt).wf(),
            old(rt).has_room(),
            old(rt).wf_value(rb_self),
            !is_undef_raw(rb_self.spec_raw()),
            old(rt).wf_value(a),
            !is_undef_raw(a.spec_raw()),
            old(rt).wf_value(b),
            !is_undef_raw(b.spec_raw()),
            old(rt).wf_value(c),
            !is_undef_raw(c.spec_raw()),
            old(rt).wf_value(d),
            !is_undef_raw(d.spec_raw()),
            old(rt).wf_value(e),
            !is_undef_raw(e.spec_raw()),
            old(rt).wf_value(f),
            !is_undef_raw(f.spec_raw()),
            old(rt).wf_value(g),
            !is_undef_raw(g.spec_raw()),
            old(rt).wf_value(h),
            !is_undef_raw(h.spec_raw()),
            old(rt).wf_value(i),
            !is_undef_raw(i.spec_raw()),
            forall|s: RbSelf, xa: A, xb: B, xc: C, xd: D, xe: E, xf: F, xg: G, xh: H, xi: I| call_requires(self.spec_func(), (s, xa, xb, xc, xd, xe, xf, xg, xh, xi)),
            forall|s: RbSelf, xa: A, xb: B, xc: C, xd: D, xe: E, xf: F, xg: G, xh: H, xi: I, res: Res| #[trigger] call_ensures(self.spec_func(), (s, xa, xb, xc, xd, xe, xf, xg, xh, xi), res) ==> res.ret_wf(&*old(rt)),
        ensures
            final(rt).wf(),
            extends(&*old(rt), &*final(rt)),
            (r matches Ok(v) ==> final(rt).wf_value(v)),
            (!converts::<RbSelf>(&*old(rt), rb_self) ==> *final(rt) == *old(rt) && (r matches Err(err)
                && RbSelf::convert_rel(&*old(rt), rb_self, Err(err)))),
            (converts::<RbSelf>(&*old(rt), rb_self) && !converts::<A>(&*old(rt), a)
                ==> *final(rt) == *old(rt) && (r matches Err(err) && A::convert_rel(
                &*old(rt),
                a,
                Err(err),
            ))),
            (converts::<RbSelf>(&*old(rt), rb_self) && converts::<A>(&*old(rt), a) && !converts::<B>(&*old(rt), b)
                ==> *final(rt) == *old(rt) && (r matches Err(err) && B::convert_rel(
                &*old(rt),
                b,
                Err(err),
            ))),
            (converts::<RbSelf>(&*old(rt), rb_self) && converts::<A>(&*old(rt), a) && converts::<B>(&*old(rt), b) && !converts::<C>(&*old(rt), c)
                ==> *final(rt) == *old(rt) && (r matches Err(err) && C::convert_rel(
                &*old(rt),
                c,
                Err(err),
            ))),
            (converts::<RbSelf>(&*old(rt), rb_self) && converts::<A>(&*old(rt), a) && converts::<B>(&*old(rt), b) && converts::<C>(&*old(rt), c) && !converts::<D>(&*old(rt), d)
                ==> *final(rt) == *old(rt) && (r matches Err(err) && D::convert_rel(
                &*old(rt),
                d,
                Err(err),
            ))),
            (converts::<RbSelf>(&*old(rt), rb_self) && converts::<A>(&*old(rt), a) && converts::<B>(&*old(rt), b) && converts::<C>(&*old(rt), c) && converts::<D>(&*old(rt), d) && !converts::<E>(&*old(rt), e)
                ==> *final(rt) == *old(rt) && (r matches Err(err) && E::convert_rel(
                &*old(rt),
                e,
                Err(err),
            ))),
            (converts::<RbSelf>(&*old(rt), rb_self) && converts::<A>(&*old(rt), a) && converts::<B>(&*old(rt), b) && converts::<C>(&*old(rt), c) && converts::<D>(&*old(rt), d) && converts::<E>(&*old(rt), e) && !converts::<F>(&*old(rt), f)
                ==> *final(rt) == *old(rt) && (r matches Err(err) && F::convert_rel(
                &*old(rt),
                f,
                Err(err),
            ))),
            (converts::<RbSelf>(&*old(rt), rb_self) && converts::<A>(&*old(rt), a) && converts::<B>(&*old(rt), b) && converts::<C>(&*old(rt), c) && converts::<D>(&*old(rt), d) && converts::<E>(&*old(rt), e) && converts::<F>(&*old(rt), f) && !converts::<G>(&*old(rt), g)
                ==> *final(rt) == *old(rt) && (r matches Err(err) && G::convert_rel(
                &*old(rt),
                g,
                Err(err),
            ))),
            (converts::<RbSelf>(&*old(rt), rb_self) && converts::<A>(&*old(rt), a) && converts::<B>(&*old(rt), b) && converts::<C>(&*old(rt), c) && converts::<D>(&*old(rt), d) && converts::<E>(&*old(rt), e) && converts::<F>(&*old(rt), f) && converts::<G>(&*old(rt), g) && !converts::<H>(&*old(rt), h)
                ==> *final(rt) == *old(rt) && (r matches Err(err) && H::convert_rel(
                &*old(rt),
                h,
                Err(err),
            ))),
            (converts::<RbSelf>(&*old(rt), rb_self) && converts::<A>(&*old(rt), a) && converts::<B>(&*old(rt), b) && converts::<C>(&*old(rt), c) && converts::<D>(&*old(rt), d) && converts::<E>(&*old(rt), e) && converts::<F>(&*old(rt), f) && converts::<G>(&*old(rt), g) && converts::<H>(&*old(rt), h) && !converts::<I>(&*old(rt), i)
                ==> *final(rt) == *old(rt) && (r matches Err(err) && I::convert_rel(
                &*old(rt),
                i,
                Err(err),
            ))),
            (converts::<RbSelf>(&*old(rt), rb_self) && converts::<A>(&*old(rt), a) && converts::<B>(&*old(rt), b) && converts::<C>(&*old(rt), c) && converts::<D>(&*old(rt), d) && converts::<E>(&*old(rt), e) && converts::<F>(&*old(rt), f) && converts::<G>(&*old(rt), g) && converts::<H>(&*old(rt), h) && converts::<I>(&*old(rt), i) ==> exists|s: RbSelf, xa: A, xb: B, xc: C, xd: D, xe: E, xf: F, xg: G, xh: H, xi: I, res: Res|
                RbSelf::convert_rel(&*old(rt), rb_self, Ok(s)) && A::convert_rel(&*old(rt), a, Ok(xa)) && B::convert_rel(&*old(rt), b, Ok(xb)) && C::convert_rel(&*old(rt), c, Ok(xc)) && D::convert_rel(&*old(rt), d, Ok(xd)) && E::convert_rel(&*old(rt), e, Ok(xe)) && F::convert_rel(&*old(rt), f, Ok(xf)) && G::convert_rel(&*old(rt), g, Ok(xg)) && H::convert_rel(&*old(rt), h, Ok(xh)) && I::convert_rel(&*old(rt), i, Ok(xi)) && #[trigger] call_ensures(self.spec_func(), (s, xa, xb, xc, xd, xe, xf, xg, xh, xi), res)
                && res.ret_rel(*old(rt), *final(rt), r)),
    {
        let s: RbSelf = match RbSelf::try_convert(&*rt, rb_self) {
            Ok(s) => s,
            Err(err) => {
                proof {
                    assert forall|x: RbSelf| !RbSelf::convert_rel(
                        &*old(rt),
                        rb_self,
                        Ok(x),
                    ) by {
                        RbSelf::lemma_convert_exclusive(&*old(rt), rb_self, x, err);
                    }
                    assert(rt.heap@.subrange(0, old(rt).heap@.len() as int) =~= old(rt).heap@);
                }
                return Err(err);
            },
        };
        let xa: A = match A::try_convert(&*rt, a) {
            Ok(x) => x,
            Err(err) => {
                proof {
                    assert forall|x: A| !A::convert_rel(&*old(rt), a, Ok(x)) by {
                        A::lemma_convert_exclusive(&*old(rt), a, x, err);
                    }
                    assert(rt.heap@.subrange(0, old(rt).heap@.len() as int) =~= old(rt).heap@);
                }
                return Err(err);
            },
        };
        let xb: B = match B::try_convert(&*rt, b) {
            Ok(x) => x,
            Err(err) => {
                proof {
                    assert forall|x: B| !B::convert_rel(&*old(rt), b, Ok(x)) by {
                        B::lemma_convert_exclusive(&*old(rt), b, x, err);
                    }
                    assert(rt.heap@.subrange(0, old(rt).heap@.len() as int) =~= old(rt).heap@);
                }
                return Err(err);
            },
        };
        let xc: C = match C::try_convert(&*rt, c) {
            Ok(x) => x,
            Err(err) => {
                proof {
                    assert forall|x: C| !C::convert_rel(&*old(rt), c, Ok(x)) by {
                        C::lemma_convert_exclusive(&*old(rt), c, x, err);
                    }
                    assert(rt.heap@.subrange(0, old(rt).heap@.len() as int) =~= old(rt).heap@);
                }
                return Err(err);
            },
        };
        let xd: D = match D::try_convert(&*rt, d) {
            Ok(x) => x,
            Err(err) => {
                proof {
                    assert forall|x: D| !D::convert_rel(&*old(rt), d, Ok(x)) by {
                        D::lemma_convert_exclusive(&*old(rt), d, x, err);
                    }
                    assert(rt.heap@.subrange(0, old(rt).heap@.len() as int) =~= old(rt).heap@);
                }
                return Err(err);
            },
        };
        let xe: E = match E::try_convert(&*rt, e) {
            Ok(x) => x,
            Err(err) => {
                proof {
                    assert forall|x: E| !E::convert_rel(&*old(rt), e, Ok(x)) by {
                        E::lemma_convert_exclusive(&*old(rt), e, x, err);
                    }
                    assert(rt.heap@.subrange(0, old(rt).heap@.len() as int) =~= old(rt).heap@);
                }
                return Err(err);
            },
        };
        let xf: F = match F::try_convert(&*rt, f) {
            Ok(x) => x,
            Err(err) => {
                proof {
                    assert forall|x: F| !F::convert_rel(&*old(rt), f, Ok(x)) by {
                        F::lemma_convert_exclusive(&*old(rt), f, x, err);
                    }
                    assert(rt.heap@.subrange(0, old(rt).heap@.len() as int) =~= old(rt).heap@);
                }
                return Err(err);
            },
        };
        let xg: G = match G::try_convert(&*rt, g) {
            Ok(x) => x,
            Err(err) => {
                proof {
                    assert forall|x: G| !G::convert_rel(&*old(rt), g, Ok(x)) by {
                        G::lemma_convert_exclusive(&*old(rt), g, x, err);
                    }
                    assert(rt.heap@.subrange(0, old(rt).heap@.len() as int) =~= old(rt).heap@);
                }
                return Err(err);
            },
        };
        let xh: H = match H::try_convert(&*rt, h) {
            Ok(x) => x,
            Err(err) => {
                proof {
                    assert forall|x: H| !H::convert_rel(&*old(rt), h, Ok(x)) by {
                        H::lemma_convert_exclusive(&*old(rt), h, x, err);
                    }
                    assert(rt.heap@.subrange(0, old(rt).heap@.len() as int) =~= old(rt).heap@);
                }
                return Err(err);
            },
        };
        let xi: I = match I::try_convert(&*rt, i) {
            Ok(x) => x,
            Err(err) => {
                proof {
                    assert forall|x: I| !I::convert_rel(&*old(rt), i, Ok(x)) by {
                        I::lemma_convert_exclusive(&*old(rt), i, x, err);
                    }
                    assert(rt.heap@.subrange(0, old(rt).heap@.len() as int) =~= old(rt).heap@);
                }
                return Err(err);
            },
        };
        proof {
            assert(call_requires(self.spec_func(), (s, xa, xb, xc, xd, xe, xf, xg, xh, xi)));
        }
        let res: Res = (self.func)(s, xa, xb, xc, xd, xe, xf, xg, xh, xi);
        proof {
            assert(call_ensures(self.spec_func(), (s, xa, xb, xc, xd, xe, xf, xg, xh, xi), res));
        }
        res.into_return_value(rt)
    }

    /// As `call_convert_value`, but decide what crosses back to the runtime:
    /// the value, or a raise carrying the error.
    pub fn call_handle_error(self, rt: &mut Ruby, rb_self: Value, a: Value, b: Value, c: Value, d: Value, e: Value, f: Value, g: Value, h: Value, i: Value) -> (done: Completion)
        requires
            old(rt).wf(),
            old(rt).has_room(),
            old(rt).wf_value(rb_self),
            !is_undef_raw(rb_self.spec_raw()),
            old(rt).wf_value(a),
            !is_undef_raw(a.spec_raw()),
            old(rt).wf_value(b),
            !is_undef_raw(b.spec_raw()),
            old(rt).wf_value(c),
            !is_undef_raw(c.spec_raw()),
            old(rt).wf_value(d),
            !is_undef_raw(d.spec_raw()),
            old(rt).wf_value(e),
            !is_undef_raw(e.spec_raw()),
            old(rt).wf_value(f),
            !is_undef_raw(f.spec_raw()),
            old(rt).wf_value(g),
            !is_undef_raw(g.spec_raw()),
            old(rt).wf_value(h),
            !is_undef_raw(h.spec_raw()),
            old(rt).wf_value(i),
            !is_undef_raw(i.spec_raw()),
            forall|s: RbSelf, xa: A, xb: B, xc: C, xd: D, xe: E, xf: F, xg: G, xh: H, xi: I| call_requires(self.spec_func(), (s, xa, xb, xc, xd, xe, xf, xg, xh, xi)),
            forall|s: RbSelf, xa: A, xb: B, xc: C, xd: D, xe: E, xf: F, xg: G, xh: H, xi: I, res: Res| #[trigger] call_ensures(self.spec_func(), (s, xa, xb, xc, xd, xe, xf, xg, xh, xi), res) ==> res.ret_wf(&*old(rt)),
        ensures
            final(rt).wf(),
            extends(&*old(rt), &*final(rt)),
            (done matches Completion::Return(v) ==> final(rt).wf_value(v)),
            (!converts::<RbSelf>(&*old(rt), rb_self) ==> *final(rt) == *old(rt) && (done matches Completion::Raise(
                e,
            ) && RbSelf::convert_rel(&*old(rt), rb_self, Err(e)))),
            (converts::<RbSelf>(&*old(rt), rb_self) && !converts::<A>(&*old(rt), a)
                ==> *final(rt) == *old(rt) && (done matches Completion::Raise(err) && A::convert_rel(
                &*old(rt),
                a,
                Err(err),
            ))),
            (converts::<RbSelf>(&*old(rt), rb_self) && converts::<A>(&*old(rt), a) && !converts::<B>(&*old(rt), b)
                ==> *final(rt) == *old(rt) && (done matches Completion::Raise(err) && B::convert_rel(
                &*old(rt),
                b,
                Err(err),
            ))),
            (converts::<RbSelf>(&*old(rt), rb_self) && converts::<A>(&*old(rt), a) && converts::<B>(&*old(rt), b) && !converts::<C>(&*old(rt), c)
                ==> *final(rt) == *old(rt) && (done matches Completion::Raise(err) && C::convert_rel(
                &*old(rt),
                c,
                Err(err),
            ))),
            (converts::<RbSelf>(&*old(rt), rb_self) && converts::<A>(&*old(rt), a) && converts::<B>(&*old(rt), b) && converts::<C>(&*old(rt), c) && !converts::<D>(&*old(rt), d)
                ==> *final(rt) == *old(rt) && (done matches Completion::Raise(err) && D::convert_rel(
                &*old(rt),
                d,
                Err(err),
            ))),
            (converts::<RbSelf>(&*old(rt), rb_self) && converts::<A>(&*old(rt), a) && converts::<B>(&*old(rt), b) && converts::<C>(&*old(rt), c) && converts::<D>(&*old(rt), d) && !converts::<E>(&*old(rt), e)
                ==> *final(rt) == *old(rt) && (done matches Completion::Raise(err) && E::convert_rel(
                &*old(rt),
                e,
                Err(err),
            ))),
            (converts::<RbSelf>(&*old(rt), rb_self) && converts::<A>(&*old(rt), a) && converts::<B>(&*old(rt), b) && converts::<C>(&*old(rt), c) && converts::<D>(&*old(rt), d) && converts::<E>(&*old(rt), e) && !converts::<F>(&*old(rt), f)
                ==> *final(rt) == *old(rt) && (done matches Completion::Raise(err) && F::convert_rel(
                &*old(rt),
                f,
                Err(err),
            ))),
            (converts::<RbSelf>(&*old(rt), rb_self) && converts::<A>(&*old(rt), a) && converts::<B>(&*old(rt), b) && converts::<C>(&*old(rt), c) && converts::<D>(&*old(rt), d) && converts::<E>(&*old(rt), e) && converts::<F>(&*old(rt), f) && !converts::<G>(&*old(rt), g)
                ==> *final(rt) == *old(rt) && (done matches Completion::Raise(err) && G::convert_rel(
                &*old(rt),
                g,
                Err(err),
            ))),
            (converts::<RbSelf>(&*old(rt), rb_self) && converts::<A>(&*old(rt), a) && converts::<B>(&*old(rt), b) && converts::<C>(&*old(rt), c) && converts::<D>(&*old(rt), d) && converts::<E>(&*old(rt), e) && converts::<F>(&*old(rt), f) && converts::<G>(&*old(rt), g) && !converts::<H>(&*old(rt), h)
                ==> *final(rt) == *old(rt) && (done matches Completion::Raise(err) && H::convert_rel(
                &*old(rt),
                h,
                Err(err),
            ))),
            (converts::<RbSelf>(&*old(rt), rb_self) && converts::<A>(&*old(rt), a) && converts::<B>(&*old(rt), b) && converts::<C>(&*old(rt), c) && converts::<D>(&*old(rt), d) && converts::<E>(&*old(rt), e) && converts::<F>(&*old(rt), f) && converts::<G>(&*old(rt), g) && converts::<H>(&*old(rt), h) && !converts::<I>(&*old(rt), i)
                ==> *final(rt) == *old(rt) && (done matches Completion::Raise(err) && I::convert_rel(
                &*old(rt),
                i,
                Err(err),
            ))),
            (converts::<RbSelf>(&*old(rt), rb_self) && converts::<A>(&*old(rt), a) && converts::<B>(&*old(rt), b) && converts::<C>(&*old(rt), c) && converts::<D>(&*old(rt), d) && converts::<E>(&*old(rt), e) && converts::<F>(&*old(rt), f) && converts::<G>(&*old(rt), g) && converts::<H>(&*old(rt), h) && converts::<I>(&*old(rt), i) ==> exists|s: RbSelf, xa: A, xb: B, xc: C, xd: D, xe: E, xf: F, xg: G, xh: H, xi: I, res: Res|
                RbSelf::convert_rel(&*old(rt), rb_self, Ok(s)) && A::convert_rel(&*old(rt), a, Ok(xa)) && B::convert_rel(&*old(rt), b, Ok(xb)) && C::convert_rel(&*old(rt), c, Ok(xc)) && D::convert_rel(&*old(rt), d, Ok(xd)) && E::convert_rel(&*old(rt), e, Ok(xe)) && F::convert_rel(&*old(rt), f, Ok(xf)) && G::convert_rel(&*old(rt), g, Ok(xg)) && H::convert_rel(&*old(rt), h, Ok(xh)) && I::convert_rel(&*old(rt), i, Ok(xi)) && #[trigger] call_ensures(self.spec_func(), (s, xa, xb, xc, xd, xe, xf, xg, xh, xi), res)
                && res.ret_rel(*old(rt), *final(rt), completion_result(done))),
    {
        match self.call_convert_value(rt, rb_self, a, b, c, d, e, f, g, h, i) {
            Ok(v) => Completion::Return(v),
            Err(e) => Completion::Raise(e),
        }
    }
}

/// The adapter for a native callable taking self and 10 arguments.
pub struct Method10<Func, RbSelf, A, B, C, D, E, F, G, H, I, J, Res> {
    func: Func,
    rb_self: PhantomData<RbSelf>,
    a: PhantomData<A>,
    b: PhantomData<B>,
    c: PhantomData<C>,
    d: PhantomData<D>,
    e: PhantomData<E>,
    f: PhantomData<F>,
    g: PhantomData<G>,
    h: PhantomData<H>,
    i: PhantomData<I>,
    j: PhantomData<J>,
    res: PhantomData<Res>,
}

impl<Func, RbSelf, A, B, C, D, E, F, G, H, I, J, Res> Method10<Func, RbSelf, A, B, C, D, E, F, G, H, I, J, Res> where Func: Fn(RbSelf, A, B, C, D, E, F, G, H, I, J) -> Res, RbSelf: TryConvert, A: TryConvert, B: TryConvert, C: TryConvert, D: TryConvert, E: TryConvert, F: TryConvert, G: TryConvert, H: TryConvert, I: TryConvert, J: TryConvert, Res: ReturnValue {
    /// The wrapped host function, for specifications.
    pub closed spec fn spec_func(&self) -> Func {
        self.func
    }

    pub fn new(func: Func) -> (m: Self)
        ensures
            m.spec_func() == func,
    {
        Method10 {
            func,
            rb_self: PhantomData,
            a: PhantomData,
            b: PhantomData,
            c: PhantomData,
            d: PhantomData,
            e: PhantomData,
            f: PhantomData,
            g: PhantomData,
            h: PhantomData,
            i: PhantomData,
            j: PhantomData,
            res: PhantomData,
        }
    }

    /// Convert self and the arguments left to right, stopping at the first
    /// failure without touching the runtime or the host function; on full
    /// success, invoke the host function and convert its result back.
    pub fn call_convert_value(self, rt: &mut Ruby, rb_self: Value, a: Value, b: Value, c: Value, d: Value, e: Value, f: Value, g: Value, h: Value, i: Value, j: Value) -> (r: Result<Value, Error>)
        requires
            old(rt).wf(),
            old(rt).has_room(),
            old(rt).wf_value(rb_self),
            !is_undef_raw(rb_self.spec_raw()),
            old(rt).wf_value(a),
            !is_undef_raw(a.spec_raw()),
            old(rt).wf_value(b),
            !is_undef_raw(b.spec_raw()),
            old(rt).wf_value(c),
            !is_undef_raw(c.spec_raw()),
            old(rt).wf_value(d),
            !is_undef_raw(d.spec_raw()),
            old(rt).wf_value(e),
            !is_undef_raw(e.spec_raw()),
            old(rt).wf_value(f),
            !is_undef_raw(f.spec_raw()),
            old(rt).wf_value(g),
            !is_undef_raw(g.spec_raw()),
            old(rt).wf_value(h),
            !is_undef_raw(h.spec_raw()),
            old(rt).wf_value(i),
            !is_undef_raw(i.spec_raw()),
            old(rt).wf_value(j),
            !is_undef_raw(j.spec_raw()),
            forall|s: RbSelf, xa: A, xb: B, xc: C, xd: D, xe: E, xf: F, xg: G, xh: H, xi: I, xj: J| call_requires(self.spec_func(), (s, xa, xb, xc, xd, xe, xf, xg, xh, xi, xj)),
            forall|s: RbSelf, xa: A, xb: B, xc: C, xd: D, xe: E, xf: F, xg: G, xh: H, xi: I, xj: J, res: Res| #[trigger] call_ensures(self.spec_func(), (s, xa, xb, xc, xd, xe, xf, xg, xh, xi, xj), res) ==> res.ret_wf(&*old(rt)),
        ensures
            final(rt).wf(),
            extends(&*old(rt), &*final(rt)),
            (r matches Ok(v) ==> final(rt).wf_value(v)),
            (!converts::<RbSelf>(&*old(rt), rb_self) ==> *final(rt) == *old(rt) && (r matches Err(err)
                && RbSelf::convert_rel(&*old(rt), rb_self, Err(err)))),
            (converts::<RbSelf>(&*old(rt), rb_self) && !converts::<A>(&*old(rt), a)
                ==> *final(rt) == *old(rt) && (r matches Err(err) && A::convert_rel(
                &*old(rt),
                a,
                Err(err),
            ))),
            (converts::<RbSelf>(&*old(rt), rb_self) && converts::<A>(&*old(rt), a) && !converts::<B>(&*old(rt), b)
                ==> *final(rt) == *old(rt) && (r matches Err(err) && B::convert_rel(
                &*old(rt),
                b,
                Err(err),
            ))),
            (converts::<RbSelf>(&*old(rt), rb_self) && converts::<A>(&*old(rt), a) && converts::<B>(&*old(rt), b) && !converts::<C>(&*old(rt), c)
                ==> *final(rt) == *old(rt) && (r matches Err(err) && C::convert_rel(
                &*old(rt),
                c,
                Err(err),
            ))),
            (converts::<RbSelf>(&*old(rt), rb_self) && converts::<A>(&*old(rt), a) && converts::<B>(&*old(rt), b) && converts::<C>(&*old(rt), c) && !converts::<D>(&*old(rt), d)
                ==> *final(rt) == *old(rt) && (r matches Err(err) && D::convert_rel(
                &*old(rt),
                d,
                Err(err),
            ))),
            (converts::<RbSelf>(&*old(rt), rb_self) && converts::<A>(&*old(rt), a) && converts::<B>(&*old(rt), b) && converts::<C>(&*old(rt), c) && converts::<D>(&*old(rt), d) && !converts::<E>(&*old(rt), e)
                ==> *final(rt) == *old(rt) && (r matches Err(err) && E::convert_rel(
                &*old(rt),
                e,
                Err(err),
            ))),
            (converts::<RbSelf>(&*old(rt), rb_self) && converts::<A>(&*old(rt), a) && converts::<B>(&*old(rt), b) && converts::<C>(&*old(rt), c) && converts::<D>(&*old(rt), d) && converts::<E>(&*old(rt), e) && !converts::<F>(&*old(rt), f)
                ==> *final(rt) == *old(rt) && (r matches Err(err) && F::convert_rel(
                &*old(rt),
                f,
                Err(err),
            ))),
            (converts::<RbSelf>(&*old(rt), rb_self) && converts::<A>(&*old(rt), a) && converts::<B>(&*old(rt), b) && converts::<C>(&*old(rt), c) && converts::<D>(&*old(rt), d) && converts::<E>(&*old(rt), e) && converts::<F>(&*old(rt), f) && !converts::<G>(&*old(rt), g)
                ==> *final(rt) == *old(rt) && (r matches Err(err) && G::convert_rel(
                &*old(rt),
                g,
                Err(err),
            ))),
            (converts::<RbSelf>(&*old(rt), rb_self) && converts::<A>(&*old(rt), a) && converts::<B>(&*old(rt), b) && converts::<C>(&*old(rt), c) && converts::<D>(&*old(rt), d) && converts::<E>(&*old(rt), e) && converts::<F>(&*old(rt), f) && converts::<G>(&*old(rt), g) && !converts::<H>(&*old(rt), h)
                ==> *final(rt) == *old(rt) && (r matches Err(err) && H::convert_rel(
                &*old(rt),
                h,
                Err(err),
            ))),
            (converts::<RbSelf>(&*old(rt), rb_self) && converts::<A>(&*old(rt), a) && converts::<B>(&*old(rt), b) && converts::<C>(&*old(rt), c) && converts::<D>(&*old(rt), d) && converts::<E>(&*old(rt), e) && converts::<F>(&*old(rt), f) && converts::<G>(&*old(rt), g) && converts::<H>(&*old(rt), h) && !converts::<I>(&*old(rt), i)
                ==> *final(rt) == *old(rt) && (r matches Err(err) && I::convert_rel(
                &*old(rt),
                i,
                Err(err),
            ))),
            (converts::<RbSelf>(&*old(rt), rb_self) && converts::<A>(&*old(rt), a) && converts::<B>(&*old(rt), b) && converts::<C>(&*old(rt), c) && converts::<D>(&*old(rt), d) && converts::<E>(&*old(rt), e) && converts::<F>(&*old(rt), f) && converts::<G>(&*old(rt), g) && converts::<H>(&*old(rt), h) && converts::<I>(&*old(rt), i) && !converts::<J>(&*old(rt), j)
                ==> *final(rt) == *old(rt) && (r matches Err(err) && J::convert_rel(
                &*old(rt),
                j,
                Err(err),
            ))),
            (converts::<RbSelf>(&*old(rt), rb_self) && converts::<A>(&*old(rt), a) && converts::<B>(&*old(rt), b) && converts::<C>(&*old(rt), c) && converts::<D>(&*old(rt), d) && converts::<E>(&*old(rt), e) && converts::<F>(&*old(rt), f) && converts::<G>(&*old(rt), g) && converts::<H>(&*old(rt), h) && converts::<I>(&*old(rt), i) && converts::<J>(&*old(rt), j) ==> exists|s: RbSelf, xa: A, xb: B, xc: C, xd: D, xe: E, xf: F, xg: G, xh: H, xi: I, xj: J, res: Res|
                RbSelf::convert_rel(&*old(rt), rb_self, Ok(s)) && A::convert_rel(&*old(rt), a, Ok(xa)) && B::convert_rel(&*old(rt), b, Ok(xb)) && C::convert_rel(&*old(rt), c, Ok(xc)) && D::convert_rel(&*old(rt), d, Ok(xd)) && E::convert_rel(&*old(rt), e, Ok(xe)) && F::convert_rel(&*old(rt), f, Ok(xf)) && G::convert_rel(&*old(rt), g, Ok(xg)) && H::convert_rel(&*old(rt), h, Ok(xh)) && I::convert_rel(&*old(rt), i, Ok(xi)) && J::convert_rel(&*old(rt), j, Ok(xj)) && #[trigger] call_ensures(self.spec_func(), (s, xa, xb, xc, xd, xe, xf, xg, xh, xi, xj), res)
                && res.ret_rel(*old(rt), *final(rt), r)),
    {
        let s: RbSelf = match RbSelf::try_convert(&*rt, rb_self) {
            Ok(s) => s,
            Err(err) => {
                proof {
                    assert forall|x: RbSelf| !RbSelf::convert_rel(
                        &*old(rt),
                        rb_self,
                        Ok(x),
                    ) by {
                        RbSelf::lemma_convert_exclusive(&*old(rt), rb_self, x, err);
                    }
                    assert(rt.heap@.subrange(0, old(rt).heap@.len() as int) =~= old(rt).heap@);
                }
                return Err(err);
            },
        };
        let xa: A = match A::try_convert(&*rt, a) {
            Ok(x) => x,
            Err(err) => {
                proof {
                    assert forall|x: A| !A::convert_rel(&*old(rt), a, Ok(x)) by {
                        A::lemma_convert_exclusive(&*old(rt), a, x, err);
                    }
                    assert(rt.heap@.subrange(0, old(rt).heap@.len() as int) =~= old(rt).heap@);
                }
                return Err(err);
            },
        };
        let xb: B = match B::try_convert(&*rt, b) {
            Ok(x) => x,
            Err(err) => {
                proof {
                    assert forall|x: B| !B::convert_rel(&*old(rt), b, Ok(x)) by {
                        B::lemma_convert_exclusive(&*old(rt), b, x, err);
                    }
                    assert(rt.heap@.subrange(0, old(rt).heap@.len() as int) =~= old(rt).heap@);
                }
                return Err(err);
            },
        };
        let xc: C = match C::try_convert(&*rt, c) {
            Ok(x) => x,
            Err(err) => {
                proof {
                    assert forall|x: C| !C::convert_rel(&*old(rt), c, Ok(x)) by {
                        C::lemma_convert_exclusive(&*old(rt), c, x, err);
                    }
                    assert(rt.heap@.subrange(0, old(rt).heap@.len() as int) =~= old(rt).heap@);
                }
                return Err(err);
            },
        };
        let xd: D = match D::try_convert(&*rt, d) {
            Ok(x) => x,
            Err(err) => {
                proof {
                    assert forall|x: D| !D::convert_rel(&*old(rt), d, Ok(x)) by {
                        D::lemma_convert_exclusive(&*old(rt), d, x, err);
                    }
                    assert(rt.heap@.subrange(0, old(rt).heap@.len() as int) =~= old(rt).heap@);
                }
                return Err(err);
            },
        };
        let xe: E = match E::try_convert(&*rt, e) {
            Ok(x) => x,
            Err(err) => {
                proof {
                    assert forall|x: E| !E::convert_rel(&*old(rt), e, Ok(x)) by {
                        E::lemma_convert_exclusive(&*old(rt), e, x, err);
                    }
                    assert(rt.heap@.subrange(0, old(rt).heap@.len() as int) =~= old(rt).heap@);
                }
                return Err(err);
            },
        };
        let xf: F = match F::try_convert(&*rt, f) {
            Ok(x) => x,
            Err(err) => {
                proof {
                    assert forall|x: F| !F::convert_rel(&*old(rt), f, Ok(x)) by {
                        F::lemma_convert_exclusive(&*old(rt), f, x, err);
                    }
                    assert(rt.heap@.subrange(0, old(rt).heap@.len() as int) =~= old(rt).heap@);
                }
                return Err(err);
            },
        };
        let xg: G = match G::try_convert(&*rt, g) {
            Ok(x) => x,
            Err(err) => {
                proof {
                    assert forall|x: G| !G::convert_rel(&*old(rt), g, Ok(x)) by {
                        G::lemma_convert_exclusive(&*old(rt), g, x, err);
                    }
                    assert(rt.heap@.subrange(0, old(rt).heap@.len() as int) =~= old(rt).heap@);
                }
                return Err(err);
            },
        };
        let xh: H = match H::try_convert(&*rt, h) {
            Ok(x) => x,
            Err(err) => {
                proof {
                    assert forall|x: H| !H::convert_rel(&*old(rt), h, Ok(x)) by {
                        H::lemma_convert_exclusive(&*old(rt), h, x, err);
                    }
                    assert(rt.heap@.subrange(0, old(rt).heap@.len() as int) =~= old(rt).heap@);
                }
                return Err(err);
            },
        };
        let xi: I = match I::try_convert(&*rt, i) {
            Ok(x) => x,
            Err(err) => {
                proof {
                    assert forall|x: I| !I::convert_rel(&*old(rt), i, Ok(x)) by {
                        I::lemma_convert_exclusive(&*old(rt), i, x, err);
                    }
                    assert(rt.heap@.subrange(0, old(rt).heap@.len() as int) =~= old(rt).heap@);
                }
                return Err(err);
            },
        };
        let xj: J = match J::try_convert(&*rt, j) {
            Ok(x) => x,
            Err(err) => {
                proof {
                    assert forall|x: J| !J::convert_rel(&*old(rt), j, Ok(x)) by {
                        J::lemma_convert_exclusive(&*old(rt), j, x, err);
                    }
                    assert(rt.heap@.subrange(0, old(rt).heap@.len() as int) =~= old(rt).heap@);
                }
                return Err(err);
            },
        };
        proof {
            assert(call_requires(self.spec_func(), (s, xa, xb, xc, xd, xe, xf, xg, xh, xi, xj)));
        }
        let res: Res = (self.func)(s, xa, xb, xc, xd, xe, xf, xg, xh, xi, xj);
        proof {
            assert(call_ensures(self.spec_func(), (s, xa, xb, xc, xd, xe, xf, xg, xh, xi, xj), res));
        }
        res.into_return_value(rt)
    }

    /// As `call_convert_value`, but decide what crosses back to the runtime:
    /// the value, or a raise carrying the error.
    pub fn call_handle_error(self, rt: &mut Ruby, rb_self: Value, a: Value, b: Value, c: Value, d: Value, e: Value, f: Value, g: Value, h: Value, i: Value, j: Value) -> (done: Completion)
        requires
            old(rt).wf(),
            old(rt).has_room(),
            old(rt).wf_value(rb_self),
            !is_undef_raw(rb_self.spec_raw()),
            old(rt).wf_value(a),
            !is_undef_raw(a.spec_raw()),
            old(rt).wf_value(b),
            !is_undef_raw(b.spec_raw()),
            old(rt).wf_value(c),
            !is_undef_raw(c.spec_raw()),
            old(rt).wf_value(d),
            !is_undef_raw(d.spec_raw()),
            old(rt).wf_value(e),
            !is_undef_raw(e.spec_raw()),
            old(rt).wf_value(f),
            !is_undef_raw(f.spec_raw()),
            old(rt).wf_value(g),
            !is_undef_raw(g.spec_raw()),
            old(rt).wf_value(h),
            !is_undef_raw(h.spec_raw()),
            old(rt).wf_value(i),
            !is_undef_raw(i.spec_raw()),
            old(rt).wf_value(j),
            !is_undef_raw(j.spec_raw()),
            forall|s: RbSelf, xa: A, xb: B, xc: C, xd: D, xe: E, xf: F, xg: G, xh: H, xi: I, xj: J| call_requires(self.spec_func(), (s, xa, xb, xc, xd, xe, xf, xg, xh, xi, xj)),
            forall|s: RbSelf, xa: A, xb: B, xc: C, xd: D, xe: E, xf: F, xg: G, xh: H, xi: I, xj: J, res: Res| #[trigger] call_ensures(self.spec_func(), (s, xa, xb, xc, xd, xe, xf, xg, xh, xi, xj), res) ==> res.ret_wf(&*old(rt)),
        ensures
            final(rt).wf(),
            extends(&*old(rt), &*final(rt)),
            (done matches Completion::Return(v) ==> final(rt).wf_value(v)),
            (!converts::<RbSelf>(&*old(rt), rb_self) ==> *final(rt) == *old(rt) && (done matches Completion::Raise(
                e,
            ) && RbSelf::convert_rel(&*old(rt), rb_self, Err(e)))),
            (converts::<RbSelf>(&*old(rt), rb_self) && !converts::<A>(&*old(rt), a)
                ==> *final(rt) == *old(rt) && (done matches Completion::Raise(err) && A::convert_rel(
                &*old(rt),
                a,
                Err(err),
            ))),
            (converts::<RbSelf>(&*old(rt), rb_self) && converts::<A>(&*old(rt), a) && !converts::<B>(&*old(rt), b)
                ==> *final(rt) == *old(rt) && (done matches Completion::Raise(err) && B::convert_rel(
                &*old(rt),
                b,
                Err(err),
            ))),
            (converts::<RbSelf>(&*old(rt), rb_self) && converts::<A>(&*old(rt), a) && converts::<B>(&*old(rt), b) && !converts::<C>(&*old(rt), c)
                ==> *final(rt) == *old(rt) && (done matches Completion::Raise(err) && C::convert_rel(
                &*old(rt),
                c,
                Err(err),
            ))),
            (converts::<RbSelf>(&*old(rt), rb_self) && converts::<A>(&*old(rt), a) && converts::<B>(&*old(rt), b) && converts::<C>(&*old(rt), c) && !converts::<D>(&*old(rt), d)
                ==> *final(rt) == *old(rt) && (done matches Completion::Raise(err) && D::convert_rel(
                &*old(rt),
                d,
                Err(err),
            ))),
            (converts::<RbSelf>(&*old(rt), rb_self) && converts::<A>(&*old(rt), a) && converts::<B>(&*old(rt), b) && converts::<C>(&*old(rt), c) && converts::<D>(&*old(rt), d) && !converts::<E>(&*old(rt), e)
                ==> *final(rt) == *old(rt) && (done matches Completion::Raise(err) && E::convert_rel(
                &*old(rt),
                e,
                Err(err),
            ))),
            (converts::<RbSelf>(&*old(rt), rb_self) && converts::<A>(&*old(rt), a) && converts::<B>(&*old(rt), b) && converts::<C>(&*old(rt), c) && converts::<D>(&*old(rt), d) && converts::<E>(&*old(rt), e) && !converts::<F>(&*old(rt), f)
                ==> *final(rt) == *old(rt) && (done matches Completion::Raise(err) && F::convert_rel(
                &*old(rt),
                f,
                Err(err),
            ))),
            (converts::<RbSelf>(&*old(rt), rb_self) && converts::<A>(&*old(rt), a) && converts::<B>(&*old(rt), b) && converts::<C>(&*old(rt), c) && converts::<D>(&*old(rt), d) && converts::<E>(&*old(rt), e) && converts::<F>(&*old(rt), f) && !converts::<G>(&*old(rt), g)
                ==> *final(rt) == *old(rt) && (done matches Completion::Raise(err) && G::convert_rel(
                &*old(rt),
                g,
                Err(err),
            ))),
            (converts::<RbSelf>(&*old(rt), rb_self) && converts::<A>(&*old(rt), a) && converts::<B>(&*old(rt), b) && converts::<C>(&*old(rt), c) && converts::<D>(&*old(rt), d) && converts::<E>(&*old(rt), e) && converts::<F>(&*old(rt), f) && converts::<G>(&*old(rt), g) && !converts::<H>(&*old(rt), h)
                ==> *final(rt) == *old(rt) && (done matches Completion::Raise(err) && H::convert_rel(
                &*old(rt),
                h,
                Err(err),
            ))),
            (converts::<RbSelf>(&*old(rt), rb_self) && converts::<A>(&*old(rt), a) && converts::<B>(&*old(rt), b) && converts::<C>(&*old(rt), c) && converts::<D>(&*old(rt), d) && converts::<E>(&*old(rt), e) && converts::<F>(&*old(rt), f) && converts::<G>(&*old(rt), g) && converts::<H>(&*old(rt), h) && !converts::<I>(&*old(rt), i)
                ==> *final(rt) == *old(rt) && (done matches Completion::Raise(err) && I::convert_rel(
                &*old(rt),
                i,
                Err(err),
            ))),
            (converts::<RbSelf>(&*old(rt), rb_self) && converts::<A>(&*old(rt), a) && converts::<B>(&*old(rt), b) && converts::<C>(&*old(rt), c) && converts::<D>(&*old(rt), d) && converts::<E>(&*old(rt), e) && converts::<F>(&*old(rt), f) && converts::<G>(&*old(rt), g) && converts::<H>(&*old(rt), h) && converts::<I>(&*old(rt), i) && !converts::<J>(&*old(rt), j)
                ==> *final(rt) == *old(rt) && (done matches Completion::Raise(err) && J::convert_rel(
                &*old(rt),
                j,
                Err(err),
            ))),
            (converts::<RbSelf>(&*old(rt), rb_self) && converts::<A>(&*old(rt), a) && converts::<B>(&*old(rt), b) && converts::<C>(&*old(rt), c) && converts::<D>(&*old(rt), d) && converts::<E>(&*old(rt), e) && converts::<F>(&*old(rt), f) && converts::<G>(&*old(rt), g) && converts::<H>(&*old(rt), h) && converts::<I>(&*old(rt), i) && converts::<J>(&*old(rt), j) ==> exists|s: RbSelf, xa: A, xb: B, xc: C, xd: D, xe: E, xf: F, xg: G, xh: H, xi: I, xj: J, res: Res|
                RbSelf::convert_rel(&*old(rt), rb_self, Ok(s)) && A::convert_rel(&*old(rt), a, Ok(xa)) && B::convert_rel(&*old(rt), b, Ok(xb)) && C::convert_rel(&*old(rt), c, Ok(xc)) && D::convert_rel(&*old(rt), d, Ok(xd)) && E::convert_rel(&*old(rt), e, Ok(xe)) && F::convert_rel(&*old(rt), f, Ok(xf)) && G::convert_rel(&*old(rt), g, Ok(xg)) && H::convert_rel(&*old(rt), h, Ok(xh)) && I::convert_rel(&*old(rt), i, Ok(xi)) && J::convert_rel(&*old(rt), j, Ok(xj)) && #[trigger] call_ensures(self.spec_func(), (s, xa, xb, xc, xd, xe, xf, xg, xh, xi, xj), res)
                && res.ret_rel(*old(rt), *final(rt), completion_result(done))),
    {
        match self.call_convert_value(rt, rb_self, a, b, c, d, e, f, g, h, i, j) {
            Ok(v) => Completion::Return(v),
            Err(e) => Completion::Raise(e),
        }
    }
}

/// The adapter for a native callable taking self and 11 arguments.
pub struct Method11<Func, RbSelf, A, B, C, D, E, F, G, H, I, J, K, Res> {
    func: Func,
    rb_self: PhantomData<RbSelf>,
    a: PhantomData<A>,
    b: PhantomData<B>,
    c: PhantomData<C>,
    d: PhantomData<D>,
    e: PhantomData<E>,
    f: PhantomData<F>,
    g: PhantomData<G>,
    h: PhantomData<H>,
    i: PhantomData<I>,
    j: PhantomData<J>,
    k: PhantomData<K>,
    res: PhantomData<Res>,
}

impl<Func, RbSelf, A, B, C, D, E, F, G, H, I, J, K, Res> Method11<Func, RbSelf, A, B, C, D, E, F, G, H, I, J, K, Res> where Func: Fn(RbSelf, A, B, C, D, E, F, G, H, I, J, K) -> Res, RbSelf: TryConvert, A: TryConvert, B: TryConvert, C: TryConvert, D: TryConvert, E: TryConvert, F: TryConvert, G: TryConvert, H: TryConvert, I: TryConvert, J: TryConvert, K: TryConvert, Res: ReturnValue {
    /// The wrapped host function, for specifications.
    pub closed spec fn spec_func(&self) -> Func {
        self.func
    }

    pub fn new(func: Func) -> (m: Self)
        ensures
            m.spec_func() == func,
    {
        Method11 {
            func,
            rb_self: PhantomData,
            a: PhantomData,
            b: PhantomData,
            c: PhantomData,
            d: PhantomData,
            e: PhantomData,
            f: PhantomData,
            g: PhantomData,
            h: PhantomData,
            i: PhantomData,
            j: PhantomData,
            k: PhantomData,
            res: PhantomData,
        }
    }

    /// Convert self and the arguments left to right, stopping at the first
    /// failure without touching the runtime or the host function; on full
    /// success, invoke the host function and convert its result back.
    pub fn call_convert_value(self, rt: &mut Ruby, rb_self: Value, a: Value, b: Value, c: Value, d: Value, e: Value, f: Value, g: Value, h: Value, i: Value, j: Value, k: Value) -> (r: Result<Value, Error>)
        requires
            old(rt).wf(),
            old(rt).has_room(),
            old(rt).wf_value(rb_self),
            !is_undef_raw(rb_self.spec_raw()),
            old(rt).wf_value(a),
            !is_undef_raw(a.spec_raw()),
            old(rt).wf_value(b),
            !is_undef_raw(b.spec_raw()),
            old(rt).wf_value(c),
            !is_undef_raw(c.spec_raw()),
            old(rt).wf_value(d),
            !is_undef_raw(d.spec_raw()),
            old(rt).wf_value(e),
            !is_undef_raw(e.spec_raw()),
            old(rt).wf_value(f),
            !is_undef_raw(f.spec_raw()),
            old(rt).wf_value(g),
            !is_undef_raw(g.spec_raw()),
            old(rt).wf_value(h),
            !is_undef_raw(h.spec_raw()),
            old(rt).wf_value(i),
            !is_undef_raw(i.spec_raw()),
            old(rt).wf_value(j),
            !is_undef_raw(j.spec_raw()),
            old(rt).wf_value(k),
            !is_undef_raw(k.spec_raw()),
            forall|s: RbSelf, xa: A, xb: B, xc: C, xd: D, xe: E, xf: F, xg: G, xh: H, xi: I, xj: J, xk: K| call_requires(self.spec_func(), (s, xa, xb, xc, xd, xe, xf, xg, xh, xi, xj, xk)),
            forall|s: RbSelf, xa: A, xb: B, xc: C, xd: D, xe: E, xf: F, xg: G, xh: H, xi: I, xj: J, xk: K, res: Res| #[trigger] call_ensures(self.spec_func(), (s, xa, xb, xc, xd, xe, xf, xg, xh, xi, xj, xk), res) ==> res.ret_wf(&*old(rt)),
        ensures
            final(rt).wf(),
            extends(&*old(rt), &*final(rt)),
            (r matches Ok(v) ==> final(rt).wf_value(v)),
            (!converts::<RbSelf>(&*old(rt), rb_self) ==> *final(rt) == *old(rt) && (r matches Err(err)
                && RbSelf::convert_rel(&*old(rt), rb_self, Err(err)))),
            (converts::<RbSelf>(&*old(rt), rb_self) && !converts::<A>(&*old(rt), a)
                ==> *final(rt) == *old(rt) && (r matches Err(err) && A::convert_rel(
                &*old(rt),
                a,
                Err(err),
            ))),
            (converts::<RbSelf>(&*old(rt), rb_self) && converts::<A>(&*old(rt), a) && !converts::<B>(&*old(rt), b)
                ==> *final(rt) == *old(rt) && (r matches Err(err) && B::convert_rel(
                &*old(rt),
                b,
                Err(err),
            ))),
            (converts::<RbSelf>(&*old(rt), rb_self) && converts::<A>(&*old(rt), a) && converts::<B>(&*old(rt), b) && !converts::<C>(&*old(rt), c)
                ==> *final(rt) == *old(rt) && (r matches Err(err) && C::convert_rel(
                &*old(rt),
                c,
                Err(err),
            ))),
            (converts::<RbSelf>(&*old(rt), rb_self) && converts::<A>(&*old(rt), a) && converts::<B>(&*old(rt), b) && converts::<C>(&*old(rt), c) && !converts::<D>(&*old(rt), d)
                ==> *final(rt) == *old(rt) && (r matches Err(err) && D::convert_rel(
                &*old(rt),
                d,
                Err(err),
            ))),
            (converts::<RbSelf>(&*old(rt), rb_self) && converts::<A>(&*old(rt), a) && converts::<B>(&*old(rt), b) && converts::<C>(&*old(rt), c) && converts::<D>(&*old(rt), d) && !converts::<E>(&*old(rt), e)
                ==> *final(rt) == *old(rt) && (r matches Err(err) && E::convert_rel(
                &*old(rt),
                e,
                Err(err),
            ))),
            (converts::<RbSelf>(&*old(rt), rb_self) && converts::<A>(&*old(rt), a) && converts::<B>(&*old(rt), b) && converts::<C>(&*old(rt), c) && converts::<D>(&*old(rt), d) && converts::<E>(&*old(rt), e) && !converts::<F>(&*old(rt), f)
                ==> *final(rt) == *old(rt) && (r matches Err(err) && F::convert_rel(
                &*old(rt),
                f,
                Err(err),
            ))),
            (converts::<RbSelf>(&*old(rt), rb_self) && converts::<A>(&*old(rt), a) && converts::<B>(&*old(rt), b) && converts::<C>(&*old(rt), c) && converts::<D>(&*old(rt), d) && converts::<E>(&*old(rt), e) && converts::<F>(&*old(rt), f) && !converts::<G>(&*old(rt), g)
                ==> *final(rt) == *old(rt) && (r matches Err(err) && G::convert_rel(
                &*old(rt),
                g,
                Err(err),
            ))),
            (converts::<RbSelf>(&*old(rt), rb_self) && converts::<A>(&*old(rt), a) && converts::<B>(&*old(rt), b) && converts::<C>(&*old(rt), c) && converts::<D>(&*old(rt), d) && converts::<E>(&*old(rt), e) && converts::<F>(&*old(rt), f) && converts::<G>(&*old(rt), g) && !converts::<H>(&*old(rt), h)
                ==> *final(rt) == *old(rt) && (r matches Err(err) && H::convert_rel(
                &*old(rt),
                h,
                Err(err),
            ))),
            (converts::<RbSelf>(&*old(rt), rb_self) && converts::<A>(&*old(rt), a) && converts::<B>(&*old(rt), b) && converts::<C>(&*old(rt), c) && converts::<D>(&*old(rt), d) && converts::<E>(&*old(rt), e) && converts::<F>(&*old(rt), f) && converts::<G>(&*old(rt), g) && converts::<H>(&*old(rt), h) && !converts::<I>(&*old(rt), i)
                ==> *final(rt) == *old(rt) && (r matches Err(err) && I::convert_rel(
                &*old(rt),
                i,
                Err(err),
            ))),
            (converts::<RbSelf>(&*old(rt), rb_self) && converts::<A>(&*old(rt), a) && converts::<B>(&*old(rt), b) && converts::<C>(&*old(rt), c) && converts::<D>(&*old(rt), d) && converts::<E>(&*old(rt), e) && converts::<F>(&*old(rt), f) && converts::<G>(&*old(rt), g) && converts::<H>(&*old(rt), h) && converts::<I>(&*old(rt), i) && !converts::<J>(&*old(rt), j)
                ==> *final(rt) == *old(rt) && (r matches Err(err) && J::convert_rel(
                &*old(rt),
                j,
                Err(err),
            ))),
            (converts::<RbSelf>(&*old(rt), rb_self) && converts::<A>(&*old(rt), a) && converts::<B>(&*old(rt), b) && converts::<C>(&*old(rt), c) && converts::<D>(&*old(rt), d) && converts::<E>(&*old(rt), e) && converts::<F>(&*old(rt), f) && converts::<G>(&*old(rt), g) && converts::<H>(&*old(rt), h) && converts::<I>(&*old(rt), i) && converts::<J>(&*old(rt), j) && !converts::<K>(&*old(rt), k)
                ==> *final(rt) == *old(rt) && (r matches Err(err) && K::convert_rel(
                &*old(rt),
                k,
                Err(err),
            ))),
            (converts::<RbSelf>(&*old(rt), rb_self) && converts::<A>(&*old(rt), a) && converts::<B>(&*old(rt), b) && converts::<C>(&*old(rt), c) && converts::<D>(&*old(rt), d) && converts::<E>(&*old(rt), e) && converts::<F>(&*old(rt), f) && converts::<G>(&*old(rt), g) && converts::<H>(&*old(rt), h) && converts::<I>(&*old(rt), i) && converts::<J>(&*old(rt), j) && converts::<K>(&*old(rt), k) ==> exists|s: RbSelf, xa: A, xb: B, xc: C, xd: D, xe: E, xf: F, xg: G, xh: H, xi: I, xj: J, xk: K, res: Res|
                RbSelf::convert_rel(&*old(rt), rb_self, Ok(s)) && A::convert_rel(&*old(rt), a, Ok(xa)) && B::convert_rel(&*old(rt), b, Ok(xb)) && C::convert_rel(&*old(rt), c, Ok(xc)) && D::convert_rel(&*old(rt), d, Ok(xd)) && E::convert_rel(&*old(rt), e, Ok(xe)) && F::convert_rel(&*old(rt), f, Ok(xf)) && G::convert_rel(&*old(rt), g, Ok(xg)) && H::convert_rel(&*old(rt), h, Ok(xh)) && I::convert_rel(&*old(rt), i, Ok(xi)) && J::convert_rel(&*old(rt), j, Ok(xj)) && K::convert_rel(&*old(rt), k, Ok(xk)) && #[trigger] call_ensures(self.spec_func(), (s, xa, xb, xc, xd, xe, xf, xg, xh, xi, xj, xk), res)
                && res.ret_rel(*old(rt), *final(rt), r)),
    {
        let s: RbSelf = match RbSelf::try_convert(&*rt, rb_self) {
            Ok(s) => s,
            Err(err) => {
                proof {
                    assert forall|x: RbSelf| !RbSelf::convert_rel(
                        &*old(rt),
                        rb_self,
                        Ok(x),
                    ) by {
                        RbSelf::lemma_convert_exclusive(&*old(rt), rb_self, x, err);
                    }
                    assert(rt.heap@.subrange(0, old(rt).heap@.len() as int) =~= old(rt).heap@);
                }
                return Err(err);
            },
        };
        let xa: A = match A::try_convert(&*rt, a) {
            Ok(x) => x,
            Err(err) => {
                proof {
                    assert forall|x: A| !A::convert_rel(&*old(rt), a, Ok(x)) by {
                        A::lemma_convert_exclusive(&*old(rt), a, x, err);
                    }
                    assert(rt.heap@.subrange(0, old(rt).heap@.len() as int) =~= old(rt).heap@);
                }
                return Err(err);
            },
        };
        let xb: B = match B::try_convert(&*rt, b) {
            Ok(x) => x,
            Err(err) => {
                proof {
                    assert forall|x: B| !B::convert_rel(&*old(rt), b, Ok(x)) by {
                        B::lemma_convert_exclusive(&*old(rt), b, x, err);
                    }
                    assert(rt.heap@.subrange(0, old(rt).heap@.len() as int) =~= old(rt).heap@);
                }
                return Err(err);
            },
        };
        let xc: C = match C::try_convert(&*rt, c) {
            Ok(x) => x,
            Err(err) => {
                proof {
                    assert forall|x: C| !C::convert_rel(&*old(rt), c, Ok(x)) by {
                        C::lemma_convert_exclusive(&*old(rt), c, x, err);
                    }
                    assert(rt.heap@.subrange(0, old(rt).heap@.len() as int) =~= old(rt).heap@);
                }
                return Err(err);
            },
        };
        let xd: D = match D::try_convert(&*rt, d) {
            Ok(x) => x,
            Err(err) => {
                proof {
                    assert forall|x: D| !D::convert_rel(&*old(rt), d, Ok(x)) by {
                        D::lemma_convert_exclusive(&*old(rt), d, x, err);
                    }
                    assert(rt.heap@.subrange(0, old(rt).heap@.len() as int) =~= old(rt).heap@);
                }
                return Err(err);
            },
        };
        let xe: E = match E::try_convert(&*rt, e) {
            Ok(x) => x,
            Err(err) => {
                proof {
                    assert forall|x: E| !E::convert_rel(&*old(rt), e, Ok(x)) by {
                        E::lemma_convert_exclusive(&*old(rt), e, x, err);
                    }
                    assert(rt.heap@.subrange(0, old(rt).heap@.len() as int) =~= old(rt).heap@);
                }
                return Err(err);
            },
        };
        let xf: F = match F::try_convert(&*rt, f) {
            Ok(x) => x,
            Err(err) => {
                proof {
                    assert forall|x: F| !F::convert_rel(&*old(rt), f, Ok(x)) by {
                        F::lemma_convert_exclusive(&*old(rt), f, x, err);
                    }
                    assert(rt.heap@.subrange(0, old(rt).heap@.len() as int) =~= old(rt).heap@);
                }
                return Err(err);
            },
        };
        let xg: G = match G::try_convert(&*rt, g) {
            Ok(x) => x,
            Err(err) => {
                proof {
                    assert forall|x: G| !G::convert_rel(&*old(rt), g, Ok(x)) by {
                        G::lemma_convert_exclusive(&*old(rt), g, x, err);
                    }
                    assert(rt.heap@.subrange(0, old(rt).heap@.len() as int) =~= old(rt).heap@);
                }
                return Err(err);
            },
        };
        let xh: H = match H::try_convert(&*rt, h) {
            Ok(x) => x,
            Err(err) => {
                proof {
                    assert forall|x: H| !H::convert_rel(&*old(rt), h, Ok(x)) by {
                        H::lemma_convert_exclusive(&*old(rt), h, x, err);
                    }
                    assert(rt.heap@.subrange(0, old(rt).heap@.len() as int) =~= old(rt).heap@);
                }
                return Err(err);
            },
        };
        let xi: I = match I::try_convert(&*rt, i) {
            Ok(x) => x,
            Err(err) => {
                proof {
                    assert forall|x: I| !I::convert_rel(&*old(rt), i, Ok(x)) by {
                        I::lemma_convert_exclusive(&*old(rt), i, x, err);
                    }
                    assert(rt.heap@.subrange(0, old(rt).heap@.len() as int) =~= old(rt).heap@);
                }
                return Err(err);
            },
        };
        let xj: J = match J::try_convert(&*rt, j) {
            Ok(x) => x,
            Err(err) => {
                proof {
                    assert forall|x: J| !J::convert_rel(&*old(rt), j, Ok(x)) by {
                        J::lemma_convert_exclusive(&*old(rt), j, x, err);
                    }
                    assert(rt.heap@.subrange(0, old(rt).heap@.len() as int) =~= old(rt).heap@);
                }
                return Err(err);
            },
        };
        let xk: K = match K::try_convert(&*rt, k) {
            Ok(x) => x,
            Err(err) => {
                proof {
                    assert forall|x: K| !K::convert_rel(&*old(rt), k, Ok(x)) by {
                        K::lemma_convert_exclusive(&*old(rt), k, x, err);
                    }
                    assert(rt.heap@.subrange(0, old(rt).heap@.len() as int) =~= old(rt).heap@);
                }
                return Err(err);
            },
        };
        proof {
            assert(call_requires(self.spec_func(), (s, xa, xb, xc, xd, xe, xf, xg, xh, xi, xj, xk)));
        }
        let res: Res = (self.func)(s, xa, xb, xc, xd, xe, xf, xg, xh, xi, xj, xk);
        proof {
            assert(call_ensures(self.spec_func(), (s, xa, xb, xc, xd, xe, xf, xg, xh, xi, xj, xk), res));
        }
        res.into_return_value(rt)
    }

    /// As `call_convert_value`, but decide what crosses back to the runtime:
    /// the value, or a raise carrying the error.
    pub fn call_handle_error(self, rt: &mut Ruby, rb_self: Value, a: Value, b: Value, c: Value, d: Value, e: Value, f: Value, g: Value, h: Value, i: Value, j: Value, k: Value) -> (done: Completion)
        requires
            old(rt).wf(),
            old(rt).has_room(),
            old(rt).wf_value(rb_self),
            !is_undef_raw(rb_self.spec_raw()),
            old(rt).wf_value(a),
            !is_undef_raw(a.spec_raw()),
            old(rt).wf_value(b),
            !is_undef_raw(b.spec_raw()),
            old(rt).wf_value(c),
            !is_undef_raw(c.spec_raw()),
            old(rt).wf_value(d),
            !is_undef_raw(d.spec_raw()),
            old(rt).wf_value(e),
            !is_undef_raw(e.spec_raw()),
            old(rt).wf_value(f),
            !is_undef_raw(f.spec_raw()),
            old(rt).wf_value(g),
            !is_undef_raw(g.spec_raw()),
            old(rt).wf_value(h),
            !is_undef_raw(h.spec_raw()),
            old(rt).wf_value(i),
            !is_undef_raw(i.spec_raw()),
            old(rt).wf_value(j),
            !is_undef_raw(j.spec_raw()),
            old(rt).wf_value(k),
            !is_undef_raw(k.spec_raw()),
            forall|s: RbSelf, xa: A, xb: B, xc: C, xd: D, xe: E, xf: F, xg: G, xh: H, xi: I, xj: J, xk: K| call_requires(self.spec_func(), (s, xa, xb, xc, xd, xe, xf, xg, xh, xi, xj, xk)),
            forall|s: RbSelf, xa: A, xb: B, xc: C, xd: D, xe: E, xf: F, xg: G, xh: H, xi: I, xj: J, xk: K, res: Res| #[trigger] call_ensures(self.spec_func(), (s, xa, xb, xc, xd, xe, xf, xg, xh, xi, xj, xk), res) ==> res.ret_wf(&*old(rt)),
        ensures
            final(rt).wf(),
            extends(&*old(rt), &*final(rt)),
            (done matches Completion::Return(v) ==> final(rt).wf_value(v)),
            (!converts::<RbSelf>(&*old(rt), rb_self) ==> *final(rt) == *old(rt) && (done matches Completion::Raise(
                e,
            ) && RbSelf::convert_rel(&*old(rt), rb_self, Err(e)))),
            (converts::<RbSelf>(&*old(rt), rb_self) && !converts::<A>(&*old(rt), a)
                ==> *final(rt) == *old(rt) && (done matches Completion::Raise(err) && A::convert_rel(
                &*old(rt),
                a,
                Err(err),
            ))),
            (converts::<RbSelf>(&*old(rt), rb_self) && converts::<A>(&*old(rt), a) && !converts::<B>(&*old(rt), b)
                ==> *final(rt) == *old(rt) && (done matches Completion::Raise(err) && B::convert_rel(
                &*old(rt),
                b,
                Err(err),
            ))),
            (converts::<RbSelf>(&*old(rt), rb_self) && converts::<A>(&*old(rt), a) && converts::<B>(&*old(rt), b) && !converts::<C>(&*old(rt), c)
                ==> *final(rt) == *old(rt) && (done matches Completion::Raise(err) && C::convert_rel(
                &*old(rt),
                c,
                Err(err),
            ))),
            (converts::<RbSelf>(&*old(rt), rb_self) && converts::<A>(&*old(rt), a) && converts::<B>(&*old(rt), b) && converts::<C>(&*old(rt), c) && !converts::<D>(&*old(rt), d)
                ==> *final(rt) == *old(rt) && (done matches Completion::Raise(err) && D::convert_rel(
                &*old(rt),
                d,
                Err(err),
            ))),
            (converts::<RbSelf>(&*old(rt), rb_self) && converts::<A>(&*old(rt), a) && converts::<B>(&*old(rt), b) && converts::<C>(&*old(rt), c) && converts::<D>(&*old(rt), d) && !converts::<E>(&*old(rt), e)
                ==> *final(rt) == *old(rt) && (done matches Completion::Raise(err) && E::convert_rel(
                &*old(rt),
                e,
                Err(err),
            ))),
            (converts::<RbSelf>(&*old(rt), rb_self) && converts::<A>(&*old(rt), a) && converts::<B>(&*old(rt), b) && converts::<C>(&*old(rt), c) && converts::<D>(&*old(rt), d) && converts::<E>(&*old(rt), e) && !converts::<F>(&*old(rt), f)
                ==> *final(rt) == *old(rt) && (done matches Completion::Raise(err) && F::convert_rel(
                &*old(rt),
                f,
                Err(err),
            ))),
            (converts::<RbSelf>(&*old(rt), rb_self) && converts::<A>(&*old(rt), a) && converts::<B>(&*old(rt), b) && converts::<C>(&*old(rt), c) && converts::<D>(&*old(rt), d) && converts::<E>(&*old(rt), e) && converts::<F>(&*old(rt), f) && !converts::<G>(&*old(rt), g)
                ==> *final(rt) == *old(rt) && (done matches Completion::Raise(err) && G::convert_rel(
                &*old(rt),
                g,
                Err(err),
            ))),
            (converts::<RbSelf>(&*old(rt), rb_self) && converts::<A>(&*old(rt), a) && converts::<B>(&*old(rt), b) && converts::<C>(&*old(rt), c) && converts::<D>(&*old(rt), d) && converts::<E>(&*old(rt), e) && converts::<F>(&*old(rt), f) && converts::<G>(&*old(rt), g) && !converts::<H>(&*old(rt), h)
                ==> *final(rt) == *old(rt) && (done matches Completion::Raise(err) && H::convert_rel(
                &*old(rt),
                h,
                Err(err),
            ))),
            (converts::<RbSelf>(&*old(rt), rb_self) && converts::<A>(&*old(rt), a) && converts::<B>(&*old(rt), b) && converts::<C>(&*old(rt), c) && converts::<D>(&*old(rt), d) && converts::<E>(&*old(rt), e) && converts::<F>(&*old(rt), f) && converts::<G>(&*old(rt), g) && converts::<H>(&*old(rt), h) && !converts::<I>(&*old(rt), i)
                ==> *final(rt) == *old(rt) && (done matches Completion::Raise(err) && I::convert_rel(
                &*old(rt),
                i,
                Err(err),
            ))),
            (converts::<RbSelf>(&*old(rt), rb_self) && converts::<A>(&*old(rt), a) && converts::<B>(&*old(rt), b) && converts::<C>(&*old(rt), c) && converts::<D>(&*old(rt), d) && converts::<E>(&*old(rt), e) && converts::<F>(&*old(rt), f) && converts::<G>(&*old(rt), g) && converts::<H>(&*old(rt), h) && converts::<I>(&*old(rt), i) && !converts::<J>(&*old(rt), j)
                ==> *final(rt) == *old(rt) && (done matches Completion::Raise(err) && J::convert_rel(
                &*old(rt),
                j,
                Err(err),
            ))),
            (converts::<RbSelf>(&*old(rt), rb_self) && converts::<A>(&*old(rt), a) && converts::<B>(&*old(rt), b) && converts::<C>(&*old(rt), c) && converts::<D>(&*old(rt), d) && converts::<E>(&*old(rt), e) && converts::<F>(&*old(rt), f) && converts::<G>(&*old(rt), g) && converts::<H>(&*old(rt), h) && converts::<I>(&*old(rt), i) && converts::<J>(&*old(rt), j) && !converts::<K>(&*old(rt), k)
                ==> *final(rt) == *old(rt) && (done matches Completion::Raise(err) && K::convert_rel(
                &*old(rt),
                k,
                Err(err),
            ))),
            (converts::<RbSelf>(&*old(rt), rb_self) && converts::<A>(&*old(rt), a) && converts::<B>(&*old(rt), b) && converts::<C>(&*old(rt), c) && converts::<D>(&*old(rt), d) && converts::<E>(&*old(rt), e) && converts::<F>(&*old(rt), f) && converts::<G>(&*old(rt), g) && converts::<H>(&*old(rt), h) && converts::<I>(&*old(rt), i) && converts::<J>(&*old(rt), j) && converts::<K>(&*old(rt), k) ==> exists|s: RbSelf, xa: A, xb: B, xc: C, xd: D, xe: E, xf: F, xg: G, xh: H, xi: I, xj: J, xk: K, res: Res|
                RbSelf::convert_rel(&*old(rt), rb_self, Ok(s)) && A::convert_rel(&*old(rt), a, Ok(xa)) && B::convert_rel(&*old(rt), b, Ok(xb)) && C::convert_rel(&*old(rt), c, Ok(xc)) && D::convert_rel(&*old(rt), d, Ok(xd)) && E::convert_rel(&*old(rt), e, Ok(xe)) && F::convert_rel(&*old(rt), f, Ok(xf)) && G::convert_rel(&*old(rt), g, Ok(xg)) && H::convert_rel(&*old(rt), h, Ok(xh)) && I::convert_rel(&*old(rt), i, Ok(xi)) && J::convert_rel(&*old(rt), j, Ok(xj)) && K::convert_rel(&*old(rt), k, Ok(xk)) && #[trigger] call_ensures(self.spec_func(), (s, xa, xb, xc, xd, xe, xf, xg, xh, xi, xj, xk), res)
                && res.ret_rel(*old(rt), *final(rt), completion_result(done))),
    {
        match self.call_convert_value(rt, rb_self, a, b, c, d, e, f, g, h, i, j, k) {
            Ok(v) => Completion::Return(v),
            Err(e) => Completion::Raise(e),
        }
    }
}

/// The adapter for a native callable taking self and 12 arguments.
pub struct Method12<Func, RbSelf, A, B, C, D, E, F, G, H, I, J, K, L, Res> {
    func: Func,
    rb_self: PhantomData<RbSelf>,
    a: PhantomData<A>,
    b: PhantomData<B>,
    c: PhantomData<C>,
    d: PhantomData<D>,
    e: PhantomData<E>,
    f: PhantomData<F>,
    g: PhantomData<G>,
    h: PhantomData<H>,
    i: PhantomData<I>,
    j: PhantomData<J>,
    k: PhantomData<K>,
    l: PhantomData<L>,
    res: PhantomData<Res>,
}

impl<Func, RbSelf, A, B, C, D, E, F, G, H, I, J, K, L, Res> Method12<Func, RbSelf, A, B, C, D, E, F, G, H, I, J, K, L, Res> where Func: Fn(RbSelf, A, B, C, D, E, F, G, H, I, J, K, L) -> Res, RbSelf: TryConvert, A: TryConvert, B: TryConvert, C: TryConvert, D: TryConvert, E: TryConvert, F: TryConvert, G: TryConvert, H: TryConvert, I: TryConvert, J: TryConvert, K: TryConvert, L: TryConvert, Res: ReturnValue {
    /// The wrapped host function, for specifications.
    pub closed spec fn spec_func(&self) -> Func {
        self.func
    }

    pub fn new(func: Func) -> (m: Self)
        ensures
            m.spec_func() == func,
    {
        Method12 {
            func,
            rb_self: PhantomData,
            a: PhantomData,
            b: PhantomData,
            c: PhantomData,
            d: PhantomData,
            e: PhantomData,
            f: PhantomData,
            g: PhantomData,
            h: PhantomData,
            i: PhantomData,
            j: PhantomData,
            k: PhantomData,
            l: PhantomData,
            res: PhantomData,
        }
    }

    /// Convert self and the arguments left to right, stopping at the first
    /// failure without touching the runtime or the host function; on full
    /// success, invoke the host function and convert its result back.
    pub fn call_convert_value(self, rt: &mut Ruby, rb_self: Value, a: Value, b: Value, c: Value, d: Value, e: Value, f: Value, g: Value, h: Value, i: Value, j: Value, k: Value, l: Value) -> (r: Result<Value, Error>)
        requires
            old(rt).wf(),
            old(rt).has_room(),
            old(rt).wf_value(rb_self),
            !is_undef_raw(rb_self.spec_raw()),
            old(rt).wf_value(a),
            !is_undef_raw(a.spec_raw()),
            old(rt).wf_value(b),
            !is_undef_raw(b.spec_raw()),
            old(rt).wf_value(c),
            !is_undef_raw(c.spec_raw()),
            old(rt).wf_value(d),
            !is_undef_raw(d.spec_raw()),
            old(rt).wf_value(e),
            !is_undef_raw(e.spec_raw()),
            old(rt).wf_value(f),
            !is_undef_raw(f.spec_raw()),
            old(rt).wf_value(g),
            !is_undef_raw(g.spec_raw()),
            old(rt).wf_value(h),
            !is_undef_raw(h.spec_raw()),
            old(rt).wf_value(i),
            !is_undef_raw(i.spec_raw()),
            old(rt).wf_value(j),
            !is_undef_raw(j.spec_raw()),
            old(rt).wf_value(k),
            !is_undef_raw(k.spec_raw()),
            old(rt).wf_value(l),
            !is_undef_raw(l.spec_raw()),
            forall|s: RbSelf, xa: A, xb: B, xc: C, xd: D, xe: E, xf: F, xg: G, xh: H, xi: I, xj: J, xk: K, xl: L| call_requires(self.spec_func(), (s, xa, xb, xc, xd, xe, xf, xg, xh, xi, xj, xk, xl)),
            forall|s: RbSelf, xa: A, xb: B, xc: C, xd: D, xe: E, xf: F, xg: G, xh: H, xi: I, xj: J, xk: K, xl: L, res: Res| #[trigger] call_ensures(self.spec_func(), (s, xa, xb, xc, xd, xe, xf, xg, xh, xi, xj, xk, xl), res) ==> res.ret_wf(&*old(rt)),
        ensures
            final(rt).wf(),
            extends(&*old(rt), &*final(rt)),
            (r matches Ok(v) ==> final(rt).wf_value(v)),
            (!converts::<RbSelf>(&*old(rt), rb_self) ==> *final(rt) == *old(rt) && (r matches Err(err)
                && RbSelf::convert_rel(&*old(rt), rb_self, Err(err)))),
            (converts::<RbSelf>(&*old(rt), rb_self) && !converts::<A>(&*old(rt), a)
                ==> *final(rt) == *old(rt) && (r matches Err(err) && A::convert_rel(
                &*old(rt),
                a,
                Err(err),
            ))),
            (converts::<RbSelf>(&*old(rt), rb_self) && converts::<A>(&*old(rt), a) && !converts::<B>(&*old(rt), b)
                ==> *final(rt) == *old(rt) && (r matches Err(err) && B::convert_rel(
                &*old(rt),
                b,
                Err(err),
            ))),
            (converts::<RbSelf>(&*old(rt), rb_self) && converts::<A>(&*old(rt), a) && converts::<B>(&*old(rt), b) && !converts::<C>(&*old(rt), c)
                ==> *final(rt) == *old(rt) && (r matches Err(err) && C::convert_rel(
                &*old(rt),
                c,
                Err(err),
            ))),
            (converts::<RbSelf>(&*old(rt), rb_self) && converts::<A>(&*old(rt), a) && converts::<B>(&*old(rt), b) && converts::<C>(&*old(rt), c) && !converts::<D>(&*old(rt), d)
                ==> *final(rt) == *old(rt) && (r matches Err(err) && D::convert_rel(
                &*old(rt),
                d,
                Err(err),
            ))),
            (converts::<RbSelf>(&*old(rt), rb_self) && converts::<A>(&*old(rt), a) && converts::<B>(&*old(rt), b) && converts::<C>(&*old(rt), c) && converts::<D>(&*old(rt), d) && !converts::<E>(&*old(rt), e)
                ==> *final(rt) == *old(rt) && (r matches Err(err) && E::convert_rel(
                &*old(rt),
                e,
                Err(err),
            ))),
            (converts::<RbSelf>(&*old(rt), rb_self) && converts::<A>(&*old(rt), a) && converts::<B>(&*old(rt), b) && converts::<C>(&*old(rt), c) && converts::<D>(&*old(rt), d) && converts::<E>(&*old(rt), e) && !converts::<F>(&*old(rt), f)
                ==> *final(rt) == *old(rt) && (r matches Err(err) && F::convert_rel(
                &*old(rt),
                f,
                Err(err),
            ))),
            (converts::<RbSelf>(&*old(rt), rb_self) && converts::<A>(&*old(rt), a) && converts::<B>(&*old(rt), b) && converts::<C>(&*old(rt), c) && converts::<D>(&*old(rt), d) && converts::<E>(&*old(rt), e) && converts::<F>(&*old(rt), f) && !converts::<G>(&*old(rt), g)
                ==> *final(rt) == *old(rt) && (r matches Err(err) && G::convert_rel(
                &*old(rt),
                g,
                Err(err),
            ))),
            (converts::<RbSelf>(&*old(rt), rb_self) && converts::<A>(&*old(rt), a) && converts::<B>(&*old(rt), b) && converts::<C>(&*old(rt), c) && converts::<D>(&*old(rt), d) && converts::<E>(&*old(rt), e) && converts::<F>(&*old(rt), f) && converts::<G>(&*old(rt), g) && !converts::<H>(&*old(rt), h)
                ==> *final(rt) == *old(rt) && (r matches Err(err) && H::convert_rel(
                &*old(rt),
                h,
                Err(err),
            ))),
            (converts::<RbSelf>(&*old(rt), rb_self) && converts::<A>(&*old(rt), a) && converts::<B>(&*old(rt), b) && converts::<C>(&*old(rt), c) && converts::<D>(&*old(rt), d) && converts::<E>(&*old(rt), e) && converts::<F>(&*old(rt), f) && converts::<G>(&*old(rt), g) && converts::<H>(&*old(rt), h) && !converts::<I>(&*old(rt), i)
                ==> *final(rt) == *old(rt) && (r matches Err(err) && I::convert_rel(
                &*old(rt),
                i,
                Err(err),
            ))),
            (converts::<RbSelf>(&*old(rt), rb_self) && converts::<A>(&*old(rt), a) && converts::<B>(&*old(rt), b) && converts::<C>(&*old(rt), c) && converts::<D>(&*old(rt), d) && converts::<E>(&*old(rt), e) && converts::<F>(&*old(rt), f) && converts::<G>(&*old(rt), g) && converts::<H>(&*old(rt), h) && converts::<I>(&*old(rt), i) && !converts::<J>(&*old(rt), j)
                ==> *final(rt) == *old(rt) && (r matches Err(err) && J::convert_rel(
                &*old(rt),
                j,
                Err(err),
            ))),
            (converts::<RbSelf>(&*old(rt), rb_self) && converts::<A>(&*old(rt), a) && converts::<B>(&*old(rt), b) && converts::<C>(&*old(rt), c) && converts::<D>(&*old(rt), d) && converts::<E>(&*old(rt), e) && converts::<F>(&*old(rt), f) && converts::<G>(&*old(rt), g) && converts::<H>(&*old(rt), h) && converts::<I>(&*old(rt), i) && converts::<J>(&*old(rt), j) && !converts::<K>(&*old(rt), k)
                ==> *final(rt) == *old(rt) && (r matches Err(err) && K::convert_rel(
                &*old(rt),
                k,
                Err(err),
            ))),
            (converts::<RbSelf>(&*old(rt), rb_self) && converts::<A>(&*old(rt), a) && converts::<B>(&*old(rt), b) && converts::<C>(&*old(rt), c) && converts::<D>(&*old(rt), d) && converts::<E>(&*old(rt), e) && converts::<F>(&*old(rt), f) && converts::<G>(&*old(rt), g) && converts::<H>(&*old(rt), h) && converts::<I>(&*old(rt), i) && converts::<J>(&*old(rt), j) && converts::<K>(&*old(rt), k) && !converts::<L>(&*old(rt), l)
                ==> *final(rt) == *old(rt) && (r matches Err(err) && L::convert_rel(
                &*old(rt),
                l,
                Err(err),
            ))),
            (converts::<RbSelf>(&*old(rt), rb_self) && converts::<A>(&*old(rt), a) && converts::<B>(&*old(rt), b) && converts::<C>(&*old(rt), c) && converts::<D>(&*old(rt), d) && converts::<E>(&*old(rt), e) && converts::<F>(&*old(rt), f) && converts::<G>(&*old(rt), g) && converts::<H>(&*old(rt), h) && converts::<I>(&*old(rt), i) && converts::<J>(&*old(rt), j) && converts::<K>(&*old(rt), k) && converts::<L>(&*old(rt), l) ==> exists|s: RbSelf, xa: A, xb: B, xc: C, xd: D, xe: E, xf: F, xg: G, xh: H, xi: I, xj: J, xk: K, xl: L, res: Res|
                RbSelf::convert_rel(&*old(rt), rb_self, Ok(s)) && A::convert_rel(&*old(rt), a, Ok(xa)) && B::convert_rel(&*old(rt), b, Ok(xb)) && C::convert_rel(&*old(rt), c, Ok(xc)) && D::convert_rel(&*old(rt), d, Ok(xd)) && E::convert_rel(&*old(rt), e, Ok(xe)) && F::convert_rel(&*old(rt), f, Ok(xf)) && G::convert_rel(&*old(rt), g, Ok(xg)) && H::convert_rel(&*old(rt), h, Ok(xh)) && I::convert_rel(&*old(rt), i, Ok(xi)) && J::convert_rel(&*old(rt), j, Ok(xj)) && K::convert_rel(&*old(rt), k, Ok(xk)) && L::convert_rel(&*old(rt), l, Ok(xl)) && #[trigger] call_ensures(self.spec_func(), (s, xa, xb, xc, xd, xe, xf, xg, xh, xi, xj, xk, xl), res)
                && res.ret_rel(*old(rt), *final(rt), r)),
    {
        let s: RbSelf = match RbSelf::try_convert(&*rt, rb_self) {
            Ok(s) => s,
            Err(err) => {
                proof {
                    assert forall|x: RbSelf| !RbSelf::convert_rel(
                        &*old(rt),
                        rb_self,
                        Ok(x),
                    ) by {
                        RbSelf::lemma_convert_exclusive(&*old(rt), rb_self, x, err);
                    }
                    assert(rt.heap@.subrange(0, old(rt).heap@.len() as int) =~= old(rt).heap@);
                }
                return Err(err);
            },
        };
        let xa: A = match A::try_convert(&*rt, a) {
            Ok(x) => x,
            Err(err) => {
                proof {
                    assert forall|x: A| !A::convert_rel(&*old(rt), a, Ok(x)) by {
                        A::lemma_convert_exclusive(&*old(rt), a, x, err);
                    }
                    assert(rt.heap@.subrange(0, old(rt).heap@.len() as int) =~= old(rt).heap@);
                }
                return Err(err);
            },
        };
        let xb: B = match B::try_convert(&*rt, b) {
            Ok(x) => x,
            Err(err) => {
                proof {
                    assert forall|x: B| !B::convert_rel(&*old(rt), b, Ok(x)) by {
                        B::lemma_convert_exclusive(&*old(rt), b, x, err);
                    }
                    assert(rt.heap@.subrange(0, old(rt).heap@.len() as int) =~= old(rt).heap@);
                }
                return Err(err);
            },
        };
        let xc: C = match C::try_convert(&*rt, c) {
            Ok(x) => x,
            Err(err) => {
                proof {
                    assert forall|x: C| !C::convert_rel(&*old(rt), c, Ok(x)) by {
                        C::lemma_convert_exclusive(&*old(rt), c, x, err);
                    }
                    assert(rt.heap@.subrange(0, old(rt).heap@.len() as int) =~= old(rt).heap@);
                }
                return Err(err);
            },
        };
        let xd: D = match D::try_convert(&*rt, d) {
            Ok(x) => x,
            Err(err) => {
                proof {
                    assert forall|x: D| !D::convert_rel(&*old(rt), d, Ok(x)) by {
                        D::lemma_convert_exclusive(&*old(rt), d, x, err);
                    }
                    assert(rt.heap@.subrange(0, old(rt).heap@.len() as int) =~= old(rt).heap@);
                }
                return Err(err);
            },
        };
        let xe: E = match E::try_convert(&*rt, e) {
            Ok(x) => x,
            Err(err) => {
                proof {
                    assert forall|x: E| !E::convert_rel(&*old(rt), e, Ok(x)) by {
                        E::lemma_convert_exclusive(&*old(rt), e, x, err);
                    }
                    assert(rt.heap@.subrange(0, old(rt).heap@.len() as int) =~= old(rt).heap@);
                }
                return Err(err);
            },
        };
        let xf: F = match F::try_convert(&*rt, f) {
            Ok(x) => x,
            Err(err) => {
                proof {
                    assert forall|x: F| !F::convert_rel(&*old(rt), f, Ok(x)) by {
                        F::lemma_convert_exclusive(&*old(rt), f, x, err);
                    }
                    assert(rt.heap@.subrange(0, old(rt).heap@.len() as int) =~= old(rt).heap@);
                }
                return Err(err);
            },
        };
        let xg: G = match G::try_convert(&*rt, g) {
            Ok(x) => x,
            Err(err) => {
                proof {
                    assert forall|x: G| !G::convert_rel(&*old(rt), g, Ok(x)) by {
                        G::lemma_convert_exclusive(&*old(rt), g, x, err);
                    }
                    assert(rt.heap@.subrange(0, old(rt).heap@.len() as int) =~= old(rt).heap@);
                }
                return Err(err);
            },
        };
        let xh: H = match H::try_convert(&*rt, h) {
            Ok(x) => x,
            Err(err) => {
                proof {
                    assert forall|x: H| !H::convert_rel(&*old(rt), h, Ok(x)) by {
                        H::lemma_convert_exclusive(&*old(rt), h, x, err);
                    }
                    assert(rt.heap@.subrange(0, old(rt).heap@.len() as int) =~= old(rt).heap@);
                }
                return Err(err);
            },
        };
        let xi: I = match I::try_convert(&*rt, i) {
            Ok(x) => x,
            Err(err) => {
                proof {
                    assert forall|x: I| !I::convert_rel(&*old(rt), i, Ok(x)) by {
                        I::lemma_convert_exclusive(&*old(rt), i, x, err);
                    }
                    assert(rt.heap@.subrange(0, old(rt).heap@.len() as int) =~= old(rt).heap@);
                }
                return Err(err);
            },
        };
        let xj: J = match J::try_convert(&*rt, j) {
            Ok(x) => x,
            Err(err) => {
                proof {
                    assert forall|x: J| !J::convert_rel(&*old(rt), j, Ok(x)) by {
                        J::lemma_convert_exclusive(&*old(rt), j, x, err);
                    }
                    assert(rt.heap@.subrange(0, old(rt).heap@.len() as int) =~= old(rt).heap@);
                }
                return Err(err);
            },
        };
        let xk: K = match K::try_convert(&*rt, k) {
            Ok(x) => x,
            Err(err) => {
                proof {
                    assert forall|x: K| !K::convert_rel(&*old(rt), k, Ok(x)) by {
                        K::lemma_convert_exclusive(&*old(rt), k, x, err);
                    }
                    assert(rt.heap@.subrange(0, old(rt).heap@.len() as int) =~= old(rt).heap@);
                }
                return Err(err);
            },
        };
        let xl: L = match L::try_convert(&*rt, l) {
            Ok(x) => x,
            Err(err) => {
                proof {
                    assert forall|x: L| !L::convert_rel(&*old(rt), l, Ok(x)) by {
                        L::lemma_convert_exclusive(&*old(rt), l, x, err);
                    }
                    assert(rt.heap@.subrange(0, old(rt).heap@.len() as int) =~= old(rt).heap@);
                }
                return Err(err);
            },
        };
        proof {
            assert(call_requires(self.spec_func(), (s, xa, xb, xc, xd, xe, xf, xg, xh, xi, xj, xk, xl)));
        }
        let res: Res = (self.func)(s, xa, xb, xc, xd, xe, xf, xg, xh, xi, xj, xk, xl);
        proof {
            assert(call_ensures(self.spec_func(), (s, xa, xb, xc, xd, xe, xf, xg, xh, xi, xj, xk, xl), res));
        }
        res.into_return_value(rt)
    }

    /// As `call_convert_value`, but decide what crosses back to the runtime:
    /// the value, or a raise carrying the error.
    pub fn call_handle_error(self, rt: &mut Ruby, rb_self: Value, a: Value, b: Value, c: Value, d: Value, e: Value, f: Value, g: Value, h: Value, i: Value, j: Value, k: Value, l: Value) -> (done: Completion)
        requires
            old(rt).wf(),
            old(rt).has_room(),
            old(rt).wf_value(rb_self),
            !is_undef_raw(rb_self.spec_raw()),
            old(rt).wf_value(a),
            !is_undef_raw(a.spec_raw()),
            old(rt).wf_value(b),
            !is_undef_raw(b.spec_raw()),
            old(rt).wf_value(c),
            !is_undef_raw(c.spec_raw()),
            old(rt).wf_value(d),
            !is_undef_raw(d.spec_raw()),
            old(rt).wf_value(e),
            !is_undef_raw(e.spec_raw()),
            old(rt).wf_value(f),
            !is_undef_raw(f.spec_raw()),
            old(rt).wf_value(g),
            !is_undef_raw(g.spec_raw()),
            old(rt).wf_value(h),
            !is_undef_raw(h.spec_raw()),
            old(rt).wf_value(i),
            !is_undef_raw(i.spec_raw()),
            old(rt).wf_value(j),
            !is_undef_raw(j.spec_raw()),
            old(rt).wf_value(k),
            !is_undef_raw(k.spec_raw()),
            old(rt).wf_value(l),
            !is_undef_raw(l.spec_raw()),
            forall|s: RbSelf, xa: A, xb: B, xc: C, xd: D, xe: E, xf: F, xg: G, xh: H, xi: I, xj: J, xk: K, xl: L| call_requires(self.spec_func(), (s, xa, xb, xc, xd, xe, xf, xg, xh, xi, xj, xk, xl)),
            forall|s: RbSelf, xa: A, xb: B, xc: C, xd: D, xe: E, xf: F, xg: G, xh: H, xi: I, xj: J, xk: K, xl: L, res: Res| #[trigger] call_ensures(self.spec_func(), (s, xa, xb, xc, xd, xe, xf, xg, xh, xi, xj, xk, xl), res) ==> res.ret_wf(&*old(rt)),
        ensures
            final(rt).wf(),
            extends(&*old(rt), &*final(rt)),
            (done matches Completion::Return(v) ==> final(rt).wf_value(v)),
            (!converts::<RbSelf>(&*old(rt), rb_self) ==> *final(rt) == *old(rt) && (done matches Completion::Raise(
                e,
            ) && RbSelf::convert_rel(&*old(rt), rb_self, Err(e)))),
            (converts::<RbSelf>(&*old(rt), rb_self) && !converts::<A>(&*old(rt), a)
                ==> *final(rt) == *old(rt) && (done matches Completion::Raise(err) && A::convert_rel(
                &*old(rt),
                a,
                Err(err),
            ))),
            (converts::<RbSelf>(&*old(rt), rb_self) && converts::<A>(&*old(rt), a) && !converts::<B>(&*old(rt), b)
                ==> *final(rt) == *old(rt) && (done matches Completion::Raise(err) && B::convert_rel(
                &*old(rt),
                b,
                Err(err),
            ))),
            (converts::<RbSelf>(&*old(rt), rb_self) && converts::<A>(&*old(rt), a) && converts::<B>(&*old(rt), b) && !converts::<C>(&*old(rt), c)
                ==> *final(rt) == *old(rt) && (done matches Completion::Raise(err) && C::convert_rel(
                &*old(rt),
                c,
                Err(err),
            ))),
            (converts::<RbSelf>(&*old(rt), rb_self) && converts::<A>(&*old(rt), a) && converts::<B>(&*old(rt), b) && converts::<C>(&*old(rt), c) && !converts::<D>(&*old(rt), d)
                ==> *final(rt) == *old(rt) && (done matches Completion::Raise(err) && D::convert_rel(
                &*old(rt),
                d,
                Err(err),
            ))),
            (converts::<RbSelf>(&*old(rt), rb_self) && converts::<A>(&*old(rt), a) && converts::<B>(&*old(rt), b) && converts::<C>(&*old(rt), c) && converts::<D>(&*old(rt), d) && !converts::<E>(&*old(rt), e)
                ==> *final(rt) == *old(rt) && (done matches Completion::Raise(err) && E::convert_rel(
                &*old(rt),
                e,
                Err(err),
            ))),
            (converts::<RbSelf>(&*old(rt), rb_self) && converts::<A>(&*old(rt), a) && converts::<B>(&*old(rt), b) && converts::<C>(&*old(rt), c) && converts::<D>(&*old(rt), d) && converts::<E>(&*old(rt), e) && !converts::<F>(&*old(rt), f)
                ==> *final(rt) == *old(rt) && (done matches Completion::Raise(err) && F::convert_rel(
                &*old(rt),
                f,
                Err(err),
            ))),
            (converts::<RbSelf>(&*old(rt), rb_self) && converts::<A>(&*old(rt), a) && converts::<B>(&*old(rt), b) && converts::<C>(&*old(rt), c) && converts::<D>(&*old(rt), d) && converts::<E>(&*old(rt), e) && converts::<F>(&*old(rt), f) && !converts::<G>(&*old(rt), g)
                ==> *final(rt) == *old(rt) && (done matches Completion::Raise(err) && G::convert_rel(
                &*old(rt),
                g,
                Err(err),
            ))),
            (converts::<RbSelf>(&*old(rt), rb_self) && converts::<A>(&*old(rt), a) && converts::<B>(&*old(rt), b) && converts::<C>(&*old(rt), c) && converts::<D>(&*old(rt), d) && converts::<E>(&*old(rt), e) && converts::<F>(&*old(rt), f) && converts::<G>(&*old(rt), g) && !converts::<H>(&*old(rt), h)
                ==> *final(rt) == *old(rt) && (done matches Completion::Raise(err) && H::convert_rel(
                &*old(rt),
                h,
                Err(err),
            ))),
            (converts::<RbSelf>(&*old(rt), rb_self) && converts::<A>(&*old(rt), a) && converts::<B>(&*old(rt), b) && converts::<C>(&*old(rt), c) && converts::<D>(&*old(rt), d) && converts::<E>(&*old(rt), e) && converts::<F>(&*old(rt), f) && converts::<G>(&*old(rt), g) && converts::<H>(&*old(rt), h) && !converts::<I>(&*old(rt), i)
                ==> *final(rt) == *old(rt) && (done matches Completion::Raise(err) && I::convert_rel(
                &*old(rt),
                i,
                Err(err),
            ))),
            (converts::<RbSelf>(&*old(rt), rb_self) && converts::<A>(&*old(rt), a) && converts::<B>(&*old(rt), b) && converts::<C>(&*old(rt), c) && converts::<D>(&*old(rt), d) && converts::<E>(&*old(rt), e) && converts::<F>(&*old(rt), f) && converts::<G>(&*old(rt), g) && converts::<H>(&*old(rt), h) && converts::<I>(&*old(rt), i) && !converts::<J>(&*old(rt), j)
                ==> *final(rt) == *old(rt) && (done matches Completion::Raise(err) && J::convert_rel(
                &*old(rt),
                j,
                Err(err),
            ))),
            (converts::<RbSelf>(&*old(rt), rb_self) && converts::<A>(&*old(rt), a) && converts::<B>(&*old(rt), b) && converts::<C>(&*old(rt), c) && converts::<D>(&*old(rt), d) && converts::<E>(&*old(rt), e) && converts::<F>(&*old(rt), f) && converts::<G>(&*old(rt), g) && converts::<H>(&*old(rt), h) && converts::<I>(&*old(rt), i) && converts::<J>(&*old(rt), j) && !converts::<K>(&*old(rt), k)
                ==> *final(rt) == *old(rt) && (done matches Completion::Raise(err) && K::convert_rel(
                &*old(rt),
                k,
                Err(err),
            ))),
            (converts::<RbSelf>(&*old(rt), rb_self) && converts::<A>(&*old(rt), a) && converts::<B>(&*old(rt), b) && converts::<C>(&*old(rt), c) && converts::<D>(&*old(rt), d) && converts::<E>(&*old(rt), e) && converts::<F>(&*old(rt), f) && converts::<G>(&*old(rt), g) && converts::<H>(&*old(rt), h) && converts::<I>(&*old(rt), i) && converts::<J>(&*old(rt), j) && converts::<K>(&*old(rt), k) && !converts::<L>(&*old(rt), l)
                ==> *final(rt) == *old(rt) && (done matches Completion::Raise(err) && L::convert_rel(
                &*old(rt),
                l,
                Err(err),
            ))),
            (converts::<RbSelf>(&*old(rt), rb_self) && converts::<A>(&*old(rt), a) && converts::<B>(&*old(rt), b) && converts::<C>(&*old(rt), c) && converts::<D>(&*old(rt), d) && converts::<E>(&*old(rt), e) && converts::<F>(&*old(rt), f) && converts::<G>(&*old(rt), g) && converts::<H>(&*old(rt), h) && converts::<I>(&*old(rt), i) && converts::<J>(&*old(rt), j) && converts::<K>(&*old(rt), k) && converts::<L>(&*old(rt), l) ==> exists|s: RbSelf, xa: A, xb: B, xc: C, xd: D, xe: E, xf: F, xg: G, xh: H, xi: I, xj: J, xk: K, xl: L, res: Res|
                RbSelf::convert_rel(&*old(rt), rb_self, Ok(s)) && A::convert_rel(&*old(rt), a, Ok(xa)) && B::convert_rel(&*old(rt), b, Ok(xb)) && C::convert_rel(&*old(rt), c, Ok(xc)) && D::convert_rel(&*old(rt), d, Ok(xd)) && E::convert_rel(&*old(rt), e, Ok(xe)) && F::convert_rel(&*old(rt), f, Ok(xf)) && G::convert_rel(&*old(rt), g, Ok(xg)) && H::convert_rel(&*old(rt), h, Ok(xh)) && I::convert_rel(&*old(rt), i, Ok(xi)) && J::convert_rel(&*old(rt), j, Ok(xj)) && K::convert_rel(&*old(rt), k, Ok(xk)) && L::convert_rel(&*old(rt), l, Ok(xl)) && #[trigger] call_ensures(self.spec_func(), (s, xa, xb, xc, xd, xe, xf, xg, xh, xi, xj, xk, xl), res)
                && res.ret_rel(*old(rt), *final(rt), completion_result(done))),
    {
        match self.call_convert_value(rt, rb_self, a, b, c, d, e, f, g, h, i, j, k, l) {
            Ok(v) => Completion::Return(v),
            Err(e) => Completion::Raise(e),
        }
    }
}

/// The adapter for a native callable taking self and 13 arguments.
pub struct Method13<Func, RbSelf, A, B, C, D, E, F, G, H, I, J, K, L, M, Res> {
    func: Func,
    rb_self: PhantomData<RbSelf>,
    a: PhantomData<A>,
    b: PhantomData<B>,
    c: PhantomData<C>,
    d: PhantomData<D>,
    e: PhantomData<E>,
    f: PhantomData<F>,
    g: PhantomData<G>,
    h: PhantomData<H>,
    i: PhantomData<I>,
    j: PhantomData<J>,
    k: PhantomData<K>,
    l: PhantomData<L>,
    m: PhantomData<M>,
    res: PhantomData<Res>,
}

impl<Func, RbSelf, A, B, C, D, E, F, G, H, I, J, K, L, M, Res> Method13<Func, RbSelf, A, B, C, D, E, F, G, H, I, J, K, L, M, Res> where Func: Fn(RbSelf, A, B, C, D, E, F, G, H, I, J, K, L, M) -> Res, RbSelf: TryConvert, A: TryConvert, B: TryConvert, C: TryConvert, D: TryConvert, E: TryConvert, F: TryConvert, G: TryConvert, H: TryConvert, I: TryConvert, J: TryConvert, K: TryConvert, L: TryConvert, M: TryConvert, Res: ReturnValue {
    /// The wrapped host function, for specifications.
    pub closed spec fn spec_func(&self) -> Func {
        self.func
    }

    pub fn new(func: Func) -> (m: Self)
        ensures
            m.spec_func() == func,
    {
        Method13 {
            func,
            rb_self: PhantomData,
            a: PhantomData,
            b: PhantomData,
            c: PhantomData,
            d: PhantomData,
            e: PhantomData,
            f: PhantomData,
            g: PhantomData,
            h: PhantomData,
            i: PhantomData,
            j: PhantomData,
            k: PhantomData,
            l: PhantomData,
            m: PhantomData,
            res: PhantomData,
        }
    }

    /// Convert self and the arguments left to right, stopping at the first
    /// failure without touching the runtime or the host function; on full
    /// success, invoke the host function and convert its result back.
    pub fn call_convert_value(self, rt: &mut Ruby, rb_self: Value, a: Value, b: Value, c: Value, d: Value, e: Value, f: Value, g: Value, h: Value, i: Value, j: Value, k: Value, l: Value, m: Value) -> (r: Result<Value, Error>)
        requires
            old(rt).wf(),
            old(rt).has_room(),
            old(rt).wf_value(rb_self),
            !is_undef_raw(rb_self.spec_raw()),
            old(rt).wf_value(a),
            !is_undef_raw(a.spec_raw()),
            old(rt).wf_value(b),
            !is_undef_raw(b.spec_raw()),
            old(rt).wf_value(c),
            !is_undef_raw(c.spec_raw()),
            old(rt).wf_value(d),
            !is_undef_raw(d.spec_raw()),
            old(rt).wf_value(e),
            !is_undef_raw(e.spec_raw()),
            old(rt).wf_value(f),
            !is_undef_raw(f.spec_raw()),
            old(rt).wf_value(g),
            !is_undef_raw(g.spec_raw()),
            old(rt).wf_value(h),
            !is_undef_raw(h.spec_raw()),
            old(rt).wf_value(i),
            !is_undef_raw(i.spec_raw()),
            old(rt).wf_value(j),
            !is_undef_raw(j.spec_raw()),
            old(rt).wf_value(k),
            !is_undef_raw(k.spec_raw()),
            old(rt).wf_value(l),
            !is_undef_raw(l.spec_raw()),
            old(rt).wf_value(m),
            !is_undef_raw(m.spec_raw()),
            forall|s: RbSelf, xa: A, xb: B, xc: C, xd: D, xe: E, xf: F, xg: G, xh: H, xi: I, xj: J, xk: K, xl: L, xm: M| call_requires(self.spec_func(), (s, xa, xb, xc, xd, xe, xf, xg, xh, xi, xj, xk, xl, xm)),
            forall|s: RbSelf, xa: A, xb: B, xc: C, xd: D, xe: E, xf: F, xg: G, xh: H, xi: I, xj: J, xk: K, xl: L, xm: M, res: Res| #[trigger] call_ensures(self.spec_func(), (s, xa, xb, xc, xd, xe, xf, xg, xh, xi, xj, xk, xl, xm), res) ==> res.ret_wf(&*old(rt)),
        ensures
            final(rt).wf(),
            extends(&*old(rt), &*final(rt)),
            (r matches Ok(v) ==> final(rt).wf_value(v)),
            (!converts::<RbSelf>(&*old(rt), rb_self) ==> *final(rt) == *old(rt) && (r matches Err(err)
                && RbSelf::convert_rel(&*old(rt), rb_self, Err(err)))),
            (converts::<RbSelf>(&*old(rt), rb_self) && !converts::<A>(&*old(rt), a)
                ==> *final(rt) == *old(rt) && (r matches Err(err) && A::convert_rel(
                &*old(rt),
                a,
                Err(err),
            ))),
            (converts::<RbSelf>(&*old(rt), rb_self) && converts::<A>(&*old(rt), a) && !converts::<B>(&*old(rt), b)
                ==> *final(rt) == *old(rt) && (r matches Err(err) && B::convert_rel(
                &*old(rt),
                b,
                Err(err),
            ))),
            (converts::<RbSelf>(&*old(rt), rb_self) && converts::<A>(&*old(rt), a) && converts::<B>(&*old(rt), b) && !converts::<C>(&*old(rt), c)
                ==> *final(rt) == *old(rt) && (r matches Err(err) && C::convert_rel(
                &*old(rt),
                c,
                Err(err),
            ))),
            (converts::<RbSelf>(&*old(rt), rb_self) && converts::<A>(&*old(rt), a) && converts::<B>(&*old(rt), b) && converts::<C>(&*old(rt), c) && !converts::<D>(&*old(rt), d)
                ==> *final(rt) == *old(rt) && (r matches Err(err) && D::convert_rel(
                &*old(rt),
                d,
                Err(err),
            ))),
            (converts::<RbSelf>(&*old(rt), rb_self) && converts::<A>(&*old(rt), a) && converts::<B>(&*old(rt), b) && converts::<C>(&*old(rt), c) && converts::<D>(&*old(rt), d) && !converts::<E>(&*old(rt), e)
                ==> *final(rt) == *old(rt) && (r matches Err(err) && E::convert_rel(
                &*old(rt),
                e,
                Err(err),
            ))),
            (converts::<RbSelf>(&*old(rt), rb_self) && converts::<A>(&*old(rt), a) && converts::<B>(&*old(rt), b) && converts::<C>(&*old(rt), c) && converts::<D>(&*old(rt), d) && converts::<E>(&*old(rt), e) && !converts::<F>(&*old(rt), f)
                ==> *final(rt) == *old(rt) && (r matches Err(err) && F::convert_rel(
                &*old(rt),
                f,
                Err(err),
            ))),
            (converts::<RbSelf>(&*old(rt), rb_self) && converts::<A>(&*old(rt), a) && converts::<B>(&*old(rt), b) && converts::<C>(&*old(rt), c) && converts::<D>(&*old(rt), d) && converts::<E>(&*old(rt), e) && converts::<F>(&*old(rt), f) && !converts::<G>(&*old(rt), g)
                ==> *final(rt) == *old(rt) && (r matches Err(err) && G::convert_rel(
                &*old(rt),
                g,
                Err(err),
            ))),
            (converts::<RbSelf>(&*old(rt), rb_self) && converts::<A>(&*old(rt), a) && converts::<B>(&*old(rt), b) && converts::<C>(&*old(rt), c) && converts::<D>(&*old(rt), d) && converts::<E>(&*old(rt), e) && converts::<F>(&*old(rt), f) && converts::<G>(&*old(rt), g) && !converts::<H>(&*old(rt), h)
                ==> *final(rt) == *old(rt) && (r matches Err(err) && H::convert_rel(
                &*old(rt),
                h,
                Err(err),
            ))),
            (converts::<RbSelf>(&*old(rt), rb_self) && converts::<A>(&*old(rt), a) && converts::<B>(&*old(rt), b) && converts::<C>(&*old(rt), c) && converts::<D>(&*old(rt), d) && converts::<E>(&*old(rt), e) && converts::<F>(&*old(rt), f) && converts::<G>(&*old(rt), g) && converts::<H>(&*old(rt), h) && !converts::<I>(&*old(rt), i)
                ==> *final(rt) == *old(rt) && (r matches Err(err) && I::convert_rel(
                &*old(rt),
                i,
                Err(err),
            ))),
            (converts::<RbSelf>(&*old(rt), rb_self) && converts::<A>(&*old(rt), a) && converts::<B>(&*old(rt), b) && converts::<C>(&*old(rt), c) && converts::<D>(&*old(rt), d) && converts::<E>(&*old(rt), e) && converts::<F>(&*old(rt), f) && converts::<G>(&*old(rt), g) && converts::<H>(&*old(rt), h) && converts::<I>(&*old(rt), i) && !converts::<J>(&*old(rt), j)
                ==> *final(rt) == *old(rt) && (r matches Err(err) && J::convert_rel(
                &*old(rt),
                j,
                Err(err),
            ))),
            (converts::<RbSelf>(&*old(rt), rb_self) && converts::<A>(&*old(rt), a) && converts::<B>(&*old(rt), b) && converts::<C>(&*old(rt), c) && converts::<D>(&*old(rt), d) && converts::<E>(&*old(rt), e) && converts::<F>(&*old(rt), f) && converts::<G>(&*old(rt), g) && converts::<H>(&*old(rt), h) && converts::<I>(&*old(rt), i) && converts::<J>(&*old(rt), j) && !converts::<K>(&*old(rt), k)
                ==> *final(rt) == *old(rt) && (r matches Err(err) && K::convert_rel(
                &*old(rt),
                k,
                Err(err),
            ))),
            (converts::<RbSelf>(&*old(rt), rb_self) && converts::<A>(&*old(rt), a) && converts::<B>(&*old(rt), b) && converts::<C>(&*old(rt), c) && converts::<D>(&*old(rt), d) && converts::<E>(&*old(rt), e) && converts::<F>(&*old(rt), f) && converts::<G>(&*old(rt), g) && converts::<H>(&*old(rt), h) && converts::<I>(&*old(rt), i) && converts::<J>(&*old(rt), j) && converts::<K>(&*old(rt), k) && !converts::<L>(&*old(rt), l)
                ==> *final(rt) == *old(rt) && (r matches Err(err) && L::convert_rel(
                &*old(rt),
                l,
                Err(err),
            ))),
            (converts::<RbSelf>(&*old(rt), rb_self) && converts::<A>(&*old(rt), a) && converts::<B>(&*old(rt), b) && converts::<C>(&*old(rt), c) && converts::<D>(&*old(rt), d) && converts::<E>(&*old(rt), e) && converts::<F>(&*old(rt), f) && converts::<G>(&*old(rt), g) && converts::<H>(&*old(rt), h) && converts::<I>(&*old(rt), i) && converts::<J>(&*old(rt), j) && converts::<K>(&*old(rt), k) && converts::<L>(&*old(rt), l) && !converts::<M>(&*old(rt), m)
                ==> *final(rt) == *old(rt) && (r matches Err(err) && M::convert_rel(
                &*old(rt),
                m,
                Err(err),
            ))),
            (converts::<RbSelf>(&*old(rt), rb_self) && converts::<A>(&*old(rt), a) && converts::<B>(&*old(rt), b) && converts::<C>(&*old(rt), c) && converts::<D>(&*old(rt), d) && converts::<E>(&*old(rt), e) && converts::<F>(&*old(rt), f) && converts::<G>(&*old(rt), g) && converts::<H>(&*old(rt), h) && converts::<I>(&*old(rt), i) && converts::<J>(&*old(rt), j) && converts::<K>(&*old(rt), k) && converts::<L>(&*old(rt), l) && converts::<M>(&*old(rt), m) ==> exists|s: RbSelf, xa: A, xb: B, xc: C, xd: D, xe: E, xf: F, xg: G, xh: H, xi: I, xj: J, xk: K, xl: L, xm: M, res: Res|
                RbSelf::convert_rel(&*old(rt), rb_self, Ok(s)) && A::convert_rel(&*old(rt), a, Ok(xa)) && B::convert_rel(&*old(rt), b, Ok(xb)) && C::convert_rel(&*old(rt), c, Ok(xc)) && D::convert_rel(&*old(rt), d, Ok(xd)) && E::convert_rel(&*old(rt), e, Ok(xe)) && F::convert_rel(&*old(rt), f, Ok(xf)) && G::convert_rel(&*old(rt), g, Ok(xg)) && H::convert_rel(&*old(rt), h, Ok(xh)) && I::convert_rel(&*old(rt), i, Ok(xi)) && J::convert_rel(&*old(rt), j, Ok(xj)) && K::convert_rel(&*old(rt), k, Ok(xk)) && L::convert_rel(&*old(rt), l, Ok(xl)) && M::convert_rel(&*old(rt), m, Ok(xm)) && #[trigger] call_ensures(self.spec_func(), (s, xa, xb, xc, xd, xe, xf, xg, xh, xi, xj, xk, xl, xm), res)
                && res.ret_rel(*old(rt), *final(rt), r)),
    {
        let s: RbSelf = match RbSelf::try_convert(&*rt, rb_self) {
            Ok(s) => s,
            Err(err) => {
                proof {
                    assert forall|x: RbSelf| !RbSelf::convert_rel(
                        &*old(rt),
                        rb_self,
                        Ok(x),
                    ) by {
                        RbSelf::lemma_convert_exclusive(&*old(rt), rb_self, x, err);
                    }
                    assert(rt.heap@.subrange(0, old(rt).heap@.len() as int) =~= old(rt).heap@);
                }
                return Err(err);
            },
        };
        let xa: A = match A::try_convert(&*rt, a) {
            Ok(x) => x,
            Err(err) => {
                proof {
                    assert forall|x: A| !A::convert_rel(&*old(rt), a, Ok(x)) by {
                        A::lemma_convert_exclusive(&*old(rt), a, x, err);
                    }
                    assert(rt.heap@.subrange(0, old(rt).heap@.len() as int) =~= old(rt).heap@);
                }
                return Err(err);
            },
        };
        let xb: B = match B::try_convert(&*rt, b) {
            Ok(x) => x,
            Err(err) => {
                proof {
                    assert forall|x: B| !B::convert_rel(&*old(rt), b, Ok(x)) by {
                        B::lemma_convert_exclusive(&*old(rt), b, x, err);
                    }
                    assert(rt.heap@.subrange(0, old(rt).heap@.len() as int) =~= old(rt).heap@);
                }
                return Err(err);
            },
        };
        let xc: C = match C::try_convert(&*rt, c) {
            Ok(x) => x,
            Err(err) => {
                proof {
                    assert forall|x: C| !C::convert_rel(&*old(rt), c, Ok(x)) by {
                        C::lemma_convert_exclusive(&*old(rt), c, x, err);
                    }
                    assert(rt.heap@.subrange(0, old(rt).heap@.len() as int) =~= old(rt).heap@);
                }
                return Err(err);
            },
        };
        let xd: D = match D::try_convert(&*rt, d) {
            Ok(x) => x,
            Err(err) => {
                proof {
                    assert forall|x: D| !D::convert_rel(&*old(rt), d, Ok(x)) by {
                        D::lemma_convert_exclusive(&*old(rt), d, x, err);
                    }
                    assert(rt.heap@.subrange(0, old(rt).heap@.len() as int) =~= old(rt).heap@);
                }
                return Err(err);
            },
        };
        let xe: E = match E::try_convert(&*rt, e) {
            Ok(x) => x,
            Err(err) => {
                proof {
                    assert forall|x: E| !E::convert_rel(&*old(rt), e, Ok(x)) by {
                        E::lemma_convert_exclusive(&*old(rt), e, x, err);
                    }
                    assert(rt.heap@.subrange(0, old(rt).heap@.len() as int) =~= old(rt).heap@);
                }
                return Err(err);
            },
        };
        let xf: F = match F::try_convert(&*rt, f) {
            Ok(x) => x,
            Err(err) => {
                proof {
                    assert forall|x: F| !F::convert_rel(&*old(rt), f, Ok(x)) by {
                        F::lemma_convert_exclusive(&*old(rt), f, x, err);
                    }
                    assert(rt.heap@.subrange(0, old(rt).heap@.len() as int) =~= old(rt).heap@);
                }
                return Err(err);
            },
        };
        let xg: G = match G::try_convert(&*rt, g) {
            Ok(x) => x,
            Err(err) => {
                proof {
                    assert forall|x: G| !G::convert_rel(&*old(rt), g, Ok(x)) by {
                        G::lemma_convert_exclusive(&*old(rt), g, x, err);
                    }
                    assert(rt.heap@.subrange(0, old(rt).heap@.len() as int) =~= old(rt).heap@);
                }
                return Err(err);
            },
        };
        let xh: H = match H::try_convert(&*rt, h) {
            Ok(x) => x,
            Err(err) => {
                proof {
                    assert forall|x: H| !H::convert_rel(&*old(rt), h, Ok(x)) by {
                        H::lemma_convert_exclusive(&*old(rt), h, x, err);
                    }
                    assert(rt.heap@.subrange(0, old(rt).heap@.len() as int) =~= old(rt).heap@);
                }
                return Err(err);
            },
        };
        let xi: I = match I::try_convert(&*rt, i) {
            Ok(x) => x,
            Err(err) => {
                proof {
                    assert forall|x: I| !I::convert_rel(&*old(rt), i, Ok(x)) by {
                        I::lemma_convert_exclusive(&*old(rt), i, x, err);
                    }
                    assert(rt.heap@.subrange(0, old(rt).heap@.len() as int) =~= old(rt).heap@);
                }
                return Err(err);
            },
        };
        let xj: J = match J::try_convert(&*rt, j) {
            Ok(x) => x,
            Err(err) => {
                proof {
                    assert forall|x: J| !J::convert_rel(&*old(rt), j, Ok(x)) by {
                        J::lemma_convert_exclusive(&*old(rt), j, x, err);
                    }
                    assert(rt.heap@.subrange(0, old(rt).heap@.len() as int) =~= old(rt).heap@);
                }
                return Err(err);
            },
        };
        let xk: K = match K::try_convert(&*rt, k) {
            Ok(x) => x,
            Err(err) => {
                proof {
                    assert forall|x: K| !K::convert_rel(&*old(rt), k, Ok(x)) by {
                        K::lemma_convert_exclusive(&*old(rt), k, x, err);
                    }
                    assert(rt.heap@.subrange(0, old(rt).heap@.len() as int) =~= old(rt).heap@);
                }
                return Err(err);
            },
        };
        let xl: L = match L::try_convert(&*rt, l) {
            Ok(x) => x,
            Err(err) => {
                proof {
                    assert forall|x: L| !L::convert_rel(&*old(rt), l, Ok(x)) by {
                        L::lemma_convert_exclusive(&*old(rt), l, x, err);
                    }
                    assert(rt.heap@.subrange(0, old(rt).heap@.len() as int) =~= old(rt).heap@);
                }
                return Err(err);
            },
        };
        let xm: M = match M::try_convert(&*rt, m) {
            Ok(x) => x,
            Err(err) => {
                proof {
                    assert forall|x: M| !M::convert_rel(&*old(rt), m, Ok(x)) by {
                        M::lemma_convert_exclusive(&*old(rt), m, x, err);
                    }
                    assert(rt.heap@.subrange(0, old(rt).heap@.len() as int) =~= old(rt).heap@);
                }
                return Err(err);
            },
        };
        proof {
            assert(call_requires(self.spec_func(), (s, xa, xb, xc, xd, xe, xf, xg, xh, xi, xj, xk, xl, xm)));
        }
        let res: Res = (self.func)(s, xa, xb, xc, xd, xe, xf, xg, xh, xi, xj, xk, xl, xm);
        proof {
            assert(call_ensures(self.spec_func(), (s, xa, xb, xc, xd, xe, xf, xg, xh, xi, xj, xk, xl, xm), res));
        }
        res.into_return_value(rt)
    }

    /// As `call_convert_value`, but decide what crosses back to the runtime:
    /// the value, or a raise carrying the error.
    pub fn call_handle_error(self, rt: &mut Ruby, rb_self: Value, a: Value, b: Value, c: Value, d: Value, e: Value, f: Value, g: Value, h: Value, i: Value, j: Value, k: Value, l: Value, m: Value) -> (done: Completion)
        requires
            old(rt).wf(),
            old(rt).has_room(),
            old(rt).wf_value(rb_self),
            !is_undef_raw(rb_self.spec_raw()),
            old(rt).wf_value(a),
            !is_undef_raw(a.spec_raw()),
            old(rt).wf_value(b),
            !is_undef_raw(b.spec_raw()),
            old(rt).wf_value(c),
            !is_undef_raw(c.spec_raw()),
            old(rt).wf_value(d),
            !is_undef_raw(d.spec_raw()),
            old(rt).wf_value(e),
            !is_undef_raw(e.spec_raw()),
            old(rt).wf_value(f),
            !is_undef_raw(f.spec_raw()),
            old(rt).wf_value(g),
            !is_undef_raw(g.spec_raw()),
            old(rt).wf_value(h),
            !is_undef_raw(h.spec_raw()),
            old(rt).wf_value(i),
            !is_undef_raw(i.spec_raw()),
            old(rt).wf_value(j),
            !is_undef_raw(j.spec_raw()),
            old(rt).wf_value(k),
            !is_undef_raw(k.spec_raw()),
            old(rt).wf_value(l),
            !is_undef_raw(l.spec_raw()),
            old(rt).wf_value(m),
            !is_undef_raw(m.spec_raw()),
            forall|s: RbSelf, xa: A, xb: B, xc: C, xd: D, xe: E, xf: F, xg: G, xh: H, xi: I, xj: J, xk: K, xl: L, xm: M| call_requires(self.spec_func(), (s, xa, xb, xc, xd, xe, xf, xg, xh, xi, xj, xk, xl, xm)),
            forall|s: RbSelf, xa: A, xb: B, xc: C, xd: D, xe: E, xf: F, xg: G, xh: H, xi: I, xj: J, xk: K, xl: L, xm: M, res: Res| #[trigger] call_ensures(self.spec_func(), (s, xa, xb, xc, xd, xe, xf, xg, xh, xi, xj, xk, xl, xm), res) ==> res.ret_wf(&*old(rt)),
        ensures
            final(rt).wf(),
            extends(&*old(rt), &*final(rt)),
            (done matches Completion::Return(v) ==> final(rt).wf_value(v)),
            (!converts::<RbSelf>(&*old(rt), rb_self) ==> *final(rt) == *old(rt) && (done matches Completion::Raise(
                e,
            ) && RbSelf::convert_rel(&*old(rt), rb_self, Err(e)))),
            (converts::<RbSelf>(&*old(rt), rb_self) && !converts::<A>(&*old(rt), a)
                ==> *final(rt) == *old(rt) && (done matches Completion::Raise(err) && A::convert_rel(
                &*old(rt),
                a,
                Err(err),
            ))),
            (converts::<RbSelf>(&*old(rt), rb_self) && converts::<A>(&*old(rt), a) && !converts::<B>(&*old(rt), b)
                ==> *final(rt) == *old(rt) && (done matches Completion::Raise(err) && B::convert_rel(
                &*old(rt),
                b,
                Err(err),
            ))),
            (converts::<RbSelf>(&*old(rt), rb_self) && converts::<A>(&*old(rt), a) && converts::<B>(&*old(rt), b) && !converts::<C>(&*old(rt), c)
                ==> *final(rt) == *old(rt) && (done matches Completion::Raise(err) && C::convert_rel(
                &*old(rt),
                c,
                Err(err),
            ))),
            (converts::<RbSelf>(&*old(rt), rb_self) && converts::<A>(&*old(rt), a) && converts::<B>(&*old(rt), b) && converts::<C>(&*old(rt), c) && !converts::<D>(&*old(rt), d)
                ==> *final(rt) == *old(rt) && (done matches Completion::Raise(err) && D::convert_rel(
                &*old(rt),
                d,
                Err(err),
            ))),
            (converts::<RbSelf>(&*old(rt), rb_self) && converts::<A>(&*old(rt), a) && converts::<B>(&*old(rt), b) && converts::<C>(&*old(rt), c) && converts::<D>(&*old(rt), d) && !converts::<E>(&*old(rt), e)
                ==> *final(rt) == *old(rt) && (done matches Completion::Raise(err) && E::convert_rel(
                &*old(rt),
                e,
                Err(err),
            ))),
            (converts::<RbSelf>(&*old(rt), rb_self) && converts::<A>(&*old(rt), a) && converts::<B>(&*old(rt), b) && converts::<C>(&*old(rt), c) && converts::<D>(&*old(rt), d) && converts::<E>(&*old(rt), e) && !converts::<F>(&*old(rt), f)
                ==> *final(rt) == *old(rt) && (done matches Completion::Raise(err) && F::convert_rel(
                &*old(rt),
                f,
                Err(err),
            ))),
            (converts::<RbSelf>(&*old(rt), rb_self) && converts::<A>(&*old(rt), a) && converts::<B>(&*old(rt), b) && converts::<C>(&*old(rt), c) && converts::<D>(&*old(rt), d) && converts::<E>(&*old(rt), e) && converts::<F>(&*old(rt), f) && !converts::<G>(&*old(rt), g)
                ==> *final(rt) == *old(rt) && (done matches Completion::Raise(err) && G::convert_rel(
                &*old(rt),
                g,
                Err(err),
            ))),
            (converts::<RbSelf>(&*old(rt), rb_self) && converts::<A>(&*old(rt), a) && converts::<B>(&*old(rt), b) && converts::<C>(&*old(rt), c) && converts::<D>(&*old(rt), d) && converts::<E>(&*old(rt), e) && converts::<F>(&*old(rt), f) && converts::<G>(&*old(rt), g) && !converts::<H>(&*old(rt), h)
                ==> *final(rt) == *old(rt) && (done matches Completion::Raise(err) && H::convert_rel(
                &*old(rt),
                h,
                Err(err),
            ))),
            (converts::<RbSelf>(&*old(rt), rb_self) && converts::<A>(&*old(rt), a) && converts::<B>(&*old(rt), b) && converts::<C>(&*old(rt), c) && converts::<D>(&*old(rt), d) && converts::<E>(&*old(rt), e) && converts::<F>(&*old(rt), f) && converts::<G>(&*old(rt), g) && converts::<H>(&*old(rt), h) && !converts::<I>(&*old(rt), i)
                ==> *final(rt) == *old(rt) && (done matches Completion::Raise(err) && I::convert_rel(
                &*old(rt),
                i,
                Err(err),
            ))),
            (converts::<RbSelf>(&*old(rt), rb_self) && converts::<A>(&*old(rt), a) && converts::<B>(&*old(rt), b) && converts::<C>(&*old(rt), c) && converts::<D>(&*old(rt), d) && converts::<E>(&*old(rt), e) && converts::<F>(&*old(rt), f) && converts::<G>(&*old(rt), g) && converts::<H>(&*old(rt), h) && converts::<I>(&*old(rt), i) && !converts::<J>(&*old(rt), j)
                ==> *final(rt) == *old(rt) && (done matches Completion::Raise(err) && J::convert_rel(
                &*old(rt),
                j,
                Err(err),
            ))),
            (converts::<RbSelf>(&*old(rt), rb_self) && converts::<A>(&*old(rt), a) && converts::<B>(&*old(rt), b) && converts::<C>(&*old(rt), c) && converts::<D>(&*old(rt), d) && converts::<E>(&*old(rt), e) && converts::<F>(&*old(rt), f) && converts::<G>(&*old(rt), g) && converts::<H>(&*old(rt), h) && converts::<I>(&*old(rt), i) && converts::<J>(&*old(rt), j) && !converts::<K>(&*old(rt), k)
                ==> *final(rt) == *old(rt) && (done matches Completion::Raise(err) && K::convert_rel(
                &*old(rt),
                k,
                Err(err),
            ))),
            (converts::<RbSelf>(&*old(rt), rb_self) && converts::<A>(&*old(rt), a) && converts::<B>(&*old(rt), b) && converts::<C>(&*old(rt), c) && converts::<D>(&*old(rt), d) && converts::<E>(&*old(rt), e) && converts::<F>(&*old(rt), f) && converts::<G>(&*old(rt), g) && converts::<H>(&*old(rt), h) && converts::<I>(&*old(rt), i) && converts::<J>(&*old(rt), j) && converts::<K>(&*old(rt), k) && !converts::<L>(&*old(rt), l)
                ==> *final(rt) == *old(rt) && (done matches Completion::Raise(err) && L::convert_rel(
                &*old(rt),
                l,
                Err(err),
            ))),
            (converts::<RbSelf>(&*old(rt), rb_self) && converts::<A>(&*old(rt), a) && converts::<B>(&*old(rt), b) && converts::<C>(&*old(rt), c) && converts::<D>(&*old(rt), d) && converts::<E>(&*old(rt), e) && converts::<F>(&*old(rt), f) && converts::<G>(&*old(rt), g) && converts::<H>(&*old(rt), h) && converts::<I>(&*old(rt), i) && converts::<J>(&*old(rt), j) && converts::<K>(&*old(rt), k) && converts::<L>(&*old(rt), l) && !converts::<M>(&*old(rt), m)
                ==> *final(rt) == *old(rt) && (done matches Completion::Raise(err) && M::convert_rel(
                &*old(rt),
                m,
                Err(err),
            ))),
            (converts::<RbSelf>(&*old(rt), rb_self) && converts::<A>(&*old(rt), a) && converts::<B>(&*old(rt), b) && converts::<C>(&*old(rt), c) && converts::<D>(&*old(rt), d) && converts::<E>(&*old(rt), e) && converts::<F>(&*old(rt), f) && converts::<G>(&*old(rt), g) && converts::<H>(&*old(rt), h) && converts::<I>(&*old(rt), i) && converts::<J>(&*old(rt), j) && converts::<K>(&*old(rt), k) && converts::<L>(&*old(rt), l) && converts::<M>(&*old(rt), m) ==> exists|s: RbSelf, xa: A, xb: B, xc: C, xd: D, xe: E, xf: F, xg: G, xh: H, xi: I, xj: J, xk: K, xl: L, xm: M, res: Res|
                RbSelf::convert_rel(&*old(rt), rb_self, Ok(s)) && A::convert_rel(&*old(rt), a, Ok(xa)) && B::convert_rel(&*old(rt), b, Ok(xb)) && C::convert_rel(&*old(rt), c, Ok(xc)) && D::convert_rel(&*old(rt), d, Ok(xd)) && E::convert_rel(&*old(rt), e, Ok(xe)) && F::convert_rel(&*old(rt), f, Ok(xf)) && G::convert_rel(&*old(rt), g, Ok(xg)) && H::convert_rel(&*old(rt), h, Ok(xh)) && I::convert_rel(&*old(rt), i, Ok(xi)) && J::convert_rel(&*old(rt), j, Ok(xj)) && K::convert_rel(&*old(rt), k, Ok(xk)) && L::convert_rel(&*old(rt), l, Ok(xl)) && M::convert_rel(&*old(rt), m, Ok(xm)) && #[trigger] call_ensures(self.spec_func(), (s, xa, xb, xc, xd, xe, xf, xg, xh, xi, xj, xk, xl, xm), res)
                && res.ret_rel(*old(rt), *final(rt), completion_result(done))),
    {
        match self.call_convert_value(rt, rb_self, a, b, c, d, e, f, g, h, i, j, k, l, m) {
            Ok(v) => Completion::Return(v),
            Err(e) => Completion::Raise(e),
        }
    }
}

/// The adapter for a native callable taking self and 14 arguments.
pub struct Method14<Func, RbSelf, A, B, C, D, E, F, G, H, I, J, K, L, M, N, Res> {
    func: Func,
    rb_self: PhantomData<RbSelf>,
    a: PhantomData<A>,
    b: PhantomData<B>,
    c: PhantomData<C>,
    d: PhantomData<D>,
    e: PhantomData<E>,
    f: PhantomData<F>,
    g: PhantomData<G>,
    h: PhantomData<H>,
    i: PhantomData<I>,
    j: PhantomData<J>,
    k: PhantomData<K>,
    l: PhantomData<L>,
    m: PhantomData<M>,
    n: PhantomData<N>,
    res: PhantomData<Res>,
}

impl<Func, RbSelf, A, B, C, D, E, F, G, H, I, J, K, L, M, N, Res> Method14<Func, RbSelf, A, B, C, D, E, F, G, H, I, J, K, L, M, N, Res> where Func: Fn(RbSelf, A, B, C, D, E, F, G, H, I, J, K, L, M, N) -> Res, RbSelf: TryConvert, A: TryConvert, B: TryConvert, C: TryConvert, D: TryConvert, E: TryConvert, F: TryConvert, G: TryConvert, H: TryConvert, I: TryConvert, J: TryConvert, K: TryConvert, L: TryConvert, M: TryConvert, N: TryConvert, Res: ReturnValue {
    /// The wrapped host function, for specifications.
    pub closed spec fn spec_func(&self) -> Func {
        self.func
    }

    pub fn new(func: Func) -> (m: Self)
        ensures
            m.spec_func() == func,
    {
        Method14 {
            func,
            rb_self: PhantomData,
            a: PhantomData,
            b: PhantomData,
            c: PhantomData,
            d: PhantomData,
            e: PhantomData,
            f: PhantomData,
            g: PhantomData,
            h: PhantomData,
            i: PhantomData,
            j: PhantomData,
            k: PhantomData,
            l: PhantomData,
            m: PhantomData,
            n: PhantomData,
            res: PhantomData,
        }
    }

    /// Convert self and the arguments left to right, stopping at the first
    /// failure without touching the runtime or the host function; on full
    /// success, invoke the host function and convert its result back.
    pub fn call_convert_value(self, rt: &mut Ruby, rb_self: Value, a: Value, b: Value, c: Value, d: Value, e: Value, f: Value, g: Value, h: Value, i: Value, j: Value, k: Value, l: Value, m: Value, n: Value) -> (r: Result<Value, Error>)
        requires
            old(rt).wf(),
            old(rt).has_room(),
            old(rt).wf_value(rb_self),
            !is_undef_raw(rb_self.spec_raw()),
            old(rt).wf_value(a),
            !is_undef_raw(a.spec_raw()),
            old(rt).wf_value(b),
            !is_undef_raw(b.spec_raw()),
            old(rt).wf_value(c),
            !is_undef_raw(c.spec_raw()),
            old(rt).wf_value(d),
            !is_undef_raw(d.spec_raw()),
            old(rt).wf_value(e),
            !is_undef_raw(e.spec_raw()),
            old(rt).wf_value(f),
            !is_undef_raw(f.spec_raw()),
            old(rt).wf_value(g),
            !is_undef_raw(g.spec_raw()),
            old(rt).wf_value(h),
            !is_undef_raw(h.spec_raw()),
            old(rt).wf_value(i),
            !is_undef_raw(i.spec_raw()),
            old(rt).wf_value(j),
            !is_undef_raw(j.spec_raw()),
            old(rt).wf_value(k),
            !is_undef_raw(k.spec_raw()),
            old(rt).wf_value(l),
            !is_undef_raw(l.spec_raw()),
            old(rt).wf_value(m),
            !is_undef_raw(m.spec_raw()),
            old(rt).wf_value(n),
            !is_undef_raw(n.spec_raw()),
            forall|s: RbSelf, xa: A, xb: B, xc: C, xd: D, xe: E, xf: F, xg: G, xh: H, xi: I, xj: J, xk: K, xl: L, xm: M, xn: N| call_requires(self.spec_func(), (s, xa, xb, xc, xd, xe, xf, xg, xh, xi, xj, xk, xl, xm, xn)),
            forall|s: RbSelf, xa: A, xb: B, xc: C, xd: D, xe: E, xf: F, xg: G, xh: H, xi: I, xj: J, xk: K, xl: L, xm: M, xn: N, res: Res| #[trigger] call_ensures(self.spec_func(), (s, xa, xb, xc, xd, xe, xf, xg, xh, xi, xj, xk, xl, xm, xn), res) ==> res.ret_wf(&*old(rt)),
        ensures
            final(rt).wf(),
            extends(&*old(rt), &*final(rt)),
            (r matches Ok(v) ==> final(rt).wf_value(v)),
            (!converts::<RbSelf>(&*old(rt), rb_self) ==> *final(rt) == *old(rt) && (r matches Err(err)
                && RbSelf::convert_rel(&*old(rt), rb_self, Err(err)))),
            (converts::<RbSelf>(&*old(rt), rb_self) && !converts::<A>(&*old(rt), a)
                ==> *final(rt) == *old(rt) && (r matches Err(err) && A::convert_rel(
                &*old(rt),
                a,
                Err(err),
            ))),
            (converts::<RbSelf>(&*old(rt), rb_self) && converts::<A>(&*old(rt), a) && !converts::<B>(&*old(rt), b)
                ==> *final(rt) == *old(rt) && (r matches Err(err) && B::convert_rel(
                &*old(rt),
                b,
                Err(err),
            ))),
            (converts::<RbSelf>(&*old(rt), rb_self) && converts::<A>(&*old(rt), a) && converts::<B>(&*old(rt), b) && !converts::<C>(&*old(rt), c)
                ==> *final(rt) == *old(rt) && (r matches Err(err) && C::convert_rel(
                &*old(rt),
                c,
                Err(err),
            ))),
            (converts::<RbSelf>(&*old(rt), rb_self) && converts::<A>(&*old(rt), a) && converts::<B>(&*old(rt), b) && converts::<C>(&*old(rt), c) && !converts::<D>(&*old(rt), d)
                ==> *final(rt) == *old(rt) && (r matches Err(err) && D::convert_rel(
                &*old(rt),
                d,
                Err(err),
            ))),
            (converts::<RbSelf>(&*old(rt), rb_self) && converts::<A>(&*old(rt), a) && converts::<B>(&*old(rt), b) && converts::<C>(&*old(rt), c) && converts::<D>(&*old(rt), d) && !converts::<E>(&*old(rt), e)
                ==> *final(rt) == *old(rt) && (r matches Err(err) && E::convert_rel(
                &*old(rt),
                e,
                Err(err),
            ))),
            (converts::<RbSelf>(&*old(rt), rb_self) && converts::<A>(&*old(rt), a) && converts::<B>(&*old(rt), b) && converts::<C>(&*old(rt), c) && converts::<D>(&*old(rt), d) && converts::<E>(&*old(rt), e) && !converts::<F>(&*old(rt), f)
                ==> *final(rt) == *old(rt) && (r matches Err(err) && F::convert_rel(
                &*old(rt),
                f,
                Err(err),
            ))),
            (converts::<RbSelf>(&*old(rt), rb_self) && converts::<A>(&*old(rt), a) && converts::<B>(&*old(rt), b) && converts::<C>(&*old(rt), c) && converts::<D>(&*old(rt), d) && converts::<E>(&*old(rt), e) && converts::<F>(&*old(rt), f) && !converts::<G>(&*old(rt), g)
                ==> *final(rt) == *old(rt) && (r matches Err(err) && G::convert_rel(
                &*old(rt),
                g,
                Err(err),
            ))),
            (converts::<RbSelf>(&*old(rt), rb_self) && converts::<A>(&*old(rt), a) && converts::<B>(&*old(rt), b) && converts::<C>(&*old(rt), c) && converts::<D>(&*old(rt), d) && converts::<E>(&*old(rt), e) && converts::<F>(&*old(rt), f) && converts::<G>(&*old(rt), g) && !converts::<H>(&*old(rt), h)
                ==> *final(rt) == *old(rt) && (r matches Err(err) && H::convert_rel(
                &*old(rt),
                h,
                Err(err),
            ))),
            (converts::<RbSelf>(&*old(rt), rb_self) && converts::<A>(&*old(rt), a) && converts::<B>(&*old(rt), b) && converts::<C>(&*old(rt), c) && converts::<D>(&*old(rt), d) && converts::<E>(&*old(rt), e) && converts::<F>(&*old(rt), f) && converts::<G>(&*old(rt), g) && converts::<H>(&*old(rt), h) && !converts::<I>(&*old(rt), i)
                ==> *final(rt) == *old(rt) && (r matches Err(err) && I::convert_rel(
                &*old(rt),
                i,
                Err(err),
            ))),
            (converts::<RbSelf>(&*old(rt), rb_self) && converts::<A>(&*old(rt), a) && converts::<B>(&*old(rt), b) && converts::<C>(&*old(rt), c) && converts::<D>(&*old(rt), d) && converts::<E>(&*old(rt), e) && converts::<F>(&*old(rt), f) && converts::<G>(&*old(rt), g) && converts::<H>(&*old(rt), h) && converts::<I>(&*old(rt), i) && !converts::<J>(&*old(rt), j)
                ==> *final(rt) == *old(rt) && (r matches Err(err) && J::convert_rel(
                &*old(rt),
                j,
                Err(err),
            ))),
            (converts::<RbSelf>(&*old(rt), rb_self) && converts::<A>(&*old(rt), a) && converts::<B>(&*old(rt), b) && converts::<C>(&*old(rt), c) && converts::<D>(&*old(rt), d) && converts::<E>(&*old(rt), e) && converts::<F>(&*old(rt), f) && converts::<G>(&*old(rt), g) && converts::<H>(&*old(rt), h) && converts::<I>(&*old(rt), i) && converts::<J>(&*old(rt), j) && !converts::<K>(&*old(rt), k)
                ==> *final(rt) == *old(rt) && (r matches Err(err) && K::convert_rel(
                &*old(rt),
                k,
                Err(err),
            ))),
            (converts::<RbSelf>(&*old(rt), rb_self) && converts::<A>(&*old(rt), a) && converts::<B>(&*old(rt), b) && converts::<C>(&*old(rt), c) && converts::<D>(&*old(rt), d) && converts::<E>(&*old(rt), e) && converts::<F>(&*old(rt), f) && converts::<G>(&*old(rt), g) && converts::<H>(&*old(rt), h) && converts::<I>(&*old(rt), i) && converts::<J>(&*old(rt), j) && converts::<K>(&*old(rt), k) && !converts::<L>(&*old(rt), l)
                ==> *final(rt) == *old(rt) && (r matches Err(err) && L::convert_rel(
                &*old(rt),
                l,
                Err(err),
            ))),
            (converts::<RbSelf>(&*old(rt), rb_self) && converts::<A>(&*old(rt), a) && converts::<B>(&*old(rt), b) && converts::<C>(&*old(rt), c) && converts::<D>(&*old(rt), d) && converts::<E>(&*old(rt), e) && converts::<F>(&*old(rt), f) && converts::<G>(&*old(rt), g) && converts::<H>(&*old(rt), h) && converts::<I>(&*old(rt), i) && converts::<J>(&*old(rt), j) && converts::<K>(&*old(rt), k) && converts::<L>(&*old(rt), l) && !converts::<M>(&*old(rt), m)
                ==> *final(rt) == *old(rt) && (r matches Err(err) && M::convert_rel(
                &*old(rt),
                m,
                Err(err),
            ))),
            (converts::<RbSelf>(&*old(rt), rb_self) && converts::<A>(&*old(rt), a) && converts::<B>(&*old(rt), b) && converts::<C>(&*old(rt), c) && converts::<D>(&*old(rt), d) && converts::<E>(&*old(rt), e) && converts::<F>(&*old(rt), f) && converts::<G>(&*old(rt), g) && converts::<H>(&*old(rt), h) && converts::<I>(&*old(rt), i) && converts::<J>(&*old(rt), j) && converts::<K>(&*old(rt), k) && converts::<L>(&*old(rt), l) && converts::<M>(&*old(rt), m) && !converts::<N>(&*old(rt), n)
                ==> *final(rt) == *old(rt) && (r matches Err(err) && N::convert_rel(
                &*old(rt),
                n,
                Err(err),
            ))),
            (converts::<RbSelf>(&*old(rt), rb_self) && converts::<A>(&*old(rt), a) && converts::<B>(&*old(rt), b) && converts::<C>(&*old(rt), c) && converts::<D>(&*old(rt), d) && converts::<E>(&*old(rt), e) && converts::<F>(&*old(rt), f) && converts::<G>(&*old(rt), g) && converts::<H>(&*old(rt), h) && converts::<I>(&*old(rt), i) && converts::<J>(&*old(rt), j) && converts::<K>(&*old(rt), k) && converts::<L>(&*old(rt), l) && converts::<M>(&*old(rt), m) && converts::<N>(&*old(rt), n) ==> exists|s: RbSelf, xa: A, xb: B, xc: C, xd: D, xe: E, xf: F, xg: G, xh: H, xi: I, xj: J, xk: K, xl: L, xm: M, xn: N, res: Res|
                RbSelf::convert_rel(&*old(rt), rb_self, Ok(s)) && A::convert_rel(&*old(rt), a, Ok(xa)) && B::convert_rel(&*old(rt), b, Ok(xb)) && C::convert_rel(&*old(rt), c, Ok(xc)) && D::convert_rel(&*old(rt), d, Ok(xd)) && E::convert_rel(&*old(rt), e, Ok(xe)) && F::convert_rel(&*old(rt), f, Ok(xf)) && G::convert_rel(&*old(rt), g, Ok(xg)) && H::convert_rel(&*old(rt), h, Ok(xh)) && I::convert_rel(&*old(rt), i, Ok(xi)) && J::convert_rel(&*old(rt), j, Ok(xj)) && K::convert_rel(&*old(rt), k, Ok(xk)) && L::convert_rel(&*old(rt), l, Ok(xl)) && M::convert_rel(&*old(rt), m, Ok(xm)) && N::convert_rel(&*old(rt), n, Ok(xn)) && #[trigger] call_ensures(self.spec_func(), (s, xa, xb, xc, xd, xe, xf, xg, xh, xi, xj, xk, xl, xm, xn), res)
                && res.ret_rel(*old(rt), *final(rt), r)),
    {
        let s: RbSelf = match RbSelf::try_convert(&*rt, rb_self) {
            Ok(s) => s,
            Err(err) => {
                proof {
                    assert forall|x: RbSelf| !RbSelf::convert_rel(
                        &*old(rt),
                        rb_self,
                        Ok(x),
                    ) by {
                        RbSelf::lemma_convert_exclusive(&*old(rt), rb_self, x, err);
                    }
                    assert(rt.heap@.subrange(0, old(rt).heap@.len() as int) =~= old(rt).heap@);
                }
                return Err(err);
            },
        };
        let xa: A = match A::try_convert(&*rt, a) {
            Ok(x) => x,
            Err(err) => {
                proof {
                    assert forall|x: A| !A::convert_rel(&*old(rt), a, Ok(x)) by {
                        A::lemma_convert_exclusive(&*old(rt), a, x, err);
                    }
                    assert(rt.heap@.subrange(0, old(rt).heap@.len() as int) =~= old(rt).heap@);
                }
                return Err(err);
            },
        };
        let xb: B = match B::try_convert(&*rt, b) {
            Ok(x) => x,
            Err(err) => {
                proof {
                    assert forall|x: B| !B::convert_rel(&*old(rt), b, Ok(x)) by {
                        B::lemma_convert_exclusive(&*old(rt), b, x, err);
                    }
                    assert(rt.heap@.subrange(0, old(rt).heap@.len() as int) =~= old(rt).heap@);
                }
                return Err(err);
            },
        };
        let xc: C = match C::try_convert(&*rt, c) {
            Ok(x) => x,
            Err(err) => {
                proof {
                    assert forall|x: C| !C::convert_rel(&*old(rt), c, Ok(x)) by {
                        C::lemma_convert_exclusive(&*old(rt), c, x, err);
                    }
                    assert(rt.heap@.subrange(0, old(rt).heap@.len() as int) =~= old(rt).heap@);
                }
                return Err(err);
            },
        };
        let xd: D = match D::try_convert(&*rt, d) {
            Ok(x) => x,
            Err(err) => {
                proof {
                    assert forall|x: D| !D::convert_rel(&*old(rt), d, Ok(x)) by {
                        D::lemma_convert_exclusive(&*old(rt), d, x, err);
                    }
                    assert(rt.heap@.subrange(0, old(rt).heap@.len() as int) =~= old(rt).heap@);
                }
                return Err(err);
            },
        };
        let xe: E = match E::try_convert(&*rt, e) {
            Ok(x) => x,
            Err(err) => {
                proof {
                    assert forall|x: E| !E::convert_rel(&*old(rt), e, Ok(x)) by {
                        E::lemma_convert_exclusive(&*old(rt), e, x, err);
                    }
                    assert(rt.heap@.subrange(0, old(rt).heap@.len() as int) =~= old(rt).heap@);
                }
                return Err(err);
            },
        };
        let xf: F = match F::try_convert(&*rt, f) {
            Ok(x) => x,
            Err(err) => {
                proof {
                    assert forall|x: F| !F::convert_rel(&*old(rt), f, Ok(x)) by {
                        F::lemma_convert_exclusive(&*old(rt), f, x, err);
                    }
                    assert(rt.heap@.subrange(0, old(rt).heap@.len() as int) =~= old(rt).heap@);
                }
                return Err(err);
            },
        };
        let xg: G = match G::try_convert(&*rt, g) {
            Ok(x) => x,
            Err(err) => {
                proof {
                    assert forall|x: G| !G::convert_rel(&*old(rt), g, Ok(x)) by {
                        G::lemma_convert_exclusive(&*old(rt), g, x, err);
                    }
                    assert(rt.heap@.subrange(0, old(rt).heap@.len() as int) =~= old(rt).heap@);
                }
                return Err(err);
            },
        };
        let xh: H = match H::try_convert(&*rt, h) {
            Ok(x) => x,
            Err(err) => {
                proof {
                    assert forall|x: H| !H::convert_rel(&*old(rt), h, Ok(x)) by {
                        H::lemma_convert_exclusive(&*old(rt), h, x, err);
                    }
                    assert(rt.heap@.subrange(0, old(rt).heap@.len() as int) =~= old(rt).heap@);
                }
                return Err(err);
            },
        };
        let xi: I = match I::try_convert(&*rt, i) {
            Ok(x) => x,
            Err(err) => {
                proof {
                    assert forall|x: I| !I::convert_rel(&*old(rt), i, Ok(x)) by {
                        I::lemma_convert_exclusive(&*old(rt), i, x, err);
                    }
                    assert(rt.heap@.subrange(0, old(rt).heap@.len() as int) =~= old(rt).heap@);
                }
                return Err(err);
            },
        };
        let xj: J = match J::try_convert(&*rt, j) {
            Ok(x) => x,
            Err(err) => {
                proof {
                    assert forall|x: J| !J::convert_rel(&*old(rt), j, Ok(x)) by {
                        J::lemma_convert_exclusive(&*old(rt), j, x, err);
                    }
                    assert(rt.heap@.subrange(0, old(rt).heap@.len() as int) =~= old(rt).heap@);
                }
                return Err(err);
            },
        };
        let xk: K = match K::try_convert(&*rt, k) {
            Ok(x) => x,
            Err(err) => {
                proof {
                    assert forall|x: K| !K::convert_rel(&*old(rt), k, Ok(x)) by {
                        K::lemma_convert_exclusive(&*old(rt), k, x, err);
                    }
                    assert(rt.heap@.subrange(0, old(rt).heap@.len() as int) =~= old(rt).heap@);
                }
                return Err(err);
            },
        };
        let xl: L = match L::try_convert(&*rt, l) {
            Ok(x) => x,
            Err(err) => {
                proof {
                    assert forall|x: L| !L::convert_rel(&*old(rt), l, Ok(x)) by {
                        L::lemma_convert_exclusive(&*old(rt), l, x, err);
                    }
                    assert(rt.heap@.subrange(0, old(rt).heap@.len() as int) =~= old(rt).heap@);
                }
                return Err(err);
            },
        };
        let xm: M = match M::try_convert(&*rt, m) {
            Ok(x) => x,
            Err(err) => {
                proof {
                    assert forall|x: M| !M::convert_rel(&*old(rt), m, Ok(x)) by {
                        M::lemma_convert_exclusive(&*old(rt), m, x, err);
                    }
                    assert(rt.heap@.subrange(0, old(rt).heap@.len() as int) =~= old(rt).heap@);
                }
                return Err(err);
            },
        };
        let xn: N = match N::try_convert(&*rt, n) {
            Ok(x) => x,
            Err(err) => {
                proof {
                    assert forall|x: N| !N::convert_rel(&*old(rt), n, Ok(x)) by {
                        N::lemma_convert_exclusive(&*old(rt), n, x, err);
                    }
                    assert(rt.heap@.subrange(0, old(rt).heap@.len() as int) =~= old(rt).heap@);
                }
                return Err(err);
            },
        };
        proof {
            assert(call_requires(self.spec_func(), (s, xa, xb, xc, xd, xe, xf, xg, xh, xi, xj, xk, xl, xm, xn)));
        }
        let res: Res = (self.func)(s, xa, xb, xc, xd, xe, xf, xg, xh, xi, xj, xk, xl, xm, xn);
        proof {
            assert(call_ensures(self.spec_func(), (s, xa, xb, xc, xd, xe, xf, xg, xh, xi, xj, xk, xl, xm, xn), res));
        }
        res.into_return_value(rt)
    }

    /// As `call_convert_value`, but decide what crosses back to the runtime:
    /// the value, or a raise carrying the error.
    pub fn call_handle_error(self, rt: &mut Ruby, rb_self: Value, a: Value, b: Value, c: Value, d: Value, e: Value, f: Value, g: Value, h: Value, i: Value, j: Value, k: Value, l: Value, m: Value, n: Value) -> (done: Completion)
        requires
            old(rt).wf(),
            old(rt).has_room(),
            old(rt).wf_value(rb_self),
            !is_undef_raw(rb_self.spec_raw()),
            old(rt).wf_value(a),
            !is_undef_raw(a.spec_raw()),
            old(rt).wf_value(b),
            !is_undef_raw(b.spec_raw()),
            old(rt).wf_value(c),
            !is_undef_raw(c.spec_raw()),
            old(rt).wf_value(d),
            !is_undef_raw(d.spec_raw()),
            old(rt).wf_value(e),
            !is_undef_raw(e.spec_raw()),
            old(rt).wf_value(f),
            !is_undef_raw(f.spec_raw()),
            old(rt).wf_value(g),
            !is_undef_raw(g.spec_raw()),
            old(rt).wf_value(h),
            !is_undef_raw(h.spec_raw()),
            old(rt).wf_value(i),
            !is_undef_raw(i.spec_raw()),
            old(rt).wf_value(j),
            !is_undef_raw(j.spec_raw()),
            old(rt).wf_value(k),
            !is_undef_raw(k.spec_raw()),
            old(rt).wf_value(l),
            !is_undef_raw(l.spec_raw()),
            old(rt).wf_value(m),
            !is_undef_raw(m.spec_raw()),
            old(rt).wf_value(n),
            !is_undef_raw(n.spec_raw()),
            forall|s: RbSelf, xa: A, xb: B, xc: C, xd: D, xe: E, xf: F, xg: G, xh: H, xi: I, xj: J, xk: K, xl: L, xm: M, xn: N| call_requires(self.spec_func(), (s, xa, xb, xc, xd, xe, xf, xg, xh, xi, xj, xk, xl, xm, xn)),
            forall|s: RbSelf, xa: A, xb: B, xc: C, xd: D, xe: E, xf: F, xg: G, xh: H, xi: I, xj: J, xk: K, xl: L, xm: M, xn: N, res: Res| #[trigger] call_ensures(self.spec_func(), (s, xa, xb, xc, xd, xe, xf, xg, xh, xi, xj, xk, xl, xm, xn), res) ==> res.ret_wf(&*old(rt)),
        ensures
            final(rt).wf(),
            extends(&*old(rt), &*final(rt)),
            (done matches Completion::Return(v) ==> final(rt).wf_value(v)),
            (!converts::<RbSelf>(&*old(rt), rb_self) ==> *final(rt) == *old(rt) && (done matches Completion::Raise(
                e,
            ) && RbSelf::convert_rel(&*old(rt), rb_self, Err(e)))),
            (converts::<RbSelf>(&*old(rt), rb_self) && !converts::<A>(&*old(rt), a)
                ==> *final(rt) == *old(rt) && (done matches Completion::Raise(err) && A::convert_rel(
                &*old(rt),
                a,
                Err(err),
            ))),
            (converts::<RbSelf>(&*old(rt), rb_self) && converts::<A>(&*old(rt), a) && !converts::<B>(&*old(rt), b)
                ==> *final(rt) == *old(rt) && (done matches Completion::Raise(err) && B::convert_rel(
                &*old(rt),
                b,
                Err(err),
            ))),
            (converts::<RbSelf>(&*old(rt), rb_self) && converts::<A>(&*old(rt), a) && converts::<B>(&*old(rt), b) && !converts::<C>(&*old(rt), c)
                ==> *final(rt) == *old(rt) && (done matches Completion::Raise(err) && C::convert_rel(
                &*old(rt),
                c,
                Err(err),
            ))),
            (converts::<RbSelf>(&*old(rt), rb_self) && converts::<A>(&*old(rt), a) && converts::<B>(&*old(rt), b) && converts::<C>(&*old(rt), c) && !converts::<D>(&*old(rt), d)
                ==> *final(rt) == *old(rt) && (done matches Completion::Raise(err) && D::convert_rel(
                &*old(rt),
                d,
                Err(err),
            ))),
            (converts::<RbSelf>(&*old(rt), rb_self) && converts::<A>(&*old(rt), a) && converts::<B>(&*old(rt), b) && converts::<C>(&*old(rt), c) && converts::<D>(&*old(rt), d) && !converts::<E>(&*old(rt), e)
                ==> *final(rt) == *old(rt) && (done matches Completion::Raise(err) && E::convert_rel(
                &*old(rt),
                e,
                Err(err),
            ))),
            (converts::<RbSelf>(&*old(rt), rb_self) && converts::<A>(&*old(rt), a) && converts::<B>(&*old(rt), b) && converts::<C>(&*old(rt), c) && converts::<D>(&*old(rt), d) && converts::<E>(&*old(rt), e) && !converts::<F>(&*old(rt), f)
                ==> *final(rt) == *old(rt) && (done matches Completion::Raise(err) && F::convert_rel(
                &*old(rt),
                f,
                Err(err),
            ))),
            (converts::<RbSelf>(&*old(rt), rb_self) && converts::<A>(&*old(rt), a) && converts::<B>(&*old(rt), b) && converts::<C>(&*old(rt), c) && converts::<D>(&*old(rt), d) && converts::<E>(&*old(rt), e) && converts::<F>(&*old(rt), f) && !converts::<G>(&*old(rt), g)
                ==> *final(rt) == *old(rt) && (done matches Completion::Raise(err) && G::convert_rel(
                &*old(rt),
                g,
                Err(err),
            ))),
            (converts::<RbSelf>(&*old(rt), rb_self) && converts::<A>(&*old(rt), a) && converts::<B>(&*old(rt), b) && converts::<C>(&*old(rt), c) && converts::<D>(&*old(rt), d) && converts::<E>(&*old(rt), e) && converts::<F>(&*old(rt), f) && converts::<G>(&*old(rt), g) && !converts::<H>(&*old(rt), h)
                ==> *final(rt) == *old(rt) && (done matches Completion::Raise(err) && H::convert_rel(
                &*old(rt),
                h,
                Err(err),
            ))),
            (converts::<RbSelf>(&*old(rt), rb_self) && converts::<A>(&*old(rt), a) && converts::<B>(&*old(rt), b) && converts::<C>(&*old(rt), c) && converts::<D>(&*old(rt), d) && converts::<E>(&*old(rt), e) && converts::<F>(&*old(rt), f) && converts::<G>(&*old(rt), g) && converts::<H>(&*old(rt), h) && !converts::<I>(&*old(rt), i)
                ==> *final(rt) == *old(rt) && (done matches Completion::Raise(err) && I::convert_rel(
                &*old(rt),
                i,
                Err(err),
            ))),
            (converts::<RbSelf>(&*old(rt), rb_self) && converts::<A>(&*old(rt), a) && converts::<B>(&*old(rt), b) && converts::<C>(&*old(rt), c) && converts::<D>(&*old(rt), d) && converts::<E>(&*old(rt), e) && converts::<F>(&*old(rt), f) && converts::<G>(&*old(rt), g) && converts::<H>(&*old(rt), h) && converts::<I>(&*old(rt), i) && !converts::<J>(&*old(rt), j)
                ==> *final(rt) == *old(rt) && (done matches Completion::Raise(err) && J::convert_rel(
                &*old(rt),
                j,
                Err(err),
            ))),
            (converts::<RbSelf>(&*old(rt), rb_self) && converts::<A>(&*old(rt), a) && converts::<B>(&*old(rt), b) && converts::<C>(&*old(rt), c) && converts::<D>(&*old(rt), d) && converts::<E>(&*old(rt), e) && converts::<F>(&*old(rt), f) && converts::<G>(&*old(rt), g) && converts::<H>(&*old(rt), h) && converts::<I>(&*old(rt), i) && converts::<J>(&*old(rt), j) && !converts::<K>(&*old(rt), k)
                ==> *final(rt) == *old(rt) && (done matches Completion::Raise(err) && K::convert_rel(
                &*old(rt),
                k,
                Err(err),
            ))),
            (converts::<RbSelf>(&*old(rt), rb_self) && converts::<A>(&*old(rt), a) && converts::<B>(&*old(rt), b) && converts::<C>(&*old(rt), c) && converts::<D>(&*old(rt), d) && converts::<E>(&*old(rt), e) && converts::<F>(&*old(rt), f) && converts::<G>(&*old(rt), g) && converts::<H>(&*old(rt), h) && converts::<I>(&*old(rt), i) && converts::<J>(&*old(rt), j) && converts::<K>(&*old(rt), k) && !converts::<L>(&*old(rt), l)
                ==> *final(rt) == *old(rt) && (done matches Completion::Raise(err) && L::convert_rel(
                &*old(rt),
                l,
                Err(err),
            ))),
            (converts::<RbSelf>(&*old(rt), rb_self) && converts::<A>(&*old(rt), a) && converts::<B>(&*old(rt), b) && converts::<C>(&*old(rt), c) && converts::<D>(&*old(rt), d) && converts::<E>(&*old(rt), e) && converts::<F>(&*old(rt), f) && converts::<G>(&*old(rt), g) && converts::<H>(&*old(rt), h) && converts::<I>(&*old(rt), i) && converts::<J>(&*old(rt), j) && converts::<K>(&*old(rt), k) && converts::<L>(&*old(rt), l) && !converts::<M>(&*old(rt), m)
                ==> *final(rt) == *old(rt) && (done matches Completion::Raise(err) && M::convert_rel(
                &*old(rt),
                m,
                Err(err),
            ))),
            (converts::<RbSelf>(&*old(rt), rb_self) && converts::<A>(&*old(rt), a) && converts::<B>(&*old(rt), b) && converts::<C>(&*old(rt), c) && converts::<D>(&*old(rt), d) && converts::<E>(&*old(rt), e) && converts::<F>(&*old(rt), f) && converts::<G>(&*old(rt), g) && converts::<H>(&*old(rt), h) && converts::<I>(&*old(rt), i) && converts::<J>(&*old(rt), j) && converts::<K>(&*old(rt), k) && converts::<L>(&*old(rt), l) && converts::<M>(&*old(rt), m) && !converts::<N>(&*old(rt), n)
                ==> *final(rt) == *old(rt) && (done matches Completion::Raise(err) && N::convert_rel(
                &*old(rt),
                n,
                Err(err),
            ))),
            (converts::<RbSelf>(&*old(rt), rb_self) && converts::<A>(&*old(rt), a) && converts::<B>(&*old(rt), b) && converts::<C>(&*old(rt), c) && converts::<D>(&*old(rt), d) && converts::<E>(&*old(rt), e) && converts::<F>(&*old(rt), f) && converts::<G>(&*old(rt), g) && converts::<H>(&*old(rt), h) && converts::<I>(&*old(rt), i) && converts::<J>(&*old(rt), j) && converts::<K>(&*old(rt), k) && converts::<L>(&*old(rt), l) && converts::<M>(&*old(rt), m) && converts::<N>(&*old(rt), n) ==> exists|s: RbSelf, xa: A, xb: B, xc: C, xd: D, xe: E, xf: F, xg: G, xh: H, xi: I, xj: J, xk: K, xl: L, xm: M, xn: N, res: Res|
                RbSelf::convert_rel(&*old(rt), rb_self, Ok(s)) && A::convert_rel(&*old(rt), a, Ok(xa)) && B::convert_rel(&*old(rt), b, Ok(xb)) && C::convert_rel(&*old(rt), c, Ok(xc)) && D::convert_rel(&*old(rt), d, Ok(xd)) && E::convert_rel(&*old(rt), e, Ok(xe)) && F::convert_rel(&*old(rt), f, Ok(xf)) && G::convert_rel(&*old(rt), g, Ok(xg)) && H::convert_rel(&*old(rt), h, Ok(xh)) && I::convert_rel(&*old(rt), i, Ok(xi)) && J::convert_rel(&*old(rt), j, Ok(xj)) && K::convert_rel(&*old(rt), k, Ok(xk)) && L::convert_rel(&*old(rt), l, Ok(xl)) && M::convert_rel(&*old(rt), m, Ok(xm)) && N::convert_rel(&*old(rt), n, Ok(xn)) && #[trigger] call_ensures(self.spec_func(), (s, xa, xb, xc, xd, xe, xf, xg, xh, xi, xj, xk, xl, xm, xn), res)
                && res.ret_rel(*old(rt), *final(rt), completion_result(done))),
    {
        match self.call_convert_value(rt, rb_self, a, b, c, d, e, f, g, h, i, j, k, l, m, n) {
            Ok(v) => Completion::Return(v),
            Err(e) => Completion::Raise(e),
        }
    }
}

/// The adapter for a native callable taking self and 15 arguments.
pub struct Method15<Func, RbSelf, A, B, C, D, E, F, G, H, I, J, K, L, M, N, O, Res> {
    func: Func,
    rb_self: PhantomData<RbSelf>,
    a: PhantomData<A>,
    b: PhantomData<B>,
    c: PhantomData<C>,
    d: PhantomData<D>,
    e: PhantomData<E>,
    f: PhantomData<F>,
    g: PhantomData<G>,
    h: PhantomData<H>,
    i: PhantomData<I>,
    j: PhantomData<J>,
    k: PhantomData<K>,
    l: PhantomData<L>,
    m: PhantomData<M>,
    n: PhantomData<N>,
    o: PhantomData<O>,
    res: PhantomData<Res>,
}

impl<Func, RbSelf, A, B, C, D, E, F, G, H, I, J, K, L, M, N, O, Res> Method15<Func, RbSelf, A, B, C, D, E, F, G, H, I, J, K, L, M, N, O, Res> where Func: Fn(RbSelf, A, B, C, D, E, F, G, H, I, J, K, L, M, N, O) -> Res, RbSelf: TryConvert, A: TryConvert, B: TryConvert, C: TryConvert, D: TryConvert, E: TryConvert, F: TryConvert, G: TryConvert, H: TryConvert, I: TryConvert, J: TryConvert, K: TryConvert, L: TryConvert, M: TryConvert, N: TryConvert, O: TryConvert, Res: ReturnValue {
    /// The wrapped host function, for specifications.
    pub closed spec fn spec_func(&self) -> Func {
        self.func
    }

    pub fn new(func: Func) -> (m: Self)
        ensures
            m.spec_func() == func,
    {
        Method15 {
            func,
            rb_self: PhantomData,
            a: PhantomData,
            b: PhantomData,
            c: PhantomData,
            d: PhantomData,
            e: PhantomData,
            f: PhantomData,
            g: PhantomData,
            h: PhantomData,
            i: PhantomData,
            j: PhantomData,
            k: PhantomData,
            l: PhantomData,
            m: PhantomData,
            n: PhantomData,
            o: PhantomData,
            res: PhantomData,
        }
    }

    /// Convert self and the arguments left to right, stopping at the first
    /// failure without touching the runtime or the host function; on full
    /// success, invoke the host function and convert its result back.
    pub fn call_convert_value(self, rt: &mut Ruby, rb_self: Value, a: Value, b: Value, c: Value, d: Value, e: Value, f: Value, g: Value, h: Value, i: Value, j: Value, k: Value, l: Value, m: Value, n: Value, o: Value) -> (r: Result<Value, Error>)
        requires
            old(rt).wf(),
            old(rt).has_room(),
            old(rt).wf_value(rb_self),
            !is_undef_raw(rb_self.spec_raw()),
            old(rt).wf_value(a),
            !is_undef_raw(a.spec_raw()),
            old(rt).wf_value(b),
            !is_undef_raw(b.spec_raw()),
            old(rt).wf_value(c),
            !is_undef_raw(c.spec_raw()),
            old(rt).wf_value(d),
            !is_undef_raw(d.spec_raw()),
            old(rt).wf_value(e),
            !is_undef_raw(e.spec_raw()),
            old(rt).wf_value(f),
            !is_undef_raw(f.spec_raw()),
            old(rt).wf_value(g),
            !is_undef_raw(g.spec_raw()),
            old(rt).wf_value(h),
            !is_undef_raw(h.spec_raw()),
            old(rt).wf_value(i),
            !is_undef_raw(i.spec_raw()),
            old(rt).wf_value(j),
            !is_undef_raw(j.spec_raw()),
            old(rt).wf_value(k),
            !is_undef_raw(k.spec_raw()),
            old(rt).wf_value(l),
            !is_undef_raw(l.spec_raw()),
            old(rt).wf_value(m),
            !is_undef_raw(m.spec_raw()),
            old(rt).wf_value(n),
            !is_undef_raw(n.spec_raw()),
            old(rt).wf_value(o),
            !is_undef_raw(o.spec_raw()),
            forall|s: RbSelf, xa: A, xb: B, xc: C, xd: D, xe: E, xf: F, xg: G, xh: H, xi: I, xj: J, xk: K, xl: L, xm: M, xn: N, xo: O| call_requires(self.spec_func(), (s, xa, xb, xc, xd, xe, xf, xg, xh, xi, xj, xk, xl, xm, xn, xo)),
            forall|s: RbSelf, xa: A, xb: B, xc: C, xd: D, xe: E, xf: F, xg: G, xh: H, xi: I, xj: J, xk: K, xl: L, xm: M, xn: N, xo: O, res: Res| #[trigger] call_ensures(self.spec_func(), (s, xa, xb, xc, xd, xe, xf, xg, xh, xi, xj, xk, xl, xm, xn, xo), res) ==> res.ret_wf(&*old(rt)),
        ensures
            final(rt).wf(),
            extends(&*old(rt), &*final(rt)),
            (r matches Ok(v) ==> final(rt).wf_value(v)),
            (!converts::<RbSelf>(&*old(rt), rb_self) ==> *final(rt) == *old(rt) && (r matches Err(err)
                && RbSelf::convert_rel(&*old(rt), rb_self, Err(err)))),
            (converts::<RbSelf>(&*old(rt), rb_self) && !converts::<A>(&*old(rt), a)
                ==> *final(rt) == *old(rt) && (r matches Err(err) && A::convert_rel(
                &*old(rt),
                a,
                Err(err),
            ))),
            (converts::<RbSelf>(&*old(rt), rb_self) && converts::<A>(&*old(rt), a) && !converts::<B>(&*old(rt), b)
                ==> *final(rt) == *old(rt) && (r matches Err(err) && B::convert_rel(
                &*old(rt),
                b,
                Err(err),
            ))),
            (converts::<RbSelf>(&*old(rt), rb_self) && converts::<A>(&*old(rt), a) && converts::<B>(&*old(rt), b) && !converts::<C>(&*old(rt), c)
                ==> *final(rt) == *old(rt) && (r matches Err(err) && C::convert_rel(
                &*old(rt),
                c,
                Err(err),
            ))),
            (converts::<RbSelf>(&*old(rt), rb_self) && converts::<A>(&*old(rt), a) && converts::<B>(&*old(rt), b) && converts::<C>(&*old(rt), c) && !converts::<D>(&*old(rt), d)
                ==> *final(rt) == *old(rt) && (r matches Err(err) && D::convert_rel(
                &*old(rt),
                d,
                Err(err),
            ))),
            (converts::<RbSelf>(&*old(rt), rb_self) && converts::<A>(&*old(rt), a) && converts::<B>(&*old(rt), b) && converts::<C>(&*old(rt), c) && converts::<D>(&*old(rt), d) && !converts::<E>(&*old(rt), e)
                ==> *final(rt) == *old(rt) && (r matches Err(err) && E::convert_rel(
                &*old(rt),
                e,
                Err(err),
            ))),
            (converts::<RbSelf>(&*old(rt), rb_self) && converts::<A>(&*old(rt), a) && converts::<B>(&*old(rt), b) && converts::<C>(&*old(rt), c) && converts::<D>(&*old(rt), d) && converts::<E>(&*old(rt), e) && !converts::<F>(&*old(rt), f)
                ==> *final(rt) == *old(rt) && (r matches Err(err) && F::convert_rel(
                &*old(rt),
                f,
                Err(err),
            ))),
            (converts::<RbSelf>(&*old(rt), rb_self) && converts::<A>(&*old(rt), a) && converts::<B>(&*old(rt), b) && converts::<C>(&*old(rt), c) && converts::<D>(&*old(rt), d) && converts::<E>(&*old(rt), e) && converts::<F>(&*old(rt), f) && !converts::<G>(&*old(rt), g)
                ==> *final(rt) == *old(rt) && (r matches Err(err) && G::convert_rel(
                &*old(rt),
                g,
                Err(err),
            ))),
            (converts::<RbSelf>(&*old(rt), rb_self) && converts::<A>(&*old(rt), a) && converts::<B>(&*old(rt), b) && converts::<C>(&*old(rt), c) && converts::<D>(&*old(rt), d) && converts::<E>(&*old(rt), e) && converts::<F>(&*old(rt), f) && converts::<G>(&*old(rt), g) && !converts::<H>(&*old(rt), h)
                ==> *final(rt) == *old(rt) && (r matches Err(err) && H::convert_rel(
                &*old(rt),
                h,
                Err(err),
            ))),
            (converts::<RbSelf>(&*old(rt), rb_self) && converts::<A>(&*old(rt), a) && converts::<B>(&*old(rt), b) && converts::<C>(&*old(rt), c) && converts::<D>(&*old(rt), d) && converts::<E>(&*old(rt), e) && converts::<F>(&*old(rt), f) && converts::<G>(&*old(rt), g) && converts::<H>(&*old(rt), h) && !converts::<I>(&*old(rt), i)
                ==> *final(rt) == *old(rt) && (r matches Err(err) && I::convert_rel(
                &*old(rt),
                i,
                Err(err),
            ))),
            (converts::<RbSelf>(&*old(rt), rb_self) && converts::<A>(&*old(rt), a) && converts::<B>(&*old(rt), b) && converts::<C>(&*old(rt), c) && converts::<D>(&*old(rt), d) && converts::<E>(&*old(rt), e) && converts::<F>(&*old(rt), f) && converts::<G>(&*old(rt), g) && converts::<H>(&*old(rt), h) && converts::<I>(&*old(rt), i) && !converts::<J>(&*old(rt), j)
                ==> *final(rt) == *old(rt) && (r matches Err(err) && J::convert_rel(
                &*old(rt),
                j,
                Err(err),
            ))),
            (converts::<RbSelf>(&*old(rt), rb_self) && converts::<A>(&*old(rt), a) && converts::<B>(&*old(rt), b) && converts::<C>(&*old(rt), c) && converts::<D>(&*old(rt), d) && converts::<E>(&*old(rt), e) && converts::<F>(&*old(rt), f) && converts::<G>(&*old(rt), g) && converts::<H>(&*old(rt), h) && converts::<I>(&*old(rt), i) && converts::<J>(&*old(rt), j) && !converts::<K>(&*old(rt), k)
                ==> *final(rt) == *old(rt) && (r matches Err(err) && K::convert_rel(
                &*old(rt),
                k,
                Err(err),
            ))),
            (converts::<RbSelf>(&*old(rt), rb_self) && converts::<A>(&*old(rt), a) && converts::<B>(&*old(rt), b) && converts::<C>(&*old(rt), c) && converts::<D>(&*old(rt), d) && converts::<E>(&*old(rt), e) && converts::<F>(&*old(rt), f) && converts::<G>(&*old(rt), g) && converts::<H>(&*old(rt), h) && converts::<I>(&*old(rt), i) && converts::<J>(&*old(rt), j) && converts::<K>(&*old(rt), k) && !converts::<L>(&*old(rt), l)
                ==> *final(rt) == *old(rt) && (r matches Err(err) && L::convert_rel(
                &*old(rt),
                l,
                Err(err),
            ))),
            (converts::<RbSelf>(&*old(rt), rb_self) && converts::<A>(&*old(rt), a) && converts::<B>(&*old(rt), b) && converts::<C>(&*old(rt), c) && converts::<D>(&*old(rt), d) && converts::<E>(&*old(rt), e) && converts::<F>(&*old(rt), f) && converts::<G>(&*old(rt), g) && converts::<H>(&*old(rt), h) && converts::<I>(&*old(rt), i) && converts::<J>(&*old(rt), j) && converts::<K>(&*old(rt), k) && converts::<L>(&*old(rt), l) && !converts::<M>(&*old(rt), m)
                ==> *final(rt) == *old(rt) && (r matches Err(err) && M::convert_rel(
                &*old(rt),
                m,
                Err(err),
            ))),
            (converts::<RbSelf>(&*old(rt), rb_self) && converts::<A>(&*old(rt), a) && converts::<B>(&*old(rt), b) && converts::<C>(&*old(rt), c) && converts::<D>(&*old(rt), d) && converts::<E>(&*old(rt), e) && converts::<F>(&*old(rt), f) && converts::<G>(&*old(rt), g) && converts::<H>(&*old(rt), h) && converts::<I>(&*old(rt), i) && converts::<J>(&*old(rt), j) && converts::<K>(&*old(rt), k) && converts::<L>(&*old(rt), l) && converts::<M>(&*old(rt), m) && !converts::<N>(&*old(rt), n)
                ==> *final(rt) == *old(rt) && (r matches Err(err) && N::convert_rel(
                &*old(rt),
                n,
                Err(err),
            ))),
            (converts::<RbSelf>(&*old(rt), rb_self) && converts::<A>(&*old(rt), a) && converts::<B>(&*old(rt), b) && converts::<C>(&*old(rt), c) && converts::<D>(&*old(rt), d) && converts::<E>(&*old(rt), e) && converts::<F>(&*old(rt), f) && converts::<G>(&*old(rt), g) && converts::<H>(&*old(rt), h) && converts::<I>(&*old(rt), i) && converts::<J>(&*old(rt), j) && converts::<K>(&*old(rt), k) && converts::<L>(&*old(rt), l) && converts::<M>(&*old(rt), m) && converts::<N>(&*old(rt), n) && !converts::<O>(&*old(rt), o)
                ==> *final(rt) == *old(rt) && (r matches Err(err) && O::convert_rel(
                &*old(rt),
                o,
                Err(err),
            ))),
            (converts::<RbSelf>(&*old(rt), rb_self) && converts::<A>(&*old(rt), a) && converts::<B>(&*old(rt), b) && converts::<C>(&*old(rt), c) && converts::<D>(&*old(rt), d) && converts::<E>(&*old(rt), e) && converts::<F>(&*old(rt), f) && converts::<G>(&*old(rt), g) && converts::<H>(&*old(rt), h) && converts::<I>(&*old(rt), i) && converts::<J>(&*old(rt), j) && converts::<K>(&*old(rt), k) && converts::<L>(&*old(rt), l) && converts::<M>(&*old(rt), m) && converts::<N>(&*old(rt), n) && converts::<O>(&*old(rt), o) ==> exists|s: RbSelf, xa: A, xb: B, xc: C, xd: D, xe: E, xf: F, xg: G, xh: H, xi: I, xj: J, xk: K, xl: L, xm: M, xn: N, xo: O, res: Res|
                RbSelf::convert_rel(&*old(rt), rb_self, Ok(s)) && A::convert_rel(&*old(rt), a, Ok(xa)) && B::convert_rel(&*old(rt), b, Ok(xb)) && C::convert_rel(&*old(rt), c, Ok(xc)) && D::convert_rel(&*old(rt), d, Ok(xd)) && E::convert_rel(&*old(rt), e, Ok(xe)) && F::convert_rel(&*old(rt), f, Ok(xf)) && G::convert_rel(&*old(rt), g, Ok(xg)) && H::convert_rel(&*old(rt), h, Ok(xh)) && I::convert_rel(&*old(rt), i, Ok(xi)) && J::convert_rel(&*old(rt), j, Ok(xj)) && K::convert_rel(&*old(rt), k, Ok(xk)) && L::convert_rel(&*old(rt), l, Ok(xl)) && M::convert_rel(&*old(rt), m, Ok(xm)) && N::convert_rel(&*old(rt), n, Ok(xn)) && O::convert_rel(&*old(rt), o, Ok(xo)) && #[trigger] call_ensures(self.spec_func(), (s, xa, xb, xc, xd, xe, xf, xg, xh, xi, xj, xk, xl, xm, xn, xo), res)
                && res.ret_rel(*old(rt), *final(rt), r)),
    {
        let s: RbSelf = match RbSelf::try_convert(&*rt, rb_self) {
            Ok(s) => s,
            Err(err) => {
                proof {
                    assert forall|x: RbSelf| !RbSelf::convert_rel(
                        &*old(rt),
                        rb_self,
                        Ok(x),
                    ) by {
                        RbSelf::lemma_convert_exclusive(&*old(rt), rb_self, x, err);
                    }
                    assert(rt.heap@.subrange(0, old(rt).heap@.len() as int) =~= old(rt).heap@);
                }
                return Err(err);
            },
        };
        let xa: A = match A::try_convert(&*rt, a) {
            Ok(x) => x,
            Err(err) => {
                proof {
                    assert forall|x: A| !A::convert_rel(&*old(rt), a, Ok(x)) by {
                        A::lemma_convert_exclusive(&*old(rt), a, x, err);
                    }
                    assert(rt.heap@.subrange(0, old(rt).heap@.len() as int) =~= old(rt).heap@);
                }
                return Err(err);
            },
        };
        let xb: B = match B::try_convert(&*rt, b) {
            Ok(x) => x,
            Err(err) => {
                proof {
                    assert forall|x: B| !B::convert_rel(&*old(rt), b, Ok(x)) by {
                        B::lemma_convert_exclusive(&*old(rt), b, x, err);
                    }
                    assert(rt.heap@.subrange(0, old(rt).heap@.len() as int) =~= old(rt).heap@);
                }
                return Err(err);
            },
        };
        let xc: C = match C::try_convert(&*rt, c) {
            Ok(x) => x,
            Err(err) => {
                proof {
                    assert forall|x: C| !C::convert_rel(&*old(rt), c, Ok(x)) by {
                        C::lemma_convert_exclusive(&*old(rt), c, x, err);
                    }
                    assert(rt.heap@.subrange(0, old(rt).heap@.len() as int) =~= old(rt).heap@);
                }
                return Err(err);
            },
        };
        let xd: D = match D::try_convert(&*rt, d) {
            Ok(x) => x,
            Err(err) => {
                proof {
                    assert forall|x: D| !D::convert_rel(&*old(rt), d, Ok(x)) by {
                        D::lemma_convert_exclusive(&*old(rt), d, x, err);
                    }
                    assert(rt.heap@.subrange(0, old(rt).heap@.len() as int) =~= old(rt).heap@);
                }
                return Err(err);
            },
        };
        let xe: E = match E::try_convert(&*rt, e) {
            Ok(x) => x,
            Err(err) => {
                proof {
                    assert forall|x: E| !E::convert_rel(&*old(rt), e, Ok(x)) by {
                        E::lemma_convert_exclusive(&*old(rt), e, x, err);
                    }
                    assert(rt.heap@.subrange(0, old(rt).heap@.len() as int) =~= old(rt).heap@);
                }
                return Err(err);
            },
        };
        let xf: F = match F::try_convert(&*rt, f) {
            Ok(x) => x,
            Err(err) => {
                proof {
                    assert forall|x: F| !F::convert_rel(&*old(rt), f, Ok(x)) by {
                        F::lemma_convert_exclusive(&*old(rt), f, x, err);
                    }
                    assert(rt.heap@.subrange(0, old(rt).heap@.len() as int) =~= old(rt).heap@);
                }
                return Err(err);
            },
        };
        let xg: G = match G::try_convert(&*rt, g) {
            Ok(x) => x,
            Err(err) => {
                proof {
                    assert forall|x: G| !G::convert_rel(&*old(rt), g, Ok(x)) by {
                        G::lemma_convert_exclusive(&*old(rt), g, x, err);
                    }
                    assert(rt.heap@.subrange(0, old(rt).heap@.len() as int) =~= old(rt).heap@);
                }
                return Err(err);
            },
        };
        let xh: H = match H::try_convert(&*rt, h) {
            Ok(x) => x,
            Err(err) => {
                proof {
                    assert forall|x: H| !H::convert_rel(&*old(rt), h, Ok(x)) by {
                        H::lemma_convert_exclusive(&*old(rt), h, x, err);
                    }
                    assert(rt.heap@.subrange(0, old(rt).heap@.len() as int) =~= old(rt).heap@);
                }
                return Err(err);
            },
        };
        let xi: I = match I::try_convert(&*rt, i) {
            Ok(x) => x,
            Err(err) => {
                proof {
                    assert forall|x: I| !I::convert_rel(&*old(rt), i, Ok(x)) by {
                        I::lemma_convert_exclusive(&*old(rt), i, x, err);
                    }
                    assert(rt.heap@.subrange(0, old(rt).heap@.len() as int) =~= old(rt).heap@);
                }
                return Err(err);
            },
        };
        let xj: J = match J::try_convert(&*rt, j) {
            Ok(x) => x,
            Err(err) => {
                proof {
                    assert forall|x: J| !J::convert_rel(&*old(rt), j, Ok(x)) by {
                        J::lemma_convert_exclusive(&*old(rt), j, x, err);
                    }
                    assert(rt.heap@.subrange(0, old(rt).heap@.len() as int) =~= old(rt).heap@);
                }
                return Err(err);
            },
        };
        let xk: K = match K::try_convert(&*rt, k) {
            Ok(x) => x,
            Err(err) => {
                proof {
                    assert forall|x: K| !K::convert_rel(&*old(rt), k, Ok(x)) by {
                        K::lemma_convert_exclusive(&*old(rt), k, x, err);
                    }
                    assert(rt.heap@.subrange(0, old(rt).heap@.len() as int) =~= old(rt).heap@);
                }
                return Err(err);
            },
        };
        let xl: L = match L::try_convert(&*rt, l) {
            Ok(x) => x,
            Err(err) => {
                proof {
                    assert forall|x: L| !L::convert_rel(&*old(rt), l, Ok(x)) by {
                        L::lemma_convert_exclusive(&*old(rt), l, x, err);
                    }
                    assert(rt.heap@.subrange(0, old(rt).heap@.len() as int) =~= old(rt).heap@);
                }
                return Err(err);
            },
        };
        let xm: M = match M::try_convert(&*rt, m) {
            Ok(x) => x,
            Err(err) => {
                proof {
                    assert forall|x: M| !M::convert_rel(&*old(rt), m, Ok(x)) by {
                        M::lemma_convert_exclusive(&*old(rt), m, x, err);
                    }
                    assert(rt.heap@.subrange(0, old(rt).heap@.len() as int) =~= old(rt).heap@);
                }
                return Err(err);
            },
        };
        let xn: N = match N::try_convert(&*rt, n) {
            Ok(x) => x,
            Err(err) => {
                proof {
                    assert forall|x: N| !N::convert_rel(&*old(rt), n, Ok(x)) by {
                        N::lemma_convert_exclusive(&*old(rt), n, x, err);
                    }
                    assert(rt.heap@.subrange(0, old(rt).heap@.len() as int) =~= old(rt).heap@);
                }
                return Err(err);
            },
        };
        let xo: O = match O::try_convert(&*rt, o) {
            Ok(x) => x,
            Err(err) => {
                proof {
                    assert forall|x: O| !O::convert_rel(&*old(rt), o, Ok(x)) by {
                        O::lemma_convert_exclusive(&*old(rt), o, x, err);
                    }
                    assert(rt.heap@.subrange(0, old(rt).heap@.len() as int) =~= old(rt).heap@);
                }
                return Err(err);
            },
        };
        proof {
            assert(call_requires(self.spec_func(), (s, xa, xb, xc, xd, xe, xf, xg, xh, xi, xj, xk, xl, xm, xn, xo)));
        }
        let res: Res = (self.func)(s, xa, xb, xc, xd, xe, xf, xg, xh, xi, xj, xk, xl, xm, xn, xo);
        proof {
            assert(call_ensures(self.spec_func(), (s, xa, xb, xc, xd, xe, xf, xg, xh, xi, xj, xk, xl, xm, xn, xo), res));
        }
        res.into_return_value(rt)
    }

    /// As `call_convert_value`, but decide what crosses back to the runtime:
    /// the value, or a raise carrying the error.
    pub fn call_handle_error(self, rt: &mut Ruby, rb_self: Value, a: Value, b: Value, c: Value, d: Value, e: Value, f: Value, g: Value, h: Value, i: Value, j: Value, k: Value, l: Value, m: Value, n: Value, o: Value) -> (done: Completion)
        requires
            old(rt).wf(),
            old(rt).has_room(),
            old(rt).wf_value(rb_self),
            !is_undef_raw(rb_self.spec_raw()),
            old(rt).wf_value(a),
            !is_undef_raw(a.spec_raw()),
            old(rt).wf_value(b),
            !is_undef_raw(b.spec_raw()),
            old(rt).wf_value(c),
            !is_undef_raw(c.spec_raw()),
            old(rt).wf_value(d),
            !is_undef_raw(d.spec_raw()),
            old(rt).wf_value(e),
            !is_undef_raw(e.spec_raw()),
            old(rt).wf_value(f),
            !is_undef_raw(f.spec_raw()),
            old(rt).wf_value(g),
            !is_undef_raw(g.spec_raw()),
            old(rt).wf_value(h),
            !is_undef_raw(h.spec_raw()),
            old(rt).wf_value(i),
            !is_undef_raw(i.spec_raw()),
            old(rt).wf_value(j),
            !is_undef_raw(j.spec_raw()),
            old(rt).wf_value(k),
            !is_undef_raw(k.spec_raw()),
            old(rt).wf_value(l),
            !is_undef_raw(l.spec_raw()),
            old(rt).wf_value(m),
            !is_undef_raw(m.spec_raw()),
            old(rt).wf_value(n),
            !is_undef_raw(n.spec_raw()),
            old(rt).wf_value(o),
            !is_undef_raw(o.spec_raw()),
            forall|s: RbSelf, xa: A, xb: B, xc: C, xd: D, xe: E, xf: F, xg: G, xh: H, xi: I, xj: J, xk: K, xl: L, xm: M, xn: N, xo: O| call_requires(self.spec_func(), (s, xa, xb, xc, xd, xe, xf, xg, xh, xi, xj, xk, xl, xm, xn, xo)),
            forall|s: RbSelf, xa: A, xb: B, xc: C, xd: D, xe: E, xf: F, xg: G, xh: H, xi: I, xj: J, xk: K, xl: L, xm: M, xn: N, xo: O, res: Res| #[trigger] call_ensures(self.spec_func(), (s, xa, xb, xc, xd, xe, xf, xg, xh, xi, xj, xk, xl, xm, xn, xo), res) ==> res.ret_wf(&*old(rt)),
        ensures
            final(rt).wf(),
            extends(&*old(rt), &*final(rt)),
            (done matches Completion::Return(v) ==> final(rt).wf_value(v)),
            (!converts::<RbSelf>(&*old(rt), rb_self) ==> *final(rt) == *old(rt) && (done matches Completion::Raise(
                e,
            ) && RbSelf::convert_rel(&*old(rt), rb_self, Err(e)))),
            (converts::<RbSelf>(&*old(rt), rb_self) && !converts::<A>(&*old(rt), a)
                ==> *final(rt) == *old(rt) && (done matches Completion::Raise(err) && A::convert_rel(
                &*old(rt),
                a,
                Err(err),
            ))),
            (converts::<RbSelf>(&*old(rt), rb_self) && converts::<A>(&*old(rt), a) && !converts::<B>(&*old(rt), b)
                ==> *final(rt) == *old(rt) && (done matches Completion::Raise(err) && B::convert_rel(
                &*old(rt),
                b,
                Err(err),
            ))),
            (converts::<RbSelf>(&*old(rt), rb_self) && converts::<A>(&*old(rt), a) && converts::<B>(&*old(rt), b) && !converts::<C>(&*old(rt), c)
                ==> *final(rt) == *old(rt) && (done matches Completion::Raise(err) && C::convert_rel(
                &*old(rt),
                c,
                Err(err),
            ))),
            (converts::<RbSelf>(&*old(rt), rb_self) && converts::<A>(&*old(rt), a) && converts::<B>(&*old(rt), b) && converts::<C>(&*old(rt), c) && !converts::<D>(&*old(rt), d)
                ==> *final(rt) == *old(rt) && (done matches Completion::Raise(err) && D::convert_rel(
                &*old(rt),
                d,
                Err(err),
            ))),
            (converts::<RbSelf>(&*old(rt), rb_self) && converts::<A>(&*old(rt), a) && converts::<B>(&*old(rt), b) && converts::<C>(&*old(rt), c) && converts::<D>(&*old(rt), d) && !converts::<E>(&*old(rt), e)
                ==> *final(rt) == *old(rt) && (done matches Completion::Raise(err) && E::convert_rel(
                &*old(rt),
                e,
                Err(err),
            ))),
            (converts::<RbSelf>(&*old(rt), rb_self) && converts::<A>(&*old(rt), a) && converts::<B>(&*old(rt), b) && converts::<C>(&*old(rt), c) && converts::<D>(&*old(rt), d) && converts::<E>(&*old(rt), e) && !converts::<F>(&*old(rt), f)
                ==> *final(rt) == *old(rt) && (done matches Completion::Raise(err) && F::convert_rel(
                &*old(rt),
                f,
                Err(err),
            ))),
            (converts::<RbSelf>(&*old(rt), rb_self) && converts::<A>(&*old(rt), a) && converts::<B>(&*old(rt), b) && converts::<C>(&*old(rt), c) && converts::<D>(&*old(rt), d) && converts::<E>(&*old(rt), e) && converts::<F>(&*old(rt), f) && !converts::<G>(&*old(rt), g)
                ==> *final(rt) == *old(rt) && (done matches Completion::Raise(err) && G::convert_rel(
                &*old(rt),
                g,
                Err(err),
            ))),
            (converts::<RbSelf>(&*old(rt), rb_self) && converts::<A>(&*old(rt), a) && converts::<B>(&*old(rt), b) && converts::<C>(&*old(rt), c) && converts::<D>(&*old(rt), d) && converts::<E>(&*old(rt), e) && converts::<F>(&*old(rt), f) && converts::<G>(&*old(rt), g) && !converts::<H>(&*old(rt), h)
                ==> *final(rt) == *old(rt) && (done matches Completion::Raise(err) && H::convert_rel(
                &*old(rt),
                h,
                Err(err),
            ))),
            (converts::<RbSelf>(&*old(rt), rb_self) && converts::<A>(&*old(rt), a) && converts::<B>(&*old(rt), b) && converts::<C>(&*old(rt), c) && converts::<D>(&*old(rt), d) && converts::<E>(&*old(rt), e) && converts::<F>(&*old(rt), f) && converts::<G>(&*old(rt), g) && converts::<H>(&*old(rt), h) && !converts::<I>(&*old(rt), i)
                ==> *final(rt) == *old(rt) && (done matches Completion::Raise(err) && I::convert_rel(
                &*old(rt),
                i,
                Err(err),
            ))),
            (converts::<RbSelf>(&*old(rt), rb_self) && converts::<A>(&*old(rt), a) && converts::<B>(&*old(rt), b) && converts::<C>(&*old(rt), c) && converts::<D>(&*old(rt), d) && converts::<E>(&*old(rt), e) && converts::<F>(&*old(rt), f) && converts::<G>(&*old(rt), g) && converts::<H>(&*old(rt), h) && converts::<I>(&*old(rt), i) && !converts::<J>(&*old(rt), j)
                ==> *final(rt) == *old(rt) && (done matches Completion::Raise(err) && J::convert_rel(
                &*old(rt),
                j,
                Err(err),
            ))),
            (converts::<RbSelf>(&*old(rt), rb_self) && converts::<A>(&*old(rt), a) && converts::<B>(&*old(rt), b) && converts::<C>(&*old(rt), c) && converts::<D>(&*old(rt), d) && converts::<E>(&*old(rt), e) && converts::<F>(&*old(rt), f) && converts::<G>(&*old(rt), g) && converts::<H>(&*old(rt), h) && converts::<I>(&*old(rt), i) && converts::<J>(&*old(rt), j) && !converts::<K>(&*old(rt), k)
                ==> *final(rt) == *old(rt) && (done matches Completion::Raise(err) && K::convert_rel(
                &*old(rt),
                k,
                Err(err),
            ))),
            (converts::<RbSelf>(&*old(rt), rb_self) && converts::<A>(&*old(rt), a) && converts::<B>(&*old(rt), b) && converts::<C>(&*old(rt), c) && converts::<D>(&*old(rt), d) && converts::<E>(&*old(rt), e) && converts::<F>(&*old(rt), f) && converts::<G>(&*old(rt), g) && converts::<H>(&*old(rt), h) && converts::<I>(&*old(rt), i) && converts::<J>(&*old(rt), j) && converts::<K>(&*old(rt), k) && !converts::<L>(&*old(rt), l)
                ==> *final(rt) == *old(rt) && (done matches Completion::Raise(err) && L::convert_rel(
                &*old(rt),
                l,
                Err(err),
            ))),
            (converts::<RbSelf>(&*old(rt), rb_self) && converts::<A>(&*old(rt), a) && converts::<B>(&*old(rt), b) && converts::<C>(&*old(rt), c) && converts::<D>(&*old(rt), d) && converts::<E>(&*old(rt), e) && converts::<F>(&*old(rt), f) && converts::<G>(&*old(rt), g) && converts::<H>(&*old(rt), h) && converts::<I>(&*old(rt), i) && converts::<J>(&*old(rt), j) && converts::<K>(&*old(rt), k) && converts::<L>(&*old(rt), l) && !converts::<M>(&*old(rt), m)
                ==> *final(rt) == *old(rt) && (done matches Completion::Raise(err) && M::convert_rel(
                &*old(rt),
                m,
                Err(err),
            ))),
            (converts::<RbSelf>(&*old(rt), rb_self) && converts::<A>(&*old(rt), a) && converts::<B>(&*old(rt), b) && converts::<C>(&*old(rt), c) && converts::<D>(&*old(rt), d) && converts::<E>(&*old(rt), e) && converts::<F>(&*old(rt), f) && converts::<G>(&*old(rt), g) && converts::<H>(&*old(rt), h) && converts::<I>(&*old(rt), i) && converts::<J>(&*old(rt), j) && converts::<K>(&*old(rt), k) && converts::<L>(&*old(rt), l) && converts::<M>(&*old(rt), m) && !converts::<N>(&*old(rt), n)
                ==> *final(rt) == *old(rt) && (done matches Completion::Raise(err) && N::convert_rel(
                &*old(rt),
                n,
                Err(err),
            ))),
            (converts::<RbSelf>(&*old(rt), rb_self) && converts::<A>(&*old(rt), a) && converts::<B>(&*old(rt), b) && converts::<C>(&*old(rt), c) && converts::<D>(&*old(rt), d) && converts::<E>(&*old(rt), e) && converts::<F>(&*old(rt), f) && converts::<G>(&*old(rt), g) && converts::<H>(&*old(rt), h) && converts::<I>(&*old(rt), i) && converts::<J>(&*old(rt), j) && converts::<K>(&*old(rt), k) && converts::<L>(&*old(rt), l) && converts::<M>(&*old(rt), m) && converts::<N>(&*old(rt), n) && !converts::<O>(&*old(rt), o)
                ==> *final(rt) == *old(rt) && (done matches Completion::Raise(err) && O::convert_rel(
                &*old(rt),
                o,
                Err(err),
            ))),
            (converts::<RbSelf>(&*old(rt), rb_self) && converts::<A>(&*old(rt), a) && converts::<B>(&*old(rt), b) && converts::<C>(&*old(rt), c) && converts::<D>(&*old(rt), d) && converts::<E>(&*old(rt), e) && converts::<F>(&*old(rt), f) && converts::<G>(&*old(rt), g) && converts::<H>(&*old(rt), h) && converts::<I>(&*old(rt), i) && converts::<J>(&*old(rt), j) && converts::<K>(&*old(rt), k) && converts::<L>(&*old(rt), l) && converts::<M>(&*old(rt), m) && converts::<N>(&*old(rt), n) && converts::<O>(&*old(rt), o) ==> exists|s: RbSelf, xa: A, xb: B, xc: C, xd: D, xe: E, xf: F, xg: G, xh: H, xi: I, xj: J, xk: K, xl: L, xm: M, xn: N, xo: O, res: Res|
                RbSelf::convert_rel(&*old(rt), rb_self, Ok(s)) && A::convert_rel(&*old(rt), a, Ok(xa)) && B::convert_rel(&*old(rt), b, Ok(xb)) && C::convert_rel(&*old(rt), c, Ok(xc)) && D::convert_rel(&*old(rt), d, Ok(xd)) && E::convert_rel(&*old(rt), e, Ok(xe)) && F::convert_rel(&*old(rt), f, Ok(xf)) && G::convert_rel(&*old(rt), g, Ok(xg)) && H::convert_rel(&*old(rt), h, Ok(xh)) && I::convert_rel(&*old(rt), i, Ok(xi)) && J::convert_rel(&*old(rt), j, Ok(xj)) && K::convert_rel(&*old(rt), k, Ok(xk)) && L::convert_rel(&*old(rt), l, Ok(xl)) && M::convert_rel(&*old(rt), m, Ok(xm)) && N::convert_rel(&*old(rt), n, Ok(xn)) && O::convert_rel(&*old(rt), o, Ok(xo)) && #[trigger] call_ensures(self.spec_func(), (s, xa, xb, xc, xd, xe, xf, xg, xh, xi, xj, xk, xl, xm, xn, xo), res)
                && res.ret_rel(*old(rt), *final(rt), completion_result(done))),
    {
        match self.call_convert_value(rt, rb_self, a, b, c, d, e, f, g, h, i, j, k, l, m, n, o) {
            Ok(v) => Completion::Return(v),
            Err(e) => Completion::Raise(e),
        }
    }
}

/// The adapter for a native callable taking self and 16 arguments.
pub struct Method16<Func, RbSelf, A, B, C, D, E, F, G, H, I, J, K, L, M, N, O, P, Res> {
    func: Func,
    rb_self: PhantomData<RbSelf>,
    a: PhantomData<A>,
    b: PhantomData<B>,
    c: PhantomData<C>,
    d: PhantomData<D>,
    e: PhantomData<E>,
    f: PhantomData<F>,
    g: PhantomData<G>,
    h: PhantomData<H>,
    i: PhantomData<I>,
    j: PhantomData<J>,
    k: PhantomData<K>,
    l: PhantomData<L>,
    m: PhantomData<M>,
    n: PhantomData<N>,
    o: PhantomData<O>,
    p: PhantomData<P>,
    res: PhantomData<Res>,
}

impl<Func, RbSelf, A, B, C, D, E, F, G, H, I, J, K, L, M, N, O, P, Res> Method16<Func, RbSelf, A, B, C, D, E, F, G, H, I, J, K, L, M, N, O, P, Res> where Func: Fn(RbSelf, A, B, C, D, E, F, G, H, I, J, K, L, M, N, O, P) -> Res, RbSelf: TryConvert, A: TryConvert, B: TryConvert, C: TryConvert, D: TryConvert, E: TryConvert, F: TryConvert, G: TryConvert, H: TryConvert, I: TryConvert, J: TryConvert, K: TryConvert, L: TryConvert, M: TryConvert, N: TryConvert, O: TryConvert, P: TryConvert, Res: ReturnValue {
    /// The wrapped host function, for specifications.
    pub closed spec fn spec_func(&self) -> Func {
        self.func
    }

    pub fn new(func: Func) -> (m: Self)
        ensures
            m.spec_func() == func,
    {
        Method16 {
            func,
            rb_self: PhantomData,
            a: PhantomData,
            b: PhantomData,
            c: PhantomData,
            d: PhantomData,
            e: PhantomData,
            f: PhantomData,
            g: PhantomData,
            h: PhantomData,
            i: PhantomData,
            j: PhantomData,
            k: PhantomData,
            l: PhantomData,
            m: PhantomData,
            n: PhantomData,
            o: PhantomData,
            p: PhantomData,
            res: PhantomData,
        }
    }

    /// Convert self and the arguments left to right, stopping at the first
    /// failure without touching the runtime or the host function; on full
    /// success, invoke the host function and convert its result back.
    pub fn call_convert_value(self, rt: &mut Ruby, rb_self: Value, a: Value, b: Value, c: Value, d: Value, e: Value, f: Value, g: Value, h: Value, i: Value, j: Value, k: Value, l: Value, m: Value, n: Value, o: Value, p: Value) -> (r: Result<Value, Error>)
        requires
            old(rt).wf(),
            old(rt).has_room(),
            old(rt).wf_value(rb_self),
            !is_undef_raw(rb_self.spec_raw()),
            old(rt).wf_value(a),
            !is_undef_raw(a.spec_raw()),
            old(rt).wf_value(b),
            !is_undef_raw(b.spec_raw()),
            old(rt).wf_value(c),
            !is_undef_raw(c.spec_raw()),
            old(rt).wf_value(d),
            !is_undef_raw(d.spec_raw()),
            old(rt).wf_value(e),
            !is_undef_raw(e.spec_raw()),
            old(rt).wf_value(f),
            !is_undef_raw(f.spec_raw()),
            old(rt).wf_value(g),
            !is_undef_raw(g.spec_raw()),
            old(rt).wf_value(h),
            !is_undef_raw(h.spec_raw()),
            old(rt).wf_value(i),
            !is_undef_raw(i.spec_raw()),
            old(rt).wf_value(j),
            !is_undef_raw(j.spec_raw()),
            old(rt).wf_value(k),
            !is_undef_raw(k.spec_raw()),
            old(rt).wf_value(l),
            !is_undef_raw(l.spec_raw()),
            old(rt).wf_value(m),
            !is_undef_raw(m.spec_raw()),
            old(rt).wf_value(n),
            !is_undef_raw(n.spec_raw()),
            old(rt).wf_value(o),
            !is_undef_raw(o.spec_raw()),
            old(rt).wf_value(p),
            !is_undef_raw(p.spec_raw()),
            forall|s: RbSelf, xa: A, xb: B, xc: C, xd: D, xe: E, xf: F, xg: G, xh: H, xi: I, xj: J, xk: K, xl: L, xm: M, xn: N, xo: O, xp: P| call_requires(self.spec_func(), (s, xa, xb, xc, xd, xe, xf, xg, xh, xi, xj, xk, xl, xm, xn, xo, xp)),
            forall|s: RbSelf, xa: A, xb: B, xc: C, xd: D, xe: E, xf: F, xg: G, xh: H, xi: I, xj: J, xk: K, xl: L, xm: M, xn: N, xo: O, xp: P, res: Res| #[trigger] call_ensures(self.spec_func(), (s, xa, xb, xc, xd, xe, xf, xg, xh, xi, xj, xk, xl, xm, xn, xo, xp), res) ==> res.ret_wf(&*old(rt)),
        ensures
            final(rt).wf(),
            extends(&*old(rt), &*final(rt)),
            (r matches Ok(v) ==> final(rt).wf_value(v)),
            (!converts::<RbSelf>(&*old(rt), rb_self) ==> *final(rt) == *old(rt) && (r matches Err(err)
                && RbSelf::convert_rel(&*old(rt), rb_self, Err(err)))),
            (converts::<RbSelf>(&*old(rt), rb_self) && !converts::<A>(&*old(rt), a)
                ==> *final(rt) == *old(rt) && (r matches Err(err) && A::convert_rel(
                &*old(rt),
                a,
                Err(err),
            ))),
            (converts::<RbSelf>(&*old(rt), rb_self) && converts::<A>(&*old(rt), a) && !converts::<B>(&*old(rt), b)
                ==> *final(rt) == *old(rt) && (r matches Err(err) && B::convert_rel(
                &*old(rt),
                b,
                Err(err),
            ))),
            (converts::<RbSelf>(&*old(rt), rb_self) && converts::<A>(&*old(rt), a) && converts::<B>(&*old(rt), b) && !converts::<C>(&*old(rt), c)
                ==> *final(rt) == *old(rt) && (r matches Err(err) && C::convert_rel(
                &*old(rt),
                c,
                Err(err),
            ))),
            (converts::<RbSelf>(&*old(rt), rb_self) && converts::<A>(&*old(rt), a) && converts::<B>(&*old(rt), b) && converts::<C>(&*old(rt), c) && !converts::<D>(&*old(rt), d)
                ==> *final(rt) == *old(rt) && (r matches Err(err) && D::convert_rel(
                &*old(rt),
                d,
                Err(err),
            ))),
            (converts::<RbSelf>(&*old(rt), rb_self) && converts::<A>(&*old(rt), a) && converts::<B>(&*old(rt), b) && converts::<C>(&*old(rt), c) && converts::<D>(&*old(rt), d) && !converts::<E>(&*old(rt), e)
                ==> *final(rt) == *old(rt) && (r matches Err(err) && E::convert_rel(
                &*old(rt),
                e,
                Err(err),
            ))),
            (converts::<RbSelf>(&*old(rt), rb_self) && converts::<A>(&*old(rt), a) && converts::<B>(&*old(rt), b) && converts::<C>(&*old(rt), c) && converts::<D>(&*old(rt), d) && converts::<E>(&*old(rt), e) && !converts::<F>(&*old(rt), f)
                ==> *final(rt) == *old(rt) && (r matches Err(err) && F::convert_rel(
                &*old(rt),
                f,
                Err(err),
            ))),
            (converts::<RbSelf>(&*old(rt), rb_self) && converts::<A>(&*old(rt), a) && converts::<B>(&*old(rt), b) && converts::<C>(&*old(rt), c) && converts::<D>(&*old(rt), d) && converts::<E>(&*old(rt), e) && converts::<F>(&*old(rt), f) && !converts::<G>(&*old(rt), g)
                ==> *final(rt) == *old(rt) && (r matches Err(err) && G::convert_rel(
                &*old(rt),
                g,
                Err(err),
            ))),
            (converts::<RbSelf>(&*old(rt), rb_self) && converts::<A>(&*old(rt), a) && converts::<B>(&*old(rt), b) && converts::<C>(&*old(rt), c) && converts::<D>(&*old(rt), d) && converts::<E>(&*old(rt), e) && converts::<F>(&*old(rt), f) && converts::<G>(&*old(rt), g) && !converts::<H>(&*old(rt), h)
                ==> *final(rt) == *old(rt) && (r matches Err(err) && H::convert_rel(
                &*old(rt),
                h,
                Err(err),
            ))),
            (converts::<RbSelf>(&*old(rt), rb_self) && converts::<A>(&*old(rt), a) && converts::<B>(&*old(rt), b) && converts::<C>(&*old(rt), c) && converts::<D>(&*old(rt), d) && converts::<E>(&*old(rt), e) && converts::<F>(&*old(rt), f) && converts::<G>(&*old(rt), g) && converts::<H>(&*old(rt), h) && !converts::<I>(&*old(rt), i)
                ==> *final(rt) == *old(rt) && (r matches Err(err) && I::convert_rel(
                &*old(rt),
                i,
                Err(err),
            ))),
            (converts::<RbSelf>(&*old(rt), rb_self) && converts::<A>(&*old(rt), a) && converts::<B>(&*old(rt), b) && converts::<C>(&*old(rt), c) && converts::<D>(&*old(rt), d) && converts::<E>(&*old(rt), e) && converts::<F>(&*old(rt), f) && converts::<G>(&*old(rt), g) && converts::<H>(&*old(rt), h) && converts::<I>(&*old(rt), i) && !converts::<J>(&*old(rt), j)
                ==> *final(rt) == *old(rt) && (r matches Err(err) && J::convert_rel(
                &*old(rt),
                j,
                Err(err),
            ))),
            (converts::<RbSelf>(&*old(rt), rb_self) && converts::<A>(&*old(rt), a) && converts::<B>(&*old(rt), b) && converts::<C>(&*old(rt), c) && converts::<D>(&*old(rt), d) && converts::<E>(&*old(rt), e) && converts::<F>(&*old(rt), f) && converts::<G>(&*old(rt), g) && converts::<H>(&*old(rt), h) && converts::<I>(&*old(rt), i) && converts::<J>(&*old(rt), j) && !converts::<K>(&*old(rt), k)
                ==> *final(rt) == *old(rt) && (r matches Err(err) && K::convert_rel(
                &*old(rt),
                k,
                Err(err),
            ))),
            (converts::<RbSelf>(&*old(rt), rb_self) && converts::<A>(&*old(rt), a) && converts::<B>(&*old(rt), b) && converts::<C>(&*old(rt), c) && converts::<D>(&*old(rt), d) && converts::<E>(&*old(rt), e) && converts::<F>(&*old(rt), f) && converts::<G>(&*old(rt), g) && converts::<H>(&*old(rt), h) && converts::<I>(&*old(rt), i) && converts::<J>(&*old(rt), j) && converts::<K>(&*old(rt), k) && !converts::<L>(&*old(rt), l)
                ==> *final(rt) == *old(rt) && (r matches Err(err) && L::convert_rel(
                &*old(rt),
                l,
                Err(err),
            ))),
            (converts::<RbSelf>(&*old(rt), rb_self) && converts::<A>(&*old(rt), a) && converts::<B>(&*old(rt), b) && converts::<C>(&*old(rt), c) && converts::<D>(&*old(rt), d) && converts::<E>(&*old(rt), e) && converts::<F>(&*old(rt), f) && converts::<G>(&*old(rt), g) && converts::<H>(&*old(rt), h) && converts::<I>(&*old(rt), i) && converts::<J>(&*old(rt), j) && converts::<K>(&*old(rt), k) && converts::<L>(&*old(rt), l) && !converts::<M>(&*old(rt), m)
                ==> *final(rt) == *old(rt) && (r matches Err(err) && M::convert_rel(
                &*old(rt),
                m,
                Err(err),
            ))),
            (converts::<RbSelf>(&*old(rt), rb_self) && converts::<A>(&*old(rt), a) && converts::<B>(&*old(rt), b) && converts::<C>(&*old(rt), c) && converts::<D>(&*old(rt), d) && converts::<E>(&*old(rt), e) && converts::<F>(&*old(rt), f) && converts::<G>(&*old(rt), g) && converts::<H>(&*old(rt), h) && converts::<I>(&*old(rt), i) && converts::<J>(&*old(rt), j) && converts::<K>(&*old(rt), k) && converts::<L>(&*old(rt), l) && converts::<M>(&*old(rt), m) && !converts::<N>(&*old(rt), n)
                ==> *final(rt) == *old(rt) && (r matches Err(err) && N::convert_rel(
                &*old(rt),
                n,
                Err(err),
            ))),
            (converts::<RbSelf>(&*old(rt), rb_self) && converts::<A>(&*old(rt), a) && converts::<B>(&*old(rt), b) && converts::<C>(&*old(rt), c) && converts::<D>(&*old(rt), d) && converts::<E>(&*old(rt), e) && converts::<F>(&*old(rt), f) && converts::<G>(&*old(rt), g) && converts::<H>(&*old(rt), h) && converts::<I>(&*old(rt), i) && converts::<J>(&*old(rt), j) && converts::<K>(&*old(rt), k) && converts::<L>(&*old(rt), l) && converts::<M>(&*old(rt), m) && converts::<N>(&*old(rt), n) && !converts::<O>(&*old(rt), o)
                ==> *final(rt) == *old(rt) && (r matches Err(err) && O::convert_rel(
                &*old(rt),
                o,
                Err(err),
            ))),
            (converts::<RbSelf>(&*old(rt), rb_self) && converts::<A>(&*old(rt), a) && converts::<B>(&*old(rt), b) && converts::<C>(&*old(rt), c) && converts::<D>(&*old(rt), d) && converts::<E>(&*old(rt), e) && converts::<F>(&*old(rt), f) && converts::<G>(&*old(rt), g) && converts::<H>(&*old(rt), h) && converts::<I>(&*old(rt), i) && converts::<J>(&*old(rt), j) && converts::<K>(&*old(rt), k) && converts::<L>(&*old(rt), l) && converts::<M>(&*old(rt), m) && converts::<N>(&*old(rt), n) && converts::<O>(&*old(rt), o) && !converts::<P>(&*old(rt), p)
                ==> *final(rt) == *old(rt) && (r matches Err(err) && P::convert_rel(
                &*old(rt),
                p,
                Err(err),
            ))),
            (converts::<RbSelf>(&*old(rt), rb_self) && converts::<A>(&*old(rt), a) && converts::<B>(&*old(rt), b) && converts::<C>(&*old(rt), c) && converts::<D>(&*old(rt), d) && converts::<E>(&*old(rt), e) && converts::<F>(&*old(rt), f) && converts::<G>(&*old(rt), g) && converts::<H>(&*old(rt), h) && converts::<I>(&*old(rt), i) && converts::<J>(&*old(rt), j) && converts::<K>(&*old(rt), k) && converts::<L>(&*old(rt), l) && converts::<M>(&*old(rt), m) && converts::<N>(&*old(rt), n) && converts::<O>(&*old(rt), o) && converts::<P>(&*old(rt), p) ==> exists|s: RbSelf, xa: A, xb: B, xc: C, xd: D, xe: E, xf: F, xg: G, xh: H, xi: I, xj: J, xk: K, xl: L, xm: M, xn: N, xo: O, xp: P, res: Res|
                RbSelf::convert_rel(&*old(rt), rb_self, Ok(s)) && A::convert_rel(&*old(rt), a, Ok(xa)) && B::convert_rel(&*old(rt), b, Ok(xb)) && C::convert_rel(&*old(rt), c, Ok(xc)) && D::convert_rel(&*old(rt), d, Ok(xd)) && E::convert_rel(&*old(rt), e, Ok(xe)) && F::convert_rel(&*old(rt), f, Ok(xf)) && G::convert_rel(&*old(rt), g, Ok(xg)) && H::convert_rel(&*old(rt), h, Ok(xh)) && I::convert_rel(&*old(rt), i, Ok(xi)) && J::convert_rel(&*old(rt), j, Ok(xj)) && K::convert_rel(&*old(rt), k, Ok(xk)) && L::convert_rel(&*old(rt), l, Ok(xl)) && M::convert_rel(&*old(rt), m, Ok(xm)) && N::convert_rel(&*old(rt), n, Ok(xn)) && O::convert_rel(&*old(rt), o, Ok(xo)) && P::convert_rel(&*old(rt), p, Ok(xp)) && #[trigger] call_ensures(self.spec_func(), (s, xa, xb, xc, xd, xe, xf, xg, xh, xi, xj, xk, xl, xm, xn, xo, xp), res)
                && res.ret_rel(*old(rt), *final(rt), r)),
    {
        let s: RbSelf = match RbSelf::try_convert(&*rt, rb_self) {
            Ok(s) => s,
            Err(err) => {
                proof {
                    assert forall|x: RbSelf| !RbSelf::convert_rel(
                        &*old(rt),
                        rb_self,
                        Ok(x),
                    ) by {
                        RbSelf::lemma_convert_exclusive(&*old(rt), rb_self, x, err);
                    }
                    assert(rt.heap@.subrange(0, old(rt).heap@.len() as int) =~= old(rt).heap@);
                }
                return Err(err);
            },
        };
        let xa: A = match A::try_convert(&*rt, a) {
            Ok(x) => x,
            Err(err) => {
                proof {
                    assert forall|x: A| !A::convert_rel(&*old(rt), a, Ok(x)) by {
                        A::lemma_convert_exclusive(&*old(rt), a, x, err);
                    }
                    assert(rt.heap@.subrange(0, old(rt).heap@.len() as int) =~= old(rt).heap@);
                }
                return Err(err);
            },
        };
        let xb: B = match B::try_convert(&*rt, b) {
            Ok(x) => x,
            Err(err) => {
                proof {
                    assert forall|x: B| !B::convert_rel(&*old(rt), b, Ok(x)) by {
                        B::lemma_convert_exclusive(&*old(rt), b, x, err);
                    }
                    assert(rt.heap@.subrange(0, old(rt).heap@.len() as int) =~= old(rt).heap@);
                }
                return Err(err);
            },
        };
        let xc: C = match C::try_convert(&*rt, c) {
            Ok(x) => x,
            Err(err) => {
                proof {
                    assert forall|x: C| !C::convert_rel(&*old(rt), c, Ok(x)) by {
                        C::lemma_convert_exclusive(&*old(rt), c, x, err);
                    }
                    assert(rt.heap@.subrange(0, old(rt).heap@.len() as int) =~= old(rt).heap@);
                }
                return Err(err);
            },
        };
        let xd: D = match D::try_convert(&*rt, d) {
            Ok(x) => x,
            Err(err) => {
                proof {
                    assert forall|x: D| !D::convert_rel(&*old(rt), d, Ok(x)) by {
                        D::lemma_convert_exclusive(&*old(rt), d, x, err);
                    }
                    assert(rt.heap@.subrange(0, old(rt).heap@.len() as int) =~= old(rt).heap@);
                }
                return Err(err);
            },
        };
        let xe: E = match E::try_convert(&*rt, e) {
            Ok(x) => x,
            Err(err) => {
                proof {
                    assert forall|x: E| !E::convert_rel(&*old(rt), e, Ok(x)) by {
                        E::lemma_convert_exclusive(&*old(rt), e, x, err);
                    }
                    assert(rt.heap@.subrange(0, old(rt).heap@.len() as int) =~= old(rt).heap@);
                }
                return Err(err);
            },
        };
        let xf: F = match F::try_convert(&*rt, f) {
            Ok(x) => x,
            Err(err) => {
                proof {
                    assert forall|x: F| !F::convert_rel(&*old(rt), f, Ok(x)) by {
                        F::lemma_convert_exclusive(&*old(rt), f, x, err);
                    }
                    assert(rt.heap@.subrange(0, old(rt).heap@.len() as int) =~= old(rt).heap@);
                }
                return Err(err);
            },
        };
        let xg: G = match G::try_convert(&*rt, g) {
            Ok(x) => x,
            Err(err) => {
                proof {
                    assert forall|x: G| !G::convert_rel(&*old(rt), g, Ok(x)) by {
                        G::lemma_convert_exclusive(&*old(rt), g, x, err);
                    }
                    assert(rt.heap@.subrange(0, old(rt).heap@.len() as int) =~= old(rt).heap@);
                }
                return Err(err);
            },
        };
        let xh: H = match H::try_convert(&*rt, h) {
            Ok(x) => x,
            Err(err) => {
                proof {
                    assert forall|x: H| !H::convert_rel(&*old(rt), h, Ok(x)) by {
                        H::lemma_convert_exclusive(&*old(rt), h, x, err);
                    }
                    assert(rt.heap@.subrange(0, old(rt).heap@.len() as int) =~= old(rt).heap@);
                }
                return Err(err);
            },
        };
        let xi: I = match I::try_convert(&*rt, i) {
            Ok(x) => x,
            Err(err) => {
                proof {
                    assert forall|x: I| !I::convert_rel(&*old(rt), i, Ok(x)) by {
                        I::lemma_convert_exclusive(&*old(rt), i, x, err);
                    }
                    assert(rt.heap@.subrange(0, old(rt).heap@.len() as int) =~= old(rt).heap@);
                }
                return Err(err);
            },
        };
        let xj: J = match J::try_convert(&*rt, j) {
            Ok(x) => x,
            Err(err) => {
                proof {
                    assert forall|x: J| !J::convert_rel(&*old(rt), j, Ok(x)) by {
                        J::lemma_convert_exclusive(&*old(rt), j, x, err);
                    }
                    assert(rt.heap@.subrange(0, old(rt).heap@.len() as int) =~= old(rt).heap@);
                }
                return Err(err);
            },
        };
        let xk: K = match K::try_convert(&*rt, k) {
            Ok(x) => x,
            Err(err) => {
                proof {
                    assert forall|x: K| !K::convert_rel(&*old(rt), k, Ok(x)) by {
                        K::lemma_convert_exclusive(&*old(rt), k, x, err);
                    }
                    assert(rt.heap@.subrange(0, old(rt).heap@.len() as int) =~= old(rt).heap@);
                }
                return Err(err);
            },
        };
        let xl: L = match L::try_convert(&*rt, l) {
            Ok(x) => x,
            Err(err) => {
                proof {
                    assert forall|x: L| !L::convert_rel(&*old(rt), l, Ok(x)) by {
                        L::lemma_convert_exclusive(&*old(rt), l, x, err);
                    }
                    assert(rt.heap@.subrange(0, old(rt).heap@.len() as int) =~= old(rt).heap@);
                }
                return Err(err);
            },
        };
        let xm: M = match M::try_convert(&*rt, m) {
            Ok(x) => x,
            Err(err) => {
                proof {
                    assert forall|x: M| !M::convert_rel(&*old(rt), m, Ok(x)) by {
                        M::lemma_convert_exclusive(&*old(rt), m, x, err);
                    }
                    assert(rt.heap@.subrange(0, old(rt).heap@.len() as int) =~= old(rt).heap@);
                }
                return Err(err);
            },
        };
        let xn: N = match N::try_convert(&*rt, n) {
            Ok(x) => x,
            Err(err) => {
                proof {
                    assert forall|x: N| !N::convert_rel(&*old(rt), n, Ok(x)) by {
                        N::lemma_convert_exclusive(&*old(rt), n, x, err);
                    }
                    assert(rt.heap@.subrange(0, old(rt).heap@.len() as int) =~= old(rt).heap@);
                }
                return Err(err);
            },
        };
        let xo: O = match O::try_convert(&*rt, o) {
            Ok(x) => x,
            Err(err) => {
                proof {
                    assert forall|x: O| !O::convert_rel(&*old(rt), o, Ok(x)) by {
                        O::lemma_convert_exclusive(&*old(rt), o, x, err);
                    }
                    assert(rt.heap@.subrange(0, old(rt).heap@.len() as int) =~= old(rt).heap@);
                }
                return Err(err);
            },
        };
        let xp: P = match P::try_convert(&*rt, p) {
            Ok(x) => x,
            Err(err) => {
                proof {
                    assert forall|x: P| !P::convert_rel(&*old(rt), p, Ok(x)) by {
                        P::lemma_convert_exclusive(&*old(rt), p, x, err);
                    }
                    assert(rt.heap@.subrange(0, old(rt).heap@.len() as int) =~= old(rt).heap@);
                }
                return Err(err);
            },
        };
        proof {
            assert(call_requires(self.spec_func(), (s, xa, xb, xc, xd, xe, xf, xg, xh, xi, xj, xk, xl, xm, xn, xo, xp)));
        }
        let res: Res = (self.func)(s, xa, xb, xc, xd, xe, xf, xg, xh, xi, xj, xk, xl, xm, xn, xo, xp);
        proof {
            assert(call_ensures(self.spec_func(), (s, xa, xb, xc, xd, xe, xf, xg, xh, xi, xj, xk, xl, xm, xn, xo, xp), res));
        }
        res.into_return_value(rt)
    }

    /// As `call_convert_value`, but decide what crosses back to the runtime:
    /// the value, or a raise carrying the error.
    pub fn call_handle_error(self, rt: &mut Ruby, rb_self: Value, a: Value, b: Value, c: Value, d: Value, e: Value, f: Value, g: Value, h: Value, i: Value, j: Value, k: Value, l: Value, m: Value, n: Value, o: Value, p: Value) -> (done: Completion)
        requires
            old(rt).wf(),
            old(rt).has_room(),
            old(rt).wf_value(rb_self),
            !is_undef_raw(rb_self.spec_raw()),
            old(rt).wf_value(a),
            !is_undef_raw(a.spec_raw()),
            old(rt).wf_value(b),
            !is_undef_raw(b.spec_raw()),
            old(rt).wf_value(c),
            !is_undef_raw(c.spec_raw()),
            old(rt).wf_value(d),
            !is_undef_raw(d.spec_raw()),
            old(rt).wf_value(e),
            !is_undef_raw(e.spec_raw()),
            old(rt).wf_value(f),
            !is_undef_raw(f.spec_raw()),
            old(rt).wf_value(g),
            !is_undef_raw(g.spec_raw()),
            old(rt).wf_value(h),
            !is_undef_raw(h.spec_raw()),
            old(rt).wf_value(i),
            !is_undef_raw(i.spec_raw()),
            old(rt).wf_value(j),
            !is_undef_raw(j.spec_raw()),
            old(rt).wf_value(k),
            !is_undef_raw(k.spec_raw()),
            old(rt).wf_value(l),
            !is_undef_raw(l.spec_raw()),
            old(rt).wf_value(m),
            !is_undef_raw(m.spec_raw()),
            old(rt).wf_value(n),
            !is_undef_raw(n.spec_raw()),
            old(rt).wf_value(o),
            !is_undef_raw(o.spec_raw()),
            old(rt).wf_value(p),
            !is_undef_raw(p.spec_raw()),
            forall|s: RbSelf, xa: A, xb: B, xc: C, xd: D, xe: E, xf: F, xg: G, xh: H, xi: I, xj: J, xk: K, xl: L, xm: M, xn: N, xo: O, xp: P| call_requires(self.spec_func(), (s, xa, xb, xc, xd, xe, xf, xg, xh, xi, xj, xk, xl, xm, xn, xo, xp)),
            forall|s: RbSelf, xa: A, xb: B, xc: C, xd: D, xe: E, xf: F, xg: G, xh: H, xi: I, xj: J, xk: K, xl: L, xm: M, xn: N, xo: O, xp: P, res: Res| #[trigger] call_ensures(self.spec_func(), (s, xa, xb, xc, xd, xe, xf, xg, xh, xi, xj, xk, xl, xm, xn, xo, xp), res) ==> res.ret_wf(&*old(rt)),
        ensures
            final(rt).wf(),
            extends(&*old(rt), &*final(rt)),
            (done matches Completion::Return(v) ==> final(rt).wf_value(v)),
            (!converts::<RbSelf>(&*old(rt), rb_self) ==> *final(rt) == *old(rt) && (done matches Completion::Raise(
                e,
            ) && RbSelf::convert_rel(&*old(rt), rb_self, Err(e)))),
            (converts::<RbSelf>(&*old(rt), rb_self) && !converts::<A>(&*old(rt), a)
                ==> *final(rt) == *old(rt) && (done matches Completion::Raise(err) && A::convert_rel(
                &*old(rt),
                a,
                Err(err),
            ))),
            (converts::<RbSelf>(&*old(rt), rb_self) && converts::<A>(&*old(rt), a) && !converts::<B>(&*old(rt), b)
                ==> *final(rt) == *old(rt) && (done matches Completion::Raise(err) && B::convert_rel(
                &*old(rt),
                b,
                Err(err),
            ))),
            (converts::<RbSelf>(&*old(rt), rb_self) && converts::<A>(&*old(rt), a) && converts::<B>(&*old(rt), b) && !converts::<C>(&*old(rt), c)
                ==> *final(rt) == *old(rt) && (done matches Completion::Raise(err) && C::convert_rel(
                &*old(rt),
                c,
                Err(err),
            ))),
            (converts::<RbSelf>(&*old(rt), rb_self) && converts::<A>(&*old(rt), a) && converts::<B>(&*old(rt), b) && converts::<C>(&*old(rt), c) && !converts::<D>(&*old(rt), d)
                ==> *final(rt) == *old(rt) && (done matches Completion::Raise(err) && D::convert_rel(
                &*old(rt),
                d,
                Err(err),
            ))),
            (converts::<RbSelf>(&*old(rt), rb_self) && converts::<A>(&*old(rt), a) && converts::<B>(&*old(rt), b) && converts::<C>(&*old(rt), c) && converts::<D>(&*old(rt), d) && !converts::<E>(&*old(rt), e)
                ==> *final(rt) == *old(rt) && (done matches Completion::Raise(err) && E::convert_rel(
                &*old(rt),
                e,
                Err(err),
            ))),
            (converts::<RbSelf>(&*old(rt), rb_self) && converts::<A>(&*old(rt), a) && converts::<B>(&*old(rt), b) && converts::<C>(&*old(rt), c) && converts::<D>(&*old(rt), d) && converts::<E>(&*old(rt), e) && !converts::<F>(&*old(rt), f)
                ==> *final(rt) == *old(rt) && (done matches Completion::Raise(err) && F::convert_rel(
                &*old(rt),
                f,
                Err(err),
            ))),
            (converts::<RbSelf>(&*old(rt), rb_self) && converts::<A>(&*old(rt), a) && converts::<B>(&*old(rt), b) && converts::<C>(&*old(rt), c) && converts::<D>(&*old(rt), d) && converts::<E>(&*old(rt), e) && converts::<F>(&*old(rt), f) && !converts::<G>(&*old(rt), g)
                ==> *final(rt) == *old(rt) && (done matches Completion::Raise(err) && G::convert_rel(
                &*old(rt),
                g,
                Err(err),
            ))),
            (converts::<RbSelf>(&*old(rt), rb_self) && converts::<A>(&*old(rt), a) && converts::<B>(&*old(rt), b) && converts::<C>(&*old(rt), c) && converts::<D>(&*old(rt), d) && converts::<E>(&*old(rt), e) && converts::<F>(&*old(rt), f) && converts::<G>(&*old(rt), g) && !converts::<H>(&*old(rt), h)
                ==> *final(rt) == *old(rt) && (done matches Completion::Raise(err) && H::convert_rel(
                &*old(rt),
                h,
                Err(err),
            ))),
            (converts::<RbSelf>(&*old(rt), rb_self) && converts::<A>(&*old(rt), a) && converts::<B>(&*old(rt), b) && converts::<C>(&*old(rt), c) && converts::<D>(&*old(rt), d) && converts::<E>(&*old(rt), e) && converts::<F>(&*old(rt), f) && converts::<G>(&*old(rt), g) && converts::<H>(&*old(rt), h) && !converts::<I>(&*old(rt), i)
                ==> *final(rt) == *old(rt) && (done matches Completion::Raise(err) && I::convert_rel(
                &*old(rt),
                i,
                Err(err),
            ))),
            (converts::<RbSelf>(&*old(rt), rb_self) && converts::<A>(&*old(rt), a) && converts::<B>(&*old(rt), b) && converts::<C>(&*old(rt), c) && converts::<D>(&*old(rt), d) && converts::<E>(&*old(rt), e) && converts::<F>(&*old(rt), f) && converts::<G>(&*old(rt), g) && converts::<H>(&*old(rt), h) && converts::<I>(&*old(rt), i) && !converts::<J>(&*old(rt), j)
                ==> *final(rt) == *old(rt) && (done matches Completion::Raise(err) && J::convert_rel(
                &*old(rt),
                j,
                Err(err),
            ))),
            (converts::<RbSelf>(&*old(rt), rb_self) && converts::<A>(&*old(rt), a) && converts::<B>(&*old(rt), b) && converts::<C>(&*old(rt), c) && converts::<D>(&*old(rt), d) && converts::<E>(&*old(rt), e) && converts::<F>(&*old(rt), f) && converts::<G>(&*old(rt), g) && converts::<H>(&*old(rt), h) && converts::<I>(&*old(rt), i) && converts::<J>(&*old(rt), j) && !converts::<K>(&*old(rt), k)
                ==> *final(rt) == *old(rt) && (done matches Completion::Raise(err) && K::convert_rel(
                &*old(rt),
                k,
                Err(err),
            ))),
            (converts::<RbSelf>(&*old(rt), rb_self) && converts::<A>(&*old(rt), a) && converts::<B>(&*old(rt), b) && converts::<C>(&*old(rt), c) && converts::<D>(&*old(rt), d) && converts::<E>(&*old(rt), e) && converts::<F>(&*old(rt), f) && converts::<G>(&*old(rt), g) && converts::<H>(&*old(rt), h) && converts::<I>(&*old(rt), i) && converts::<J>(&*old(rt), j) && converts::<K>(&*old(rt), k) && !converts::<L>(&*old(rt), l)
                ==> *final(rt) == *old(rt) && (done matches Completion::Raise(err) && L::convert_rel(
                &*old(rt),
                l,
                Err(err),
            ))),
            (converts::<RbSelf>(&*old(rt), rb_self) && converts::<A>(&*old(rt), a) && converts::<B>(&*old(rt), b) && converts::<C>(&*old(rt), c) && converts::<D>(&*old(rt), d) && converts::<E>(&*old(rt), e) && converts::<F>(&*old(rt), f) && converts::<G>(&*old(rt), g) && converts::<H>(&*old(rt), h) && converts::<I>(&*old(rt), i) && converts::<J>(&*old(rt), j) && converts::<K>(&*old(rt), k) && converts::<L>(&*old(rt), l) && !converts::<M>(&*old(rt), m)
                ==> *final(rt) == *old(rt) && (done matches Completion::Raise(err) && M::convert_rel(
                &*old(rt),
                m,
                Err(err),
            ))),
            (converts::<RbSelf>(&*old(rt), rb_self) && converts::<A>(&*old(rt), a) && converts::<B>(&*old(rt), b) && converts::<C>(&*old(rt), c) && converts::<D>(&*old(rt), d) && converts::<E>(&*old(rt), e) && converts::<F>(&*old(rt), f) && converts::<G>(&*old(rt), g) && converts::<H>(&*old(rt), h) && converts::<I>(&*old(rt), i) && converts::<J>(&*old(rt), j) && converts::<K>(&*old(rt), k) && converts::<L>(&*old(rt), l) && converts::<M>(&*old(rt), m) && !converts::<N>(&*old(rt), n)
                ==> *final(rt) == *old(rt) && (done matches Completion::Raise(err) && N::convert_rel(
                &*old(rt),
                n,
                Err(err),
            ))),
            (converts::<RbSelf>(&*old(rt), rb_self) && converts::<A>(&*old(rt), a) && converts::<B>(&*old(rt), b) && converts::<C>(&*old(rt), c) && converts::<D>(&*old(rt), d) && converts::<E>(&*old(rt), e) && converts::<F>(&*old(rt), f) && converts::<G>(&*old(rt), g) && converts::<H>(&*old(rt), h) && converts::<I>(&*old(rt), i) && converts::<J>(&*old(rt), j) && converts::<K>(&*old(rt), k) && converts::<L>(&*old(rt), l) && converts::<M>(&*old(rt), m) && converts::<N>(&*old(rt), n) && !converts::<O>(&*old(rt), o)
                ==> *final(rt) == *old(rt) && (done matches Completion::Raise(err) && O::convert_rel(
                &*old(rt),
                o,
                Err(err),
            ))),
            (converts::<RbSelf>(&*old(rt), rb_self) && converts::<A>(&*old(rt), a) && converts::<B>(&*old(rt), b) && converts::<C>(&*old(rt), c) && converts::<D>(&*old(rt), d) && converts::<E>(&*old(rt), e) && converts::<F>(&*old(rt), f) && converts::<G>(&*old(rt), g) && converts::<H>(&*old(rt), h) && converts::<I>(&*old(rt), i) && converts::<J>(&*old(rt), j) && converts::<K>(&*old(rt), k) && converts::<L>(&*old(rt), l) && converts::<M>(&*old(rt), m) && converts::<N>(&*old(rt), n) && converts::<O>(&*old(rt), o) && !converts::<P>(&*old(rt), p)
                ==> *final(rt) == *old(rt) && (done matches Completion::Raise(err) && P::convert_rel(
                &*old(rt),
                p,
                Err(err),
            ))),
            (converts::<RbSelf>(&*old(rt), rb_self) && converts::<A>(&*old(rt), a) && converts::<B>(&*old(rt), b) && converts::<C>(&*old(rt), c) && converts::<D>(&*old(rt), d) && converts::<E>(&*old(rt), e) && converts::<F>(&*old(rt), f) && converts::<G>(&*old(rt), g) && converts::<H>(&*old(rt), h) && converts::<I>(&*old(rt), i) && converts::<J>(&*old(rt), j) && converts::<K>(&*old(rt), k) && converts::<L>(&*old(rt), l) && converts::<M>(&*old(rt), m) && converts::<N>(&*old(rt), n) && converts::<O>(&*old(rt), o) && converts::<P>(&*old(rt), p) ==> exists|s: RbSelf, xa: A, xb: B, xc: C, xd: D, xe: E, xf: F, xg: G, xh: H, xi: I, xj: J, xk: K, xl: L, xm: M, xn: N, xo: O, xp: P, res: Res|
                RbSelf::convert_rel(&*old(rt), rb_self, Ok(s)) && A::convert_rel(&*old(rt), a, Ok(xa)) && B::convert_rel(&*old(rt), b, Ok(xb)) && C::convert_rel(&*old(rt), c, Ok(xc)) && D::convert_rel(&*old(rt), d, Ok(xd)) && E::convert_rel(&*old(rt), e, Ok(xe)) && F::convert_rel(&*old(rt), f, Ok(xf)) && G::convert_rel(&*old(rt), g, Ok(xg)) && H::convert_rel(&*old(rt), h, Ok(xh)) && I::convert_rel(&*old(rt), i, Ok(xi)) && J::convert_rel(&*old(rt), j, Ok(xj)) && K::convert_rel(&*old(rt), k, Ok(xk)) && L::convert_rel(&*old(rt), l, Ok(xl)) && M::convert_rel(&*old(rt), m, Ok(xm)) && N::convert_rel(&*old(rt), n, Ok(xn)) && O::convert_rel(&*old(rt), o, Ok(xo)) && P::convert_rel(&*old(rt), p, Ok(xp)) && #[trigger] call_ensures(self.spec_func(), (s, xa, xb, xc, xd, xe, xf, xg, xh, xi, xj, xk, xl, xm, xn, xo, xp), res)
                && res.ret_rel(*old(rt), *final(rt), completion_result(done))),
    {
        match self.call_convert_value(rt, rb_self, a, b, c, d, e, f, g, h, i, j, k, l, m, n, o, p) {
            Ok(v) => Completion::Return(v),
            Err(e) => Completion::Raise(e),
        }
    }
}

/// The adapter for a native callable that receives its arguments as one
/// array value, converted as a whole.
pub struct MethodRbAry<Func, RbSelf, Args, Res> {
    func: Func,
    rb_self: PhantomData<RbSelf>,
    args: PhantomData<Args>,
    res: PhantomData<Res>,
}

impl<Func, RbSelf, Args, Res> MethodRbAry<Func, RbSelf, Args, Res> where
    Func: Fn(RbSelf, Args) -> Res,
    RbSelf: TryConvert,
    Args: TryConvert,
    Res: ReturnValue,
 {
    /// The wrapped host function, for specifications.
    pub closed spec fn spec_func(&self) -> Func {
        self.func
    }

    pub fn new(func: Func) -> (m: Self)
        ensures
            m.spec_func() == func,
    {
        MethodRbAry { func, rb_self: PhantomData, args: PhantomData, res: PhantomData }
    }

    /// Convert self, then the argument array as a whole, stopping at the
    /// first failure without touching the runtime or the host function.
    pub fn call_convert_value(self, rt: &mut Ruby, rb_self: Value, args: Value) -> (r: Result<
        Value,
        Error,
    >)
        requires
            old(rt).wf(),
            old(rt).has_room(),
            old(rt).wf_value(rb_self),
            !is_undef_raw(rb_self.spec_raw()),
            old(rt).wf_value(args),
            !is_undef_raw(args.spec_raw()),
            forall|s: RbSelf, a: Args| call_requires(self.spec_func(), (s, a)),
            forall|s: RbSelf, a: Args, res: Res| #[trigger]
                call_ensures(self.spec_func(), (s, a), res) ==> res.ret_wf(&*old(rt)),
        ensures
            final(rt).wf(),
            extends(&*old(rt), &*final(rt)),
            (r matches Ok(v) ==> final(rt).wf_value(v)),
            (!converts::<RbSelf>(&*old(rt), rb_self) ==> *final(rt) == *old(rt) && (r matches Err(
                err,
            ) && RbSelf::convert_rel(&*old(rt), rb_self, Err(err)))),
            (converts::<RbSelf>(&*old(rt), rb_self) && !converts::<Args>(&*old(rt), args)
                ==> *final(rt) == *old(rt) && (r matches Err(err) && Args::convert_rel(
                &*old(rt),
                args,
                Err(err),
            ))),
            (converts::<RbSelf>(&*old(rt), rb_self) && converts::<Args>(&*old(rt), args)
                ==> exists|s: RbSelf, a: Args, res: Res|
                RbSelf::convert_rel(&*old(rt), rb_self, Ok(s)) && Args::convert_rel(
                    &*old(rt),
                    args,
                    Ok(a),
                ) && #[trigger] call_ensures(self.spec_func(), (s, a), res)
                && res.ret_rel(*old(rt), *final(rt), r)),
    {
        let s: RbSelf = match RbSelf::try_convert(&*rt, rb_self) {
            Ok(s) => s,
            Err(err) => {
                proof {
                    assert forall|x: RbSelf| !RbSelf::convert_rel(
                        &*old(rt),
                        rb_self,
                        Ok(x),
                    ) by {
                        RbSelf::lemma_convert_exclusive(&*old(rt), rb_self, x, err);
                    }
                    assert(rt.heap@.subrange(0, old(rt).heap@.len() as int) =~= old(rt).heap@);
                }
                return Err(err);
            },
        };
        let a: Args = match Args::try_convert(&*rt, args) {
            Ok(a) => a,
            Err(err) => {
                proof {
                    assert forall|x: Args| !Args::convert_rel(&*old(rt), args, Ok(x)) by {
                        Args::lemma_convert_exclusive(&*old(rt), args, x, err);
                    }
                    assert(rt.heap@.subrange(0, old(rt).heap@.len() as int) =~= old(rt).heap@);
                }
                return Err(err);
            },
        };
        proof {
            assert(call_requires(self.spec_func(), (s, a)));
        }
        let res: Res = (self.func)(s, a);
        proof {
            assert(call_ensures(self.spec_func(), (s, a), res));
        }
        res.into_return_value(rt)
    }

    /// As `call_convert_value`, but decide what crosses back to the runtime.
    pub fn call_handle_error(self, rt: &mut Ruby, rb_self: Value, args: Value) -> (done:
        Completion)
        requires
            old(rt).wf(),
            old(rt).has_room(),
            old(rt).wf_value(rb_self),
            !is_undef_raw(rb_self.spec_raw()),
            old(rt).wf_value(args),
            !is_undef_raw(args.spec_raw()),
            forall|s: RbSelf, a: Args| call_requires(self.spec_func(), (s, a)),
            forall|s: RbSelf, a: Args, res: Res| #[trigger]
                call_ensures(self.spec_func(), (s, a), res) ==> res.ret_wf(&*old(rt)),
        ensures
            final(rt).wf(),
            extends(&*old(rt), &*final(rt)),
            (done matches Completion::Return(v) ==> final(rt).wf_value(v)),
            (!converts::<RbSelf>(&*old(rt), rb_self) ==> *final(rt) == *old(rt) && (done
                matches Completion::Raise(err) && RbSelf::convert_rel(
                &*old(rt),
                rb_self,
                Err(err),
            ))),
            (converts::<RbSelf>(&*old(rt), rb_self) && !converts::<Args>(&*old(rt), args)
                ==> *final(rt) == *old(rt) && (done matches Completion::Raise(err)
                && Args::convert_rel(&*old(rt), args, Err(err)))),
            (converts::<RbSelf>(&*old(rt), rb_self) && converts::<Args>(&*old(rt), args)
                ==> exists|s: RbSelf, a: Args, res: Res|
                RbSelf::convert_rel(&*old(rt), rb_self, Ok(s)) && Args::convert_rel(
                    &*old(rt),
                    args,
                    Ok(a),
                ) && #[trigger] call_ensures(self.spec_func(), (s, a), res)
                && res.ret_rel(*old(rt), *final(rt), completion_result(done))),
    {
        match self.call_convert_value(rt, rb_self, args) {
            Ok(v) => Completion::Return(v),
            Err(e) => Completion::Raise(e),
        }
    }
}

/// The adapter for a native callable that receives its arguments as a raw
/// slice of tagged values, uncounted and unconverted: only self goes through
/// the conversion protocol.
pub struct MethodCAry<Func, RbSelf, Res> {
    func: Func,
    rb_self: PhantomData<RbSelf>,
    res: PhantomData<Res>,
}

impl<Func, RbSelf, Res> MethodCAry<Func, RbSelf, Res> where
    Func: Fn(RbSelf, Vec<Value>) -> Res,
    RbSelf: TryConvert,
    Res: ReturnValue,
 {
    /// The wrapped host function, for specifications.
    pub closed spec fn spec_func(&self) -> Func {
        self.func
    }

    pub fn new(func: Func) -> (m: Self)
        ensures
            m.spec_func() == func,
    {
        MethodCAry { func, rb_self: PhantomData, res: PhantomData }
    }

    /// Convert self; a failure returns its error without touching the runtime
    /// or the host function, which otherwise receives the argument values as
    /// they came.
    pub fn call_convert_value(self, rt: &mut Ruby, rb_self: Value, args: Vec<Value>) -> (r: Result<
        Value,
        Error,
    >)
        requires
            old(rt).wf(),
            old(rt).has_room(),
            old(rt).wf_value(rb_self),
            !is_undef_raw(rb_self.spec_raw()),
            forall|s: RbSelf, a: Vec<Value>| call_requires(self.spec_func(), (s, a)),
            forall|s: RbSelf, a: Vec<Value>, res: Res| #[trigger]
                call_ensures(self.spec_func(), (s, a), res) ==> res.ret_wf(&*old(rt)),
        ensures
            final(rt).wf(),
            extends(&*old(rt), &*final(rt)),
            (r matches Ok(v) ==> final(rt).wf_value(v)),
            (!converts::<RbSelf>(&*old(rt), rb_self) ==> *final(rt) == *old(rt) && (r matches Err(
                err,
            ) && RbSelf::convert_rel(&*old(rt), rb_self, Err(err)))),
            (converts::<RbSelf>(&*old(rt), rb_self) ==> exists|s: RbSelf, res: Res|
                RbSelf::convert_rel(&*old(rt), rb_self, Ok(s)) && #[trigger] call_ensures(
                    self.spec_func(),
                    (s, args),
                    res,
                ) && res.ret_rel(*old(rt), *final(rt), r)),
    {
        let s: RbSelf = match RbSelf::try_convert(&*rt, rb_self) {
            Ok(s) => s,
            Err(err) => {
                proof {
                    assert forall|x: RbSelf| !RbSelf::convert_rel(
                        &*old(rt),
                        rb_self,
                        Ok(x),
                    ) by {
                        RbSelf::lemma_convert_exclusive(&*old(rt), rb_self, x, err);
                    }
                    assert(rt.heap@.subrange(0, old(rt).heap@.len() as int) =~= old(rt).heap@);
                }
                return Err(err);
            },
        };
        proof {
            assert(call_requires(self.spec_func(), (s, args)));
        }
        let res: Res = (self.func)(s, args);
        proof {
            assert(call_ensures(self.spec_func(), (s, args), res));
        }
        res.into_return_value(rt)
    }

    /// As `call_convert_value`, but decide what crosses back to the runtime.
    pub fn call_handle_error(self, rt: &mut Ruby, rb_self: Value, args: Vec<Value>) -> (done:
        Completion)
        requires
            old(rt).wf(),
            old(rt).has_room(),
            old(rt).wf_value(rb_self),
            !is_undef_raw(rb_self.spec_raw()),
            forall|s: RbSelf, a: Vec<Value>| call_requires(self.spec_func(), (s, a)),
            forall|s: RbSelf, a: Vec<Value>, res: Res| #[trigger]
                call_ensures(self.spec_func(), (s, a), res) ==> res.ret_wf(&*old(rt)),
        ensures
            final(rt).wf(),
            extends(&*old(rt), &*final(rt)),
            (done matches Completion::Return(v) ==> final(rt).wf_value(v)),
            (!converts::<RbSelf>(&*old(rt), rb_self) ==> *final(rt) == *old(rt) && (done
                matches Completion::Raise(err) && RbSelf::convert_rel(
                &*old(rt),
                rb_self,
                Err(err),
            ))),
            (converts::<RbSelf>(&*old(rt), rb_self) ==> exists|s: RbSelf, res: Res|
                RbSelf::convert_rel(&*old(rt), rb_self, Ok(s)) && #[trigger] call_ensures(
                    self.spec_func(),
                    (s, args),
                    res,
                ) && res.ret_rel(*old(rt), *final(rt), completion_result(done))),
    {
        match self.call_convert_value(rt, rb_self, args) {
            Ok(v) => Completion::Return(v),
            Err(e) => Completion::Raise(e),
        }
    }
}

} // verus!
