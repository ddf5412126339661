//! The host-to-foreign half of the conversion protocol.
//!
//! [`IntoValue`] is the total direction: a host value always yields a tagged
//! value. It may allocate on the runtime's heap (an integer beyond the fixnum
//! width becomes a big integer), but it never fails and it touches nothing of
//! the runtime but the heap's tail.

use vstd::prelude::*;

use crate::integer::{integer_int, is_integer_value, Integer};
use crate::r_bignum::RBignum;
use crate::runtime::{extends, Ruby};
use crate::value::{
    truthy_raw, Fixnum, Qfalse, Qnil, Qtrue, StaticSymbol, Value, QFALSE_RAW, QNIL_RAW, QTRUE_RAW,
};

verus! {

/// Conversion from a host value to a tagged value of the runtime. Total: no
/// failure is modelled here; an allocation failure would abort the runtime
/// itself, not this protocol. The result is a well-formed handle and the
/// runtime is only extended.
pub trait IntoValue: Sized {
    /// What the host value itself must satisfy against the runtime before it
    /// can cross: a plain number asks nothing, a handle-wrapping type asks
    /// that its handle belong to this runtime.
    spec fn into_wf(&self, rt: &Ruby) -> bool;

    /// The conversion itself, as a relation between the runtime before and
    /// after and the produced handle. Each implementation pins its own
    /// meaning here: a boolean is the true or false word, an integer is a
    /// value standing for exactly that number, a handle-wrapping type passes
    /// its handle through unchanged.
    spec fn into_rel(self, rt_old: Ruby, rt_new: Ruby, r: Value) -> bool;

    fn into_value(self, rt: &mut Ruby) -> (r: Value)
        requires
            old(rt).wf(),
            old(rt).has_room(),
            self.into_wf(&*old(rt)),
        ensures
            final(rt).wf(),
            extends(&*old(rt), &*final(rt)),
            final(rt).wf_value(r),
            self.into_rel(*old(rt), *final(rt), r),
    ;
}

impl Ruby {
    /// Convert `val` into a tagged value, by its type's own rule.
    pub fn into_value<T: IntoValue>(&mut self, val: T) -> (r: Value)
        requires
            old(self).wf(),
            old(self).has_room(),
            val.into_wf(&*old(self)),
        ensures
            final(self).wf(),
            extends(&*old(self), &*final(self)),
            final(self).wf_value(r),
            val.into_rel(*old(self), *final(self), r),
    {
        val.into_value(self)
    }
}

impl IntoValue for Value {
    open spec fn into_wf(&self, rt: &Ruby) -> bool {
        rt.wf_value(*self)
    }

    open spec fn into_rel(self, rt_old: Ruby, rt_new: Ruby, r: Value) -> bool {
        r == self && rt_new == rt_old
    }

    fn into_value(self, rt: &mut Ruby) -> (r: Value)
        ensures
            r == self,
            *final(rt) == *old(rt),
    {
        proof {
            assert(final(rt).heap@.subrange(0, old(rt).heap@.len() as int) =~= old(rt).heap@);
        }
        self
    }
}

impl IntoValue for bool {
    open spec fn into_wf(&self, rt: &Ruby) -> bool {
        true
    }

    open spec fn into_rel(self, rt_old: Ruby, rt_new: Ruby, r: Value) -> bool {
        r.spec_raw() == (if self {
            QTRUE_RAW
        } else {
            QFALSE_RAW
        }) && rt_new == rt_old
    }

    /// The host booleans map to the runtime's true and false words.
    fn into_value(self, rt: &mut Ruby) -> (r: Value)
        ensures
            r.spec_raw() == (if self {
                QTRUE_RAW
            } else {
                QFALSE_RAW
            }),
            truthy_raw(r.spec_raw()) == self,
            *final(rt) == *old(rt),
    {
        proof {
            crate::value::lemma_special_const_truthiness();
            assert(final(rt).heap@.subrange(0, old(rt).heap@.len() as int) =~= old(rt).heap@);
        }
        if self {
            Value::new(QTRUE_RAW)
        } else {
            Value::new(QFALSE_RAW)
        }
    }
}

impl IntoValue for () {
    open spec fn into_wf(&self, rt: &Ruby) -> bool {
        true
    }

    open spec fn into_rel(self, rt_old: Ruby, rt_new: Ruby, r: Value) -> bool {
        r.spec_raw() == QNIL_RAW && rt_new == rt_old
    }

    /// The host unit maps to nil.
    fn into_value(self, rt: &mut Ruby) -> (r: Value)
        ensures
            r.spec_raw() == QNIL_RAW,
            *final(rt) == *old(rt),
    {
        proof {
            assert(final(rt).heap@.subrange(0, old(rt).heap@.len() as int) =~= old(rt).heap@);
        }
        Value::new(QNIL_RAW)
    }
}

impl<T: IntoValue> IntoValue for Option<T> {
    open spec fn into_wf(&self, rt: &Ruby) -> bool {
        match self {
            Some(t) => t.into_wf(rt),
            None => true,
        }
    }

    open spec fn into_rel(self, rt_old: Ruby, rt_new: Ruby, r: Value) -> bool {
        match self {
            Some(t) => t.into_rel(rt_old, rt_new, r),
            None => r.spec_raw() == QNIL_RAW && rt_new == rt_old,
        }
    }

    /// Absence maps to nil; presence converts the inner value.
    fn into_value(self, rt: &mut Ruby) -> (r: Value)
        ensures
            self is None ==> *final(rt) == *old(rt) && r.spec_raw() == QNIL_RAW,
    {
        match self {
            Some(t) => t.into_value(rt),
            None => {
                proof {
                    assert(final(rt).heap@.subrange(0, old(rt).heap@.len() as int) =~= old(
                        rt,
                    ).heap@);
                }
                Value::new(QNIL_RAW)
            },
        }
    }
}

impl IntoValue for i64 {
    open spec fn into_wf(&self, rt: &Ruby) -> bool {
        true
    }

    open spec fn into_rel(self, rt_old: Ruby, rt_new: Ruby, r: Value) -> bool {
        is_integer_value(&rt_new, r) && integer_int(&rt_new, r) == self
    }

    /// Integers convert exactly: the result stands for `self`, as a fixnum
    /// when it fits the immediate width, else as a fresh big integer.
    fn into_value(self, rt: &mut Ruby) -> (r: Value)
        ensures
            is_integer_value(&*final(rt), r),
            integer_int(&*final(rt), r) == self,
    {
        let v: Value = Integer::from_i64(rt, self).as_value();
        proof {
            assert(rt.heap@.subrange(0, old(rt).heap@.len() as int) =~= old(rt).heap@);
        }
        v
    }
}

impl IntoValue for i8 {
    open spec fn into_wf(&self, rt: &Ruby) -> bool {
        true
    }

    open spec fn into_rel(self, rt_old: Ruby, rt_new: Ruby, r: Value) -> bool {
        is_integer_value(&rt_new, r) && integer_int(&rt_new, r) == self
    }

    fn into_value(self, rt: &mut Ruby) -> (r: Value)
        ensures
            is_integer_value(&*final(rt), r),
            integer_int(&*final(rt), r) == self,
    {
        let v: Value = Integer::from_i64(rt, self as i64).as_value();
        proof {
            assert(rt.heap@.subrange(0, old(rt).heap@.len() as int) =~= old(rt).heap@);
        }
        v
    }
}

impl IntoValue for i16 {
    open spec fn into_wf(&self, rt: &Ruby) -> bool {
        true
    }

    open spec fn into_rel(self, rt_old: Ruby, rt_new: Ruby, r: Value) -> bool {
        is_integer_value(&rt_new, r) && integer_int(&rt_new, r) == self
    }

    fn into_value(self, rt: &mut Ruby) -> (r: Value)
        ensures
            is_integer_value(&*final(rt), r),
            integer_int(&*final(rt), r) == self,
    {
        let v: Value = Integer::from_i64(rt, self as i64).as_value();
        proof {
            assert(rt.heap@.subrange(0, old(rt).heap@.len() as int) =~= old(rt).heap@);
        }
        v
    }
}

impl IntoValue for i32 {
    open spec fn into_wf(&self, rt: &Ruby) -> bool {
        true
    }

    open spec fn into_rel(self, rt_old: Ruby, rt_new: Ruby, r: Value) -> bool {
        is_integer_value(&rt_new, r) && integer_int(&rt_new, r) == self
    }

    fn into_value(self, rt: &mut Ruby) -> (r: Value)
        ensures
            is_integer_value(&*final(rt), r),
            integer_int(&*final(rt), r) == self,
    {
        let v: Value = Integer::from_i64(rt, self as i64).as_value();
        proof {
            assert(rt.heap@.subrange(0, old(rt).heap@.len() as int) =~= old(rt).heap@);
        }
        v
    }
}

impl IntoValue for isize {
    open spec fn into_wf(&self, rt: &Ruby) -> bool {
        true
    }

    open spec fn into_rel(self, rt_old: Ruby, rt_new: Ruby, r: Value) -> bool {
        is_integer_value(&rt_new, r) && integer_int(&rt_new, r) == self
    }

    fn into_value(self, rt: &mut Ruby) -> (r: Value)
        ensures
            is_integer_value(&*final(rt), r),
            integer_int(&*final(rt), r) == self,
    {
        let v: Value = Integer::from_i64(rt, self as i64).as_value();
        proof {
            assert(rt.heap@.subrange(0, old(rt).heap@.len() as int) =~= old(rt).heap@);
        }
        v
    }
}

impl IntoValue for u64 {
    open spec fn into_wf(&self, rt: &Ruby) -> bool {
        true
    }

    open spec fn into_rel(self, rt_old: Ruby, rt_new: Ruby, r: Value) -> bool {
        is_integer_value(&rt_new, r) && integer_int(&rt_new, r) == self
    }

    fn into_value(self, rt: &mut Ruby) -> (r: Value)
        ensures
            is_integer_value(&*final(rt), r),
            integer_int(&*final(rt), r) == self,
    {
        let v: Value = Integer::from_u64(rt, self).as_value();
        proof {
            assert(rt.heap@.subrange(0, old(rt).heap@.len() as int) =~= old(rt).heap@);
        }
        v
    }
}

impl IntoValue for u8 {
    open spec fn into_wf(&self, rt: &Ruby) -> bool {
        true
    }

    open spec fn into_rel(self, rt_old: Ruby, rt_new: Ruby, r: Value) -> bool {
        is_integer_value(&rt_new, r) && integer_int(&rt_new, r) == self
    }

    fn into_value(self, rt: &mut Ruby) -> (r: Value)
        ensures
            is_integer_value(&*final(rt), r),
            integer_int(&*final(rt), r) == self,
    {
        let v: Value = Integer::from_u64(rt, self as u64).as_value();
        proof {
            assert(rt.heap@.subrange(0, old(rt).heap@.len() as int) =~= old(rt).heap@);
        }
        v
    }
}

impl IntoValue for u16 {
    open spec fn into_wf(&self, rt: &Ruby) -> bool {
        true
    }

    open spec fn into_rel(self, rt_old: Ruby, rt_new: Ruby, r: Value) -> bool {
        is_integer_value(&rt_new, r) && integer_int(&rt_new, r) == self
    }

    fn into_value(self, rt: &mut Ruby) -> (r: Value)
        ensures
            is_integer_value(&*final(rt), r),
            integer_int(&*final(rt), r) == self,
    {
        let v: Value = Integer::from_u64(rt, self as u64).as_value();
        proof {
            assert(rt.heap@.subrange(0, old(rt).heap@.len() as int) =~= old(rt).heap@);
        }
        v
    }
}

impl IntoValue for u32 {
    open spec fn into_wf(&self, rt: &Ruby) -> bool {
        true
    }

    open spec fn into_rel(self, rt_old: Ruby, rt_new: Ruby, r: Value) -> bool {
        is_integer_value(&rt_new, r) && integer_int(&rt_new, r) == self
    }

    fn into_value(self, rt: &mut Ruby) -> (r: Value)
        ensures
            is_integer_value(&*final(rt), r),
            integer_int(&*final(rt), r) == self,
    {
        let v: Value = Integer::from_u64(rt, self as u64).as_value();
        proof {
            assert(rt.heap@.subrange(0, old(rt).heap@.len() as int) =~= old(rt).heap@);
        }
        v
    }
}

impl IntoValue for usize {
    open spec fn into_wf(&self, rt: &Ruby) -> bool {
        true
    }

    open spec fn into_rel(self, rt_old: Ruby, rt_new: Ruby, r: Value) -> bool {
        is_integer_value(&rt_new, r) && integer_int(&rt_new, r) == self
    }

    fn into_value(self, rt: &mut Ruby) -> (r: Value)
        ensures
            is_integer_value(&*final(rt), r),
            integer_int(&*final(rt), r) == self,
    {
        let v: Value = Integer::from_u64(rt, self as u64).as_value();
        proof {
            assert(rt.heap@.subrange(0, old(rt).heap@.len() as int) =~= old(rt).heap@);
        }
        v
    }
}

impl IntoValue for Fixnum {
    open spec fn into_wf(&self, rt: &Ruby) -> bool {
        self.wf()
    }

    open spec fn into_rel(self, rt_old: Ruby, rt_new: Ruby, r: Value) -> bool {
        r == self.0 && rt_new == rt_old
    }

    fn into_value(self, rt: &mut Ruby) -> (r: Value)
        ensures
            r == self.0,
            *final(rt) == *old(rt),
    {
        proof {
            assert(final(rt).heap@.subrange(0, old(rt).heap@.len() as int) =~= old(rt).heap@);
        }
        self.as_value()
    }
}

impl IntoValue for Integer {
    open spec fn into_wf(&self, rt: &Ruby) -> bool {
        self.wf(rt)
    }

    open spec fn into_rel(self, rt_old: Ruby, rt_new: Ruby, r: Value) -> bool {
        r == self.0 && rt_new == rt_old
    }

    fn into_value(self, rt: &mut Ruby) -> (r: Value)
        ensures
            r == self.0,
            *final(rt) == *old(rt),
    {
        proof {
            assert(final(rt).heap@.subrange(0, old(rt).heap@.len() as int) =~= old(rt).heap@);
        }
        self.as_value()
    }
}

impl IntoValue for RBignum {
    open spec fn into_wf(&self, rt: &Ruby) -> bool {
        self.wf(rt)
    }

    open spec fn into_rel(self, rt_old: Ruby, rt_new: Ruby, r: Value) -> bool {
        r == self.0 && rt_new == rt_old
    }

    fn into_value(self, rt: &mut Ruby) -> (r: Value)
        ensures
            r == self.0,
            *final(rt) == *old(rt),
    {
        proof {
            assert(final(rt).heap@.subrange(0, old(rt).heap@.len() as int) =~= old(rt).heap@);
        }
        self.as_value()
    }
}

impl IntoValue for StaticSymbol {
    open spec fn into_wf(&self, rt: &Ruby) -> bool {
        self.wf(rt)
    }

    open spec fn into_rel(self, rt_old: Ruby, rt_new: Ruby, r: Value) -> bool {
        r == self.0 && rt_new == rt_old
    }

    fn into_value(self, rt: &mut Ruby) -> (r: Value)
        ensures
            r == self.0,
            *final(rt) == *old(rt),
    {
        proof {
            assert(final(rt).heap@.subrange(0, old(rt).heap@.len() as int) =~= old(rt).heap@);
        }
        self.as_value()
    }
}

impl IntoValue for Qnil {
    open spec fn into_wf(&self, rt: &Ruby) -> bool {
        true
    }

    open spec fn into_rel(self, rt_old: Ruby, rt_new: Ruby, r: Value) -> bool {
        r.spec_raw() == QNIL_RAW && rt_new == rt_old
    }

    fn into_value(self, rt: &mut Ruby) -> (r: Value)
        ensures
            r.spec_raw() == QNIL_RAW,
            *final(rt) == *old(rt),
    {
        proof {
            assert(final(rt).heap@.subrange(0, old(rt).heap@.len() as int) =~= old(rt).heap@);
        }
        self.as_value()
    }
}

impl IntoValue for Qtrue {
    open spec fn into_wf(&self, rt: &Ruby) -> bool {
        true
    }

    open spec fn into_rel(self, rt_old: Ruby, rt_new: Ruby, r: Value) -> bool {
        r.spec_raw() == QTRUE_RAW && rt_new == rt_old
    }

    fn into_value(self, rt: &mut Ruby) -> (r: Value)
        ensures
            r.spec_raw() == QTRUE_RAW,
            *final(rt) == *old(rt),
    {
        proof {
            assert(final(rt).heap@.subrange(0, old(rt).heap@.len() as int) =~= old(rt).heap@);
        }
        self.as_value()
    }
}

impl IntoValue for Qfalse {
    open spec fn into_wf(&self, rt: &Ruby) -> bool {
        true
    }

    open spec fn into_rel(self, rt_old: Ruby, rt_new: Ruby, r: Value) -> bool {
        r.spec_raw() == QFALSE_RAW && rt_new == rt_old
    }

    fn into_value(self, rt: &mut Ruby) -> (r: Value)
        ensures
            r.spec_raw() == QFALSE_RAW,
            *final(rt) == *old(rt),
    {
        proof {
            assert(final(rt).heap@.subrange(0, old(rt).heap@.len() as int) =~= old(rt).heap@);
        }
        self.as_value()
    }
}

} // verus!
