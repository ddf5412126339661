//! Heap-allocated big integers: integers beyond the fixnum immediate width.
//!
//! A big integer keeps its magnitude in the slot and mirrors its sign into
//! the header's first user flag bit (set means non-negative), which is where
//! `is_positive` reads it.

use vstd::prelude::*;

use crate::error::{Error, ErrorKind};
use crate::integer::{alloc_bignum, bignum_int, integer_int, is_integer_value};
use crate::runtime::{index_of_ref, ref_index, FL_USER1, HeapData, is_ref_raw, Ruby};
use crate::value::{fixnum_fits, Fixnum, Value, FIXNUM_MAX, FIXNUM_MIN};

verus! {

/// Whether a handle is a reference to a big-integer slot.
pub open spec fn is_bignum_value(rt: &Ruby, v: Value) -> bool {
    &&& is_ref_raw(v.spec_raw())
    &&& 0 <= ref_index(v.spec_raw()) < rt.heap.len()
    &&& rt.heap[ref_index(v.spec_raw())].data is Bignum
}

impl Ruby {
    /// Encode `n` as a big integer, unless it fits the fixnum width — then
    /// the fixnum comes back on the error side, and nothing is allocated.
    pub fn bignum_from_i64(&mut self, n: i64) -> (r: Result<RBignum, Fixnum>)
        requires
            old(self).wf(),
            old(self).has_room(),
        ensures
            final(self).wf(),
            match r {
                Ok(b) => !fixnum_fits(n as int) && b.wf(&*final(self)) && b.spec_int(&*final(self))
                    == n && final(self).heap@.len() == old(self).heap@.len() + 1 && final(self).heap@.subrange(0, old(self).heap@.len() as int) == old(self).heap@ && final(self).pending_exception == old(self).pending_exception && final(self).symbols == old(self).symbols && final(self).globals == old(self).globals && final(self).roots == old(self).roots && !b.0.spec_is_frozen(&*final(self)),
                Err(f) => fixnum_fits(n as int) && f.wf() && f.spec_int() == n && *final(self)
                    == *old(self),
            },
    {
        if n >= FIXNUM_MIN && n <= FIXNUM_MAX {
            Err(Fixnum::from_i64_in_range(n))
        } else if n < 0 {
            let magnitude: u64 = ((-(n + 1)) as u64) + 1;
            Ok(RBignum(alloc_bignum(self, true, magnitude)))
        } else {
            Ok(RBignum(alloc_bignum(self, false, n as u64)))
        }
    }

    /// Encode `n` as a big integer, unless it fits the fixnum width.
    pub fn bignum_from_u64(&mut self, n: u64) -> (r: Result<RBignum, Fixnum>)
        requires
            old(self).wf(),
            old(self).has_room(),
        ensures
            final(self).wf(),
            match r {
                Ok(b) => n > FIXNUM_MAX && b.wf(&*final(self)) && b.spec_int(&*final(self)) == n
                    && final(self).heap@.len() == old(self).heap@.len() + 1 && final(self).heap@.subrange(0, old(self).heap@.len() as int) == old(self).heap@ && final(self).pending_exception == old(self).pending_exception && final(self).symbols == old(self).symbols && final(self).globals == old(self).globals && final(self).roots == old(self).roots && !b.0.spec_is_frozen(&*final(self)),
                Err(f) => n <= FIXNUM_MAX && f.wf() && f.spec_int() == n && *final(self) == *old(self),
            },
    {
        if n <= FIXNUM_MAX as u64 {
            Err(Fixnum::from_i64_in_range(n as i64))
        } else {
            Ok(RBignum(alloc_bignum(self, false, n)))
        }
    }
}

/// A handle known to reference a big-integer slot. See also `Integer`.
#[derive(Clone, Copy, PartialEq, Eq, Debug, Structural)]
pub struct RBignum(pub Value);

impl RBignum {
    pub open spec fn wf(self, rt: &Ruby) -> bool {
        is_bignum_value(rt, self.0)
    }

    /// The integer this big integer holds.
    pub open spec fn spec_int(self, rt: &Ruby) -> int {
        integer_int(rt, self.0)
    }

    /// Encode `n` as a big integer, unless it fits the fixnum width — then
    /// the fixnum comes back on the error side.
    pub fn from_i64(rt: &mut Ruby, n: i64) -> (r: Result<RBignum, Fixnum>)
        requires
            old(rt).wf(),
            old(rt).has_room(),
        ensures
            final(rt).wf(),
            match r {
                Ok(b) => !fixnum_fits(n as int) && b.wf(&*final(rt)) && b.spec_int(&*final(rt))
                    == n && crate::runtime::extends(&*old(rt), &*final(rt)) && final(rt).heap@.len() == old(rt).heap@.len() + 1 && !b.0.spec_is_frozen(&*final(rt)),
                Err(f) => fixnum_fits(n as int) && f.wf() && f.spec_int() == n && *final(rt)
                    == *old(rt),
            },
    {
        let r: Result<RBignum, Fixnum> = rt.bignum_from_i64(n);
        proof {
            assert(rt.heap@.subrange(0, old(rt).heap@.len() as int) =~= old(rt).heap@);
        }
        r
    }

    /// Encode `n` as a big integer, unless it fits the fixnum width.
    pub fn from_u64(rt: &mut Ruby, n: u64) -> (r: Result<RBignum, Fixnum>)
        requires
            old(rt).wf(),
            old(rt).has_room(),
        ensures
            final(rt).wf(),
            match r {
                Ok(b) => n > FIXNUM_MAX && b.wf(&*final(rt)) && b.spec_int(&*final(rt)) == n
                    && crate::runtime::extends(&*old(rt), &*final(rt)) && final(rt).heap@.len()
                    == old(rt).heap@.len() + 1 && !b.0.spec_is_frozen(&*final(rt)),
                Err(f) => n <= FIXNUM_MAX && f.wf() && f.spec_int() == n && *final(rt) == *old(rt),
            },
    {
        let r: Result<RBignum, Fixnum> = rt.bignum_from_u64(n);
        proof {
            assert(rt.heap@.subrange(0, old(rt).heap@.len() as int) =~= old(rt).heap@);
        }
        r
    }

    /// Return `Some(RBignum)` if `val` references a big-integer slot, `None`
    /// otherwise. Nothing beyond the slot's tag is read.
    pub fn from_value(rt: &Ruby, val: Value) -> (r: Option<Self>)
        requires
            rt.wf(),
            rt.wf_value(val),
        ensures
            r == (if is_bignum_value(rt, val) {
                Some(RBignum(val))
            } else {
                None::<RBignum>
            }),
    {
        if val.is_immediate() {
            proof {
                if is_ref_raw(val.spec_raw()) {
                    crate::runtime::lemma_ref_not_immediate(val.spec_raw());
                }
            }
            return None;
        }
        proof {
            if crate::value::is_reachable_immediate(val.spec_raw()) {
                crate::value::lemma_immediate_classification(val.spec_raw());
            }
        }
        let idx: usize = index_of_ref(rt, val);
        match &rt.heap[idx].data {
            HeapData::Bignum { .. } => Some(RBignum(val)),
            _ => None,
        }
    }

    /// The wrapped handle.
    pub fn as_value(self) -> (r: Value)
        ensures
            r == self.0,
    {
        self.0
    }

    /// Convert to an `i64`, rejecting magnitudes beyond its width.
    pub fn to_i64(self, rt: &Ruby) -> (r: Result<i64, Error>)
        requires
            rt.wf(),
            self.wf(rt),
        ensures
            match r {
                Ok(x) => i64::MIN <= self.spec_int(rt) <= i64::MAX && x == self.spec_int(rt),
                Err(e) => !(i64::MIN <= self.spec_int(rt) <= i64::MAX) && (e
                    matches Error::Raised { kind, message } && kind == ErrorKind::RangeError
                    && message@ == "bignum too big to convert into `i64`"@),
            },
    {
        proof {
            crate::runtime::lemma_ref_not_immediate(self.0.spec_raw());
            assert(rt.slot_wf(rt.heap[ref_index(self.0.spec_raw())]));
        }
        let idx: usize = index_of_ref(rt, self.0);
        match &rt.heap[idx].data {
            HeapData::Bignum { negative, magnitude } => {
                if *negative {
                    if *magnitude > 0x8000_0000_0000_0000u64 {
                        Err(Error::range_error("bignum too big to convert into `i64`"))
                    } else if *magnitude == 0x8000_0000_0000_0000u64 {
                        Ok(i64::MIN)
                    } else {
                        Ok(-((*magnitude) as i64))
                    }
                } else {
                    if *magnitude > i64::MAX as u64 {
                        Err(Error::range_error("bignum too big to convert into `i64`"))
                    } else {
                        Ok((*magnitude) as i64)
                    }
                }
            },
            _ => Err(Error::range_error("bignum too big to convert into `i64`")),
        }
    }

    /// Convert to an `isize`, rejecting magnitudes beyond its width.
    pub fn to_isize(self, rt: &Ruby) -> (r: Result<isize, Error>)
        requires
            rt.wf(),
            self.wf(rt),
        ensures
            match r {
                Ok(x) => isize::MIN <= self.spec_int(rt) <= isize::MAX && x == self.spec_int(rt),
                Err(e) => !(isize::MIN <= self.spec_int(rt) <= isize::MAX) && (e
                    matches Error::Raised { kind, message } && kind == ErrorKind::RangeError
                    && message@ == "bignum too big to convert into `isize`"@),
            },
    {
        let wide: Result<i64, Error> = self.to_i64(rt);
        match wide {
            Ok(n) => {
                if n > isize::MAX as i64 || n < isize::MIN as i64 {
                    Err(Error::range_error("bignum too big to convert into `isize`"))
                } else {
                    Ok(n as isize)
                }
            },
            Err(_) => Err(Error::range_error("bignum too big to convert into `isize`")),
        }
    }

    /// Convert to an `i32`; a big integer never fits, except through the
    /// 32-bit fixnum gap on narrow platforms, so the width check is explicit.
    pub fn to_i32(self, rt: &Ruby) -> (r: Result<i32, Error>)
        requires
            rt.wf(),
            self.wf(rt),
        ensures
            match r {
                Ok(x) => i32::MIN <= self.spec_int(rt) <= i32::MAX && x == self.spec_int(rt),
                Err(e) => !(i32::MIN <= self.spec_int(rt) <= i32::MAX) && (e
                    matches Error::Raised { kind, message } && kind == ErrorKind::RangeError
                    && message@ == "bignum too big to convert into `i32`"@),
            },
    {
        let wide: Result<i64, Error> = self.to_i64(rt);
        match wide {
            Ok(n) => {
                if n > i32::MAX as i64 || n < i32::MIN as i64 {
                    Err(Error::range_error("bignum too big to convert into `i32`"))
                } else {
                    Ok(n as i32)
                }
            },
            Err(_) => Err(Error::range_error("bignum too big to convert into `i32`")),
        }
    }

    /// Convert to a `u64`, rejecting negatives with the distinct
    /// negative-to-unsigned message.
    pub fn to_u64(self, rt: &Ruby) -> (r: Result<u64, Error>)
        requires
            rt.wf(),
            self.wf(rt),
        ensures
            match r {
                Ok(x) => 0 <= self.spec_int(rt) <= u64::MAX && x == self.spec_int(rt),
                Err(e) => self.spec_int(rt) < 0 && (e matches Error::Raised { kind, message }
                    && kind == ErrorKind::RangeError && message@
                    == "can't convert negative integer to unsigned"@),
            },
    {
        proof {
            crate::runtime::lemma_ref_not_immediate(self.0.spec_raw());
            assert(rt.slot_wf(rt.heap[ref_index(self.0.spec_raw())]));
        }
        let idx: usize = index_of_ref(rt, self.0);
        match &rt.heap[idx].data {
            HeapData::Bignum { negative, magnitude } => {
                if *negative {
                    Err(Error::range_error("can't convert negative integer to unsigned"))
                } else {
                    Ok(*magnitude)
                }
            },
            _ => Err(Error::range_error("can't convert negative integer to unsigned")),
        }
    }

    /// Convert to a `u32`, rejecting negatives first and then magnitudes
    /// beyond the width.
    pub fn to_u32(self, rt: &Ruby) -> (r: Result<u32, Error>)
        requires
            rt.wf(),
            self.wf(rt),
        ensures
            match r {
                Ok(x) => 0 <= self.spec_int(rt) <= u32::MAX && x == self.spec_int(rt),
                Err(e) => !(0 <= self.spec_int(rt) <= u32::MAX) && (e matches Error::Raised {
                    kind,
                    message,
                } && kind == ErrorKind::RangeError && message@ == (if self.spec_int(rt) < 0 {
                    "can't convert negative integer to unsigned"@
                } else {
                    "bignum too big to convert into `u32`"@
                })),
            },
    {
        let wide: Result<u64, Error> = self.to_u64(rt);
        match wide {
            Ok(n) => {
                if n > u32::MAX as u64 {
                    Err(Error::range_error("bignum too big to convert into `u32`"))
                } else {
                    Ok(n as u32)
                }
            },
            Err(e) => Err(e),
        }
    }

    /// Convert to a `usize`, rejecting negatives first and then magnitudes
    /// beyond the width.
    pub fn to_usize(self, rt: &Ruby) -> (r: Result<usize, Error>)
        requires
            rt.wf(),
            self.wf(rt),
        ensures
            match r {
                Ok(x) => 0 <= self.spec_int(rt) <= usize::MAX && x == self.spec_int(rt),
                Err(e) => !(0 <= self.spec_int(rt) <= usize::MAX) && (e matches Error::Raised {
                    kind,
                    message,
                } && kind == ErrorKind::RangeError && message@ == (if self.spec_int(rt) < 0 {
                    "can't convert negative integer to unsigned"@
                } else {
                    "bignum too big to convert into `usize`"@
                })),
            },
    {
        let wide: Result<u64, Error> = self.to_u64(rt);
        match wide {
            Ok(n) => {
                if n > usize::MAX as u64 {
                    Err(Error::range_error("bignum too big to convert into `usize`"))
                } else {
                    Ok(n as usize)
                }
            },
            Err(e) => Err(e),
        }
    }

    fn sign(self, rt: &Ruby) -> (r: u64)
        requires
            rt.wf(),
            self.wf(rt),
        ensures
            (r != 0) == !(rt.heap[ref_index(self.0.spec_raw())].data->Bignum_negative),
    {
        proof {
            crate::runtime::lemma_ref_not_immediate(self.0.spec_raw());
            assert(rt.slot_wf(rt.heap[ref_index(self.0.spec_raw())]));
        }
        let idx: usize = index_of_ref(rt, self.0);
        rt.heap[idx].flags & FL_USER1
    }

    /// Whether this big integer is non-negative, read from the header's sign
    /// flag as the runtime keeps it.
    pub fn is_positive(self, rt: &Ruby) -> (r: bool)
        requires
            rt.wf(),
            self.wf(rt),
        ensures
            r == !(rt.heap[ref_index(self.0.spec_raw())].data->Bignum_negative),
    {
        self.sign(rt) != 0
    }

    /// Whether this big integer is negative.
    pub fn is_negative(self, rt: &Ruby) -> (r: bool)
        requires
            rt.wf(),
            self.wf(rt),
        ensures
            r == rt.heap[ref_index(self.0.spec_raw())].data->Bignum_negative,
    {
        !self.is_positive(rt)
    }
}

} // verus!
