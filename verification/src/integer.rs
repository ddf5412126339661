//! The runtime's integers: a handle that is either a fixnum immediate or a
//! heap-allocated big integer.
//!
//! Construction never truncates. An integer that fits the fixnum width is
//! encoded in the word itself; one that does not is promoted to a heap big
//! integer, and the result says which of the two happened.

use vstd::prelude::*;

use crate::error::{Error, ErrorKind};
use crate::r_bignum::RBignum;
use crate::runtime::{
    ref_index, ref_to, FL_USER1, HeapData, HeapSlot, IDX_INTEGER, is_ref_raw, lemma_header_bits,
    Ruby,
};
use crate::value::{
    fixnum_fits, fixnum_int, is_fixnum_raw, lemma_fixnum_bounds, Fixnum, Value, FIXNUM_MAX,
};

verus! {

/// The mathematical integer a big-integer slot holds.
pub open spec fn bignum_int(negative: bool, magnitude: u64) -> int {
    if negative {
        -(magnitude as int)
    } else {
        magnitude as int
    }
}

/// Whether a handle is an integer of the runtime: a fixnum immediate, or a
/// reference to a big-integer slot.
pub open spec fn is_integer_value(rt: &Ruby, v: Value) -> bool {
    ||| is_fixnum_raw(v.spec_raw())
    ||| (is_ref_raw(v.spec_raw()) && 0 <= ref_index(v.spec_raw()) < rt.heap.len() && rt.heap[
        ref_index(v.spec_raw())
    ].data is Bignum)
}

/// The mathematical integer an integer handle stands for.
pub open spec fn integer_int(rt: &Ruby, v: Value) -> int
    recommends
        is_integer_value(rt, v),
{
    if is_fixnum_raw(v.spec_raw()) {
        fixnum_int(v.spec_raw())
    } else {
        match rt.heap[ref_index(v.spec_raw())].data {
            HeapData::Bignum { negative, magnitude } => bignum_int(negative, magnitude),
            _ => 0,
        }
    }
}

/// Allocate a big-integer slot. Its sign is mirrored into the header's first
/// user flag bit, set meaning non-negative, as the runtime keeps it.
pub(crate) fn alloc_bignum(rt: &mut Ruby, negative: bool, magnitude: u64) -> (r: Value)
    requires
        old(rt).wf(),
        old(rt).has_room(),
        negative ==> magnitude > 0x4000_0000_0000_0000u64,
        !negative ==> magnitude > 0x3fff_ffff_ffff_ffffu64,
    ensures
        final(rt).wf(),
        final(rt).heap@.len() == old(rt).heap@.len() + 1,
        final(rt).heap@.subrange(0, old(rt).heap@.len() as int) == old(rt).heap@,
        final(rt).pending_exception == old(rt).pending_exception,
        final(rt).symbols == old(rt).symbols,
        final(rt).globals == old(rt).globals,
        final(rt).roots == old(rt).roots,
        is_ref_raw(r.spec_raw()),
        ref_index(r.spec_raw()) == old(rt).heap.len(),
        final(rt).heap[ref_index(r.spec_raw())].data == (HeapData::Bignum { negative, magnitude }),
        is_integer_value(final(rt), r),
        integer_int(final(rt), r) == bignum_int(negative, magnitude),
        final(rt).wf_value(r),
        !r.spec_is_frozen(&*final(rt)),
{
    let flags: u64 = if negative {
        0x0a
    } else {
        0x0a | FL_USER1
    };
    let klass: Value = ref_to(IDX_INTEGER);
    let slot = HeapSlot { flags, klass, data: HeapData::Bignum { negative, magnitude } };
    proof {
        lemma_header_bits(0x0a, 0);
        assert(old(rt).slot_wf(slot));
    }
    let r: Value = rt.alloc_slot(slot);
    proof {
        crate::runtime::lemma_ref_not_immediate(r.spec_raw());
        assert(final(rt).heap@.subrange(0, old(rt).heap@.len() as int) =~= old(rt).heap@);
    }
    r
}

/// The two shapes an integer handle can take; which one a constructor chose
/// is part of its answer.
pub enum IntegerType {
    Fixnum(Fixnum),
    Bignum(RBignum),
}

/// A handle known to be an integer of the runtime, fixnum or big integer.
#[derive(Clone, Copy, PartialEq, Eq, Debug, Structural)]
pub struct Integer(pub Value);

impl Integer {
    pub open spec fn wf(self, rt: &Ruby) -> bool {
        is_integer_value(rt, self.0)
    }

    /// The mathematical integer this handle stands for.
    pub open spec fn spec_int(self, rt: &Ruby) -> int {
        integer_int(rt, self.0)
    }

    /// Return `Some(Integer)` if `val` is a fixnum or a big integer, `None`
    /// otherwise.
    pub fn from_value(rt: &Ruby, val: Value) -> (r: Option<Self>)
        requires
            rt.wf(),
            rt.wf_value(val),
        ensures
            r == (if is_integer_value(rt, val) {
                Some(Integer(val))
            } else {
                None::<Integer>
            }),
    {
        if val.is_fixnum() {
            return Some(Integer(val));
        }
        if val.is_immediate() {
            proof {
                if is_ref_raw(val.spec_raw()) {
                    crate::runtime::lemma_ref_not_immediate(val.spec_raw());
                }
            }
            return None;
        }
        proof {
            if crate::value::is_reachable_immediate(val.spec_raw()) {
                crate::value::lemma_immediate_classification(val.spec_raw());
            }
        }
        let idx: usize = crate::runtime::index_of_ref(rt, val);
        match &rt.heap[idx].data {
            HeapData::Bignum { .. } => Some(Integer(val)),
            _ => None,
        }
    }

    /// The wrapped handle.
    pub fn as_value(self) -> (r: Value)
        ensures
            r == self.0,
    {
        self.0
    }

    /// Encode `n`, as a fixnum immediate when it fits the immediate width and
    /// as a newly allocated big integer otherwise; the integer it stands for
    /// is `n` either way, never a truncation.
    pub fn from_i64(rt: &mut Ruby, n: i64) -> (r: Integer)
        requires
            old(rt).wf(),
            old(rt).has_room(),
        ensures
            final(rt).wf(),
            r.wf(&*final(rt)),
            r.spec_int(&*final(rt)) == n,
            final(rt).wf_value(r.0),
            fixnum_fits(n as int) ==> *final(rt) == *old(rt) && r.0.spec_raw()
                == crate::value::fixnum_raw(n),
            !fixnum_fits(n as int) ==> final(rt).heap@.len() == old(rt).heap@.len() + 1
                && final(rt).heap@.subrange(0, old(rt).heap@.len() as int) == old(rt).heap@
                && final(rt).pending_exception == old(rt).pending_exception && final(rt).symbols
                == old(rt).symbols && final(rt).globals == old(rt).globals && final(rt).roots
                == old(rt).roots && !r.0.spec_is_frozen(&*final(rt)),
    {
        if n >= crate::value::FIXNUM_MIN && n <= FIXNUM_MAX {
            Integer(Fixnum::from_i64_in_range(n).as_value())
        } else if n < 0 {
            let magnitude: u64 = ((-(n + 1)) as u64) + 1;
            Integer(alloc_bignum(rt, true, magnitude))
        } else {
            Integer(alloc_bignum(rt, false, n as u64))
        }
    }

    /// Encode `n` as a fixnum when it fits, else as a big integer, exactly as
    /// `from_i64` does for non-negative values.
    pub fn from_u64(rt: &mut Ruby, n: u64) -> (r: Integer)
        requires
            old(rt).wf(),
            old(rt).has_room(),
        ensures
            final(rt).wf(),
            r.wf(&*final(rt)),
            r.spec_int(&*final(rt)) == n,
            final(rt).wf_value(r.0),
            n <= FIXNUM_MAX ==> *final(rt) == *old(rt) && r.0.spec_raw()
                == crate::value::fixnum_raw(n as i64),
            n > FIXNUM_MAX ==> final(rt).heap@.len() == old(rt).heap@.len() + 1 && final(rt).heap@.subrange(0, old(rt).heap@.len() as int) == old(rt).heap@ && final(rt).pending_exception == old(rt).pending_exception && final(rt).symbols == old(rt).symbols && final(rt).globals == old(rt).globals && final(rt).roots == old(rt).roots && !r.0.spec_is_frozen(&*final(rt)),
    {
        if n <= FIXNUM_MAX as u64 {
            Integer(Fixnum::from_i64_in_range(n as i64).as_value())
        } else {
            Integer(alloc_bignum(rt, false, n))
        }
    }

    /// Which of the two shapes this integer has; a pure test of the fixnum
    /// bit.
    pub fn integer_type(self, rt: &Ruby) -> (r: IntegerType)
        requires
            rt.wf(),
            self.wf(rt),
        ensures
            match r {
                IntegerType::Fixnum(f) => f.0 == self.0 && f.wf() && f.spec_int() == self.spec_int(
                    rt,
                ),
                IntegerType::Bignum(b) => b.0 == self.0 && b.wf(rt) && b.spec_int(rt)
                    == self.spec_int(rt),
            },
            (r is Fixnum) == is_fixnum_raw(self.0.spec_raw()),
    {
        if self.0.is_fixnum() {
            IntegerType::Fixnum(Fixnum(self.0))
        } else {
            IntegerType::Bignum(RBignum(self.0))
        }
    }

    /// Convert to an `i64`, rejecting big integers beyond its width with a
    /// range error.
    pub fn to_i64(self, rt: &Ruby) -> (r: Result<i64, Error>)
        requires
            rt.wf(),
            self.wf(rt),
        ensures
            match r {
                Ok(x) => i64::MIN <= self.spec_int(rt) <= i64::MAX && x == self.spec_int(rt),
                Err(e) => !(i64::MIN <= self.spec_int(rt) <= i64::MAX) && (e
                    matches Error::Raised { kind, message } && kind == ErrorKind::RangeError
                    && message@ == "bignum too big to convert into `i64`"@),
            },
    {
        match self.integer_type(rt) {
            IntegerType::Fixnum(f) => {
                proof {
                    lemma_fixnum_bounds(f.0.spec_raw());
                }
                Ok(f.to_i64())
            },
            IntegerType::Bignum(b) => b.to_i64(rt),
        }
    }

    /// Convert to an `i8`; only a fixnum can be in range, and a big integer
    /// reports the range error of its own kind.
    pub fn to_i8(self, rt: &Ruby) -> (r: Result<i8, Error>)
        requires
            rt.wf(),
            self.wf(rt),
        ensures
            match r {
                Ok(x) => i8::MIN <= self.spec_int(rt) <= i8::MAX && x == self.spec_int(rt),
                Err(e) => !(i8::MIN <= self.spec_int(rt) <= i8::MAX) && (e matches Error::Raised {
                    kind,
                    ..
                } && kind == ErrorKind::RangeError),
            },
    {
        match self.integer_type(rt) {
            IntegerType::Fixnum(f) => f.to_i8(),
            IntegerType::Bignum(_) => Err(
                Error::range_error("bignum too big to convert into `i8`"),
            ),
        }
    }

    /// Convert to an `i16`, as `to_i8` does for its width.
    pub fn to_i16(self, rt: &Ruby) -> (r: Result<i16, Error>)
        requires
            rt.wf(),
            self.wf(rt),
        ensures
            match r {
                Ok(x) => i16::MIN <= self.spec_int(rt) <= i16::MAX && x == self.spec_int(rt),
                Err(e) => !(i16::MIN <= self.spec_int(rt) <= i16::MAX) && (e
                    matches Error::Raised { kind, .. } && kind == ErrorKind::RangeError),
            },
    {
        match self.integer_type(rt) {
            IntegerType::Fixnum(f) => f.to_i16(),
            IntegerType::Bignum(_) => Err(
                Error::range_error("bignum too big to convert into `i16`"),
            ),
        }
    }

    /// Convert to an `i32`, as `to_i8` does for its width.
    pub fn to_i32(self, rt: &Ruby) -> (r: Result<i32, Error>)
        requires
            rt.wf(),
            self.wf(rt),
        ensures
            match r {
                Ok(x) => i32::MIN <= self.spec_int(rt) <= i32::MAX && x == self.spec_int(rt),
                Err(e) => !(i32::MIN <= self.spec_int(rt) <= i32::MAX) && (e
                    matches Error::Raised { kind, .. } && kind == ErrorKind::RangeError),
            },
    {
        match self.integer_type(rt) {
            IntegerType::Fixnum(f) => f.to_i32(),
            IntegerType::Bignum(_) => Err(
                Error::range_error("bignum too big to convert into `i32`"),
            ),
        }
    }

    /// Convert to an `isize`, as `to_i8` does for its width.
    pub fn to_isize(self, rt: &Ruby) -> (r: Result<isize, Error>)
        requires
            rt.wf(),
            self.wf(rt),
        ensures
            match r {
                Ok(x) => isize::MIN <= self.spec_int(rt) <= isize::MAX && x == self.spec_int(rt),
                Err(e) => !(isize::MIN <= self.spec_int(rt) <= isize::MAX) && (e
                    matches Error::Raised { kind, .. } && kind == ErrorKind::RangeError),
            },
    {
        match self.integer_type(rt) {
            IntegerType::Fixnum(f) => f.to_isize(),
            IntegerType::Bignum(b) => b.to_isize(rt),
        }
    }

    /// Convert to a `u8`, rejecting negatives before the width check.
    pub fn to_u8(self, rt: &Ruby) -> (r: Result<u8, Error>)
        requires
            rt.wf(),
            self.wf(rt),
        ensures
            match r {
                Ok(x) => 0 <= self.spec_int(rt) <= u8::MAX && x == self.spec_int(rt),
                Err(e) => !(0 <= self.spec_int(rt) <= u8::MAX) && (e matches Error::Raised {
                    kind,
                    ..
                } && kind == ErrorKind::RangeError),
            },
    {
        match self.integer_type(rt) {
            IntegerType::Fixnum(f) => f.to_u8(),
            IntegerType::Bignum(b) => {
                if b.is_negative(rt) {
                    proof {
                        assert(rt.slot_wf(rt.heap[ref_index(self.0.spec_raw())]));
                    }
                    Err(Error::range_error("can't convert negative integer to unsigned"))
                } else {
                    proof {
                        assert(rt.slot_wf(rt.heap[ref_index(self.0.spec_raw())]));
                    }
                    Err(Error::range_error("bignum too big to convert into `u8`"))
                }
            },
        }
    }

    /// Convert to a `u16`, as `to_u8` does for its width.
    pub fn to_u16(self, rt: &Ruby) -> (r: Result<u16, Error>)
        requires
            rt.wf(),
            self.wf(rt),
        ensures
            match r {
                Ok(x) => 0 <= self.spec_int(rt) <= u16::MAX && x == self.spec_int(rt),
                Err(e) => !(0 <= self.spec_int(rt) <= u16::MAX) && (e matches Error::Raised {
                    kind,
                    ..
                } && kind == ErrorKind::RangeError),
            },
    {
        match self.integer_type(rt) {
            IntegerType::Fixnum(f) => f.to_u16(),
            IntegerType::Bignum(b) => {
                proof {
                    assert(rt.slot_wf(rt.heap[ref_index(self.0.spec_raw())]));
                }
                if b.is_negative(rt) {
                    Err(Error::range_error("can't convert negative integer to unsigned"))
                } else {
                    Err(Error::range_error("bignum too big to convert into `u16`"))
                }
            },
        }
    }

    /// Convert to a `u32`, as `to_u8` does for its width.
    pub fn to_u32(self, rt: &Ruby) -> (r: Result<u32, Error>)
        requires
            rt.wf(),
            self.wf(rt),
        ensures
            match r {
                Ok(x) => 0 <= self.spec_int(rt) <= u32::MAX && x == self.spec_int(rt),
                Err(e) => !(0 <= self.spec_int(rt) <= u32::MAX) && (e matches Error::Raised {
                    kind,
                    ..
                } && kind == ErrorKind::RangeError),
            },
    {
        match self.integer_type(rt) {
            IntegerType::Fixnum(f) => f.to_u32(),
            IntegerType::Bignum(b) => {
                proof {
                    assert(rt.slot_wf(rt.heap[ref_index(self.0.spec_raw())]));
                }
                if b.is_negative(rt) {
                    Err(Error::range_error("can't convert negative integer to unsigned"))
                } else {
                    Err(Error::range_error("bignum too big to convert into `u32`"))
                }
            },
        }
    }

    /// Convert to a `usize`, as `to_u8` does for its width.
    pub fn to_usize(self, rt: &Ruby) -> (r: Result<usize, Error>)
        requires
            rt.wf(),
            self.wf(rt),
        ensures
            match r {
                Ok(x) => 0 <= self.spec_int(rt) <= usize::MAX && x == self.spec_int(rt),
                Err(e) => !(0 <= self.spec_int(rt) <= usize::MAX) && (e matches Error::Raised {
                    kind,
                    ..
                } && kind == ErrorKind::RangeError),
            },
    {
        match self.integer_type(rt) {
            IntegerType::Fixnum(f) => f.to_usize(),
            IntegerType::Bignum(b) => b.to_usize(rt),
        }
    }

    /// Convert to a `u64`, rejecting negatives with the distinct
    /// negative-to-unsigned message before any width check.
    pub fn to_u64(self, rt: &Ruby) -> (r: Result<u64, Error>)
        requires
            rt.wf(),
            self.wf(rt),
        ensures
            match r {
                Ok(x) => 0 <= self.spec_int(rt) <= u64::MAX && x == self.spec_int(rt),
                Err(e) => !(0 <= self.spec_int(rt) <= u64::MAX) && (e matches Error::Raised {
                    kind,
                    message,
                } && kind == ErrorKind::RangeError && message@ == (if self.spec_int(rt) < 0 {
                    "can't convert negative integer to unsigned"@
                } else {
                    "bignum too big to convert into `u64`"@
                })),
            },
    {
        match self.integer_type(rt) {
            IntegerType::Fixnum(f) => {
                proof {
                    lemma_fixnum_bounds(f.0.spec_raw());
                }
                f.to_u64()
            },
            IntegerType::Bignum(b) => b.to_u64(rt),
        }
    }
}

} // verus!
