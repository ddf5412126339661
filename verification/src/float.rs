//! The runtime's floats: a compact immediate (flonum) where the platform
//! encoding has the bits for it, a heap slot otherwise.
//!
//! The library never computes with the number itself; it carries the raw bits
//! of the double-precision value. Whether a value can be a flonum is decided
//! by its bit pattern alone: the encoding rotates the word left by three and
//! tags the low bits, and it exists exactly for the exponent window where
//! that loses nothing. The fall-back boundary is exact round-trip equality,
//! never a tolerance: bits that do not survive the rotation go to the heap.

use vstd::prelude::*;

use crate::runtime::{
    index_of_ref, lemma_header_bits, ref_index, ref_to, HeapData, HeapSlot, IDX_FLOAT, is_ref_raw,
    Ruby,
};
use crate::value::{is_flonum_raw, Value};

verus! {

/// The flonum word for zero (the bits of positive zero rotate to a reserved
/// pattern, so it is encoded specially).
pub const FLONUM_ZERO: u64 = 0x8000_0000_0000_0002;

/// Whether double bits can be packed into a flonum: the exponent window whose
/// top four bits rotate away losslessly, plus positive zero; one pattern of
/// the window is reserved for the zero encoding and excluded.
pub open spec fn flonum_packable(bits: u64) -> bool {
    ||| bits == 0
    ||| (((bits >> 60) & 0x7 == 3 || (bits >> 60) & 0x7 == 4) && bits != 0x3000_0000_0000_0000)
}

/// The flonum word for packable double bits: the word rotated left by three,
/// low bits tagged.
pub open spec fn flonum_raw_of_bits(bits: u64) -> u64
    recommends
        flonum_packable(bits),
{
    if bits == 0 {
        FLONUM_ZERO
    } else {
        (((bits << 3) | (bits >> 61)) & !0x01) | 0x02
    }
}

/// The double bits a flonum word encodes: the rotation undone, the sign bit
/// deciding the reconstructed low bits.
pub open spec fn flonum_bits(v: u64) -> u64
    recommends
        is_flonum_raw(v),
{
    if v == FLONUM_ZERO {
        0
    } else {
        let restored = ((2 - (v >> 63)) as u64) | (v & !0x03);
        (restored >> 3) | (restored << 61)
    }
}

/// Packing double bits into a flonum loses nothing: the word is a flonum and
/// unpacking gives the bits back exactly. This is the fall-back boundary: any
/// other bits must go to the heap.
pub proof fn lemma_flonum_round_trip(bits: u64)
    by (bit_vector)
    requires
        bits == 0 || (((bits >> 60) & 0x7 == 3 || (bits >> 60) & 0x7 == 4) && bits
            != 0x3000_0000_0000_0000),
    ensures
        crate::value::is_flonum_raw(flonum_raw_of_bits(bits)),
        flonum_bits(flonum_raw_of_bits(bits)) == bits,
{
}

/// A handle known to be a flonum, the immediate encoding of doubles whose
/// bits fit.
#[derive(Clone, Copy, PartialEq, Eq, Debug, Structural)]
pub struct Flonum(pub Value);

impl Flonum {
    pub open spec fn wf(self) -> bool {
        is_flonum_raw(self.0.spec_raw())
    }

    /// The double bits this flonum encodes.
    pub open spec fn spec_bits(self) -> u64 {
        flonum_bits(self.0.spec_raw())
    }

    /// Return `Some(Flonum)` if `val` is a flonum, `None` otherwise; a pure
    /// test of the two low bits.
    pub fn from_value(val: Value) -> (r: Option<Self>)
        ensures
            r == (if is_flonum_raw(val.spec_raw()) {
                Some(Flonum(val))
            } else {
                None::<Flonum>
            }),
            r matches Some(f) ==> f.wf(),
    {
        if val.is_flonum() {
            Some(Flonum(val))
        } else {
            None
        }
    }

    /// The wrapped handle.
    pub fn as_value(self) -> (r: Value)
        ensures
            r == self.0,
    {
        self.0
    }

    /// Pack double bits into a flonum, when the compact encoding holds them
    /// exactly; `None` says the value needs a heap float instead — precision
    /// is never silently lost.
    pub fn from_bits(bits: u64) -> (r: Option<Flonum>)
        ensures
            r == (if flonum_packable(bits) {
                Some(Flonum((Value { raw: flonum_raw_of_bits(bits) })))
            } else {
                None::<Flonum>
            }),
            r matches Some(f) ==> f.wf() && f.spec_bits() == bits,
    {
        if bits == 0 {
            proof {
                lemma_flonum_round_trip(bits);
            }
            return Some(Flonum(Value::new(FLONUM_ZERO)));
        }
        let window: u64 = (bits >> 60) & 0x7;
        if (window == 3 || window == 4) && bits != 0x3000_0000_0000_0000 {
            proof {
                lemma_flonum_round_trip(bits);
            }
            Some(Flonum(Value::new((((bits << 3) | (bits >> 61)) & !0x01) | 0x02)))
        } else {
            None
        }
    }

    /// The double bits back out of the word.
    pub fn to_bits(self) -> (r: u64)
        requires
            self.wf(),
        ensures
            r == self.spec_bits(),
    {
        let v: u64 = self.0.as_raw();
        if v == FLONUM_ZERO {
            0
        } else {
            proof {
                assert(v >> 63 <= 1) by (bit_vector);
            }
            let restored: u64 = (2 - (v >> 63)) | (v & !0x03);
            (restored >> 3) | (restored << 61)
        }
    }
}

/// Whether a handle is a float of the runtime: a flonum immediate or a
/// reference to a heap float slot.
pub open spec fn is_float_value(rt: &Ruby, v: Value) -> bool {
    ||| is_flonum_raw(v.spec_raw())
    ||| (is_ref_raw(v.spec_raw()) && 0 <= ref_index(v.spec_raw()) < rt.heap.len() && rt.heap[
        ref_index(v.spec_raw())
    ].data is FloatObj)
}

/// The double bits a float handle stands for.
pub open spec fn float_bits(rt: &Ruby, v: Value) -> u64
    recommends
        is_float_value(rt, v),
{
    if is_flonum_raw(v.spec_raw()) {
        flonum_bits(v.spec_raw())
    } else {
        rt.heap[ref_index(v.spec_raw())].data->FloatObj_bits
    }
}

impl Ruby {
    /// Encode double bits as a float value: a flonum where the compact
    /// encoding holds them exactly, a fresh heap float otherwise. The bits
    /// come back out unchanged either way.
    pub fn float_from_bits(&mut self, bits: u64) -> (r: Float)
        requires
            old(self).wf(),
            old(self).has_room(),
        ensures
            final(self).wf(),
            crate::runtime::extends(&*old(self), &*final(self)),
            r.wf(&*final(self)),
            r.spec_bits(&*final(self)) == bits,
            flonum_packable(bits) ==> *final(self) == *old(self),
            !flonum_packable(bits) ==> final(self).heap@.len() == old(self).heap@.len() + 1
                && !r.0.spec_is_frozen(&*final(self)),
    {
        match Flonum::from_bits(bits) {
            Some(f) => {
                proof {
                    assert(self.heap@.subrange(0, old(self).heap@.len() as int) =~= old(
                        self,
                    ).heap@);
                }
                Float(f.as_value())
            },
            None => {
                let klass: Value = ref_to(IDX_FLOAT);
                let slot = HeapSlot { flags: 0x04, klass, data: HeapData::FloatObj { bits } };
                proof {
                    lemma_header_bits(0x04, 0);
                    assert(old(self).slot_wf(slot));
                }
                let v: Value = self.alloc_slot(slot);
                proof {
                    crate::runtime::lemma_ref_not_immediate(v.spec_raw());
                    lemma_header_bits(0x04, 0);
                    assert(self.heap@.subrange(0, old(self).heap@.len() as int) =~= old(
                        self,
                    ).heap@);
                }
                Float(v)
            },
        }
    }
}

/// A handle known to be a float: a flonum or a heap float.
#[derive(Clone, Copy, PartialEq, Eq, Debug, Structural)]
pub struct Float(pub Value);

impl Float {
    pub open spec fn wf(self, rt: &Ruby) -> bool {
        is_float_value(rt, self.0)
    }

    /// The double bits this float stands for.
    pub open spec fn spec_bits(self, rt: &Ruby) -> u64 {
        float_bits(rt, self.0)
    }

    /// Return `Some(Float)` if `val` is a flonum or a heap float, `None`
    /// otherwise. The flonum bits are tested first; only then is the heap
    /// slot's tag read.
    pub fn from_value(rt: &Ruby, val: Value) -> (r: Option<Self>)
        requires
            rt.wf(),
            rt.wf_value(val),
        ensures
            r == (if is_float_value(rt, val) {
                Some(Float(val))
            } else {
                None::<Float>
            }),
    {
        if val.is_flonum() {
            return Some(Float(val));
        }
        if val.is_immediate() {
            proof {
                if is_ref_raw(val.spec_raw()) {
                    crate::runtime::lemma_ref_not_immediate(val.spec_raw());
                }
            }
            return None;
        }
        proof {
            if crate::value::is_reachable_immediate(val.spec_raw()) {
                crate::value::lemma_immediate_classification(val.spec_raw());
            }
        }
        let idx: usize = index_of_ref(rt, val);
        match &rt.heap[idx].data {
            HeapData::FloatObj { .. } => Some(Float(val)),
            _ => None,
        }
    }

    /// The wrapped handle.
    pub fn as_value(self) -> (r: Value)
        ensures
            r == self.0,
    {
        self.0
    }

    /// The double bits back out: straight from a flonum's word, from the slot
    /// for a heap float.
    pub fn to_bits(self, rt: &Ruby) -> (r: u64)
        requires
            rt.wf(),
            self.wf(rt),
        ensures
            r == self.spec_bits(rt),
    {
        if self.0.is_flonum() {
            return Flonum(self.0).to_bits();
        }
        proof {
            crate::runtime::lemma_ref_not_immediate(self.0.spec_raw());
        }
        let idx: usize = index_of_ref(rt, self.0);
        match &rt.heap[idx].data {
            HeapData::FloatObj { bits } => *bits,
            _ => 0,
        }
    }
}

} // verus!
