//! The handle type for a heap-allocated rational number.

use vstd::prelude::*;

use crate::runtime::{index_of_ref, ref_index, is_ref_raw, Ruby};
use crate::value::{lemma_tag_code_injective, tag_code_exec, Value, ValueType};

verus! {

/// A handle known to reference a slot with the rational number type tag.
#[derive(Clone, Copy, PartialEq, Eq, Debug, Structural)]
pub struct RRational(pub Value);

impl RRational {
    pub open spec fn wf(self, rt: &Ruby) -> bool {
        &&& is_ref_raw(self.0.spec_raw())
        &&& 0 <= ref_index(self.0.spec_raw()) < rt.heap.len()
        &&& rt.heap[ref_index(self.0.spec_raw())].data.tag() == ValueType::Rational
    }

    /// Return `Some` if `val` references a slot with the matching type tag,
    /// `None` otherwise. Nothing beyond the slot's tag field is read, however
    /// small the object.
    pub fn from_value(rt: &Ruby, val: Value) -> (r: Option<Self>)
        requires
            rt.wf(),
            rt.wf_value(val),
        ensures
            r == (if val.spec_type(rt) == ValueType::Rational && is_ref_raw(val.spec_raw()) {
                Some(RRational(val))
            } else {
                None::<RRational>
            }),
            r matches Some(w) ==> w.wf(rt),
    {
        if val.is_immediate() {
            proof {
                if is_ref_raw(val.spec_raw()) {
                    crate::runtime::lemma_ref_not_immediate(val.spec_raw());
                }
            }
            return None;
        }
        proof {
            if crate::value::is_reachable_immediate(val.spec_raw()) {
                crate::value::lemma_immediate_classification(val.spec_raw());
            }
        }
        let idx: usize = index_of_ref(rt, val);
        let slot_tag: u64 = rt.heap[idx].flags & crate::runtime::TAG_MASK;
        proof {
            assert(rt.slot_wf(rt.heap[idx as int]));
        }
        if slot_tag == tag_code_exec(ValueType::Rational) {
            proof {
                lemma_tag_code_injective(rt.heap[idx as int].data.tag(), ValueType::Rational);
            }
            Some(RRational(val))
        } else {
            None
        }
    }

    /// The wrapped handle.
    pub fn as_value(self) -> (r: Value)
        ensures
            r == self.0,
    {
        self.0
    }
}

} // verus!
