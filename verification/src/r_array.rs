//! Heap-allocated arrays of tagged values.
//!
//! An array slot holds its elements in insertion order, and every operation
//! here speaks of that order; nothing is buffered or reordered.

use vstd::prelude::*;

use crate::error::{Error, ErrorKind};
use crate::runtime::{
    index_of_ref, lemma_builtin_names_preserved, lemma_header_bits, ref_index, ref_to, HeapData,
    HeapSlot, IDX_ARRAY, is_ref_raw, N_BUILTIN, Ruby,
};
use crate::try_convert::{converts, TryConvert};
use crate::value::{is_undef_raw, Value, QNIL_RAW};

verus! {

/// Whether a handle is a reference to an array slot.
pub open spec fn is_array_value(rt: &Ruby, v: Value) -> bool {
    &&& is_ref_raw(v.spec_raw())
    &&& 0 <= ref_index(v.spec_raw()) < rt.heap.len()
    &&& rt.heap[ref_index(v.spec_raw())].data is Array
}

/// A handle known to reference an array slot.
#[derive(Clone, Copy, PartialEq, Eq, Debug, Structural)]
pub struct RArray(pub Value);

impl RArray {
    pub open spec fn wf(self, rt: &Ruby) -> bool {
        is_array_value(rt, self.0)
    }

    /// The elements, in the runtime's own order.
    pub open spec fn spec_elems(self, rt: &Ruby) -> Seq<Value> {
        rt.heap[ref_index(self.0.spec_raw())].data->Array_elems@
    }

    /// Return `Some(RArray)` if `val` references an array slot, `None`
    /// otherwise. Nothing beyond the slot's tag is read.
    pub fn from_value(rt: &Ruby, val: Value) -> (r: Option<Self>)
        requires
            rt.wf(),
            rt.wf_value(val),
        ensures
            r == (if is_array_value(rt, val) {
                Some(RArray(val))
            } else {
                None::<RArray>
            }),
    {
        if val.is_immediate() {
            proof {
                if is_ref_raw(val.spec_raw()) {
                    crate::runtime::lemma_ref_not_immediate(val.spec_raw());
                }
            }
            return None;
        }
        proof {
            if crate::value::is_reachable_immediate(val.spec_raw()) {
                crate::value::lemma_immediate_classification(val.spec_raw());
            }
        }
        let idx: usize = index_of_ref(rt, val);
        match &rt.heap[idx].data {
            HeapData::Array { .. } => Some(RArray(val)),
            _ => None,
        }
    }

    /// The wrapped handle.
    pub fn as_value(self) -> (r: Value)
        ensures
            r == self.0,
    {
        self.0
    }

    /// Allocate a new empty array.
    pub fn new(rt: &mut Ruby) -> (r: RArray)
        requires
            old(rt).wf(),
            old(rt).has_room(),
        ensures
            final(rt).wf(),
            crate::runtime::extends(&*old(rt), &*final(rt)),
            r.wf(&*final(rt)),
            r.spec_elems(&*final(rt)) == Seq::<Value>::empty(),
            final(rt).heap@.len() == old(rt).heap@.len() + 1,
            !r.0.spec_is_frozen(&*final(rt)),
    {
        Self::from_vec(rt, Vec::new())
    }

    /// Allocate a new empty array; the capacity hint costs nothing here.
    pub fn with_capacity(rt: &mut Ruby, n: usize) -> (r: RArray)
        requires
            old(rt).wf(),
            old(rt).has_room(),
        ensures
            final(rt).wf(),
            crate::runtime::extends(&*old(rt), &*final(rt)),
            r.wf(&*final(rt)),
            r.spec_elems(&*final(rt)) == Seq::<Value>::empty(),
            final(rt).heap@.len() == old(rt).heap@.len() + 1,
            !r.0.spec_is_frozen(&*final(rt)),
    {
        Self::from_vec(rt, Vec::with_capacity(n))
    }

    /// Allocate an array holding the given elements, in their order.
    pub fn from_vec(rt: &mut Ruby, elems: Vec<Value>) -> (r: RArray)
        requires
            old(rt).wf(),
            old(rt).has_room(),
            forall|i: int| 0 <= i < elems@.len() ==> old(rt).wf_value(#[trigger] elems@[i]),
        ensures
            final(rt).wf(),
            crate::runtime::extends(&*old(rt), &*final(rt)),
            r.wf(&*final(rt)),
            r.spec_elems(&*final(rt)) == elems@,
            final(rt).heap@.len() == old(rt).heap@.len() + 1,
            !r.0.spec_is_frozen(&*final(rt)),
    {
        let klass: Value = ref_to(IDX_ARRAY);
        let slot = HeapSlot { flags: 0x07, klass, data: HeapData::Array { elems } };
        proof {
            lemma_header_bits(0x07, 0);
            assert(old(rt).slot_wf(slot));
        }
        let v: Value = rt.alloc_slot(slot);
        proof {
            crate::runtime::lemma_ref_not_immediate(v.spec_raw());
            lemma_header_bits(0x07, 0);
            assert(rt.heap@.subrange(0, old(rt).heap@.len() as int) =~= old(rt).heap@);
        }
        RArray(v)
    }

    /// Allocate an array holding a copy of the given slice, in its order.
    pub fn from_slice(rt: &mut Ruby, slice: &[Value]) -> (r: RArray)
        requires
            old(rt).wf(),
            old(rt).has_room(),
            forall|i: int| 0 <= i < slice@.len() ==> old(rt).wf_value(#[trigger] slice@[i]),
        ensures
            final(rt).wf(),
            crate::runtime::extends(&*old(rt), &*final(rt)),
            r.wf(&*final(rt)),
            r.spec_elems(&*final(rt)) == slice@,
            final(rt).heap@.len() == old(rt).heap@.len() + 1,
            !r.0.spec_is_frozen(&*final(rt)),
    {
        Self::from_vec(rt, vstd::slice::slice_to_vec(slice))
    }

    /// The number of elements.
    pub fn len(self, rt: &Ruby) -> (r: usize)
        requires
            rt.wf(),
            self.wf(rt),
        ensures
            r == self.spec_elems(rt).len(),
    {
        let idx: usize = index_of_ref(rt, self.0);
        match &rt.heap[idx].data {
            HeapData::Array { elems } => elems.len(),
            _ => 0,
        }
    }

    /// Whether the array holds no elements.
    pub fn is_empty(self, rt: &Ruby) -> (r: bool)
        requires
            rt.wf(),
            self.wf(rt),
        ensures
            r == (self.spec_elems(rt).len() == 0),
    {
        self.len(rt) == 0
    }

    /// Append one element. The runtime rejects mutation of a frozen array by
    /// raising straight into its own unwind, so a frozen receiver is excluded
    /// here; see `check_frozen`.
    pub fn push(self, rt: &mut Ruby, item: Value)
        requires
            old(rt).wf(),
            self.wf(&*old(rt)),
            !self.0.spec_is_frozen(&*old(rt)),
            old(rt).wf_value(item),
        ensures
            final(rt).wf(),
            self.wf(&*final(rt)),
            self.spec_elems(&*final(rt)) == self.spec_elems(&*old(rt)).push(item),
            array_sibling_frame(&*old(rt), &*final(rt), self),
    {
        let idx: usize = index_of_ref(rt, self.0);
        let ghost old_rt = *rt;
        let slot = &mut rt.heap[idx];
        match &mut slot.data {
            HeapData::Array { elems } => {
                elems.push(item);
            },
            _ => {},
        }
        proof {
            self.lemma_array_update_wf(&old_rt, rt, idx as int);
        }
    }

    /// Append every element of the slice, in its order. As with `push`, a
    /// frozen receiver is excluded.
    pub fn cat(self, rt: &mut Ruby, s: &[Value])
        requires
            old(rt).wf(),
            self.wf(&*old(rt)),
            !self.0.spec_is_frozen(&*old(rt)),
            forall|i: int| 0 <= i < s@.len() ==> old(rt).wf_value(#[trigger] s@[i]),
        ensures
            final(rt).wf(),
            self.wf(&*final(rt)),
            self.spec_elems(&*final(rt)) == self.spec_elems(&*old(rt)) + s@,
            array_sibling_frame(&*old(rt), &*final(rt), self),
    {
        let idx: usize = index_of_ref(rt, self.0);
        let ghost old_rt = *rt;
        let ghost old_elems = self.spec_elems(&*old(rt));
        let slot = &mut rt.heap[idx];
        match &mut slot.data {
            HeapData::Array { elems } => {
                let n: usize = s.len();
                let mut i: usize = 0;
                while i < n
                    invariant
                        n == s@.len(),
                        i <= n,
                        elems@ == old_elems + s@.subrange(0, i as int),
                        forall|j: int| 0 <= j < s@.len() ==> old_rt.wf_value(#[trigger] s@[j]),
                    decreases n - i,
                {
                    elems.push(s[i]);
                    proof {
                        assert(elems@ =~= old_elems + s@.subrange(0, i + 1));
                    }
                    i = i + 1;
                }
                proof {
                    assert(elems@ =~= old_elems + s@);
                }
            },
            _ => {},
        }
        proof {
            self.lemma_array_update_wf(&old_rt, rt, idx as int);
        }
    }

    /// Set the element at `offset`, padding with nil when the offset lies
    /// beyond the end; a negative offset counts from the end and errors when
    /// it reaches before the start.
    pub fn store(self, rt: &mut Ruby, offset: i64, val: Value) -> (r: Result<(), Error>)
        requires
            old(rt).wf(),
            self.wf(&*old(rt)),
            !self.0.spec_is_frozen(&*old(rt)),
            old(rt).wf_value(val),
            self.spec_elems(&*old(rt)).len() <= i64::MAX,
            (offset as int) < (usize::MAX as int),
        ensures
            final(rt).wf(),
            self.wf(&*final(rt)),
            array_sibling_frame(&*old(rt), &*final(rt), self),
            ({
                let es = self.spec_elems(&*old(rt));
                let n = es.len() as int;
                let i = if offset < 0 {
                    n + offset
                } else {
                    offset as int
                };
                if i < 0 {
                    (r matches Err(e) && (e matches Error::Raised { kind, message } && kind
                        == ErrorKind::IndexError && message@ == "index too small for array"@))
                        && self.spec_elems(&*final(rt)) == es
                } else {
                    r is Ok && self.spec_elems(&*final(rt)).len() == (if i < n {
                        n
                    } else {
                        i + 1
                    }) && self.spec_elems(&*final(rt))[i] == val && (forall|j: int|
                        0 <= j < n && j != i ==> self.spec_elems(&*final(rt))[j] == #[trigger] es[j])
                        && (forall|j: int|
                        n <= j < i ==> (#[trigger] self.spec_elems(&*final(rt))[j]).spec_raw()
                            == QNIL_RAW)
                }
            }),
    {
        let idx: usize = index_of_ref(rt, self.0);
        let ghost old_rt = *rt;
        let ghost es = self.spec_elems(&*old(rt));
        proof {
            self.lemma_elems_wf(&old_rt);
        }
        let slot = &mut rt.heap[idx];
        let r: Result<(), Error> = match &mut slot.data {
            HeapData::Array { elems } => {
                let n: usize = elems.len();
                let i: i64 = if offset < 0 {
                    n as i64 + offset
                } else {
                    offset
                };
                if i < 0 {
                    Err(Error::Raised {
                        kind: ErrorKind::IndexError,
                        message: <String as vstd::string::StringExecFns>::from_str(
                            "index too small for array",
                        ),
                    })
                } else if (i as u64) < n as u64 {
                    elems[i as usize] = val;
                    proof {
                        assert forall|j: int| 0 <= j < elems@.len() implies old_rt.wf_value(
                            #[trigger] elems@[j],
                        ) by {
                            if j != i as int {
                                assert(elems@[j] == es[j]);
                            }
                        }
                    }
                    Ok(())
                } else {
                    let target: usize = i as usize;
                    while elems.len() < target
                        invariant
                            old_rt.wf(),
                            old_rt.wf_value(val),
                            es.len() <= elems@.len() <= target,
                            elems@.subrange(0, es.len() as int) == es,
                            forall|j: int|
                                es.len() <= j < elems@.len() ==> (#[trigger] elems@[j]).spec_raw()
                                    == QNIL_RAW,
                            forall|j: int|
                                0 <= j < es.len() ==> old_rt.wf_value(#[trigger] es[j]),
                        decreases target - elems@.len(),
                    {
                        elems.push(Value::new(crate::value::QNIL_RAW));
                        proof {
                            assert(elems@.subrange(0, es.len() as int) =~= es);
                        }
                    }
                    elems.push(val);
                    proof {
                        assert(elems@.subrange(0, es.len() as int) =~= es);
                        assert forall|j: int| 0 <= j < elems@.len() implies old_rt.wf_value(
                            #[trigger] elems@[j],
                        ) by {
                            if j < es.len() {
                                assert(elems@[j] == es[j]);
                            } else if j < elems@.len() - 1 {
                                assert(elems@[j].spec_raw() == QNIL_RAW);
                            } else {
                                assert(elems@[j] == val);
                            }
                        }
                    }
                    Ok(())
                }
            },
            _ => Ok(()),
        };
        proof {
            self.lemma_array_update_wf(&old_rt, rt, idx as int);
        }
        r
    }

    /// Remove and return the last element; nil when the array is empty. As
    /// with `push`, a frozen receiver is excluded.
    pub fn pop(self, rt: &mut Ruby) -> (r: Value)
        requires
            old(rt).wf(),
            self.wf(&*old(rt)),
            !self.0.spec_is_frozen(&*old(rt)),
        ensures
            final(rt).wf(),
            self.wf(&*final(rt)),
            array_sibling_frame(&*old(rt), &*final(rt), self),
            old(rt).wf_value(r) || r.spec_raw() == QNIL_RAW,
            self.spec_elems(&*old(rt)).len() == 0 ==> r.spec_raw() == QNIL_RAW && self.spec_elems(
                &*final(rt),
            ) == self.spec_elems(&*old(rt)),
            self.spec_elems(&*old(rt)).len() > 0 ==> r == self.spec_elems(&*old(rt)).last()
                && self.spec_elems(&*final(rt)) == self.spec_elems(&*old(rt)).drop_last(),
    {
        let idx: usize = index_of_ref(rt, self.0);
        let ghost old_rt = *rt;
        let slot = &mut rt.heap[idx];
        let r: Value = match &mut slot.data {
            HeapData::Array { elems } => {
                match elems.pop() {
                    Some(v) => v,
                    None => Value::new(QNIL_RAW),
                }
            },
            _ => Value::new(QNIL_RAW),
        };
        proof {
            self.lemma_array_update_wf(&old_rt, rt, idx as int);
            if old_rt.heap[idx as int].data->Array_elems@.len() > 0 {
                assert(old_rt.slot_wf(old_rt.heap[idx as int]));
            }
        }
        r
    }

    /// The element at `offset`, nil when out of range; negative offsets count
    /// from the end.
    pub fn entry_value(self, rt: &Ruby, offset: i64) -> (r: Value)
        requires
            rt.wf(),
            self.wf(rt),
            self.spec_elems(rt).len() <= i64::MAX,
        ensures
            rt.wf_value(r) || r.spec_raw() == QNIL_RAW,
            ({
                let n = self.spec_elems(rt).len() as int;
                let i = if offset < 0 {
                    n + offset
                } else {
                    offset as int
                };
                if 0 <= i < n {
                    r == self.spec_elems(rt)[i]
                } else {
                    r.spec_raw() == QNIL_RAW
                }
            }),
    {
        let idx: usize = index_of_ref(rt, self.0);
        proof {
            assert(rt.slot_wf(rt.heap[idx as int]));
        }
        match &rt.heap[idx].data {
            HeapData::Array { elems } => {
                let n: usize = elems.len();
                let i: i64 = if offset < 0 {
                    n as i64 + offset
                } else {
                    offset
                };
                if 0 <= i && i < n as i64 {
                    elems[i as usize]
                } else {
                    Value::new(QNIL_RAW)
                }
            },
            _ => Value::new(QNIL_RAW),
        }
    }

    /// The element at `offset`, converted to `T`; an offset out of range
    /// reads as nil, so `Option<T>` sees absence there.
    pub fn entry<T: TryConvert>(self, rt: &Ruby, offset: i64) -> (r: Result<T, Error>)
        requires
            rt.wf(),
            self.wf(rt),
            self.spec_elems(rt).len() <= i64::MAX,
            forall|i: int|
                0 <= i < self.spec_elems(rt).len() ==> !is_undef_raw(
                    (#[trigger] self.spec_elems(rt)[i]).spec_raw(),
                ),
        ensures
            ({
                let n = self.spec_elems(rt).len() as int;
                let i = if offset < 0 {
                    n + offset
                } else {
                    offset as int
                };
                if 0 <= i < n {
                    T::convert_rel(rt, self.spec_elems(rt)[i], r)
                } else {
                    exists|nil: Value|
                        nil.spec_raw() == QNIL_RAW && #[trigger] T::convert_rel(rt, nil, r)
                }
            }),
    {
        let v: Value = self.entry_value(rt, offset);
        T::try_convert(rt, v)
    }

    /// A snapshot of the elements, in the runtime's own order.
    pub fn each(self, rt: &Ruby) -> (r: Vec<Value>)
        requires
            rt.wf(),
            self.wf(rt),
        ensures
            r@ == self.spec_elems(rt),
    {
        let idx: usize = index_of_ref(rt, self.0);
        match &rt.heap[idx].data {
            HeapData::Array { elems } => elems.clone(),
            _ => Vec::new(),
        }
    }

    /// Convert every element to a `T`, left to right, stopping at the first
    /// failure.
    pub fn to_vec<T: TryConvert>(self, rt: &Ruby) -> (r: Result<Vec<T>, Error>)
        requires
            rt.wf(),
            self.wf(rt),
            forall|i: int|
                0 <= i < self.spec_elems(rt).len() ==> !is_undef_raw(
                    (#[trigger] self.spec_elems(rt)[i]).spec_raw(),
                ),
        ensures
            match r {
                Ok(v) => v@.len() == self.spec_elems(rt).len() && (forall|i: int|
                    0 <= i < v@.len() ==> T::convert_rel(
                        rt,
                        self.spec_elems(rt)[i],
                        Ok(#[trigger] v@[i]),
                    )),
                Err(e) => exists|i: int|
                    #![trigger self.spec_elems(rt)[i]]
                    0 <= i < self.spec_elems(rt).len() && T::convert_rel(
                        rt,
                        self.spec_elems(rt)[i],
                        Err(e),
                    ) && (forall|j: int|
                        0 <= j < i ==> converts::<T>(rt, #[trigger] self.spec_elems(rt)[j])),
            },
    {
        let idx: usize = index_of_ref(rt, self.0);
        proof {
            assert(rt.slot_wf(rt.heap[idx as int]));
        }
        match &rt.heap[idx].data {
            HeapData::Array { elems } => {
                proof {
                    assert forall|j: int| 0 <= j < elems@.len() implies (rt.wf_value(
                        #[trigger] elems@[j],
                    ) && !is_undef_raw(elems@[j].spec_raw())) by {
                        assert(rt.slot_wf(rt.heap[ref_index(self.0.spec_raw())]));
                        assert(elems@[j] == self.spec_elems(rt)[j]);
                        assert(!is_undef_raw((self.spec_elems(rt)[j]).spec_raw()));
                    }
                }
                let mut out: Vec<T> = Vec::new();
                let n: usize = elems.len();
                let mut i: usize = 0;
                while i < n
                    invariant
                        rt.wf(),
                        self.wf(rt),
                        n == self.spec_elems(rt).len(),
                        elems@ == self.spec_elems(rt),
                        forall|j: int|
                            0 <= j < n ==> rt.wf_value(#[trigger] elems@[j]) && !is_undef_raw(
                                elems@[j].spec_raw(),
                            ),
                        i <= n,
                        out@.len() == i,
                        forall|j: int|
                            0 <= j < i ==> T::convert_rel(
                                rt,
                                self.spec_elems(rt)[j],
                                Ok(#[trigger] out@[j]),
                            ),
                    decreases n - i,
                {
                    let ghost out_view = out@;
                    match T::try_convert(rt, elems[i]) {
                        Ok(x) => {
                            out.push(x);
                        },
                        Err(e) => {
                            proof {
                                assert forall|j: int|
                                    0 <= j < i implies converts::<T>(
                                    rt,
                                    #[trigger] self.spec_elems(rt)[j],
                                ) by {
                                    assert(T::convert_rel(
                                        rt,
                                        self.spec_elems(rt)[j],
                                        Ok(out_view[j]),
                                    ));
                                }
                            }
                            return Err(e);
                        },
                    }
                    i = i + 1;
                }
                Ok(out)
            },
            _ => Ok(Vec::new()),
        }
    }

    /// Every element a well-formed array holds is itself well formed.
    proof fn lemma_elems_wf(self, rt: &Ruby)
        requires
            rt.wf(),
            self.wf(rt),
        ensures
            forall|j: int|
                0 <= j < self.spec_elems(rt).len() ==> rt.wf_value(
                    #[trigger] self.spec_elems(rt)[j],
                ),
    {
        let idx = ref_index(self.0.spec_raw());
        assert(rt.slot_wf(rt.heap[idx]));
        assert forall|j: int| 0 <= j < self.spec_elems(rt).len() implies rt.wf_value(
            #[trigger] self.spec_elems(rt)[j],
        ) by {
            assert(rt.wf_value(rt.heap[idx].data->Array_elems@[j]));
        }
    }

    /// How an array mutation leaves the rest of the runtime: every other slot
    /// and every other part of the state is untouched, and this array's slot
    /// still holds an array.
    proof fn lemma_array_update_wf(self, before: &Ruby, after: &Ruby, idx: int)
        requires
            before.wf(),
            is_array_value(before, self.0),
            idx == ref_index(self.0.spec_raw()),
            after.heap@.len() == before.heap@.len(),
            forall|k: int| 0 <= k < before.heap@.len() && k != idx ==> after.heap[k] == before.heap[k],
            after.heap[idx].flags == before.heap[idx].flags,
            after.heap[idx].klass == before.heap[idx].klass,
            after.heap[idx].data is Array,
            forall|j: int|
                0 <= j < after.heap[idx].data->Array_elems@.len() ==> before.wf_value(
                    #[trigger] after.heap[idx].data->Array_elems@[j],
                ),
            after.pending_exception == before.pending_exception,
            after.symbols == before.symbols,
            after.globals == before.globals,
            after.roots == before.roots,
        ensures
            after.wf(),
            array_sibling_frame(before, after, self),
    {
        assert(before.slot_wf(before.heap[idx]));
        if idx < N_BUILTIN {
            assert(before.heap[idx].data is ClassObj);
        }
        assert forall|k: int| 0 <= k < after.heap.len() implies after.slot_wf(
            #[trigger] after.heap[k],
        ) by {
            assert(before.slot_wf(before.heap[k]));
        }
        assert forall|i: int|
            0 <= i < after.globals.len() implies after.wf_value(#[trigger] after.globals[i].1) by {
            assert(before.wf_value(before.globals[i].1));
        }
        assert forall|i: int| 0 <= i < after.roots.len() implies after.wf_value(
            #[trigger] after.roots[i],
        ) by {
            assert(before.wf_value(before.roots[i]));
        }
        lemma_builtin_names_preserved(before, after);
    }
}

/// The frame of a mutation of one array: the heap keeps its length, every
/// other slot is untouched, and the rest of the runtime's state is as it was.
pub open spec fn array_sibling_frame(before: &Ruby, after: &Ruby, a: RArray) -> bool {
    &&& after.heap@.len() == before.heap@.len()
    &&& forall|k: int|
        0 <= k < before.heap@.len() && k != ref_index(a.0.spec_raw()) ==> after.heap[k]
            == #[trigger] before.heap[k]
    &&& after.heap[ref_index(a.0.spec_raw())].data is Array
    &&& after.pending_exception == before.pending_exception
    &&& after.symbols == before.symbols
    &&& after.globals == before.globals
    &&& after.roots == before.roots
}

} // verus!
