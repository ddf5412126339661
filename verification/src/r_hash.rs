//! Heap-allocated hashes of tagged values.
//!
//! A hash slot holds its key-value pairs in insertion order, which is the
//! order the runtime enumerates them in; iteration here follows it and
//! buffers nothing. Keys compare by handle bit pattern, as the tagged-value
//! core defines equality.

use vstd::prelude::*;

use crate::error::{Error, ErrorKind};
use crate::runtime::{
    index_of_ref, lemma_builtin_names_preserved, lemma_header_bits, ref_index, ref_to, HeapData,
    HeapSlot, IDX_HASH, is_ref_raw, N_BUILTIN, Ruby,
};
use crate::try_convert::{converts, TryConvert};
use crate::value::{Value, QNIL_RAW};

verus! {

/// What an iteration callback tells the runtime to do with the entry it was
/// shown: keep going, stop here, or delete the entry.
#[derive(Clone, Copy, PartialEq, Eq, Debug, Structural)]
pub enum ForEach {
    Continue,
    Stop,
    Delete,
}

/// Whether a handle is a reference to a hash slot.
pub open spec fn is_hash_value(rt: &Ruby, v: Value) -> bool {
    &&& is_ref_raw(v.spec_raw())
    &&& 0 <= ref_index(v.spec_raw()) < rt.heap.len()
    &&& rt.heap[ref_index(v.spec_raw())].data is Hash
}

/// The position of `key` among the pairs, by handle equality; negative when
/// absent.
pub open spec fn key_index(pairs: Seq<(Value, Value)>, key: Value) -> int
    decreases pairs.len(),
{
    if pairs.len() == 0 {
        -1
    } else if pairs[0].0.spec_raw() == key.spec_raw() {
        0
    } else {
        let sub = key_index(pairs.skip(1), key);
        if sub < 0 {
            -1
        } else {
            1 + sub
        }
    }
}

/// Where `key_index` points: at the first matching pair, with none before it;
/// or nowhere, and then no pair matches.
pub proof fn lemma_key_index(pairs: Seq<(Value, Value)>, key: Value)
    ensures
        -1 <= key_index(pairs, key) < pairs.len(),
        key_index(pairs, key) >= 0 ==> pairs[key_index(pairs, key)].0.spec_raw() == key.spec_raw(),
        forall|j: int|
            0 <= j < key_index(pairs, key) ==> (#[trigger] pairs[j]).0.spec_raw()
                != key.spec_raw(),
        key_index(pairs, key) == -1 ==> forall|j: int|
            0 <= j < pairs.len() ==> (#[trigger] pairs[j]).0.spec_raw() != key.spec_raw(),
    decreases pairs.len(),
{
    if pairs.len() > 0 && pairs[0].0.spec_raw() != key.spec_raw() {
        lemma_key_index(pairs.skip(1), key);
        assert forall|j: int|
            0 <= j < key_index(pairs, key) implies (#[trigger] pairs[j]).0.spec_raw()
            != key.spec_raw() by {
            if j > 0 {
                assert(pairs.skip(1)[j - 1] == pairs[j]);
            }
        }
        if key_index(pairs, key) == -1 {
            assert forall|j: int|
                0 <= j < pairs.len() implies (#[trigger] pairs[j]).0.spec_raw()
                != key.spec_raw() by {
                if j > 0 {
                    assert(pairs.skip(1)[j - 1] == pairs[j]);
                }
            }
        }
    }
}

/// The pairs an iteration keeps, given the decision the callback returned for
/// each processed entry: deleted entries leave, the rest stay in order.
pub open spec fn kept_pairs(ps: Seq<(Value, Value)>, ds: Seq<ForEach>) -> Seq<(Value, Value)>
    recommends
        ds.len() <= ps.len(),
    decreases ds.len(),
{
    if ds.len() == 0 {
        Seq::empty()
    } else {
        let prefix = kept_pairs(ps, ds.drop_last());
        if ds.last() is Delete {
            prefix
        } else {
            prefix.push(ps[ds.len() - 1])
        }
    }
}

/// A handle known to reference a hash slot.
#[derive(Clone, Copy, PartialEq, Eq, Debug, Structural)]
pub struct RHash(pub Value);

/// The record an iteration leaves behind: one decision of `f` per processed
/// pair, in order; only the last decision may be a stop; the surviving pairs
/// are the kept prefix followed by the unprocessed rest; and the result says
/// how the iteration ended — it ran out of pairs, it was stopped, or `f`
/// failed on the next pair.
pub open spec fn foreach_trace<F: Fn(Value, Value) -> Result<ForEach, Error>>(
    f: F,
    ps: Seq<(Value, Value)>,
    final_ps: Seq<(Value, Value)>,
    ds: Seq<ForEach>,
    r: Result<(), Error>,
) -> bool {
    &&& ds.len() <= ps.len()
    &&& (forall|i: int|
        0 <= i < ds.len() ==> call_ensures(f, ((#[trigger] ps[i]).0, ps[i].1), Ok(ds[i])))
    &&& (forall|i: int| 0 <= i < ds.len() - 1 ==> (#[trigger] ds[i]) != ForEach::Stop)
    &&& final_ps == kept_pairs(ps, ds) + ps.skip(ds.len() as int)
    &&& match r {
        Ok(_) => ds.len() == ps.len() || (ds.len() > 0 && ds.last() == ForEach::Stop),
        Err(e) => ds.len() < ps.len() && call_ensures(
            f,
            (ps[ds.len() as int].0, ps[ds.len() as int].1),
            Err(e),
        ),
    }
}

/// The pairs convert, pair by pair, to the given host pairs: the witnesses of
/// a whole-hash conversion.
pub open spec fn pairs_converted_to<K: crate::try_convert::TryConvert, V: crate::try_convert::TryConvert>(
    rt: &Ruby,
    ps: Seq<(Value, Value)>,
    ws: Seq<(K, V)>,
) -> bool {
    &&& ws.len() == ps.len()
    &&& forall|i: int| #![trigger ws[i]]
        0 <= i < ps.len() ==> K::convert_rel(rt, ps[i].0, Ok(ws[i].0)) && V::convert_rel(
            rt,
            ps[i].1,
            Ok(ws[i].1),
        )
}

/// The frame of a mutation of one hash: the heap keeps its length, every
/// other slot is untouched, and the rest of the runtime's state is as it was.
pub open spec fn hash_sibling_frame(before: &Ruby, after: &Ruby, h: RHash) -> bool {
    &&& after.heap@.len() == before.heap@.len()
    &&& forall|k: int|
        0 <= k < before.heap@.len() && k != ref_index(h.0.spec_raw()) ==> after.heap[k]
            == #[trigger] before.heap[k]
    &&& after.heap[ref_index(h.0.spec_raw())].data is Hash
    &&& after.pending_exception == before.pending_exception
    &&& after.symbols == before.symbols
    &&& after.globals == before.globals
    &&& after.roots == before.roots
}

impl RHash {
    pub open spec fn wf(self, rt: &Ruby) -> bool {
        is_hash_value(rt, self.0)
    }

    /// The key-value pairs, in the runtime's own enumeration order.
    pub open spec fn spec_pairs(self, rt: &Ruby) -> Seq<(Value, Value)> {
        rt.heap[ref_index(self.0.spec_raw())].data->Hash_pairs@
    }

    /// What a key reads as: the value of the first pair whose key matches, by
    /// handle equality.
    pub open spec fn spec_lookup(self, rt: &Ruby, key: Value) -> Option<Value> {
        let ki = key_index(self.spec_pairs(rt), key);
        if ki >= 0 {
            Some(self.spec_pairs(rt)[ki].1)
        } else {
            None
        }
    }

    /// Return `Some(RHash)` if `val` references a hash slot, `None`
    /// otherwise. Nothing beyond the slot's tag is read.
    pub fn from_value(rt: &Ruby, val: Value) -> (r: Option<Self>)
        requires
            rt.wf(),
            rt.wf_value(val),
        ensures
            r == (if is_hash_value(rt, val) {
                Some(RHash(val))
            } else {
                None::<RHash>
            }),
    {
        if val.is_immediate() {
            proof {
                if is_ref_raw(val.spec_raw()) {
                    crate::runtime::lemma_ref_not_immediate(val.spec_raw());
                }
            }
            return None;
        }
        proof {
            if crate::value::is_reachable_immediate(val.spec_raw()) {
                crate::value::lemma_immediate_classification(val.spec_raw());
            }
        }
        let idx: usize = index_of_ref(rt, val);
        match &rt.heap[idx].data {
            HeapData::Hash { .. } => Some(RHash(val)),
            _ => None,
        }
    }

    /// The wrapped handle.
    pub fn as_value(self) -> (r: Value)
        ensures
            r == self.0,
    {
        self.0
    }

    /// Allocate a new empty hash.
    pub fn new(rt: &mut Ruby) -> (r: RHash)
        requires
            old(rt).wf(),
            old(rt).has_room(),
        ensures
            final(rt).wf(),
            crate::runtime::extends(&*old(rt), &*final(rt)),
            r.wf(&*final(rt)),
            r.spec_pairs(&*final(rt)) == Seq::<(Value, Value)>::empty(),
            final(rt).heap@.len() == old(rt).heap@.len() + 1,
            !r.0.spec_is_frozen(&*final(rt)),
    {
        let klass: Value = ref_to(IDX_HASH);
        let slot = HeapSlot { flags: 0x08, klass, data: HeapData::Hash { pairs: Vec::new() } };
        proof {
            lemma_header_bits(0x08, 0);
            assert(old(rt).slot_wf(slot));
        }
        let v: Value = rt.alloc_slot(slot);
        proof {
            crate::runtime::lemma_ref_not_immediate(v.spec_raw());
            lemma_header_bits(0x08, 0);
            assert(rt.heap@.subrange(0, old(rt).heap@.len() as int) =~= old(rt).heap@);
        }
        RHash(v)
    }

    /// The number of pairs.
    pub fn len(self, rt: &Ruby) -> (r: usize)
        requires
            rt.wf(),
            self.wf(rt),
        ensures
            r == self.spec_pairs(rt).len(),
    {
        let idx: usize = index_of_ref(rt, self.0);
        match &rt.heap[idx].data {
            HeapData::Hash { pairs } => pairs.len(),
            _ => 0,
        }
    }

    /// The number of pairs, as a fixnum of the runtime.
    pub fn size(self, rt: &Ruby) -> (r: crate::value::Fixnum)
        requires
            rt.wf(),
            self.wf(rt),
            self.spec_pairs(rt).len() <= crate::value::FIXNUM_MAX,
        ensures
            r.wf(),
            r.spec_int() == self.spec_pairs(rt).len(),
    {
        let n: usize = self.len(rt);
        crate::value::Fixnum::from_i64_in_range(n as i64)
    }

    /// Whether the hash holds no pairs.
    pub fn is_empty(self, rt: &Ruby) -> (r: bool)
        requires
            rt.wf(),
            self.wf(rt),
        ensures
            r == (self.spec_pairs(rt).len() == 0),
    {
        self.len(rt) == 0
    }

    /// The position of `key` among the pairs, by handle equality.
    fn index_of_key(self, rt: &Ruby, key: Value) -> (r: Option<usize>)
        requires
            rt.wf(),
            self.wf(rt),
        ensures
            match r {
                Some(i) => i == key_index(self.spec_pairs(rt), key),
                None => key_index(self.spec_pairs(rt), key) == -1,
            },
    {
        let idx: usize = index_of_ref(rt, self.0);
        let ghost ps = self.spec_pairs(rt);
        proof {
            lemma_key_index(ps, key);
        }
        match &rt.heap[idx].data {
            HeapData::Hash { pairs } => {
                let n: usize = pairs.len();
                let mut i: usize = 0;
                while i < n
                    invariant
                        rt.wf(),
                        self.wf(rt),
                        ps == self.spec_pairs(rt),
                        n == pairs.len(),
                        pairs@ == ps,
                        i <= n,
                        forall|j: int|
                            0 <= j < i ==> (#[trigger] ps[j]).0.spec_raw() != key.spec_raw(),
                    decreases n - i,
                {
                    if pairs[i].0.as_raw() == key.as_raw() {
                        proof {
                            assert(ps[i as int] == pairs@[i as int]);
                            assert(ps[i as int].0.spec_raw() == key.spec_raw());
                            lemma_key_index_agrees(ps, key, i as int);
                        }
                        return Some(i);
                    }
                    i = i + 1;
                }
                proof {
                    if key_index(ps, key) >= 0 {
                        assert(ps[key_index(ps, key)].0.spec_raw() == key.spec_raw());
                    }
                }
                None
            },
            _ => None,
        }
    }

    /// Set `key` to `val`: overwrite the value of an existing matching key in
    /// place, else append the pair. A frozen hash is never touched: the
    /// mutation attempt comes back as the frozen error, naming the class.
    pub fn aset(self, rt: &mut Ruby, key: Value, val: Value) -> (r: Result<(), Error>)
        requires
            old(rt).wf(),
            self.wf(&*old(rt)),
            old(rt).wf_value(key),
            old(rt).wf_value(val),
        ensures
            final(rt).wf(),
            self.wf(&*final(rt)),
            hash_sibling_frame(&*old(rt), &*final(rt), self),
            self.0.spec_is_frozen(&*old(rt)) ==> *final(rt) == *old(rt) && (r matches Err(e) && (e
                matches Error::Raised { kind, message } && kind == ErrorKind::FrozenError
                && message@ == "can't modify frozen "@ + self.0.spec_classname(&*old(rt)))),
            !self.0.spec_is_frozen(&*old(rt)) ==> r is Ok && ({
                let ps = self.spec_pairs(&*old(rt));
                let ki = key_index(ps, key);
                if ki >= 0 {
                    self.spec_pairs(&*final(rt)) == ps.update(ki, (ps[ki].0, val))
                } else {
                    self.spec_pairs(&*final(rt)) == ps.push((key, val))
                }
            }) && self.spec_lookup(&*final(rt), key) == Some(val),
    {
        proof {
            crate::runtime::lemma_ref_not_immediate(self.0.spec_raw());
        }
        match self.0.check_frozen(&*rt) {
            Err(e) => {
                return Err(e);
            },
            Ok(_) => {},
        }
        let found: Option<usize> = self.index_of_key(&*rt, key);
        let idx: usize = index_of_ref(rt, self.0);
        let ghost old_rt = *rt;
        let ghost ps = self.spec_pairs(&*old(rt));
        proof {
            lemma_key_index(ps, key);
        }
        let slot = &mut rt.heap[idx];
        match &mut slot.data {
            HeapData::Hash { pairs } => {
                match found {
                    Some(i) => {
                        let k0: Value = pairs[i].0;
                        pairs[i] = (k0, val);
                    },
                    None => {
                        pairs.push((key, val));
                    },
                }
            },
            _ => {},
        }
        proof {
            self.lemma_pairs_wf(&old_rt);
            let new_ps = rt.heap[idx as int].data->Hash_pairs@;
            assert forall|j: int|
                0 <= j < new_ps.len() implies old_rt.wf_value((#[trigger] new_ps[j]).0)
                && old_rt.wf_value(new_ps[j].1) by {
                match found {
                    Some(i) => {
                        if j != i {
                            assert(new_ps[j] == ps[j]);
                        } else {
                            assert(new_ps[j].0 == ps[j].0);
                            assert(new_ps[j].1 == val);
                        }
                    },
                    None => {
                        if j < ps.len() {
                            assert(new_ps[j] == ps[j]);
                        } else {
                            assert(new_ps[j] == (key, val));
                        }
                    },
                }
            }
            self.lemma_hash_update_wf(&old_rt, rt, idx as int);
            lemma_key_index_stable(ps, self.spec_pairs(rt), key);
        }
        Ok(())
    }

    /// The value under `key`, or nil when absent — the hash's default.
    pub fn aref(self, rt: &Ruby, key: Value) -> (r: Value)
        requires
            rt.wf(),
            self.wf(rt),
        ensures
            match self.spec_lookup(rt, key) {
                Some(v) => r == v,
                None => r.spec_raw() == QNIL_RAW,
            },
    {
        match self.get(rt, key) {
            Some(v) => v,
            None => Value::new(QNIL_RAW),
        }
    }

    /// The value under `key`, or nil when absent.
    pub fn lookup(self, rt: &Ruby, key: Value) -> (r: Value)
        requires
            rt.wf(),
            self.wf(rt),
        ensures
            match self.spec_lookup(rt, key) {
                Some(v) => r == v,
                None => r.spec_raw() == QNIL_RAW,
            },
    {
        self.aref(rt, key)
    }

    /// The value under `key`, or `None` when absent.
    pub fn get(self, rt: &Ruby, key: Value) -> (r: Option<Value>)
        requires
            rt.wf(),
            self.wf(rt),
        ensures
            r == self.spec_lookup(rt, key),
    {
        proof {
            lemma_key_index(self.spec_pairs(rt), key);
        }
        match self.index_of_key(rt, key) {
            Some(i) => {
                let idx: usize = index_of_ref(rt, self.0);
                match &rt.heap[idx].data {
                    HeapData::Hash { pairs } => Some(pairs[i].1),
                    _ => None,
                }
            },
            None => None,
        }
    }

    /// The value under `key`, or a key-error when absent.
    pub fn fetch(self, rt: &Ruby, key: Value) -> (r: Result<Value, Error>)
        requires
            rt.wf(),
            self.wf(rt),
        ensures
            match self.spec_lookup(rt, key) {
                Some(v) => r == Ok::<Value, Error>(v),
                None => r matches Err(e) && (e matches Error::Raised { kind, message } && kind
                    == ErrorKind::KeyError && message@ == "key not found"@),
            },
    {
        match self.get(rt, key) {
            Some(v) => Ok(v),
            None => Err(
                Error::Raised {
                    kind: ErrorKind::KeyError,
                    message: <String as vstd::string::StringExecFns>::from_str("key not found"),
                },
            ),
        }
    }

    /// A snapshot of the pairs, in the runtime's own enumeration order.
    pub fn entries(self, rt: &Ruby) -> (r: Vec<(Value, Value)>)
        requires
            rt.wf(),
            self.wf(rt),
        ensures
            r@ == self.spec_pairs(rt),
    {
        let r: Vec<(Value, Value)> = self.tail_from(rt, 0);
        proof {
            assert(self.spec_pairs(rt).skip(0) =~= self.spec_pairs(rt));
        }
        r
    }

    /// Convert every pair, in enumeration order: each key to a `K` and each
    /// value to a `V`, stopping at the first conversion failure, whose own
    /// error comes back.
    pub fn to_vec<K: crate::try_convert::TryConvert, V: crate::try_convert::TryConvert>(
        self,
        rt: &Ruby,
    ) -> (r: Result<Vec<(K, V)>, Error>)
        requires
            rt.wf(),
            self.wf(rt),
            forall|i: int|
                0 <= i < self.spec_pairs(rt).len() ==> !crate::value::is_undef_raw(
                    (#[trigger] self.spec_pairs(rt)[i]).0.spec_raw(),
                ) && !crate::value::is_undef_raw(self.spec_pairs(rt)[i].1.spec_raw()),
        ensures
            match r {
                Ok(out) => out@.len() == self.spec_pairs(rt).len() && (forall|i: int|
                    0 <= i < out@.len() ==> K::convert_rel(
                        rt,
                        (#[trigger] self.spec_pairs(rt)[i]).0,
                        Ok(out@[i].0),
                    ) && V::convert_rel(rt, self.spec_pairs(rt)[i].1, Ok(out@[i].1))),
                Err(e) => exists|i: int|
                    #![trigger self.spec_pairs(rt)[i]]
                    0 <= i < self.spec_pairs(rt).len() && (K::convert_rel(
                        rt,
                        self.spec_pairs(rt)[i].0,
                        Err(e),
                    ) || (converts::<K>(rt, self.spec_pairs(rt)[i].0) && V::convert_rel(
                        rt,
                        self.spec_pairs(rt)[i].1,
                        Err(e),
                    ))) && (forall|j: int|
                        0 <= j < i ==> converts::<K>(rt, (#[trigger] self.spec_pairs(rt)[j]).0)
                            && converts::<V>(rt, self.spec_pairs(rt)[j].1)),
            },
    {
        let ghost ps = self.spec_pairs(rt);
        let snapshot: Vec<(Value, Value)> = self.entries(rt);
        let mut out: Vec<(K, V)> = Vec::new();
        let n: usize = snapshot.len();
        let mut i: usize = 0;
        while i < n
            invariant
                rt.wf(),
                self.wf(rt),
                ps == self.spec_pairs(rt),
                snapshot@ == ps,
                n == ps.len(),
                i <= n,
                out@.len() == i,
                forall|j: int|
                    0 <= j < ps.len() ==> rt.wf_value((#[trigger] ps[j]).0) && rt.wf_value(
                        ps[j].1,
                    ) && !crate::value::is_undef_raw(ps[j].0.spec_raw())
                        && !crate::value::is_undef_raw(ps[j].1.spec_raw()),
                forall|j: int|
                    0 <= j < i ==> K::convert_rel(rt, (#[trigger] ps[j]).0, Ok(out@[j].0))
                        && V::convert_rel(rt, ps[j].1, Ok(out@[j].1)),
            decreases n - i,
        {
            let ghost out_view = out@;
            let k: K = match K::try_convert(rt, snapshot[i].0) {
                Ok(k) => k,
                Err(e) => {
                    proof {
                        assert forall|j: int|
                            0 <= j < i implies converts::<K>(rt, (#[trigger] ps[j]).0)
                            && converts::<V>(rt, ps[j].1) by {
                            assert(K::convert_rel(rt, ps[j].0, Ok(out_view[j].0)));
                            assert(V::convert_rel(rt, ps[j].1, Ok(out_view[j].1)));
                        }
                    }
                    return Err(e);
                },
            };
            let v: V = match V::try_convert(rt, snapshot[i].1) {
                Ok(v) => v,
                Err(e) => {
                    proof {
                        assert(converts::<K>(rt, ps[i as int].0)) by {
                            assert(K::convert_rel(rt, ps[i as int].0, Ok(k)));
                        }
                        assert forall|j: int|
                            0 <= j < i implies converts::<K>(rt, (#[trigger] ps[j]).0)
                            && converts::<V>(rt, ps[j].1) by {
                            assert(K::convert_rel(rt, ps[j].0, Ok(out_view[j].0)));
                            assert(V::convert_rel(rt, ps[j].1, Ok(out_view[j].1)));
                        }
                    }
                    return Err(e);
                },
            };
            out.push((k, v));
            i = i + 1;
        }
        proof {
            self.lemma_pairs_wf(rt);
        }
        Ok(out)
    }

    /// Convert every pair and collect the result into a host hash map, in
    /// enumeration order, stopping at the first conversion failure. A key
    /// that repeats after conversion keeps the last value, as repeated
    /// insertion does.
    pub fn to_hash_map<K: crate::try_convert::TryConvert + core::cmp::Eq + core::hash::Hash, V: crate::try_convert::TryConvert>(
        self,
        rt: &Ruby,
    ) -> (r: Result<std::collections::HashMap<K, V>, Error>)
        requires
            rt.wf(),
            self.wf(rt),
            forall|i: int|
                0 <= i < self.spec_pairs(rt).len() ==> !crate::value::is_undef_raw(
                    (#[trigger] self.spec_pairs(rt)[i]).0.spec_raw(),
                ) && !crate::value::is_undef_raw(self.spec_pairs(rt)[i].1.spec_raw()),
        ensures
            match r {
                Ok(_) => exists|ws: Seq<(K, V)>| #[trigger]
                    pairs_converted_to::<K, V>(rt, self.spec_pairs(rt), ws),
                Err(e) => exists|i: int|
                    #![trigger self.spec_pairs(rt)[i]]
                    0 <= i < self.spec_pairs(rt).len() && (K::convert_rel(
                        rt,
                        self.spec_pairs(rt)[i].0,
                        Err(e),
                    ) || (converts::<K>(rt, self.spec_pairs(rt)[i].0) && V::convert_rel(
                        rt,
                        self.spec_pairs(rt)[i].1,
                        Err(e),
                    ))) && (forall|j: int|
                        0 <= j < i ==> converts::<K>(rt, (#[trigger] self.spec_pairs(rt)[j]).0)
                            && converts::<V>(rt, self.spec_pairs(rt)[j].1)),
            },
    {
        let converted: Vec<(K, V)> = match self.to_vec::<K, V>(rt) {
            Ok(v) => v,
            Err(e) => {
                return Err(e);
            },
        };
        let ghost converted_view = converted@;
        proof {
            assert(pairs_converted_to::<K, V>(rt, self.spec_pairs(rt), converted_view));
        }
        let mut map: std::collections::HashMap<K, V> = std::collections::HashMap::new();
        let mut it: Vec<(K, V)> = converted;
        loop
            invariant
                rt.wf(),
                self.wf(rt),
                pairs_converted_to::<K, V>(rt, self.spec_pairs(rt), converted_view),
            decreases it@.len(),
        {
            match it.pop() {
                Some(pair) => {
                    map.insert(pair.0, pair.1);
                },
                None => {
                    break ;
                },
            }
        }
        Ok(map)
    }

    /// Show every pair to `f`, in enumeration order, honouring its decision
    /// for each: keep the entry and go on, keep it and stop, or delete it.
    /// An error from `f` ends the iteration, keeps the entry it was shown,
    /// and comes back out. The decisions can delete entries, so a frozen
    /// hash is not iterated.
    #[verifier::rlimit(80)]
    pub fn foreach<F: Fn(Value, Value) -> Result<ForEach, Error>>(
        self,
        rt: &mut Ruby,
        f: F,
    ) -> (r: Result<(), Error>)
        requires
            old(rt).wf(),
            self.wf(&*old(rt)),
            !self.0.spec_is_frozen(&*old(rt)),
            forall|k: Value, v: Value| call_requires(f, (k, v)),
        ensures
            final(rt).wf(),
            self.wf(&*final(rt)),
            hash_sibling_frame(&*old(rt), &*final(rt), self),
            exists|ds: Seq<ForEach>| #[trigger]
                foreach_trace(
                    f,
                    self.spec_pairs(&*old(rt)),
                    self.spec_pairs(&*final(rt)),
                    ds,
                    r,
                ),
    {
        let ghost old_rt = *rt;
        let ghost ps = self.spec_pairs(&*old(rt));
        let snapshot: Vec<(Value, Value)> = self.entries(&*rt);
        proof {
            let idx0 = ref_index(self.0.spec_raw());
            assert(rt.slot_wf(rt.heap[idx0]));
            assert forall|j: int| 0 <= j < ps.len() implies rt.wf_value(
                (#[trigger] ps[j]).0,
            ) && rt.wf_value(ps[j].1) by {
                assert(rt.wf_value(rt.heap[idx0].data->Hash_pairs@[j].0));
                assert(rt.wf_value(rt.heap[idx0].data->Hash_pairs@[j].1));
                assert(rt.heap[idx0].data->Hash_pairs@[j] == ps[j]);
            }
        }
        let n: usize = snapshot.len();
        let mut kept: Vec<(Value, Value)> = Vec::new();
        let mut i: usize = 0;
        let ghost mut ds: Seq<ForEach> = Seq::empty();
        let mut outcome: Result<(), Error> = Ok(());
        let mut stopped: bool = false;
        while i < n && !stopped
            invariant
                old_rt == *old(rt),
                *rt == old_rt,
                rt.wf(),
                self.wf(rt),
                self.spec_pairs(rt) == ps,
                ps == self.spec_pairs(&*old(rt)),
                snapshot@ == ps,
                n == ps.len(),
                forall|k: Value, v: Value| call_requires(f, (k, v)),
                i <= n,
                ds.len() == i,
                kept@ == kept_pairs(ps, ds),
                forall|j: int|
                    0 <= j < ps.len() ==> rt.wf_value((#[trigger] ps[j]).0) && rt.wf_value(
                        ps[j].1,
                    ),
                forall|j: int|
                    0 <= j < kept@.len() ==> rt.wf_value((#[trigger] kept@[j]).0) && rt.wf_value(
                        kept@[j].1,
                    ),
                forall|j: int|
                    0 <= j < ds.len() ==> call_ensures(f, ((#[trigger] ps[j]).0, ps[j].1), Ok(ds[j])),
                forall|j: int| 0 <= j < ds.len() - 1 ==> (#[trigger] ds[j]) != ForEach::Stop,
                !stopped ==> forall|j: int| 0 <= j < ds.len() ==> (#[trigger] ds[j]) != ForEach::Stop,
                stopped ==> ds.len() > 0 && ds.last() == ForEach::Stop,
                outcome is Ok,
            decreases n - i,
        {
            let k: Value = snapshot[i].0;
            let v: Value = snapshot[i].1;
            match f(k, v) {
                Ok(d) => {
                    proof {
                        assert(call_ensures(f, (ps[i as int].0, ps[i as int].1), Ok(d)));
                    }
                    match d {
                        ForEach::Continue => {
                            kept.push((k, v));
                        },
                        ForEach::Stop => {
                            kept.push((k, v));
                            stopped = true;
                        },
                        ForEach::Delete => {},
                    }
                    proof {
                        let ds2 = ds.push(d);
                        assert(ds2.drop_last() =~= ds);
                        assert(ds2.last() == d);
                        ds = ds2;
                    }
                    i = i + 1;
                },
                Err(e) => {
                    let ghost kept_before = kept@;
                    let mut rest: Vec<(Value, Value)> = self.tail_from(&*rt, i);
                    let ghost rest_view = rest@;
                    kept.append(&mut rest);
                    proof {
                        assert(kept@ =~= kept_pairs(ps, ds) + ps.skip(ds.len() as int));
                        assert forall|j: int|
                            0 <= j < kept@.len() implies rt.wf_value((#[trigger] kept@[j]).0)
                            && rt.wf_value(kept@[j].1) by {
                            if j < kept_before.len() {
                                assert(kept@[j] == kept_before[j]);
                            } else {
                                assert(kept@[j] == rest_view[j - kept_before.len()]);
                                assert(rest_view[j - kept_before.len()] == ps[i + j
                                    - kept_before.len()]);
                            }
                        }
                    }
                    self.write_pairs(rt, kept);
                    proof {
                        assert(foreach_trace(
                            f,
                            ps,
                            self.spec_pairs(rt),
                            ds,
                            Err::<(), Error>(e),
                        ));
                    }
                    return Err(e);
                },
            }
        }
        let ghost kept_before = kept@;
        let mut rest: Vec<(Value, Value)> = self.tail_from(&*rt, i);
        let ghost rest_view = rest@;
        kept.append(&mut rest);
        proof {
            assert(kept@ =~= kept_pairs(ps, ds) + ps.skip(ds.len() as int));
            assert forall|j: int|
                0 <= j < kept@.len() implies rt.wf_value((#[trigger] kept@[j]).0) && rt.wf_value(
                kept@[j].1,
            ) by {
                if j < kept_before.len() {
                    assert(kept@[j] == kept_before[j]);
                } else {
                    assert(kept@[j] == rest_view[j - kept_before.len()]);
                    assert(rest_view[j - kept_before.len()] == ps[i + j - kept_before.len()]);
                }
            }
        }
        self.write_pairs(rt, kept);
        proof {
            assert(foreach_trace(f, ps, self.spec_pairs(rt), ds, Ok::<(), Error>(())));
        }
        Ok(())
    }

    /// The pairs from position `from` on, a snapshot.
    fn tail_from(self, rt: &Ruby, from: usize) -> (r: Vec<(Value, Value)>)
        requires
            rt.wf(),
            self.wf(rt),
            from <= self.spec_pairs(rt).len(),
        ensures
            r@ == self.spec_pairs(rt).skip(from as int),
    {
        let idx: usize = index_of_ref(rt, self.0);
        match &rt.heap[idx].data {
            HeapData::Hash { pairs } => {
                let n: usize = pairs.len();
                let mut out: Vec<(Value, Value)> = Vec::new();
                let mut i: usize = from;
                while i < n
                    invariant
                        n == pairs.len(),
                        pairs@ == self.spec_pairs(rt),
                        from <= i <= n,
                        out@ =~= pairs@.subrange(from as int, i as int),
                    decreases n - i,
                {
                    out.push(pairs[i]);
                    i = i + 1;
                }
                proof {
                    assert(out@ =~= self.spec_pairs(rt).skip(from as int));
                }
                out
            },
            _ => Vec::new(),
        }
    }

    /// Replace the hash's pairs wholesale.
    fn write_pairs(self, rt: &mut Ruby, new_pairs: Vec<(Value, Value)>)
        requires
            old(rt).wf(),
            self.wf(&*old(rt)),
            forall|j: int|
                0 <= j < new_pairs@.len() ==> old(rt).wf_value((#[trigger] new_pairs@[j]).0) && old(
                    rt,
                ).wf_value(new_pairs@[j].1),
        ensures
            final(rt).wf(),
            self.wf(&*final(rt)),
            hash_sibling_frame(&*old(rt), &*final(rt), self),
            self.spec_pairs(&*final(rt)) == new_pairs@,
    {
        let idx: usize = index_of_ref(rt, self.0);
        let ghost old_rt = *rt;
        let slot = &mut rt.heap[idx];
        match &mut slot.data {
            HeapData::Hash { pairs } => {
                *pairs = new_pairs;
            },
            _ => {},
        }
        proof {
            self.lemma_hash_update_wf(&old_rt, rt, idx as int);
        }
    }

    /// Every pair a well-formed hash holds is itself well formed.
    proof fn lemma_pairs_wf(self, rt: &Ruby)
        requires
            rt.wf(),
            self.wf(rt),
        ensures
            forall|j: int|
                0 <= j < self.spec_pairs(rt).len() ==> rt.wf_value(
                    (#[trigger] self.spec_pairs(rt)[j]).0,
                ) && rt.wf_value(self.spec_pairs(rt)[j].1),
    {
        let idx = ref_index(self.0.spec_raw());
        assert(rt.slot_wf(rt.heap[idx]));
        assert forall|j: int|
            0 <= j < self.spec_pairs(rt).len() implies rt.wf_value(
            (#[trigger] self.spec_pairs(rt)[j]).0,
        ) && rt.wf_value(self.spec_pairs(rt)[j].1) by {
            assert(rt.wf_value(rt.heap[idx].data->Hash_pairs@[j].0));
            assert(rt.wf_value(rt.heap[idx].data->Hash_pairs@[j].1));
        }
    }

    /// How a hash mutation leaves the rest of the runtime.
    proof fn lemma_hash_update_wf(self, before: &Ruby, after: &Ruby, idx: int)
        requires
            before.wf(),
            is_hash_value(before, self.0),
            idx == ref_index(self.0.spec_raw()),
            after.heap@.len() == before.heap@.len(),
            forall|k: int| 0 <= k < before.heap@.len() && k != idx ==> after.heap[k] == before.heap[k],
            after.heap[idx].flags == before.heap[idx].flags,
            after.heap[idx].klass == before.heap[idx].klass,
            after.heap[idx].data is Hash,
            forall|j: int|
                0 <= j < after.heap[idx].data->Hash_pairs@.len() ==> before.wf_value(
                    (#[trigger] after.heap[idx].data->Hash_pairs@[j]).0,
                ) && before.wf_value(after.heap[idx].data->Hash_pairs@[j].1),
            after.pending_exception == before.pending_exception,
            after.symbols == before.symbols,
            after.globals == before.globals,
            after.roots == before.roots,
        ensures
            after.wf(),
            hash_sibling_frame(before, after, self),
    {
        assert(before.slot_wf(before.heap[idx]));
        if idx < N_BUILTIN {
            assert(before.heap[idx].data is ClassObj);
        }
        assert forall|k: int| 0 <= k < after.heap.len() implies after.slot_wf(
            #[trigger] after.heap[k],
        ) by {
            assert(before.slot_wf(before.heap[k]));
        }
        assert forall|i: int|
            0 <= i < after.globals.len() implies after.wf_value(#[trigger] after.globals[i].1) by {
            assert(before.wf_value(before.globals[i].1));
        }
        assert forall|i: int| 0 <= i < after.roots.len() implies after.wf_value(
            #[trigger] after.roots[i],
        ) by {
            assert(before.wf_value(before.roots[i]));
        }
        lemma_builtin_names_preserved(before, after);
    }
}

/// When a prefix scan finds the first match at `at`, that is the key's index.
pub proof fn lemma_key_index_agrees(pairs: Seq<(Value, Value)>, key: Value, at: int)
    requires
        0 <= at < pairs.len(),
        pairs[at].0.spec_raw() == key.spec_raw(),
        forall|j: int| 0 <= j < at ==> (#[trigger] pairs[j]).0.spec_raw() != key.spec_raw(),
    ensures
        key_index(pairs, key) == at,
    decreases at,
{
    if at > 0 {
        assert forall|j: int|
            0 <= j < at - 1 implies (#[trigger] pairs.skip(1)[j]).0.spec_raw()
            != key.spec_raw() by {
            assert(pairs.skip(1)[j] == pairs[j + 1]);
        }
        assert(pairs.skip(1)[at - 1] == pairs[at]);
        lemma_key_index_agrees(pairs.skip(1), key, at - 1);
    }
}

/// Updating the value at the key's own position, or appending a pair with a
/// fresh key, leaves that key readable with the written value.
pub proof fn lemma_key_index_stable(ps: Seq<(Value, Value)>, new_ps: Seq<(Value, Value)>, key: Value)
    requires
        ({
            let ki = key_index(ps, key);
            if ki >= 0 {
                new_ps.len() == ps.len() && new_ps == ps.update(ki, (ps[ki].0, new_ps[ki].1))
            } else {
                new_ps.len() == ps.len() + 1 && new_ps == ps.push((key, new_ps[ps.len() as int].1))
            }
        }),
    ensures
        key_index(new_ps, key) >= 0,
        ({
            let ki = key_index(ps, key);
            if ki >= 0 {
                key_index(new_ps, key) == ki
            } else {
                key_index(new_ps, key) == ps.len()
            }
        }),
{
    lemma_key_index(ps, key);
    let ki = key_index(ps, key);
    if ki >= 0 {
        assert forall|j: int|
            0 <= j < ki implies (#[trigger] new_ps[j]).0.spec_raw() != key.spec_raw() by {
            assert(new_ps[j] == ps[j]);
        }
        assert(new_ps[ki].0 == ps[ki].0);
        lemma_key_index_agrees(new_ps, key, ki);
    } else {
        assert forall|j: int|
            0 <= j < ps.len() implies (#[trigger] new_ps[j]).0.spec_raw() != key.spec_raw() by {
            assert(new_ps[j] == ps[j]);
        }
        assert(new_ps[ps.len() as int].0 == key);
        lemma_key_index_agrees(new_ps, key, ps.len() as int);
    }
}

} // verus!
