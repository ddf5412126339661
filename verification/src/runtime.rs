//! The model of the foreign runtime that the library's contracts speak about.
//!
//! [`Ruby`] holds everything a handle can point into: the heap of type-tagged
//! object slots, the process-wide pending-exception slot, the interned-symbol
//! table, the global-variable table and the registered extra roots. A
//! reference [`Value`] encodes an index into the heap; the slot's flags word
//! carries the type tag in its low bits and the freeze and sign flags above
//! them, exactly as the runtime's object headers do.

use vstd::prelude::*;
use vstd::string::StrSliceExecFns;

use crate::value::{is_reachable_immediate, tag_code, Value, ValueType};

verus! {

/// The low bits of a heap slot's flags word hold the slot's type tag.
pub const TAG_MASK: u64 = 0x1f;
/// The flag bit that marks a heap object as frozen.
pub const FL_FREEZE: u64 = 0x800;
/// The first user flag bit; big integers keep their sign here (set means
/// non-negative).
pub const FL_USER1: u64 = 0x2000;

/// More heap slots than this cannot be addressed; a machine limit, not a rule
/// of the runtime.
pub const HEAP_CAP: u64 = 0x100_0000_0000;

/// What a heap slot holds, beside its header. The variant decides the slot's
/// type tag.
pub enum HeapData {
    /// An integer outside the fixnum range. `magnitude` is its absolute
    /// value; the runtime also mirrors the sign into the header's first user
    /// flag bit.
    Bignum { negative: bool, magnitude: u64 },
    /// A heap-allocated float, kept as the raw bits of a double-precision
    /// value.
    FloatObj { bits: u64 },
    /// An array of handles, in insertion order.
    Array { elems: Vec<Value> },
    /// A hash, modelled as its key-value pairs in insertion order.
    Hash { pairs: Vec<(Value, Value)> },
    /// A class, with its name.
    ClassObj { name: String },
    /// A plain object with no contents the library reads.
    Object,
}

impl HeapData {
    /// The type tag that belongs to this slot content.
    pub open spec fn tag(&self) -> ValueType {
        match self {
            HeapData::Bignum { .. } => ValueType::Bignum,
            HeapData::FloatObj { .. } => ValueType::Float,
            HeapData::Array { .. } => ValueType::Array,
            HeapData::Hash { .. } => ValueType::Hash,
            HeapData::ClassObj { .. } => ValueType::Class,
            HeapData::Object => ValueType::Object,
        }
    }
}

/// One heap object: a header (flags word and class handle) and the contents.
pub struct HeapSlot {
    /// Type tag in the low bits, freeze and user flags above.
    pub flags: u64,
    /// The object's class; always a reference to a class slot.
    pub klass: Value,
    pub data: HeapData,
}

/// The word encoding a reference to heap index `i`. References start at 16 so
/// that no reference collides with the nil word (8) or the false word (0),
/// and their three low bits are zero, so no reference looks immediate.
pub open spec fn ref_raw(i: int) -> u64
    recommends
        0 <= i < HEAP_CAP,
{
    (8 * (i + 2)) as u64
}

pub open spec fn is_ref_raw(v: u64) -> bool {
    v & 0x07 == 0 && v >= 16
}

/// The heap index a reference word encodes.
pub open spec fn ref_index(v: u64) -> int
    recommends
        is_ref_raw(v),
{
    v as int / 8 - 2
}

/// A reference word is never classified as an immediate, nor mistaken for
/// any immediate shape.
pub proof fn lemma_ref_not_immediate(v: u64)
    by (bit_vector)
    requires
        v & 0x07u64 == 0 && v >= 16,
    ensures
        !crate::value::is_immediate_raw(v),
        !is_reachable_immediate(v),
{
}

/// Encoding an index and reading it back is lossless, and the encoded word is
/// a well-formed reference.
pub proof fn lemma_ref_round_trip(i: u64)
    requires
        i < HEAP_CAP,
    ensures
        is_ref_raw(ref_raw(i as int)),
        ref_index(ref_raw(i as int)) == i,
{
    assert(ref_raw(i as int) == 8 * (i + 2)) by {
        assert(8 * (i as int + 2) <= 8 * (0x100_0000_0000 + 2));
    }
    let v: u64 = (8 * (i + 2)) as u64;
    assert(v & 0x07u64 == 0 && v >= 16 && v / 8 == i + 2) by (bit_vector)
        requires
            v == 8 * (i + 2) && i < 0x100_0000_0000,
    ;
    assert(v as int / 8 == (v / 8) as int);
}

/// The state of the foreign runtime, as far as the library reads or writes
/// it.
pub struct Ruby {
    /// The object heap; a reference handle is an index into it.
    pub heap: Vec<HeapSlot>,
    /// The process-wide pending-exception slot. Set when a protected call
    /// captures a raise; must be cleared exactly once per captured state.
    pub pending_exception: Option<Value>,
    /// The interned-symbol table; a symbol id is an index into it.
    pub symbols: Vec<String>,
    /// Named global variables.
    pub globals: Vec<(String, Value)>,
    /// Handles registered as permanent garbage-collector roots.
    pub roots: Vec<Value>,
}

/// Fixed heap indices of the classes the runtime sets up before anything
/// else runs.
pub const IDX_OBJECT: usize = 0;

pub const IDX_CLASS: usize = 1;

pub const IDX_INTEGER: usize = 2;

pub const IDX_FLOAT: usize = 3;

pub const IDX_NIL_CLASS: usize = 4;

pub const IDX_TRUE_CLASS: usize = 5;

pub const IDX_FALSE_CLASS: usize = 6;

pub const IDX_SYMBOL: usize = 7;

pub const IDX_ARRAY: usize = 8;

pub const IDX_HASH: usize = 9;

pub const IDX_STRING: usize = 10;

pub const N_BUILTIN: usize = 11;

impl Ruby {
    /// A handle is well formed when it is an immediate pattern the runtime
    /// can hand out, or a reference into the live part of the heap.
    pub open spec fn wf_value(&self, v: Value) -> bool {
        ||| is_reachable_immediate(v.spec_raw())
        ||| (is_ref_raw(v.spec_raw()) && 0 <= ref_index(v.spec_raw()) < self.heap.len())
    }

    /// A well-formed reference to a class slot.
    pub open spec fn is_class_ref(&self, v: Value) -> bool {
        &&& is_ref_raw(v.spec_raw())
        &&& 0 <= ref_index(v.spec_raw()) < self.heap.len()
        &&& self.heap[ref_index(v.spec_raw())].data is ClassObj
    }

    /// A heap slot is well formed when its flags' tag bits match its
    /// contents, its sign flag mirrors a big integer's sign, its class handle
    /// points at a class slot, and every handle it holds is well formed.
    pub open spec fn slot_wf(&self, slot: HeapSlot) -> bool {
        &&& slot.flags & TAG_MASK == tag_code(slot.data.tag())
        &&& self.is_class_ref(slot.klass)
        &&& match slot.data {
            HeapData::Bignum { negative, magnitude } => (slot.flags & FL_USER1 != 0) == !negative
                && (if negative {
                    magnitude > 0x4000_0000_0000_0000u64
                } else {
                    magnitude > 0x3fff_ffff_ffff_ffffu64
                }),
            HeapData::Array { elems } => forall|j: int|
                0 <= j < elems.len() ==> self.wf_value(#[trigger] elems[j]),
            HeapData::Hash { pairs } => forall|j: int|
                0 <= j < pairs.len() ==> self.wf_value(#[trigger] pairs[j].0) && self.wf_value(
                    pairs[j].1,
                ),
            _ => true,
        }
    }

    /// The runtime's own invariant: the heap is addressable, the builtin
    /// class slots stand at their fixed indices, every slot is well formed,
    /// and so is every handle the runtime itself holds.
    pub open spec fn wf(&self) -> bool {
        &&& self.heap.len() <= HEAP_CAP
        &&& self.heap.len() >= N_BUILTIN
        &&& forall|i: int| 0 <= i < N_BUILTIN ==> (#[trigger] self.heap[i].data) is ClassObj
        &&& builtin_class_names(self)
        &&& forall|i: int| 0 <= i < self.heap.len() ==> self.slot_wf(#[trigger] self.heap[i])
        &&& match self.pending_exception {
            Some(v) => self.wf_value(v),
            None => true,
        }
        &&& forall|i: int|
            0 <= i < self.globals.len() ==> self.wf_value(#[trigger] self.globals[i].1)
        &&& forall|i: int| 0 <= i < self.roots.len() ==> self.wf_value(#[trigger] self.roots[i])
    }

    /// Whether one more object can be allocated; a machine limit that every
    /// allocating operation states.
    pub open spec fn has_room(&self) -> bool {
        self.heap.len() < HEAP_CAP
    }

    /// Well-formedness of the runtime does not depend on the symbol table or
    /// on which exception is pending, only that a pending one is a good
    /// handle.
    pub proof fn lemma_wf_same_heap(&self, other: &Ruby)
        requires
            self.wf(),
            other.heap == self.heap,
            other.globals == self.globals,
            other.roots == self.roots,
            match other.pending_exception {
                Some(v) => other.wf_value(v),
                None => true,
            },
        ensures
            other.wf(),
    {
        assert forall|i: int| 0 <= i < other.heap.len() implies other.slot_wf(
            #[trigger] other.heap[i],
        ) by {
            assert(self.slot_wf(self.heap[i]));
        }
        assert forall|i: int|
            0 <= i < other.globals.len() implies other.wf_value(
            #[trigger] other.globals[i].1,
        ) by {
            assert(self.wf_value(self.globals[i].1));
        }
        assert forall|i: int| 0 <= i < other.roots.len() implies other.wf_value(
            #[trigger] other.roots[i],
        ) by {
            assert(self.wf_value(self.roots[i]));
        }
        lemma_builtin_names_preserved(self, other);
    }

    /// Appending a slot leaves every old slot well formed: well-formedness of
    /// a slot only looks at the heap through index bounds and slot kinds, and
    /// both survive growth.
    pub proof fn lemma_grow_preserves_slot_wf(&self, bigger: &Ruby, slot: HeapSlot)
        requires
            self.slot_wf(slot),
            self.heap.len() <= bigger.heap.len(),
            forall|i: int|
                0 <= i < self.heap.len() ==> (#[trigger] bigger.heap[i]).data.tag()
                    == self.heap[i].data.tag(),
        ensures
            bigger.slot_wf(slot),
    {
    }

    /// The start state of the runtime: the builtin classes stand at their
    /// fixed indices, nothing else is allocated, no exception is pending, and
    /// no symbol, global or extra root exists.
    pub fn new() -> (r: Ruby)
        ensures
            r.wf(),
            r.heap.len() == N_BUILTIN,
            r.pending_exception is None,
            r.symbols.len() == 0,
            r.globals.len() == 0,
            r.roots.len() == 0,
            builtin_class_names(&r),
    {
        let klass: Value = ref_to(IDX_CLASS);
        let names: Vec<&str> = vec![
            "Object",
            "Class",
            "Integer",
            "Float",
            "NilClass",
            "TrueClass",
            "FalseClass",
            "Symbol",
            "Array",
            "Hash",
            "String",
        ];
        let mut heap: Vec<HeapSlot> = Vec::new();
        let mut i: usize = 0;
        while i < names.len()
            invariant
                i == heap.len(),
                i <= names.len(),
                names.len() == N_BUILTIN,
                forall|j: int|
                    0 <= j < i ==> ((#[trigger] heap[j]).data matches HeapData::ClassObj { name }
                        && name@ == names[j]@),
                forall|j: int| 0 <= j < i ==> (#[trigger] heap[j]).flags == 0x02u64,
                forall|j: int| 0 <= j < i ==> (#[trigger] heap[j]).klass == klass,
                is_ref_raw(klass.spec_raw()) && ref_index(klass.spec_raw()) == IDX_CLASS,
            decreases names.len() - i,
        {
            let name: String = String::from_str(names[i]);
            heap.push(
                HeapSlot { flags: 0x02, klass, data: HeapData::ClassObj { name } },
            );
            i = i + 1;
        }
        let r = Ruby {
            heap,
            pending_exception: None,
            symbols: Vec::new(),
            globals: Vec::new(),
            roots: Vec::new(),
        };
        proof {
            lemma_header_bits(0x02, 0x02);
            assert forall|k: int| 0 <= k < r.heap.len() implies r.slot_wf(#[trigger] r.heap[k]) by {
                assert(r.heap[k].flags == 0x02u64);
                assert(tag_code(r.heap[k].data.tag()) == 0x02u64);
            }
            reveal(builtin_class_names);
        }
        r
    }

    /// Append a well-formed slot to the heap and hand back the reference to
    /// it. Every existing handle keeps its meaning: the heap only grows.
    pub(crate) fn alloc_slot(&mut self, slot: HeapSlot) -> (r: Value)
        requires
            old(self).wf(),
            old(self).has_room(),
            old(self).slot_wf(slot),
        ensures
            final(self).wf(),
            final(self).heap@ == old(self).heap@.push(slot),
            final(self).pending_exception == old(self).pending_exception,
            final(self).symbols == old(self).symbols,
            final(self).globals == old(self).globals,
            final(self).roots == old(self).roots,
            is_ref_raw(r.spec_raw()),
            ref_index(r.spec_raw()) == old(self).heap.len(),
            final(self).wf_value(r),
    {
        let idx: usize = self.heap.len();
        let r: Value = ref_to(idx);
        self.heap.push(slot);
        proof {
            assert forall|k: int| 0 <= k < self.heap.len() implies self.slot_wf(
                #[trigger] self.heap[k],
            ) by {
                if k < old(self).heap.len() {
                    old(self).lemma_grow_preserves_slot_wf(self, old(self).heap[k]);
                } else {
                    old(self).lemma_grow_preserves_slot_wf(self, slot);
                }
            }
            lemma_builtin_names_preserved(old(self), self);
        }
        r
    }
}

/// A handle known to reference a class slot.
#[derive(Clone, Copy, PartialEq, Eq, Debug, Structural)]
pub struct RClass(pub Value);

impl RClass {
    pub open spec fn wf(self, rt: &Ruby) -> bool {
        rt.is_class_ref(self.0)
    }

    /// The wrapped handle.
    pub fn as_value(self) -> (r: Value)
        ensures
            r == self.0,
    {
        self.0
    }

    /// The class's name, as its slot records it.
    pub fn name(self, rt: &Ruby) -> (r: String)
        requires
            rt.wf(),
            self.wf(rt),
        ensures
            r@ == rt.heap[ref_index(self.0.spec_raw())].data->ClassObj_name@,
    {
        let idx: usize = index_of_ref(rt, self.0);
        match &rt.heap[idx].data {
            HeapData::ClassObj { name } => name.clone(),
            _ => String::new(),
        }
    }
}

/// Whether two pieces of text hold the same characters.
pub(crate) fn str_eq(a: &str, b: &str) -> (r: bool)
    ensures
        r == (a@ == b@),
{
    let la: usize = a.unicode_len();
    let lb: usize = b.unicode_len();
    if la != lb {
        return false;
    }
    let mut i: usize = 0;
    while i < la
        invariant
            la == a@.len(),
            lb == b@.len(),
            la == lb,
            i <= la,
            forall|j: int| 0 <= j < i ==> a@[j] == b@[j],
        decreases la - i,
    {
        if a.get_char(i) != b.get_char(i) {
            return false;
        }
        i = i + 1;
    }
    proof {
        assert(a@ =~= b@);
    }
    true
}

/// The builtin class slots carry the names the runtime gives them. Opaque:
/// proofs that need the names reveal it, and mutations keep it through
/// [`lemma_builtin_names_preserved`], since none of them touches the builtin
/// slots.
#[verifier::opaque]
pub open spec fn builtin_class_names(rt: &Ruby) -> bool {
    &&& rt.heap[IDX_OBJECT as int].data matches HeapData::ClassObj { name } && name@ == "Object"@
    &&& rt.heap[IDX_CLASS as int].data matches HeapData::ClassObj { name } && name@ == "Class"@
    &&& rt.heap[IDX_INTEGER as int].data matches HeapData::ClassObj { name } && name@ == "Integer"@
    &&& rt.heap[IDX_FLOAT as int].data matches HeapData::ClassObj { name } && name@ == "Float"@
    &&& rt.heap[IDX_NIL_CLASS as int].data matches HeapData::ClassObj { name } && name@
        == "NilClass"@
    &&& rt.heap[IDX_TRUE_CLASS as int].data matches HeapData::ClassObj { name } && name@
        == "TrueClass"@
    &&& rt.heap[IDX_FALSE_CLASS as int].data matches HeapData::ClassObj { name } && name@
        == "FalseClass"@
    &&& rt.heap[IDX_SYMBOL as int].data matches HeapData::ClassObj { name } && name@ == "Symbol"@
    &&& rt.heap[IDX_ARRAY as int].data matches HeapData::ClassObj { name } && name@ == "Array"@
    &&& rt.heap[IDX_HASH as int].data matches HeapData::ClassObj { name } && name@ == "Hash"@
    &&& rt.heap[IDX_STRING as int].data matches HeapData::ClassObj { name } && name@ == "String"@
}

/// The frame of an operation that may allocate but touches nothing else: the
/// heap grows (existing slots keep their place and contents) and every other
/// part of the runtime stays as it was.
pub open spec fn extends(a: &Ruby, b: &Ruby) -> bool {
    &&& b.heap@.len() >= a.heap@.len()
    &&& b.heap@.subrange(0, a.heap@.len() as int) == a.heap@
    &&& b.pending_exception == a.pending_exception
    &&& b.symbols == a.symbols
    &&& b.globals == a.globals
    &&& b.roots == a.roots
}

/// A change that leaves the builtin slots alone keeps their names.
pub proof fn lemma_builtin_names_preserved(a: &Ruby, b: &Ruby)
    requires
        builtin_class_names(a),
        a.heap.len() >= N_BUILTIN,
        b.heap.len() >= N_BUILTIN,
        forall|i: int| 0 <= i < N_BUILTIN ==> a.heap[i].data == (#[trigger] b.heap[i]).data,
    ensures
        builtin_class_names(b),
{
    reveal(builtin_class_names);
}

/// The handle for heap index `i`.
pub(crate) fn ref_to(i: usize) -> (r: Value)
    requires
        i < HEAP_CAP,
    ensures
        r.spec_raw() == ref_raw(i as int),
        is_ref_raw(r.spec_raw()),
        ref_index(r.spec_raw()) == i,
{
    proof {
        lemma_ref_round_trip(i as u64);
    }
    Value::new(8 * (i as u64 + 2))
}

/// The heap index a reference handle points at.
pub(crate) fn index_of_ref(rt: &Ruby, v: Value) -> (r: usize)
    requires
        is_ref_raw(v.spec_raw()),
        0 <= ref_index(v.spec_raw()) < rt.heap.len(),
    ensures
        r == ref_index(v.spec_raw()),
{
    let idx64: u64 = v.as_raw() / 8 - 2;
    proof {
        assert(idx64 < rt.heap.len() as u64);
    }
    idx64 as usize
}

/// The position of a global variable's name in the table; negative when
/// absent.
pub open spec fn global_index(globals: Seq<(String, Value)>, name: Seq<char>) -> int
    decreases globals.len(),
{
    if globals.len() == 0 {
        -1
    } else if globals[0].0@ == name {
        0
    } else {
        let sub = global_index(globals.skip(1), name);
        if sub < 0 {
            -1
        } else {
            1 + sub
        }
    }
}

/// Where `global_index` points: at the first entry with the name, with none
/// before it; or nowhere, and then no entry has it.
pub proof fn lemma_global_index(globals: Seq<(String, Value)>, name: Seq<char>)
    ensures
        -1 <= global_index(globals, name) < globals.len(),
        global_index(globals, name) >= 0 ==> globals[global_index(globals, name)].0@ == name,
        forall|j: int|
            0 <= j < global_index(globals, name) ==> (#[trigger] globals[j]).0@ != name,
        global_index(globals, name) == -1 ==> forall|j: int|
            0 <= j < globals.len() ==> (#[trigger] globals[j]).0@ != name,
    decreases globals.len(),
{
    if globals.len() > 0 && globals[0].0@ != name {
        lemma_global_index(globals.skip(1), name);
        assert forall|j: int|
            0 <= j < global_index(globals, name) implies (#[trigger] globals[j]).0@ != name by {
            if j > 0 {
                assert(globals.skip(1)[j - 1] == globals[j]);
            }
        }
        if global_index(globals, name) == -1 {
            assert forall|j: int|
                0 <= j < globals.len() implies (#[trigger] globals[j]).0@ != name by {
                if j > 0 {
                    assert(globals.skip(1)[j - 1] == globals[j]);
                }
            }
        }
    }
}

/// A scan that finds the first entry with the name found the index the spec
/// names.
pub proof fn lemma_global_index_agrees(
    globals: Seq<(String, Value)>,
    name: Seq<char>,
    at: int,
)
    requires
        0 <= at < globals.len(),
        globals[at].0@ == name,
        forall|j: int| 0 <= j < at ==> (#[trigger] globals[j]).0@ != name,
    ensures
        global_index(globals, name) == at,
    decreases at,
{
    if at > 0 {
        assert forall|j: int|
            0 <= j < at - 1 implies (#[trigger] globals.skip(1)[j]).0@ != name by {
            assert(globals.skip(1)[j] == globals[j + 1]);
        }
        assert(globals.skip(1)[at - 1] == globals[at]);
        lemma_global_index_agrees(globals.skip(1), name, at - 1);
    }
}

/// Bind a named global variable to `initial`: rebind an existing name in
/// place, else append a new entry. Returns the entry's position.
pub fn define_variable(rt: &mut Ruby, name: &str, initial: Value) -> (r: usize)
    requires
        old(rt).wf(),
        old(rt).wf_value(initial),
    ensures
        final(rt).wf(),
        final(rt).heap == old(rt).heap,
        final(rt).pending_exception == old(rt).pending_exception,
        final(rt).symbols == old(rt).symbols,
        final(rt).roots == old(rt).roots,
        ({
            let gi = global_index(old(rt).globals@, name@);
            if gi >= 0 {
                r == gi && final(rt).globals@ == old(rt).globals@.update(
                    gi,
                    (old(rt).globals@[gi].0, initial),
                )
            } else {
                r == old(rt).globals@.len() && final(rt).globals@.len() == old(rt).globals@.len()
                    + 1 && final(rt).globals@.subrange(0, old(rt).globals@.len() as int) == old(
                    rt,
                ).globals@
            }
        }),
        r < final(rt).globals@.len(),
        final(rt).globals@[r as int].0@ == name@,
        final(rt).globals@[r as int].1 == initial,
{
    let ghost gs = rt.globals@;
    proof {
        lemma_global_index(gs, name@);
    }
    let n: usize = rt.globals.len();
    let mut i: usize = 0;
    while i < n
        invariant
            *rt == *old(rt),
            old(rt).wf(),
            old(rt).wf_value(initial),
            gs == rt.globals@,
            n == gs.len(),
            i <= n,
            forall|j: int| 0 <= j < i ==> (#[trigger] gs[j]).0@ != name@,
        decreases n - i,
    {
        if str_eq(rt.globals[i].0.as_str(), name) {
            proof {
                lemma_global_index_agrees(gs, name@, i as int);
            }
            let ghost old_rt = *rt;
            let k0: String = rt.globals[i].0.clone();
            rt.globals[i] = (k0, initial);
            proof {
                assert forall|k: int| 0 <= k < rt.heap.len() implies rt.slot_wf(
                    #[trigger] rt.heap[k],
                ) by {
                    assert(old_rt.slot_wf(old_rt.heap[k]));
                }
                assert forall|j: int|
                    0 <= j < rt.globals.len() implies rt.wf_value(
                    (#[trigger] rt.globals[j]).1,
                ) by {
                    if j != i {
                        assert(rt.globals@[j] == old_rt.globals@[j]);
                    } else {
                        assert(rt.globals@[j].1 == initial);
                    }
                }
                lemma_builtin_names_preserved(&old_rt, rt);
            }
            return i;
        }
        i = i + 1;
    }
    proof {
        if global_index(gs, name@) >= 0 {
            assert(gs[global_index(gs, name@)].0@ == name@);
        }
    }
    let ghost old_rt = *rt;
    let owned: String = <String as vstd::string::StringExecFns>::from_str(name);
    rt.globals.push((owned, initial));
    proof {
        assert forall|k: int| 0 <= k < rt.heap.len() implies rt.slot_wf(
            #[trigger] rt.heap[k],
        ) by {
            assert(old_rt.slot_wf(old_rt.heap[k]));
        }
        assert forall|j: int|
            0 <= j < rt.globals.len() implies rt.wf_value((#[trigger] rt.globals[j]).1) by {
            if j < old_rt.globals@.len() {
                assert(rt.globals@[j] == old_rt.globals@[j]);
            }
        }
        lemma_builtin_names_preserved(&old_rt, rt);
    }
    n
}

/// Bind a named global variable; the older name for `define_variable`, kept
/// for callers that still use it.
pub fn define_global_variable(rt: &mut Ruby, name: &str, initial: Value) -> (r: usize)
    requires
        old(rt).wf(),
        old(rt).wf_value(initial),
    ensures
        final(rt).wf(),
        final(rt).heap == old(rt).heap,
        final(rt).pending_exception == old(rt).pending_exception,
        final(rt).symbols == old(rt).symbols,
        final(rt).roots == old(rt).roots,
        r < final(rt).globals@.len(),
        final(rt).globals@[r as int].0@ == name@,
        final(rt).globals@[r as int].1 == initial,
{
    define_variable(rt, name, initial)
}

/// How the tag, freeze and sign bits of a header's flags word sit beside one
/// another: a tag code occupies only the low bits, and setting the freeze or
/// sign flag never disturbs the others.
pub(crate) proof fn lemma_header_bits(c: u64, f: u64)
    by (bit_vector)
    requires
        c < 0x20,
    ensures
        c & TAG_MASK == c,
        c & FL_USER1 == 0,
        c & FL_FREEZE == 0,
        (c | FL_USER1) & TAG_MASK == c,
        (c | FL_USER1) & FL_USER1 != 0,
        (c | FL_USER1) & FL_FREEZE == 0,
        (f | FL_FREEZE) & TAG_MASK == f & TAG_MASK,
        (f | FL_FREEZE) & FL_USER1 == f & FL_USER1,
        (f | FL_FREEZE) & FL_FREEZE != 0,
{
}

} // verus!
