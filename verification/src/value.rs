//! The universal tagged handle of the foreign runtime and its immediate
//! encodings.
//!
//! A [`Value`] is one machine word. The low bits decide what it is:
//!
//! * `....1` — a small integer (fixnum), the integer shifted left once;
//! * `...10` — a compact float (flonum);
//! * low byte `0x0c` — an interned static symbol, the symbol id above it;
//! * `0x00`, `0x08`, `0x14`, `0x34` — false, nil, true and undefined;
//! * otherwise, a word with zero low bits is a reference into the heap.
//!
//! Everything but the reference case is an *immediate*: self-contained and
//! never garbage collected.

use vstd::prelude::*;
use vstd::string::StringExecFns;

use crate::runtime::Ruby;

verus! {

/// The word for the runtime's `false`.
pub const QFALSE_RAW: u64 = 0x00;
/// The word for the runtime's `nil`.
pub const QNIL_RAW: u64 = 0x08;
/// The word for the runtime's `true`.
pub const QTRUE_RAW: u64 = 0x14;
/// The word for the runtime's undefined placeholder.
pub const QUNDEF_RAW: u64 = 0x34;
/// A word with any of these bits set is an immediate.
pub const IMMEDIATE_MASK: u64 = 0x07;
/// Bit zero marks a fixnum.
pub const FIXNUM_FLAG: u64 = 0x01;
/// The two low bits of a flonum, after masking with `FLONUM_MASK`.
pub const FLONUM_MASK: u64 = 0x03;
pub const FLONUM_FLAG: u64 = 0x02;
/// The low byte of a static symbol.
pub const SYMBOL_FLAG: u64 = 0x0c;
/// Static symbols keep their id above this many low bits.
pub const SPECIAL_SHIFT: u64 = 8;

/// The smallest integer a fixnum can encode.
pub const FIXNUM_MIN: i64 = -0x4000_0000_0000_0000;
/// The largest integer a fixnum can encode.
pub const FIXNUM_MAX: i64 = 0x3fff_ffff_ffff_ffff;

/// True of the bit patterns that need no heap dereference: every pattern with
/// one of the three low bits set, and the words for false and nil.
pub open spec fn is_immediate_raw(v: u64) -> bool {
    v & IMMEDIATE_MASK != 0 || v & !QNIL_RAW == 0
}

pub open spec fn is_false_raw(v: u64) -> bool {
    v == QFALSE_RAW
}

pub open spec fn is_nil_raw(v: u64) -> bool {
    v == QNIL_RAW
}

pub open spec fn is_true_raw(v: u64) -> bool {
    v == QTRUE_RAW
}

pub open spec fn is_undef_raw(v: u64) -> bool {
    v == QUNDEF_RAW
}

pub open spec fn is_fixnum_raw(v: u64) -> bool {
    v & FIXNUM_FLAG != 0
}

pub open spec fn is_static_symbol_raw(v: u64) -> bool {
    v & 0xff == SYMBOL_FLAG
}

pub open spec fn is_flonum_raw(v: u64) -> bool {
    v & FLONUM_MASK == FLONUM_FLAG
}

/// The truthiness rule of the runtime: everything but false and nil is true.
pub open spec fn truthy_raw(v: u64) -> bool {
    v & !QNIL_RAW != 0
}

/// The immediate bit patterns that the runtime can actually hand out.
/// Patterns outside this set (for example `0x04`) are never built by any
/// operation and never cross the boundary.
pub open spec fn is_reachable_immediate(v: u64) -> bool {
    ||| is_false_raw(v)
    ||| is_nil_raw(v)
    ||| is_true_raw(v)
    ||| is_undef_raw(v)
    ||| is_fixnum_raw(v)
    ||| is_static_symbol_raw(v)
    ||| is_flonum_raw(v)
}

/// The integer a fixnum word encodes: the word read as a signed machine word,
/// shifted right arithmetically by one.
pub open spec fn fixnum_int(v: u64) -> int {
    ((v as i64) >> 1) as int
}

pub open spec fn fixnum_fits(n: int) -> bool {
    FIXNUM_MIN <= n <= FIXNUM_MAX
}

/// The fixnum word for an in-range integer: shifted left once, low bit set.
pub open spec fn fixnum_raw(n: i64) -> u64
    recommends
        fixnum_fits(n as int),
{
    ((n << 1) | 1) as u64
}

/// The static-symbol word for a symbol id.
pub open spec fn symbol_raw(id: u64) -> u64
    recommends
        id < 0x100_0000_0000_0000,
{
    (id << SPECIAL_SHIFT) | SYMBOL_FLAG
}

/// The symbol id a static-symbol word encodes.
pub open spec fn symbol_id(v: u64) -> u64 {
    v >> SPECIAL_SHIFT
}

/// The type tag of a handle, as the runtime's object headers record it. For
/// an immediate the tag follows from the bit pattern alone; for a reference
/// it sits in the heap slot's flags word.
#[derive(Clone, Copy, PartialEq, Eq, Debug, Structural)]
pub enum ValueType {
    /// A slot that holds no live object.
    Empty,
    Object,
    Class,
    Module,
    Float,
    Str,
    Regexp,
    Array,
    Hash,
    Struct,
    Bignum,
    File,
    Data,
    Match,
    Complex,
    Rational,
    Nil,
    True,
    False,
    Symbol,
    Fixnum,
    Undef,
    /// A slot whose object has been collected.
    Zombie,
}

/// The integer code the runtime uses for each type tag in an object header's
/// flags word.
pub open spec fn tag_code(t: ValueType) -> u64 {
    match t {
        ValueType::Empty => 0x00,
        ValueType::Object => 0x01,
        ValueType::Class => 0x02,
        ValueType::Module => 0x03,
        ValueType::Float => 0x04,
        ValueType::Str => 0x05,
        ValueType::Regexp => 0x06,
        ValueType::Array => 0x07,
        ValueType::Hash => 0x08,
        ValueType::Struct => 0x09,
        ValueType::Bignum => 0x0a,
        ValueType::File => 0x0b,
        ValueType::Data => 0x0c,
        ValueType::Match => 0x0d,
        ValueType::Complex => 0x0e,
        ValueType::Rational => 0x0f,
        ValueType::Nil => 0x11,
        ValueType::True => 0x12,
        ValueType::False => 0x13,
        ValueType::Symbol => 0x14,
        ValueType::Fixnum => 0x15,
        ValueType::Undef => 0x16,
        ValueType::Zombie => 0x1c,
    }
}

/// The header code back to its tag, executably.
pub fn tag_code_exec(t: ValueType) -> (r: u64)
    ensures
        r == tag_code(t),
{
    match t {
        ValueType::Empty => 0x00,
        ValueType::Object => 0x01,
        ValueType::Class => 0x02,
        ValueType::Module => 0x03,
        ValueType::Float => 0x04,
        ValueType::Str => 0x05,
        ValueType::Regexp => 0x06,
        ValueType::Array => 0x07,
        ValueType::Hash => 0x08,
        ValueType::Struct => 0x09,
        ValueType::Bignum => 0x0a,
        ValueType::File => 0x0b,
        ValueType::Data => 0x0c,
        ValueType::Match => 0x0d,
        ValueType::Complex => 0x0e,
        ValueType::Rational => 0x0f,
        ValueType::Nil => 0x11,
        ValueType::True => 0x12,
        ValueType::False => 0x13,
        ValueType::Symbol => 0x14,
        ValueType::Fixnum => 0x15,
        ValueType::Undef => 0x16,
        ValueType::Zombie => 0x1c,
    }
}

/// No two type tags share a header code.
pub proof fn lemma_tag_code_injective(a: ValueType, b: ValueType)
    ensures
        tag_code(a) == tag_code(b) ==> a == b,
{
}

/// The tag of an immediate bit pattern, resolved through the same
/// priority-ordered chain of predicates the runtime uses: false, nil, true,
/// undefined, fixnum, symbol, flonum. On reachable immediates exactly one
/// predicate holds, so the order never decides the answer.
pub open spec fn immediate_tag(v: u64) -> ValueType {
    if is_false_raw(v) {
        ValueType::False
    } else if is_nil_raw(v) {
        ValueType::Nil
    } else if is_true_raw(v) {
        ValueType::True
    } else if is_undef_raw(v) {
        ValueType::Undef
    } else if is_fixnum_raw(v) {
        ValueType::Fixnum
    } else if is_static_symbol_raw(v) {
        ValueType::Symbol
    } else if is_flonum_raw(v) {
        ValueType::Float
    } else {
        ValueType::Empty
    }
}

/// Classification is exhaustive and unambiguous on the immediates the runtime
/// can hand out: every reachable immediate pattern is recognised as an
/// immediate, and exactly one of the seven tag predicates holds of it.
pub proof fn lemma_immediate_classification(v: u64)
    requires
        is_reachable_immediate(v),
    ensures
        is_immediate_raw(v),
        is_false_raw(v) ==> immediate_tag(v) == ValueType::False,
        is_nil_raw(v) ==> immediate_tag(v) == ValueType::Nil,
        is_true_raw(v) ==> immediate_tag(v) == ValueType::True,
        is_undef_raw(v) ==> immediate_tag(v) == ValueType::Undef,
        is_fixnum_raw(v) ==> immediate_tag(v) == ValueType::Fixnum,
        is_static_symbol_raw(v) ==> immediate_tag(v) == ValueType::Symbol,
        is_flonum_raw(v) ==> immediate_tag(v) == ValueType::Float,
{
    assert((v & 0x07u64 != 0 || v & !0x08u64 == 0) && !(v == 0x00 && v == 0x08)) by (bit_vector)
        requires
            v == 0x00 || v == 0x08 || v == 0x14 || v == 0x34 || v & 0x01u64 != 0 || v & 0xffu64
                == 0x0c || v & 0x03u64 == 0x02,
    ;
    lemma_immediate_predicates_disjoint(v);
}

/// The seven immediate predicates are pairwise disjoint: the tag spaces only
/// look like they overlap before masking.
pub proof fn lemma_immediate_predicates_disjoint(v: u64)
    by (bit_vector)
    ensures
        is_fixnum_raw(v) ==> !is_flonum_raw(v) && !is_static_symbol_raw(v) && v != QFALSE_RAW && v
            != QNIL_RAW && v != QTRUE_RAW && v != QUNDEF_RAW,
        is_flonum_raw(v) ==> !is_static_symbol_raw(v) && v != QFALSE_RAW && v != QNIL_RAW && v
            != QTRUE_RAW && v != QUNDEF_RAW,
        is_static_symbol_raw(v) ==> v != QFALSE_RAW && v != QNIL_RAW && v != QTRUE_RAW && v
            != QUNDEF_RAW,
{
}

/// The runtime's universal handle: one machine word, an immediate or a
/// reference into the heap.
///
/// Equality is bit-pattern equality of the handle, not object equality: two
/// distinct references to value-equal heap objects do not compare equal here.
#[derive(Clone, Copy, PartialEq, Eq, Debug, Structural)]
pub struct Value {
    /// The machine word itself. It is readable so that specifications can
    /// speak of the bit pattern; a handle that does not come from the runtime
    /// it is used against satisfies no operation's precondition.
    pub raw: u64,
}

impl Value {
    /// The bit pattern, for specifications.
    pub open spec fn spec_raw(self) -> u64 {
        self.raw
    }

    #[verifier::when_used_as_spec(spec_raw)]
    pub fn as_raw(self) -> (r: u64)
        ensures
            r == self.spec_raw(),
    {
        self.raw
    }

    pub(crate) fn new(raw: u64) -> (r: Self)
        ensures
            r.spec_raw() == raw,
    {
        Value { raw }
    }

    /// Whether `self` is encoded directly in the word, needing no heap
    /// dereference and never subject to garbage collection.
    pub fn is_immediate(self) -> (r: bool)
        ensures
            r == is_immediate_raw(self.spec_raw()),
    {
        let v: u64 = self.raw;
        let immediate_p: bool = v & IMMEDIATE_MASK != 0;
        let test: bool = v & !QNIL_RAW != 0;
        immediate_p || !test
    }

    /// Whether `self` is the runtime's `nil`.
    pub fn is_nil(self) -> (r: bool)
        ensures
            r == is_nil_raw(self.spec_raw()),
    {
        self.raw == QNIL_RAW
    }

    pub(crate) fn is_false(self) -> (r: bool)
        ensures
            r == is_false_raw(self.spec_raw()),
    {
        self.raw == QFALSE_RAW
    }

    pub(crate) fn is_true(self) -> (r: bool)
        ensures
            r == is_true_raw(self.spec_raw()),
    {
        self.raw == QTRUE_RAW
    }

    pub(crate) fn is_undef(self) -> (r: bool)
        ensures
            r == is_undef_raw(self.spec_raw()),
    {
        self.raw == QUNDEF_RAW
    }

    pub(crate) fn is_fixnum(self) -> (r: bool)
        ensures
            r == is_fixnum_raw(self.spec_raw()),
    {
        self.raw & FIXNUM_FLAG != 0
    }

    pub(crate) fn is_static_symbol(self) -> (r: bool)
        ensures
            r == is_static_symbol_raw(self.spec_raw()),
    {
        self.raw & 0xff == SYMBOL_FLAG
    }

    pub(crate) fn is_flonum(self) -> (r: bool)
        ensures
            r == is_flonum_raw(self.spec_raw()),
    {
        self.raw & FLONUM_MASK == FLONUM_FLAG
    }

    /// Convert to a host boolean by the runtime's rule: false and nil are
    /// false, every other value (zero included) is true.
    pub fn to_bool(self) -> (r: bool)
        ensures
            r == truthy_raw(self.spec_raw()),
    {
        self.raw & !QNIL_RAW != 0
    }
}

impl Value {
    /// The type tag of this handle against the given runtime: for an
    /// immediate, from the bit pattern alone; for a reference, from the heap
    /// slot it points at.
    pub open spec fn spec_type(self, rt: &crate::runtime::Ruby) -> ValueType {
        if is_immediate_raw(self.spec_raw()) {
            immediate_tag(self.spec_raw())
        } else {
            rt.heap[crate::runtime::ref_index(self.spec_raw())].data.tag()
        }
    }

    /// Classify this handle: immediates through the priority-ordered chain of
    /// bit-pattern predicates, references by reading the type tag of the heap
    /// slot — nothing beyond that slot's header is touched.
    pub fn rb_type(self, rt: &crate::runtime::Ruby) -> (r: ValueType)
        requires
            rt.wf(),
            rt.wf_value(self),
        ensures
            r == self.spec_type(rt),
    {
        if !self.is_immediate() {
            proof {
                if is_reachable_immediate(self.spec_raw()) {
                    lemma_immediate_classification(self.spec_raw());
                }
            }
            let idx: usize = crate::runtime::index_of_ref(rt, self);
            match &rt.heap[idx].data {
                crate::runtime::HeapData::Bignum { .. } => ValueType::Bignum,
                crate::runtime::HeapData::FloatObj { .. } => ValueType::Float,
                crate::runtime::HeapData::Array { .. } => ValueType::Array,
                crate::runtime::HeapData::Hash { .. } => ValueType::Hash,
                crate::runtime::HeapData::ClassObj { .. } => ValueType::Class,
                crate::runtime::HeapData::Object => ValueType::Object,
            }
        } else if self.is_false() {
            ValueType::False
        } else if self.is_nil() {
            ValueType::Nil
        } else if self.is_true() {
            ValueType::True
        } else if self.is_undef() {
            ValueType::Undef
        } else if self.is_fixnum() {
            ValueType::Fixnum
        } else if self.is_static_symbol() {
            ValueType::Symbol
        } else {
            proof {
                if crate::runtime::is_ref_raw(self.spec_raw()) {
                    crate::runtime::lemma_ref_not_immediate(self.spec_raw());
                }
            }
            ValueType::Float
        }
    }

    /// The heap index of the class this handle is an instance of.
    pub open spec fn spec_class_index(self, rt: &crate::runtime::Ruby) -> int {
        if is_immediate_raw(self.spec_raw()) {
            match immediate_tag(self.spec_raw()) {
                ValueType::False => crate::runtime::IDX_FALSE_CLASS as int,
                ValueType::Nil => crate::runtime::IDX_NIL_CLASS as int,
                ValueType::True => crate::runtime::IDX_TRUE_CLASS as int,
                ValueType::Fixnum => crate::runtime::IDX_INTEGER as int,
                ValueType::Symbol => crate::runtime::IDX_SYMBOL as int,
                ValueType::Float => crate::runtime::IDX_FLOAT as int,
                _ => crate::runtime::IDX_OBJECT as int,
            }
        } else {
            crate::runtime::ref_index(
                rt.heap[crate::runtime::ref_index(self.spec_raw())].klass.spec_raw(),
            )
        }
    }

    /// The name of the class this handle is an instance of.
    pub open spec fn spec_classname(self, rt: &crate::runtime::Ruby) -> Seq<char> {
        rt.heap[self.spec_class_index(rt)].data->ClassObj_name@
    }

    /// The class this handle is an instance of: a builtin class for an
    /// immediate, the slot's own class handle for a reference. The undefined
    /// placeholder has no class and is excluded.
    pub fn class(self, rt: &crate::runtime::Ruby) -> (r: crate::runtime::RClass)
        requires
            rt.wf(),
            rt.wf_value(self),
            !is_undef_raw(self.spec_raw()),
        ensures
            r.wf(rt),
            crate::runtime::ref_index(r.0.spec_raw()) == self.spec_class_index(rt),
    {
        if !self.is_immediate() {
            proof {
                if is_reachable_immediate(self.spec_raw()) {
                    lemma_immediate_classification(self.spec_raw());
                }
            }
            let idx: usize = crate::runtime::index_of_ref(rt, self);
            proof {
                assert(rt.slot_wf(rt.heap[idx as int]));
            }
            crate::runtime::RClass(rt.heap[idx].klass)
        } else if self.is_false() {
            crate::runtime::RClass(crate::runtime::ref_to(crate::runtime::IDX_FALSE_CLASS))
        } else if self.is_nil() {
            crate::runtime::RClass(crate::runtime::ref_to(crate::runtime::IDX_NIL_CLASS))
        } else if self.is_true() {
            crate::runtime::RClass(crate::runtime::ref_to(crate::runtime::IDX_TRUE_CLASS))
        } else if self.is_fixnum() {
            crate::runtime::RClass(crate::runtime::ref_to(crate::runtime::IDX_INTEGER))
        } else if self.is_static_symbol() {
            crate::runtime::RClass(crate::runtime::ref_to(crate::runtime::IDX_SYMBOL))
        } else {
            proof {
                if crate::runtime::is_ref_raw(self.spec_raw()) {
                    crate::runtime::lemma_ref_not_immediate(self.spec_raw());
                }
            }
            crate::runtime::RClass(crate::runtime::ref_to(crate::runtime::IDX_FLOAT))
        }
    }

    /// The name of this handle's class, for diagnostics.
    pub fn classname(self, rt: &crate::runtime::Ruby) -> (r: String)
        requires
            rt.wf(),
            rt.wf_value(self),
            !is_undef_raw(self.spec_raw()),
        ensures
            r@ == self.spec_classname(rt),
    {
        let class: crate::runtime::RClass = self.class(rt);
        class.name(rt)
    }

    /// Whether this handle is frozen. Immediates are always frozen; a heap
    /// object is frozen when its header carries the freeze flag.
    pub open spec fn spec_is_frozen(self, rt: &crate::runtime::Ruby) -> bool {
        ||| is_immediate_raw(self.spec_raw())
        ||| rt.heap[crate::runtime::ref_index(self.spec_raw())].flags & crate::runtime::FL_FREEZE
            != 0
    }

    /// Whether the runtime prevents modifying this handle's object.
    pub fn is_frozen(self, rt: &crate::runtime::Ruby) -> (r: bool)
        requires
            rt.wf(),
            rt.wf_value(self),
        ensures
            r == self.spec_is_frozen(rt),
    {
        if self.is_immediate() {
            true
        } else {
            proof {
                if is_reachable_immediate(self.spec_raw()) {
                    lemma_immediate_classification(self.spec_raw());
                }
            }
            let idx: usize = crate::runtime::index_of_ref(rt, self);
            rt.heap[idx].flags & crate::runtime::FL_FREEZE != 0
        }
    }

    /// Mark this handle's object frozen. On an immediate nothing changes:
    /// immediates are frozen from the start.
    pub fn freeze(self, rt: &mut crate::runtime::Ruby)
        requires
            old(rt).wf(),
            old(rt).wf_value(self),
        ensures
            final(rt).wf(),
            self.spec_is_frozen(&*final(rt)),
            final(rt).pending_exception == old(rt).pending_exception,
            final(rt).symbols == old(rt).symbols,
            final(rt).globals == old(rt).globals,
            final(rt).roots == old(rt).roots,
            is_immediate_raw(self.spec_raw()) ==> *final(rt) == *old(rt),
            !is_immediate_raw(self.spec_raw()) ==> final(rt).heap@ == old(rt).heap@.update(
                crate::runtime::ref_index(self.spec_raw()),
                (crate::runtime::HeapSlot {
                    flags: old(rt).heap[crate::runtime::ref_index(self.spec_raw())].flags
                        | crate::runtime::FL_FREEZE,
                    klass: old(rt).heap[crate::runtime::ref_index(self.spec_raw())].klass,
                    data: old(rt).heap[crate::runtime::ref_index(self.spec_raw())].data,
                }),
            ),
    {
        if self.is_immediate() {
            return ;
        }
        proof {
            if is_reachable_immediate(self.spec_raw()) {
                lemma_immediate_classification(self.spec_raw());
            }
        }
        let idx: usize = crate::runtime::index_of_ref(rt, self);
        let ghost old_rt = *rt;
        let slot = &mut rt.heap[idx];
        slot.flags = slot.flags | crate::runtime::FL_FREEZE;
        proof {
            crate::runtime::lemma_header_bits(0, old_rt.heap[idx as int].flags);
            assert(rt.heap@ == old_rt.heap@.update(
                idx as int,
                (crate::runtime::HeapSlot {
                    flags: old_rt.heap[idx as int].flags | crate::runtime::FL_FREEZE,
                    klass: old_rt.heap[idx as int].klass,
                    data: old_rt.heap[idx as int].data,
                }),
            ));
            assert forall|k: int| 0 <= k < rt.heap.len() implies rt.slot_wf(
                #[trigger] rt.heap[k],
            ) by {
                assert(old_rt.slot_wf(old_rt.heap[k]));
                assert(rt.heap[k].data == old_rt.heap[k].data);
            }
            assert forall|i: int|
                0 <= i < rt.globals.len() implies rt.wf_value(#[trigger] rt.globals[i].1) by {
                assert(old_rt.wf_value(old_rt.globals[i].1));
            }
            assert forall|i: int| 0 <= i < rt.roots.len() implies rt.wf_value(
                #[trigger] rt.roots[i],
            ) by {
                assert(old_rt.wf_value(old_rt.roots[i]));
            }
            crate::runtime::lemma_builtin_names_preserved(&old_rt, rt);
        }
    }

    /// Register this handle as a permanent garbage-collector root, never to
    /// be reclaimed.
    pub fn leak(self, rt: &mut crate::runtime::Ruby)
        requires
            old(rt).wf(),
            old(rt).wf_value(self),
        ensures
            final(rt).wf(),
            final(rt).roots@ == old(rt).roots@.push(self),
            final(rt).heap == old(rt).heap,
            final(rt).pending_exception == old(rt).pending_exception,
            final(rt).symbols == old(rt).symbols,
            final(rt).globals == old(rt).globals,
    {
        let ghost old_rt = *rt;
        rt.roots.push(self);
        proof {
            assert forall|k: int| 0 <= k < rt.heap.len() implies rt.slot_wf(
                #[trigger] rt.heap[k],
            ) by {
                assert(old_rt.slot_wf(old_rt.heap[k]));
            }
            crate::runtime::lemma_builtin_names_preserved(&old_rt, rt);
        }
    }

    /// Return an error if this handle's object is frozen; the message names
    /// the object's class.
    pub fn check_frozen(self, rt: &Ruby) -> (r: Result<(), crate::error::Error>)
        requires
            rt.wf(),
            rt.wf_value(self),
            !is_undef_raw(self.spec_raw()),
        ensures
            match r {
                Ok(_) => !self.spec_is_frozen(rt),
                Err(e) => self.spec_is_frozen(rt) && (e matches crate::error::Error::Raised {
                    kind,
                    message,
                } && kind == crate::error::ErrorKind::FrozenError && message@
                    == "can't modify frozen "@ + self.spec_classname(rt)),
            },
    {
        if self.is_frozen(rt) {
            let name: String = self.classname(rt);
            let message: String = String::from_str("can't modify frozen ").concat(name.as_str());
            Err(crate::error::Error::Raised {
                kind: crate::error::ErrorKind::FrozenError,
                message,
            })
        } else {
            Ok(())
        }
    }
}

/// How the four special constants fall on the truthiness rule: false and nil
/// are the only false values.
pub proof fn lemma_special_const_truthiness()
    by (bit_vector)
    ensures
        !truthy_raw(QFALSE_RAW),
        !truthy_raw(QNIL_RAW),
        truthy_raw(QTRUE_RAW),
        truthy_raw(QUNDEF_RAW),
{
}

/// Encoding an in-range integer as a fixnum word round-trips, and the word it
/// gives has the fixnum bit set.
pub proof fn lemma_fixnum_round_trip(n: i64)
    by (bit_vector)
    requires
        -0x4000_0000_0000_0000 <= n <= 0x3fff_ffff_ffff_ffff,
    ensures
        is_fixnum_raw(fixnum_raw(n)),
        fixnum_int(fixnum_raw(n)) == n,
{
}

/// What a fixnum word can encode: the decoded integer always lies in the
/// fixnum range, and its sign is the sign of the word read as a signed
/// machine word.
pub proof fn lemma_fixnum_bounds(v: u64)
    by (bit_vector)
    requires
        v & 0x01u64 != 0,
    ensures
        -0x4000_0000_0000_0000 <= fixnum_int(v) <= 0x3fff_ffff_ffff_ffff,
        ((v as i64) < 0) == (fixnum_int(v) < 0),
        fixnum_int(v) == (v as i64) >> 1,
{
}

/// The runtime's `nil`.
#[derive(Clone, Copy, PartialEq, Eq, Debug, Structural)]
pub struct Qnil;

impl Qnil {
    pub fn new() -> Qnil {
        Qnil
    }

    /// Return `Some(Qnil)` if `val` is the nil word, `None` otherwise.
    pub fn from_value(val: Value) -> (r: Option<Self>)
        ensures
            r == (if is_nil_raw(val.spec_raw()) {
                Some(Qnil)
            } else {
                None::<Qnil>
            }),
    {
        if val.is_nil() {
            Some(Qnil)
        } else {
            None
        }
    }

    /// The nil handle.
    pub fn as_value(self) -> (r: Value)
        ensures
            r.spec_raw() == QNIL_RAW,
    {
        Value::new(QNIL_RAW)
    }
}

/// The runtime's `true`.
#[derive(Clone, Copy, PartialEq, Eq, Debug, Structural)]
pub struct Qtrue;

impl Qtrue {
    pub fn new() -> Qtrue {
        Qtrue
    }

    /// Return `Some(Qtrue)` if `val` is the true word, `None` otherwise.
    pub fn from_value(val: Value) -> (r: Option<Self>)
        ensures
            r == (if is_true_raw(val.spec_raw()) {
                Some(Qtrue)
            } else {
                None::<Qtrue>
            }),
    {
        if val.is_true() {
            Some(Qtrue)
        } else {
            None
        }
    }

    /// The true handle.
    pub fn as_value(self) -> (r: Value)
        ensures
            r.spec_raw() == QTRUE_RAW,
    {
        Value::new(QTRUE_RAW)
    }
}

/// The runtime's `false`.
#[derive(Clone, Copy, PartialEq, Eq, Debug, Structural)]
pub struct Qfalse;

impl Qfalse {
    pub fn new() -> Qfalse {
        Qfalse
    }

    /// Return `Some(Qfalse)` if `val` is the false word, `None` otherwise.
    pub fn from_value(val: Value) -> (r: Option<Self>)
        ensures
            r == (if is_false_raw(val.spec_raw()) {
                Some(Qfalse)
            } else {
                None::<Qfalse>
            }),
    {
        if val.is_false() {
            Some(Qfalse)
        } else {
            None
        }
    }

    /// The false handle.
    pub fn as_value(self) -> (r: Value)
        ensures
            r.spec_raw() == QFALSE_RAW,
    {
        Value::new(QFALSE_RAW)
    }
}

/// The runtime's undefined placeholder. It stands for "no value" in slots of
/// the runtime's own tables and never crosses into foreign code as an object.
#[derive(Clone, Copy, PartialEq, Eq, Debug, Structural)]
pub struct Qundef;

impl Qundef {
    pub fn new() -> Qundef {
        Qundef
    }

    /// Return `Some(Qundef)` if `val` is the undefined word, `None`
    /// otherwise.
    pub fn from_value(val: Value) -> (r: Option<Self>)
        ensures
            r == (if is_undef_raw(val.spec_raw()) {
                Some(Qundef)
            } else {
                None::<Qundef>
            }),
    {
        if val.is_undef() {
            Some(Qundef)
        } else {
            None
        }
    }

    /// The undefined handle. Handing it to foreign code as if it were an
    /// object corrupts the runtime; it exists only to mark absent slots.
    pub fn to_value(self) -> (r: Value)
        ensures
            r.spec_raw() == QUNDEF_RAW,
    {
        Value::new(QUNDEF_RAW)
    }
}

/// The internal id of an interned symbol: an index into the runtime's symbol
/// table.
#[derive(Clone, Copy, PartialEq, Eq, Debug, Structural)]
pub struct Id(pub u64);

impl Id {
    pub open spec fn wf(self, rt: &Ruby) -> bool {
        self.0 < rt.symbols.len()
    }

    /// The raw id word.
    pub fn as_rb_id(self) -> (r: u64)
        ensures
            r == self.0,
    {
        self.0
    }

    /// The symbol name this id was interned from.
    pub fn name(self, rt: &Ruby) -> (r: Result<String, crate::error::Error>)
        requires
            rt.wf(),
            self.wf(rt),
        ensures
            r matches Ok(s) && s@ == rt.symbols[self.0 as int]@,
    {
        proof {
            assert(rt.symbols.len() <= usize::MAX);
        }
        Ok(rt.symbols[self.0 as usize].clone())
    }
}

/// A static symbol: an interned name, encoded immediately and never garbage
/// collected.
#[derive(Clone, Copy, PartialEq, Eq, Debug, Structural)]
pub struct StaticSymbol(pub Value);

impl StaticSymbol {
    pub open spec fn wf(self, rt: &Ruby) -> bool {
        &&& is_static_symbol_raw(self.0.spec_raw())
        &&& symbol_id(self.0.spec_raw()) < rt.symbols.len()
    }

    /// The id this symbol word encodes.
    pub open spec fn spec_id(self) -> u64 {
        symbol_id(self.0.spec_raw())
    }

    /// Return `Some(StaticSymbol)` if `val` is a static-symbol word, `None`
    /// otherwise; a pure test of the low byte.
    pub fn from_value(val: Value) -> (r: Option<Self>)
        ensures
            r == (if is_static_symbol_raw(val.spec_raw()) {
                Some(StaticSymbol(val))
            } else {
                None::<StaticSymbol>
            }),
    {
        if val.is_static_symbol() {
            Some(StaticSymbol(val))
        } else {
            None
        }
    }

    /// The wrapped handle.
    pub fn as_value(self) -> (r: Value)
        ensures
            r == self.0,
    {
        self.0
    }

    /// Intern `name` and hand back its symbol. Interning the same name twice
    /// gives the same symbol; a new name is appended to the symbol table.
    pub fn new(rt: &mut Ruby, name: &str) -> (r: StaticSymbol)
        requires
            old(rt).wf(),
            old(rt).symbols.len() < 0x100_0000_0000,
        ensures
            final(rt).wf(),
            r.wf(&*final(rt)),
            final(rt).symbols[r.spec_id() as int]@ == name@,
            final(rt).heap == old(rt).heap,
            final(rt).pending_exception == old(rt).pending_exception,
            final(rt).globals == old(rt).globals,
            final(rt).roots == old(rt).roots,
            (exists|j: int|
                0 <= j < old(rt).symbols.len() && old(rt).symbols[j]@ == name@) ==> final(rt).symbols == old(rt).symbols,
            !(exists|j: int|
                0 <= j < old(rt).symbols.len() && old(rt).symbols[j]@ == name@) ==> final(rt).symbols@.len() == old(rt).symbols@.len() + 1 && final(rt).symbols@.subrange(
                0,
                old(rt).symbols@.len() as int,
            ) == old(rt).symbols@ && r.spec_id() == old(rt).symbols.len(),
    {
        let id: Id = rt.intern(name);
        proof {
            lemma_symbol_round_trip(id.0);
        }
        StaticSymbol(Value::new((id.as_rb_id() << SPECIAL_SHIFT) | SYMBOL_FLAG))
    }

    /// The symbol's name, read back from the symbol table.
    pub fn name(self, rt: &Ruby) -> (r: Result<String, crate::error::Error>)
        requires
            rt.wf(),
            self.wf(rt),
        ensures
            r matches Ok(s) && s@ == rt.symbols[self.spec_id() as int]@,
    {
        proof {
            lemma_symbol_shift(self.0.spec_raw());
        }
        Id(self.0.as_raw() >> SPECIAL_SHIFT).name(rt)
    }
}

/// A symbol id below the table's capacity survives the shift into the word
/// and back.
pub proof fn lemma_symbol_round_trip(id: u64)
    by (bit_vector)
    requires
        id < 0x100_0000_0000_0000,
    ensures
        is_static_symbol_raw(symbol_raw(id)),
        symbol_id(symbol_raw(id)) == id,
{
}

/// Reading the id out of a symbol word is the plain shift.
pub proof fn lemma_symbol_shift(v: u64)
    by (bit_vector)
    ensures
        v >> SPECIAL_SHIFT == symbol_id(v),
{
}

impl Ruby {
    /// Intern a name: hand back the id it already has, or append it to the
    /// symbol table.
    pub fn intern(&mut self, name: &str) -> (r: Id)
        requires
            old(self).wf(),
            old(self).symbols.len() < 0x100_0000_0000,
        ensures
            final(self).wf(),
            r.wf(&*final(self)),
            r.0 < 0x100_0000_0000,
            final(self).symbols[r.0 as int]@ == name@,
            final(self).heap == old(self).heap,
            final(self).pending_exception == old(self).pending_exception,
            final(self).globals == old(self).globals,
            final(self).roots == old(self).roots,
            (exists|j: int|
                0 <= j < old(self).symbols.len() && old(self).symbols[j]@ == name@) ==> final(self).symbols == old(self).symbols,
            !(exists|j: int|
                0 <= j < old(self).symbols.len() && old(self).symbols[j]@ == name@) ==> final(self).symbols@.len() == old(self).symbols@.len() + 1 && final(self).symbols@.subrange(
                0,
                old(self).symbols@.len() as int,
            ) == old(self).symbols@ && r.0 == old(self).symbols.len(),
    {
        let mut i: usize = 0;
        let n: usize = self.symbols.len();
        while i < n
            invariant
                *self == *old(self),
                old(self).wf(),
                old(self).symbols.len() < 0x100_0000_0000,
                n == self.symbols.len(),
                i <= n,
                forall|j: int| 0 <= j < i ==> self.symbols[j]@ != name@,
            decreases n - i,
        {
            if crate::runtime::str_eq(self.symbols[i].as_str(), name) {
                return Id(i as u64);
            }
            i = i + 1;
        }
        let ghost old_rt = *self;
        self.symbols.push(String::from_str(name));
        proof {
            assert forall|k: int| 0 <= k < self.heap.len() implies self.slot_wf(
                #[trigger] self.heap[k],
            ) by {
                assert(old_rt.slot_wf(old_rt.heap[k]));
            }
            crate::runtime::lemma_builtin_names_preserved(&old_rt, self);
        }
        Id(n as u64)
    }
}

/// The position of the most recent registration of `v` among the roots;
/// negative when none is left.
pub open spec fn root_index(roots: Seq<Value>, v: Value) -> int
    decreases roots.len(),
{
    if roots.len() == 0 {
        -1
    } else if roots.last() == v {
        roots.len() - 1
    } else {
        root_index(roots.drop_last(), v)
    }
}

/// Where `root_index` points: at the last matching root, with none after it;
/// or nowhere, and then no root matches.
pub proof fn lemma_root_index(roots: Seq<Value>, v: Value)
    ensures
        -1 <= root_index(roots, v) < roots.len(),
        root_index(roots, v) >= 0 ==> roots[root_index(roots, v)] == v,
        forall|j: int| root_index(roots, v) < j < roots.len() ==> (#[trigger] roots[j]) != v,
        root_index(roots, v) == -1 ==> forall|j: int|
            0 <= j < roots.len() ==> (#[trigger] roots[j]) != v,
    decreases roots.len(),
{
    if roots.len() > 0 && roots.last() != v {
        lemma_root_index(roots.drop_last(), v);
        assert forall|j: int|
            root_index(roots, v) < j < roots.len() implies (#[trigger] roots[j]) != v by {
            if j < roots.len() - 1 {
                assert(roots.drop_last()[j] == roots[j]);
            }
        }
        if root_index(roots, v) == -1 {
            assert forall|j: int| 0 <= j < roots.len() implies (#[trigger] roots[j]) != v by {
                if j < roots.len() - 1 {
                    assert(roots.drop_last()[j] == roots[j]);
                }
            }
        }
    }
}

/// A downward scan that stops at the first match from the end found the index
/// `root_index` names.
pub proof fn lemma_root_index_agrees(roots: Seq<Value>, v: Value, at: int)
    requires
        0 <= at < roots.len(),
        roots[at] == v,
        forall|j: int| at < j < roots.len() ==> (#[trigger] roots[j]) != v,
    ensures
        root_index(roots, v) == at,
    decreases roots.len(),
{
    if at < roots.len() - 1 {
        assert(roots.last() != v);
        assert(roots.drop_last()[at] == roots[at]);
        assert forall|j: int|
            at < j < roots.drop_last().len() implies (#[trigger] roots.drop_last()[j]) != v by {
            assert(roots.drop_last()[j] == roots[j]);
        }
        lemma_root_index_agrees(roots.drop_last(), v, at);
    }
}

/// A handle boxed on the host heap and registered with the collector as an
/// extra root, for keeping a value alive beyond the host stack. Registration
/// and release come in pairs: `new` appends a root, `unregister` takes the
/// most recent matching one back out. A `BoxValue` given up without
/// `unregister` leaks its root slot, which keeps an object alive for ever but
/// breaks nothing.
pub struct BoxValue(pub Value);

impl BoxValue {
    /// Register `val` as a root and keep it.
    pub fn new(rt: &mut Ruby, val: Value) -> (r: BoxValue)
        requires
            old(rt).wf(),
            old(rt).wf_value(val),
        ensures
            final(rt).wf(),
            final(rt).roots@ == old(rt).roots@.push(val),
            final(rt).heap == old(rt).heap,
            final(rt).pending_exception == old(rt).pending_exception,
            final(rt).symbols == old(rt).symbols,
            final(rt).globals == old(rt).globals,
            r.0 == val,
    {
        val.leak(rt);
        BoxValue(val)
    }

    /// The boxed handle.
    pub fn as_value(&self) -> (r: Value)
        ensures
            r == self.0,
    {
        self.0
    }

    /// Release the registration: the most recent root equal to the boxed
    /// handle leaves the root set, and the handle comes back. The paired
    /// counterpart of `new`.
    pub fn unregister(self, rt: &mut Ruby) -> (v: Value)
        requires
            old(rt).wf(),
        ensures
            final(rt).wf(),
            v == self.0,
            final(rt).heap == old(rt).heap,
            final(rt).pending_exception == old(rt).pending_exception,
            final(rt).symbols == old(rt).symbols,
            final(rt).globals == old(rt).globals,
            ({
                let ri = root_index(old(rt).roots@, self.0);
                if ri >= 0 {
                    final(rt).roots@ == old(rt).roots@.remove(ri)
                } else {
                    final(rt).roots@ == old(rt).roots@
                }
            }),
    {
        proof {
            lemma_root_index(old(rt).roots@, self.0);
        }
        let mut i: usize = rt.roots.len();
        while i > 0
            invariant
                *rt == *old(rt),
                old(rt).wf(),
                i <= rt.roots@.len(),
                forall|j: int| i <= j < rt.roots@.len() ==> (#[trigger] rt.roots@[j]) != self.0,
            decreases i,
        {
            i = i - 1;
            if rt.roots[i] == self.0 {
                proof {
                    lemma_root_index_agrees(old(rt).roots@, self.0, i as int);
                }
                let ghost old_rt = *rt;
                rt.roots.remove(i);
                proof {
                    assert forall|k: int| 0 <= k < rt.heap.len() implies rt.slot_wf(
                        #[trigger] rt.heap[k],
                    ) by {
                        assert(old_rt.slot_wf(old_rt.heap[k]));
                    }
                    assert forall|j: int|
                        0 <= j < rt.roots@.len() implies rt.wf_value(#[trigger] rt.roots@[j]) by {
                        if j < i {
                            assert(rt.roots@[j] == old_rt.roots@[j]);
                        } else {
                            assert(rt.roots@[j] == old_rt.roots@[j + 1]);
                        }
                    }
                    crate::runtime::lemma_builtin_names_preserved(&old_rt, rt);
                }
                return self.0;
            }
        }
        proof {
            if root_index(old(rt).roots@, self.0) >= 0 {
                assert(old(rt).roots@[root_index(old(rt).roots@, self.0)] == self.0);
            }
        }
        self.0
    }
}

/// A handle known to be a fixnum, the runtime's immediate encoding of small
/// integers. See also `Integer`.
#[derive(Clone, Copy, PartialEq, Eq, Debug, Structural)]
pub struct Fixnum(pub Value);

impl Fixnum {
    /// A `Fixnum` is only ever built around a word with the fixnum bit.
    pub open spec fn wf(self) -> bool {
        is_fixnum_raw(self.0.spec_raw())
    }

    /// The integer this fixnum encodes.
    pub open spec fn spec_int(self) -> int {
        fixnum_int(self.0.spec_raw())
    }

    /// Return `Some(Fixnum)` if `val` is a fixnum, `None` otherwise; a pure
    /// test of the low bit.
    pub fn from_value(val: Value) -> (r: Option<Self>)
        ensures
            r == (if is_fixnum_raw(val.spec_raw()) {
                Some(Fixnum(val))
            } else {
                None::<Fixnum>
            }),
            r matches Some(f) ==> f.wf(),
    {
        if val.is_fixnum() {
            Some(Fixnum(val))
        } else {
            None
        }
    }

    /// The wrapped handle.
    pub fn as_value(self) -> (r: Value)
        ensures
            r == self.0,
    {
        self.0
    }

    pub(crate) fn from_i64_in_range(n: i64) -> (r: Fixnum)
        requires
            fixnum_fits(n as int),
        ensures
            r.wf(),
            r.spec_int() == n,
            r.0.spec_raw() == fixnum_raw(n),
    {
        proof {
            lemma_fixnum_round_trip(n);
        }
        Fixnum(Value::new(((n << 1) | 1) as u64))
    }

    /// Encode `n` as a fixnum when it fits the immediate width — one bit
    /// narrower than the machine word, signed — and otherwise hand back the
    /// heap big integer it was promoted to instead; never a truncation.
    pub fn from_i64(rt: &mut Ruby, n: i64) -> (r: Result<Fixnum, crate::r_bignum::RBignum>)
        requires
            old(rt).wf(),
            old(rt).has_room(),
        ensures
            final(rt).wf(),
            match r {
                Ok(f) => fixnum_fits(n as int) && f.wf() && f.spec_int() == n && *final(rt) == *old(rt),
                Err(b) => !fixnum_fits(n as int) && b.wf(&*final(rt)) && b.spec_int(&*final(rt))
                    == n && crate::runtime::extends(&*old(rt), &*final(rt)) && final(rt).heap@.len() == old(rt).heap@.len() + 1,
            },
    {
        let r: Result<crate::r_bignum::RBignum, Fixnum> = rt.bignum_from_i64(n);
        proof {
            assert(rt.heap@.subrange(0, old(rt).heap@.len() as int) =~= old(rt).heap@);
        }
        match r {
            Ok(b) => Err(b),
            Err(f) => Ok(f),
        }
    }

    /// Encode `n` as a fixnum when it fits, else hand back the promoted heap
    /// big integer.
    pub fn from_u64(rt: &mut Ruby, n: u64) -> (r: Result<Fixnum, crate::r_bignum::RBignum>)
        requires
            old(rt).wf(),
            old(rt).has_room(),
        ensures
            final(rt).wf(),
            match r {
                Ok(f) => n <= FIXNUM_MAX && f.wf() && f.spec_int() == n && *final(rt) == *old(rt),
                Err(b) => n > FIXNUM_MAX && b.wf(&*final(rt)) && b.spec_int(&*final(rt)) == n
                    && crate::runtime::extends(&*old(rt), &*final(rt)) && final(rt).heap@.len()
                    == old(rt).heap@.len() + 1,
            },
    {
        let r: Result<crate::r_bignum::RBignum, Fixnum> = rt.bignum_from_u64(n);
        proof {
            assert(rt.heap@.subrange(0, old(rt).heap@.len() as int) =~= old(rt).heap@);
        }
        match r {
            Ok(b) => Err(b),
            Err(f) => Ok(f),
        }
    }

    fn is_negative(self) -> (r: bool)
        requires
            self.wf(),
        ensures
            r == (self.spec_int() < 0),
    {
        proof {
            lemma_fixnum_bounds(self.0.spec_raw());
        }
        (self.0.as_raw() as i64) < 0
    }

    /// Convert to an `i64`; infallible, as `i64` covers the whole fixnum
    /// range.
    pub fn to_i64(self) -> (r: i64)
        requires
            self.wf(),
        ensures
            r == self.spec_int(),
    {
        proof {
            lemma_fixnum_bounds(self.0.spec_raw());
        }
        (self.0.as_raw() as i64) >> 1
    }

    /// Convert to an `i8`, rejecting values outside its width with a range
    /// error distinct from any type error.
    pub fn to_i8(self) -> (r: Result<i8, crate::error::Error>)
        requires
            self.wf(),
        ensures
            match r {
                Ok(x) => i8::MIN <= self.spec_int() <= i8::MAX && x == self.spec_int(),
                Err(e) => !(i8::MIN <= self.spec_int() <= i8::MAX) && (e
                    matches crate::error::Error::Raised { kind, message }
                    && kind == crate::error::ErrorKind::RangeError && message@
                    == "fixnum too big to convert into `i8`"@),
            },
    {
        let n: i64 = self.to_i64();
        if n > i8::MAX as i64 || n < i8::MIN as i64 {
            Err(crate::error::Error::range_error("fixnum too big to convert into `i8`"))
        } else {
            Ok(n as i8)
        }
    }

    /// Convert to an `i16`, rejecting values outside its width.
    pub fn to_i16(self) -> (r: Result<i16, crate::error::Error>)
        requires
            self.wf(),
        ensures
            match r {
                Ok(x) => i16::MIN <= self.spec_int() <= i16::MAX && x == self.spec_int(),
                Err(e) => !(i16::MIN <= self.spec_int() <= i16::MAX) && (e
                    matches crate::error::Error::Raised { kind, message }
                    && kind == crate::error::ErrorKind::RangeError && message@
                    == "fixnum too big to convert into `i16`"@),
            },
    {
        let n: i64 = self.to_i64();
        if n > i16::MAX as i64 || n < i16::MIN as i64 {
            Err(crate::error::Error::range_error("fixnum too big to convert into `i16`"))
        } else {
            Ok(n as i16)
        }
    }

    /// Convert to an `i32`, rejecting values outside its width.
    pub fn to_i32(self) -> (r: Result<i32, crate::error::Error>)
        requires
            self.wf(),
        ensures
            match r {
                Ok(x) => i32::MIN <= self.spec_int() <= i32::MAX && x == self.spec_int(),
                Err(e) => !(i32::MIN <= self.spec_int() <= i32::MAX) && (e
                    matches crate::error::Error::Raised { kind, message }
                    && kind == crate::error::ErrorKind::RangeError && message@
                    == "fixnum too big to convert into `i32`"@),
            },
    {
        let n: i64 = self.to_i64();
        if n > i32::MAX as i64 || n < i32::MIN as i64 {
            Err(crate::error::Error::range_error("fixnum too big to convert into `i32`"))
        } else {
            Ok(n as i32)
        }
    }

    /// Convert to an `isize`, rejecting values outside its width.
    pub fn to_isize(self) -> (r: Result<isize, crate::error::Error>)
        requires
            self.wf(),
        ensures
            match r {
                Ok(x) => isize::MIN <= self.spec_int() <= isize::MAX && x == self.spec_int(),
                Err(e) => !(isize::MIN <= self.spec_int() <= isize::MAX) && (e
                    matches crate::error::Error::Raised { kind, message }
                    && kind == crate::error::ErrorKind::RangeError && message@
                    == "fixnum too big to convert into `isize`"@),
            },
    {
        let n: i64 = self.to_i64();
        if n > isize::MAX as i64 || n < isize::MIN as i64 {
            Err(crate::error::Error::range_error("fixnum too big to convert into `isize`"))
        } else {
            Ok(n as isize)
        }
    }

    /// Convert to a `u8`. A negative fixnum is rejected before any width
    /// check, with its own message; it never wraps.
    pub fn to_u8(self) -> (r: Result<u8, crate::error::Error>)
        requires
            self.wf(),
        ensures
            match r {
                Ok(x) => 0 <= self.spec_int() <= u8::MAX && x == self.spec_int(),
                Err(e) => !(0 <= self.spec_int() <= u8::MAX) && (e
                    matches crate::error::Error::Raised { kind, message }
                    && kind == crate::error::ErrorKind::RangeError && message@ == (
                    if self.spec_int() < 0 {
                        "can't convert negative integer to unsigned"@
                    } else {
                        "fixnum too big to convert into `u8`"@
                    })),
            },
    {
        if self.is_negative() {
            return Err(
                crate::error::Error::range_error("can't convert negative integer to unsigned"),
            );
        }
        let n: i64 = self.to_i64();
        if n > u8::MAX as i64 {
            Err(crate::error::Error::range_error("fixnum too big to convert into `u8`"))
        } else {
            Ok(n as u8)
        }
    }

    /// Convert to a `u16`; negative values are rejected before the width
    /// check.
    pub fn to_u16(self) -> (r: Result<u16, crate::error::Error>)
        requires
            self.wf(),
        ensures
            match r {
                Ok(x) => 0 <= self.spec_int() <= u16::MAX && x == self.spec_int(),
                Err(e) => !(0 <= self.spec_int() <= u16::MAX) && (e
                    matches crate::error::Error::Raised { kind, message }
                    && kind == crate::error::ErrorKind::RangeError && message@ == (
                    if self.spec_int() < 0 {
                        "can't convert negative integer to unsigned"@
                    } else {
                        "fixnum too big to convert into `u16`"@
                    })),
            },
    {
        if self.is_negative() {
            return Err(
                crate::error::Error::range_error("can't convert negative integer to unsigned"),
            );
        }
        let n: i64 = self.to_i64();
        if n > u16::MAX as i64 {
            Err(crate::error::Error::range_error("fixnum too big to convert into `u16`"))
        } else {
            Ok(n as u16)
        }
    }

    /// Convert to a `u32`; negative values are rejected before the width
    /// check.
    pub fn to_u32(self) -> (r: Result<u32, crate::error::Error>)
        requires
            self.wf(),
        ensures
            match r {
                Ok(x) => 0 <= self.spec_int() <= u32::MAX && x == self.spec_int(),
                Err(e) => !(0 <= self.spec_int() <= u32::MAX) && (e
                    matches crate::error::Error::Raised { kind, message }
                    && kind == crate::error::ErrorKind::RangeError && message@ == (
                    if self.spec_int() < 0 {
                        "can't convert negative integer to unsigned"@
                    } else {
                        "fixnum too big to convert into `u32`"@
                    })),
            },
    {
        if self.is_negative() {
            return Err(
                crate::error::Error::range_error("can't convert negative integer to unsigned"),
            );
        }
        let n: i64 = self.to_i64();
        if n > u32::MAX as i64 {
            Err(crate::error::Error::range_error("fixnum too big to convert into `u32`"))
        } else {
            Ok(n as u32)
        }
    }

    /// Convert to a `u64`; only negative values are rejected, as `u64` covers
    /// the whole non-negative fixnum range.
    pub fn to_u64(self) -> (r: Result<u64, crate::error::Error>)
        requires
            self.wf(),
        ensures
            match r {
                Ok(x) => 0 <= self.spec_int() && x == self.spec_int(),
                Err(e) => self.spec_int() < 0 && (e
                    matches crate::error::Error::Raised { kind, message }
                    && kind == crate::error::ErrorKind::RangeError && message@
                    == "can't convert negative integer to unsigned"@),
            },
    {
        if self.is_negative() {
            return Err(
                crate::error::Error::range_error("can't convert negative integer to unsigned"),
            );
        }
        let n: i64 = self.to_i64();
        Ok(n as u64)
    }

    /// Convert to a `usize`; negative values are rejected before the width
    /// check.
    pub fn to_usize(self) -> (r: Result<usize, crate::error::Error>)
        requires
            self.wf(),
        ensures
            match r {
                Ok(x) => 0 <= self.spec_int() <= usize::MAX && x == self.spec_int(),
                Err(e) => !(0 <= self.spec_int() <= usize::MAX) && (e
                    matches crate::error::Error::Raised { kind, message }
                    && kind == crate::error::ErrorKind::RangeError && message@ == (
                    if self.spec_int() < 0 {
                        "can't convert negative integer to unsigned"@
                    } else {
                        "fixnum too big to convert into `usize`"@
                    })),
            },
    {
        if self.is_negative() {
            return Err(
                crate::error::Error::range_error("can't convert negative integer to unsigned"),
            );
        }
        let n: i64 = self.to_i64();
        if n as u64 > usize::MAX as u64 {
            Err(crate::error::Error::range_error("fixnum too big to convert into `usize`"))
        } else {
            Ok(n as usize)
        }
    }
}

} // verus!
