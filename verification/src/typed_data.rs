//! Wrapping host types as objects of the runtime.
//!
//! A wrapped type registers a [`DataType`]: its name and the flags and
//! callbacks the collector needs (a finalizer always; marking, size-reporting
//! and compaction callbacks only when asked for). [`DataTypeBuilder`] builds
//! the flags word exactly as the runtime's object layer reads it.

use vstd::prelude::*;
use vstd::string::StringExecFns;

use core::marker::PhantomData;

use crate::runtime::{lemma_header_bits, HeapData, HeapSlot, RClass, Ruby};
use crate::value::Value;

verus! {

/// The flag asking the collector to run the finalizer as soon as the object
/// dies, instead of deferring it.
pub const TYPED_FREE_IMMEDIATELY: u64 = 0x01;

/// The flag declaring the wrapped type safe to share once frozen.
pub const TYPED_FROZEN_SHAREABLE: u64 = 0x02;

/// The write-barrier-protected flag; set whenever no mark callback exists, as
/// an unmarked object holds no handles the barrier could miss.
pub const TYPED_WB_PROTECTED: u64 = 0x20;

/// The collector-facing description of a wrapped host type: its name, the
/// flags word, and which optional callbacks are installed.
pub struct DataType {
    /// The name the runtime shows for the wrapped type.
    pub name: String,
    /// The flags word, exactly as the runtime's object layer reads it.
    pub flags: u64,
    /// Whether a mark callback is installed; required if the wrapped type
    /// holds any tagged values.
    pub dmark: bool,
    /// A finalizer is always installed.
    pub dfree: bool,
    /// Whether a size-reporting callback is installed.
    pub dsize: bool,
    /// Whether a compaction callback is installed.
    pub dcompact: bool,
}

/// A builder for [`DataType`], collecting the choices before the flags word
/// is computed once.
pub struct DataTypeBuilder<T> {
    name: &'static str,
    mark: bool,
    size: bool,
    compact: bool,
    free_immediately: bool,
    wb_protected: bool,
    frozen_shareable: bool,
    phantom: PhantomData<T>,
}

impl<T> DataTypeBuilder<T> {
    pub closed spec fn spec_name(&self) -> Seq<char> {
        self.name@
    }

    pub closed spec fn spec_mark(&self) -> bool {
        self.mark
    }

    pub closed spec fn spec_size(&self) -> bool {
        self.size
    }

    pub closed spec fn spec_compact(&self) -> bool {
        self.compact
    }

    pub closed spec fn spec_free_immediately(&self) -> bool {
        self.free_immediately
    }

    pub closed spec fn spec_wb_protected(&self) -> bool {
        self.wb_protected
    }

    pub closed spec fn spec_frozen_shareable(&self) -> bool {
        self.frozen_shareable
    }

    /// Start from nothing: no callbacks, no flags.
    pub fn new(name: &'static str) -> (r: Self)
        ensures
            r.spec_name() == name@,
            !r.spec_mark(),
            !r.spec_size(),
            !r.spec_compact(),
            !r.spec_free_immediately(),
            !r.spec_wb_protected(),
            !r.spec_frozen_shareable(),
    {
        DataTypeBuilder {
            name,
            mark: false,
            size: false,
            compact: false,
            free_immediately: false,
            wb_protected: false,
            frozen_shareable: false,
            phantom: PhantomData,
        }
    }

    /// Install the mark callback; required if the wrapped type holds tagged
    /// values.
    pub fn mark(&mut self)
        ensures
            final(self).spec_mark(),
            final(self).spec_name() == old(self).spec_name(),
            final(self).spec_size() == old(self).spec_size(),
            final(self).spec_compact() == old(self).spec_compact(),
            final(self).spec_free_immediately() == old(self).spec_free_immediately(),
            final(self).spec_wb_protected() == old(self).spec_wb_protected(),
            final(self).spec_frozen_shareable() == old(self).spec_frozen_shareable(),
    {
        self.mark = true;
    }

    /// Install the size-reporting callback.
    pub fn size(&mut self)
        ensures
            final(self).spec_size(),
            final(self).spec_name() == old(self).spec_name(),
            final(self).spec_mark() == old(self).spec_mark(),
            final(self).spec_compact() == old(self).spec_compact(),
            final(self).spec_free_immediately() == old(self).spec_free_immediately(),
            final(self).spec_wb_protected() == old(self).spec_wb_protected(),
            final(self).spec_frozen_shareable() == old(self).spec_frozen_shareable(),
    {
        self.size = true;
    }

    /// Install the compaction callback.
    pub fn compact(&mut self)
        ensures
            final(self).spec_compact(),
            final(self).spec_name() == old(self).spec_name(),
            final(self).spec_mark() == old(self).spec_mark(),
            final(self).spec_size() == old(self).spec_size(),
            final(self).spec_free_immediately() == old(self).spec_free_immediately(),
            final(self).spec_wb_protected() == old(self).spec_wb_protected(),
            final(self).spec_frozen_shareable() == old(self).spec_frozen_shareable(),
    {
        self.compact = true;
    }

    /// Ask for immediate finalization; safe as long as the finalizer never
    /// calls back into the runtime.
    pub fn free_immediately(&mut self)
        ensures
            final(self).spec_free_immediately(),
            final(self).spec_name() == old(self).spec_name(),
            final(self).spec_mark() == old(self).spec_mark(),
            final(self).spec_size() == old(self).spec_size(),
            final(self).spec_compact() == old(self).spec_compact(),
            final(self).spec_wb_protected() == old(self).spec_wb_protected(),
            final(self).spec_frozen_shareable() == old(self).spec_frozen_shareable(),
    {
        self.free_immediately = true;
    }

    /// Declare the object write-barrier protected.
    pub fn wb_protected(&mut self)
        ensures
            final(self).spec_wb_protected(),
            final(self).spec_name() == old(self).spec_name(),
            final(self).spec_mark() == old(self).spec_mark(),
            final(self).spec_size() == old(self).spec_size(),
            final(self).spec_compact() == old(self).spec_compact(),
            final(self).spec_free_immediately() == old(self).spec_free_immediately(),
            final(self).spec_frozen_shareable() == old(self).spec_frozen_shareable(),
    {
        self.wb_protected = true;
    }

    /// Declare the wrapped type safe to share once frozen.
    pub fn frozen_shareable(&mut self)
        ensures
            final(self).spec_frozen_shareable(),
            final(self).spec_name() == old(self).spec_name(),
            final(self).spec_mark() == old(self).spec_mark(),
            final(self).spec_size() == old(self).spec_size(),
            final(self).spec_compact() == old(self).spec_compact(),
            final(self).spec_free_immediately() == old(self).spec_free_immediately(),
            final(self).spec_wb_protected() == old(self).spec_wb_protected(),
    {
        self.frozen_shareable = true;
    }

    /// Compute the collector-facing description: each chosen flag lands in
    /// the flags word, the write-barrier flag also whenever no mark callback
    /// exists, and the callbacks are installed exactly as chosen — a
    /// finalizer always.
    pub fn build(self) -> (r: DataType)
        ensures
            r.name@ == self.spec_name(),
            r.flags == (if self.spec_free_immediately() {
                TYPED_FREE_IMMEDIATELY
            } else {
                0
            }) | (if self.spec_wb_protected() || !self.spec_mark() {
                TYPED_WB_PROTECTED
            } else {
                0
            }) | (if self.spec_frozen_shareable() {
                TYPED_FROZEN_SHAREABLE
            } else {
                0
            }),
            r.dmark == self.spec_mark(),
            r.dfree,
            r.dsize == self.spec_size(),
            r.dcompact == self.spec_compact(),
    {
        let mut flags: u64 = 0;
        if self.free_immediately {
            flags = flags | TYPED_FREE_IMMEDIATELY;
        }
        if self.wb_protected || !self.mark {
            flags = flags | TYPED_WB_PROTECTED;
        }
        if self.frozen_shareable {
            flags = flags | TYPED_FROZEN_SHAREABLE;
        }
        proof {
            lemma_typed_flags(
                self.spec_free_immediately(),
                self.spec_wb_protected() || !self.spec_mark(),
                self.spec_frozen_shareable(),
            );
        }
        DataType {
            name: String::from_str(self.name),
            flags,
            dmark: self.mark,
            dfree: true,
            dsize: self.size,
            dcompact: self.compact,
        }
    }
}

/// Folding the three flags in one at a time lands each in its own bit.
proof fn lemma_typed_flags(fi: bool, wb: bool, fs: bool)
    by (bit_vector)
    ensures
        ({
            let a: u64 = if fi {
                0u64 | 0x01
            } else {
                0u64
            };
            let b: u64 = if wb {
                a | 0x20
            } else {
                a
            };
            let c: u64 = if fs {
                b | 0x02
            } else {
                b
            };
            c == (if fi {
                0x01u64
            } else {
                0u64
            }) | (if wb {
                0x20u64
            } else {
                0u64
            }) | (if fs {
                0x02u64
            } else {
                0u64
            })
        }),
{
}

/// A host type that can be wrapped as an object of the runtime: it names its
/// class and its collector-facing description. Users implement it for each
/// wrapped type; the wrapping contract below holds of implementations whose
/// `class` meets its stated bond to `spec_class`.
pub trait TypedData: Sized {
    /// The handle of the class the wrapping objects belong to, for
    /// specifications.
    spec fn spec_class(rt: &Ruby) -> Value;

    /// The class the wrapping objects belong to.
    fn class(rt: &Ruby) -> (r: RClass)
        ensures
            r.0 == Self::spec_class(rt),
            rt.wf() ==> rt.is_class_ref(r.0),
    ;

    /// The collector-facing description of the type.
    fn data_type() -> DataType;
}

impl Ruby {
    /// Wrap a host value as an object of the runtime: a fresh heap slot of
    /// the wrapped type's declared class, with the host value riding on the
    /// wrapper, unchanged and retrievable.
    pub fn obj_wrap<T: TypedData>(&mut self, data: T) -> (r: Obj<T>)
        requires
            old(self).wf(),
            old(self).has_room(),
        ensures
            final(self).wf(),
            crate::runtime::extends(&*old(self), &*final(self)),
            final(self).heap@ == old(self).heap@.push(
                (HeapSlot {
                    flags: 0x01,
                    klass: T::spec_class(&*old(self)),
                    data: HeapData::Object,
                }),
            ),
            crate::runtime::is_ref_raw(r.spec_value().spec_raw()),
            crate::runtime::ref_index(r.spec_value().spec_raw()) == old(self).heap.len(),
            final(self).wf_value(r.spec_value()),
            r.spec_value().spec_type(&*final(self)) == crate::value::ValueType::Object,
            r.spec_value().spec_class_index(&*final(self)) == crate::runtime::ref_index(
                T::spec_class(&*old(self)).spec_raw(),
            ),
            !r.spec_value().spec_is_frozen(&*final(self)),
            r.spec_data() == data,
    {
        let klass: Value = T::class(&*self).as_value();
        let slot = HeapSlot { flags: 0x01, klass, data: HeapData::Object };
        proof {
            lemma_header_bits(0x01, 0);
            assert(old(self).slot_wf(slot));
        }
        let v: Value = self.alloc_slot(slot);
        proof {
            crate::runtime::lemma_ref_not_immediate(v.spec_raw());
            assert(self.heap@.subrange(0, old(self).heap@.len() as int) =~= old(self).heap@);
        }
        Obj { value: v, data }
    }
}

/// An object of the runtime wrapping a host value of type `T`, with the host
/// value still at hand.
pub struct Obj<T> {
    value: Value,
    data: T,
}

impl<T: TypedData> Obj<T> {
    /// The wrapping handle, for specifications.
    pub closed spec fn spec_value(&self) -> Value {
        self.value
    }

    /// The wrapped host value, for specifications.
    pub closed spec fn spec_data(&self) -> T {
        self.data
    }

    /// Wrap a host value; the runtime's allocation rides on [`Ruby::obj_wrap`],
    /// whose contract this carries: a fresh object slot of the wrapped type's
    /// declared class, the host value unchanged.
    pub fn wrap(rt: &mut Ruby, data: T) -> (r: Obj<T>)
        requires
            old(rt).wf(),
            old(rt).has_room(),
        ensures
            final(rt).wf(),
            crate::runtime::extends(&*old(rt), &*final(rt)),
            final(rt).heap@ == old(rt).heap@.push(
                (HeapSlot {
                    flags: 0x01,
                    klass: T::spec_class(&*old(rt)),
                    data: HeapData::Object,
                }),
            ),
            crate::runtime::is_ref_raw(r.spec_value().spec_raw()),
            crate::runtime::ref_index(r.spec_value().spec_raw()) == old(rt).heap.len(),
            final(rt).wf_value(r.spec_value()),
            r.spec_value().spec_type(&*final(rt)) == crate::value::ValueType::Object,
            r.spec_value().spec_class_index(&*final(rt)) == crate::runtime::ref_index(
                T::spec_class(&*old(rt)).spec_raw(),
            ),
            !r.spec_value().spec_is_frozen(&*final(rt)),
            r.spec_data() == data,
    {
        rt.obj_wrap(data)
    }

    /// The wrapped host value: wrapping and reading back is the identity.
    pub fn get(&self) -> (r: &T)
        ensures
            r == self.spec_data(),
    {
        &self.data
    }

    /// The wrapping handle.
    pub fn as_value(&self) -> (r: Value)
        ensures
            r == self.spec_value(),
    {
        self.value
    }
}

} // verus!
