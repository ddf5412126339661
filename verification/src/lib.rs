//! A verified model of a foreign-function binding layer for a managed,
//! garbage-collected object system.
//!
//! All objects of the foreign runtime are represented by a single
//! machine-word handle, [`Value`]. The bit pattern of the word alone decides
//! whether the handle is an *immediate* (nil, true, false, undefined, a small
//! integer, an interned symbol, or a compact float, all encoded directly in
//! the word and never garbage collected) or a *reference* into the runtime's
//! heap. The [`Ruby`] type holds the state of the runtime that the library's
//! contracts speak about: the heap of type-tagged object slots, the pending
//! exception slot, the interned-symbol table, and the registered roots.

pub mod error;
pub mod float;
pub mod integer;
pub mod into_value;
pub mod method;
pub mod r_array;
pub mod r_bignum;
pub mod r_complex;
pub mod r_hash;
pub mod r_match;
pub mod r_object;
pub mod r_rational;
pub mod r_regexp;
pub mod r_struct;
pub mod runtime;
pub mod try_convert;
pub mod typed_data;
pub mod value;

pub use error::Error;
pub use float::{Float, Flonum};
pub use into_value::IntoValue;
pub use r_array::RArray;
pub use r_bignum::RBignum;
pub use r_complex::RComplex;
pub use r_hash::{ForEach, RHash};
pub use r_match::RMatch;
pub use r_object::RObject;
pub use r_rational::RRational;
pub use r_regexp::RRegexp;
pub use r_struct::RStruct;
pub use runtime::{define_global_variable, define_variable, RClass, Ruby};
pub use try_convert::{TryConvert, TryConvertToRust};
pub use typed_data::{DataType, DataTypeBuilder, Obj, TypedData};
pub use value::{BoxValue, Fixnum, Id, Qfalse, Qnil, Qtrue, Qundef, StaticSymbol, Value, ValueType};
