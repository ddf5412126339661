//! The foreign-to-host half of the conversion protocol.
//!
//! [`TryConvert`] is the partial direction: a tagged value either yields the
//! requested host type or an error. Each implementation fixes its whole
//! behaviour in `convert_rel`: on which values it succeeds, what it hands
//! back, and of which kind its error is — a type error when the value is of
//! the wrong kind, a range error when a number does not fit the requested
//! width. Absence is a nil check: `Option<T>` reads the nil immediate as
//! `None` and delegates everything else.

use vstd::prelude::*;
use vstd::string::StringExecFns;

use crate::error::{Error, ErrorKind};
use crate::integer::{integer_int, is_integer_value, Integer, IntegerType};
use crate::r_bignum::{is_bignum_value, RBignum};
use crate::runtime::Ruby;
use crate::value::{
    is_fixnum_raw, is_nil_raw, is_static_symbol_raw, is_undef_raw, truthy_raw, Fixnum, Qfalse,
    Qnil, Qtrue, StaticSymbol, Value,
};

verus! {

/// Conversion from a tagged value of the runtime to a host type.
///
/// `convert_rel` is the contract: it relates a runtime, a value and a
/// candidate result, and `try_convert` may only return results the relation
/// admits. Every implementation's relation decides success exactly — which
/// values convert, to what, and with which kind of error the rest are
/// rejected.
pub trait TryConvert: Sized {
    /// What `try_convert` is allowed to return for `val` against `rt`.
    spec fn convert_rel(rt: &Ruby, val: Value, r: Result<Self, Error>) -> bool;

    /// The relation decides success: no value both converts and fails. This
    /// is what lets a caller conclude, from a returned error, that no
    /// successful conversion existed.
    proof fn lemma_convert_exclusive(rt: &Ruby, val: Value, x: Self, e: Error)
        ensures
            !(Self::convert_rel(rt, val, Ok(x)) && Self::convert_rel(rt, val, Err(e))),
    ;

    /// Extract a `Self` from `val`, or say exactly why not.
    fn try_convert(rt: &Ruby, val: Value) -> (r: Result<Self, Error>)
        requires
            rt.wf(),
            rt.wf_value(val),
            !is_undef_raw(val.spec_raw()),
        ensures
            Self::convert_rel(rt, val, r),
    ;
}

/// Whether `val` converts to a `T` against `rt`: some result of the
/// conversion relation succeeds.
pub open spec fn converts<T: TryConvert>(rt: &Ruby, val: Value) -> bool {
    exists|x: T| T::convert_rel(rt, val, Ok(x))
}

/// Conversions whose result owes nothing to the runtime once made: plain host
/// values, safe to keep on the host heap. The conversion itself is the same.
pub trait TryConvertToRust: TryConvert {
    fn try_convert_to_rust(rt: &Ruby, val: Value) -> (r: Result<Self, Error>)
        requires
            rt.wf(),
            rt.wf_value(val),
            !is_undef_raw(val.spec_raw()),
        ensures
            Self::convert_rel(rt, val, r),
    ;
}

impl Value {
    /// Convert this value to the host type `T`, by `T`'s own rule.
    pub fn try_convert<T: TryConvert>(self, rt: &Ruby) -> (r: Result<T, Error>)
        requires
            rt.wf(),
            rt.wf_value(self),
            !is_undef_raw(self.spec_raw()),
        ensures
            T::convert_rel(rt, self, r),
    {
        T::try_convert(rt, self)
    }
}

impl TryConvert for Value {
    /// Every value converts to itself.
    open spec fn convert_rel(rt: &Ruby, val: Value, r: Result<Value, Error>) -> bool {
        r == Ok::<Value, Error>(val)
    }

    proof fn lemma_convert_exclusive(rt: &Ruby, val: Value, x: Self, e: Error) {
    }

    fn try_convert(rt: &Ruby, val: Value) -> (r: Result<Self, Error>) {
        Ok(val)
    }
}

impl TryConvertToRust for Value {
    fn try_convert_to_rust(rt: &Ruby, val: Value) -> (r: Result<Self, Error>) {
        <Value as TryConvert>::try_convert(rt, val)
    }
}

impl TryConvert for bool {
    /// Every value converts, by the runtime's truthiness rule: false and nil
    /// are false, everything else is true.
    open spec fn convert_rel(rt: &Ruby, val: Value, r: Result<bool, Error>) -> bool {
        r == Ok::<bool, Error>(truthy_raw(val.spec_raw()))
    }

    proof fn lemma_convert_exclusive(rt: &Ruby, val: Value, x: Self, e: Error) {
    }

    fn try_convert(rt: &Ruby, val: Value) -> (r: Result<Self, Error>) {
        Ok(val.to_bool())
    }
}

impl TryConvertToRust for bool {
    fn try_convert_to_rust(rt: &Ruby, val: Value) -> (r: Result<Self, Error>) {
        Self::try_convert(rt, val)
    }
}

impl<T: TryConvert> TryConvert for Option<T> {
    /// The nil immediate is `None`; everything else converts by `T`'s rule
    /// and wraps in `Some`.
    open spec fn convert_rel(rt: &Ruby, val: Value, r: Result<Option<T>, Error>) -> bool {
        if is_nil_raw(val.spec_raw()) {
            r == Ok::<Option<T>, Error>(None)
        } else {
            match r {
                Ok(inner) => inner matches Some(x) && T::convert_rel(rt, val, Ok(x)),
                Err(e) => T::convert_rel(rt, val, Err(e)),
            }
        }
    }

    proof fn lemma_convert_exclusive(rt: &Ruby, val: Value, x: Self, e: Error) {
        if !is_nil_raw(val.spec_raw()) {
            match x {
                Some(inner) => T::lemma_convert_exclusive(rt, val, inner, e),
                None => {},
            }
        }
    }

    fn try_convert(rt: &Ruby, val: Value) -> (r: Result<Self, Error>) {
        if val.is_nil() {
            Ok(None)
        } else {
            match T::try_convert(rt, val) {
                Ok(x) => Ok(Some(x)),
                Err(e) => Err(e),
            }
        }
    }
}

impl<T: TryConvertToRust> TryConvertToRust for Option<T> {
    fn try_convert_to_rust(rt: &Ruby, val: Value) -> (r: Result<Self, Error>) {
        if val.is_nil() {
            Ok(None)
        } else {
            match T::try_convert(rt, val) {
                Ok(x) => Ok(Some(x)),
                Err(e) => Err(e),
            }
        }
    }
}

/// The rejection every conversion that needs an integer gives a value of
/// another kind: a type error whose message names the value's own class and
/// the wanted one.
pub open spec fn integer_type_error(rt: &Ruby, val: Value, e: Error) -> bool {
    e matches Error::Raised { kind, message } && kind == ErrorKind::TypeError && message@
        == "no implicit conversion of "@ + val.spec_classname(rt) + " into Integer"@
}

impl TryConvert for Integer {
    /// Fixnums and big integers convert; everything else is a type error
    /// naming the value's class.
    open spec fn convert_rel(rt: &Ruby, val: Value, r: Result<Integer, Error>) -> bool {
        match r {
            Ok(i) => is_integer_value(rt, val) && i == Integer(val),
            Err(e) => !is_integer_value(rt, val) && integer_type_error(rt, val, e),
        }
    }

    proof fn lemma_convert_exclusive(rt: &Ruby, val: Value, x: Self, e: Error) {
    }

    fn try_convert(rt: &Ruby, val: Value) -> (r: Result<Self, Error>) {
        match Integer::from_value(rt, val) {
            Some(i) => Ok(i),
            None => {
                let name: String = val.classname(rt);
                let message: String = String::from_str("no implicit conversion of ").concat(
                    name.as_str(),
                ).concat(" into Integer");
                Err(Error::Raised { kind: ErrorKind::TypeError, message })
            },
        }
    }
}

impl TryConvertToRust for Integer {
    fn try_convert_to_rust(rt: &Ruby, val: Value) -> (r: Result<Self, Error>) {
        Self::try_convert(rt, val)
    }
}

impl TryConvert for Fixnum {
    /// A fixnum converts to itself; a big integer is out of range for the
    /// immediate width; anything else is a type error.
    open spec fn convert_rel(rt: &Ruby, val: Value, r: Result<Fixnum, Error>) -> bool {
        match r {
            Ok(f) => is_fixnum_raw(val.spec_raw()) && f == Fixnum(val),
            Err(e) => {
                if !is_integer_value(rt, val) {
                    integer_type_error(rt, val, e)
                } else {
                    !is_fixnum_raw(val.spec_raw()) && (e matches Error::Raised { kind, message }
                        && kind == ErrorKind::RangeError && message@
                        == "integer too big for fixnum"@)
                }
            },
        }
    }

    proof fn lemma_convert_exclusive(rt: &Ruby, val: Value, x: Self, e: Error) {
    }

    fn try_convert(rt: &Ruby, val: Value) -> (r: Result<Self, Error>) {
        match Integer::try_convert(rt, val) {
            Err(e) => Err(e),
            Ok(i) => match i.integer_type(rt) {
                IntegerType::Fixnum(f) => Ok(f),
                IntegerType::Bignum(_) => Err(Error::range_error("integer too big for fixnum")),
            },
        }
    }
}

impl TryConvertToRust for Fixnum {
    fn try_convert_to_rust(rt: &Ruby, val: Value) -> (r: Result<Self, Error>) {
        Self::try_convert(rt, val)
    }
}

impl TryConvert for RBignum {
    /// A big integer converts to itself; a fixnum is too small to need one;
    /// anything else is a type error.
    open spec fn convert_rel(rt: &Ruby, val: Value, r: Result<RBignum, Error>) -> bool {
        match r {
            Ok(b) => is_bignum_value(rt, val) && b == RBignum(val),
            Err(e) => {
                if !is_integer_value(rt, val) {
                    integer_type_error(rt, val, e)
                } else {
                    is_fixnum_raw(val.spec_raw()) && (e matches Error::Raised { kind, message }
                        && kind == ErrorKind::RangeError && message@
                        == "integer too small for bignum"@)
                }
            },
        }
    }

    proof fn lemma_convert_exclusive(rt: &Ruby, val: Value, x: Self, e: Error) {
        if is_bignum_value(rt, val) {
            crate::runtime::lemma_ref_not_immediate(val.spec_raw());
        }
    }

    fn try_convert(rt: &Ruby, val: Value) -> (r: Result<Self, Error>) {
        match Integer::try_convert(rt, val) {
            Err(e) => Err(e),
            Ok(i) => match i.integer_type(rt) {
                IntegerType::Fixnum(_) => Err(Error::range_error("integer too small for bignum")),
                IntegerType::Bignum(b) => Ok(b),
            },
        }
    }
}

impl TryConvert for Qnil {
    /// Only nil converts.
    open spec fn convert_rel(rt: &Ruby, val: Value, r: Result<Qnil, Error>) -> bool {
        match r {
            Ok(q) => is_nil_raw(val.spec_raw()),
            Err(e) => !is_nil_raw(val.spec_raw()) && (e matches Error::Raised { kind, message }
                && kind == ErrorKind::TypeError && message@ == "no implicit conversion of "@
                + val.spec_classname(rt) + " into NilClass"@),
        }
    }

    proof fn lemma_convert_exclusive(rt: &Ruby, val: Value, x: Self, e: Error) {
    }

    fn try_convert(rt: &Ruby, val: Value) -> (r: Result<Self, Error>) {
        match Qnil::from_value(val) {
            Some(q) => Ok(q),
            None => {
                let name: String = val.classname(rt);
                let message: String = String::from_str("no implicit conversion of ").concat(
                    name.as_str(),
                ).concat(" into NilClass");
                Err(Error::Raised { kind: ErrorKind::TypeError, message })
            },
        }
    }
}

impl TryConvertToRust for Qnil {
    fn try_convert_to_rust(rt: &Ruby, val: Value) -> (r: Result<Self, Error>) {
        Self::try_convert(rt, val)
    }
}

impl TryConvert for Qtrue {
    /// Only true converts.
    open spec fn convert_rel(rt: &Ruby, val: Value, r: Result<Qtrue, Error>) -> bool {
        match r {
            Ok(q) => crate::value::is_true_raw(val.spec_raw()),
            Err(e) => !crate::value::is_true_raw(val.spec_raw()) && (e matches Error::Raised {
                kind,
                message,
            } && kind == ErrorKind::TypeError && message@ == "no implicit conversion of "@
                + val.spec_classname(rt) + " into TrueClass"@),
        }
    }

    proof fn lemma_convert_exclusive(rt: &Ruby, val: Value, x: Self, e: Error) {
    }

    fn try_convert(rt: &Ruby, val: Value) -> (r: Result<Self, Error>) {
        match Qtrue::from_value(val) {
            Some(q) => Ok(q),
            None => {
                let name: String = val.classname(rt);
                let message: String = String::from_str("no implicit conversion of ").concat(
                    name.as_str(),
                ).concat(" into TrueClass");
                Err(Error::Raised { kind: ErrorKind::TypeError, message })
            },
        }
    }
}

impl TryConvertToRust for Qtrue {
    fn try_convert_to_rust(rt: &Ruby, val: Value) -> (r: Result<Self, Error>) {
        Self::try_convert(rt, val)
    }
}

impl TryConvert for Qfalse {
    /// Only false converts.
    open spec fn convert_rel(rt: &Ruby, val: Value, r: Result<Qfalse, Error>) -> bool {
        match r {
            Ok(q) => crate::value::is_false_raw(val.spec_raw()),
            Err(e) => !crate::value::is_false_raw(val.spec_raw()) && (e matches Error::Raised {
                kind,
                message,
            } && kind == ErrorKind::TypeError && message@ == "no implicit conversion of "@
                + val.spec_classname(rt) + " into FalseClass"@),
        }
    }

    proof fn lemma_convert_exclusive(rt: &Ruby, val: Value, x: Self, e: Error) {
    }

    fn try_convert(rt: &Ruby, val: Value) -> (r: Result<Self, Error>) {
        match Qfalse::from_value(val) {
            Some(q) => Ok(q),
            None => {
                let name: String = val.classname(rt);
                let message: String = String::from_str("no implicit conversion of ").concat(
                    name.as_str(),
                ).concat(" into FalseClass");
                Err(Error::Raised { kind: ErrorKind::TypeError, message })
            },
        }
    }
}

impl TryConvertToRust for Qfalse {
    fn try_convert_to_rust(rt: &Ruby, val: Value) -> (r: Result<Self, Error>) {
        Self::try_convert(rt, val)
    }
}

impl TryConvert for StaticSymbol {
    /// Only a static symbol converts.
    open spec fn convert_rel(rt: &Ruby, val: Value, r: Result<StaticSymbol, Error>) -> bool {
        match r {
            Ok(s) => is_static_symbol_raw(val.spec_raw()) && s == StaticSymbol(val),
            Err(e) => !is_static_symbol_raw(val.spec_raw()) && (e matches Error::Raised {
                kind,
                message,
            } && kind == ErrorKind::TypeError && message@ == "no implicit conversion of "@
                + val.spec_classname(rt) + " into Symbol"@),
        }
    }

    proof fn lemma_convert_exclusive(rt: &Ruby, val: Value, x: Self, e: Error) {
    }

    fn try_convert(rt: &Ruby, val: Value) -> (r: Result<Self, Error>) {
        match StaticSymbol::from_value(val) {
            Some(s) => Ok(s),
            None => {
                let name: String = val.classname(rt);
                let message: String = String::from_str("no implicit conversion of ").concat(
                    name.as_str(),
                ).concat(" into Symbol");
                Err(Error::Raised { kind: ErrorKind::TypeError, message })
            },
        }
    }
}

impl TryConvertToRust for StaticSymbol {
    fn try_convert_to_rust(rt: &Ruby, val: Value) -> (r: Result<Self, Error>) {
        Self::try_convert(rt, val)
    }
}

impl TryConvert for crate::r_array::RArray {
    /// A handle whose heap tag is the array tag converts to itself;
    /// everything else is a type error naming the value's class. The
    /// runtime's implicit array-conversion protocol runs in its interpreter
    /// and stays outside this model.
    open spec fn convert_rel(rt: &Ruby, val: Value, r: Result<crate::r_array::RArray, Error>) -> bool {
        match r {
            Ok(a) => crate::r_array::is_array_value(rt, val) && a == crate::r_array::RArray(val),
            Err(e) => !crate::r_array::is_array_value(rt, val) && (e matches Error::Raised {
                kind,
                message,
            } && kind == ErrorKind::TypeError && message@ == "no implicit conversion of "@
                + val.spec_classname(rt) + " into Array"@),
        }
    }

    proof fn lemma_convert_exclusive(rt: &Ruby, val: Value, x: Self, e: Error) {
    }

    fn try_convert(rt: &Ruby, val: Value) -> (r: Result<Self, Error>) {
        match crate::r_array::RArray::from_value(rt, val) {
            Some(a) => Ok(a),
            None => {
                let name: String = val.classname(rt);
                let message: String = String::from_str("no implicit conversion of ").concat(
                    name.as_str(),
                ).concat(" into Array");
                Err(Error::Raised { kind: ErrorKind::TypeError, message })
            },
        }
    }
}

impl TryConvert for crate::r_hash::RHash {
    /// A handle whose heap tag is the hash tag converts to itself; everything
    /// else is a type error naming the value's class, as for arrays.
    open spec fn convert_rel(rt: &Ruby, val: Value, r: Result<crate::r_hash::RHash, Error>) -> bool {
        match r {
            Ok(h) => crate::r_hash::is_hash_value(rt, val) && h == crate::r_hash::RHash(val),
            Err(e) => !crate::r_hash::is_hash_value(rt, val) && (e matches Error::Raised {
                kind,
                message,
            } && kind == ErrorKind::TypeError && message@ == "no implicit conversion of "@
                + val.spec_classname(rt) + " into Hash"@),
        }
    }

    proof fn lemma_convert_exclusive(rt: &Ruby, val: Value, x: Self, e: Error) {
    }

    fn try_convert(rt: &Ruby, val: Value) -> (r: Result<Self, Error>) {
        match crate::r_hash::RHash::from_value(rt, val) {
            Some(h) => Ok(h),
            None => {
                let name: String = val.classname(rt);
                let message: String = String::from_str("no implicit conversion of ").concat(
                    name.as_str(),
                ).concat(" into Hash");
                Err(Error::Raised { kind: ErrorKind::TypeError, message })
            },
        }
    }
}

impl TryConvert for crate::float::Float {
    /// Flonums and heap floats convert; everything else is a type error
    /// naming the value's class.
    open spec fn convert_rel(rt: &Ruby, val: Value, r: Result<crate::float::Float, Error>) -> bool {
        match r {
            Ok(f) => crate::float::is_float_value(rt, val) && f == crate::float::Float(val),
            Err(e) => !crate::float::is_float_value(rt, val) && (e matches Error::Raised {
                kind,
                message,
            } && kind == ErrorKind::TypeError && message@ == "no implicit conversion of "@
                + val.spec_classname(rt) + " into Float"@),
        }
    }

    proof fn lemma_convert_exclusive(rt: &Ruby, val: Value, x: Self, e: Error) {
    }

    fn try_convert(rt: &Ruby, val: Value) -> (r: Result<Self, Error>) {
        match crate::float::Float::from_value(rt, val) {
            Some(f) => Ok(f),
            None => {
                let name: String = val.classname(rt);
                let message: String = String::from_str("no implicit conversion of ").concat(
                    name.as_str(),
                ).concat(" into Float");
                Err(Error::Raised { kind: ErrorKind::TypeError, message })
            },
        }
    }
}

impl TryConvert for crate::float::Flonum {
    /// A flonum converts to itself; a heap float is out of range for the
    /// compact encoding; anything else is a type error.
    open spec fn convert_rel(rt: &Ruby, val: Value, r: Result<crate::float::Flonum, Error>) -> bool {
        match r {
            Ok(f) => crate::value::is_flonum_raw(val.spec_raw()) && f == crate::float::Flonum(val),
            Err(e) => {
                if !crate::float::is_float_value(rt, val) {
                    e matches Error::Raised { kind, message } && kind == ErrorKind::TypeError
                        && message@ == "no implicit conversion of "@ + val.spec_classname(rt)
                        + " into Float"@
                } else {
                    !crate::value::is_flonum_raw(val.spec_raw()) && (e matches Error::Raised {
                        kind,
                        message,
                    } && kind == ErrorKind::RangeError && message@
                        == "float out of range for flonum"@)
                }
            },
        }
    }

    proof fn lemma_convert_exclusive(rt: &Ruby, val: Value, x: Self, e: Error) {
    }

    fn try_convert(rt: &Ruby, val: Value) -> (r: Result<Self, Error>) {
        match <crate::float::Float as TryConvert>::try_convert(rt, val) {
            Err(e) => Err(e),
            Ok(f) => match crate::float::Flonum::from_value(f.as_value()) {
                Some(flo) => Ok(flo),
                None => Err(Error::range_error("float out of range for flonum")),
            },
        }
    }
}

/// What converting a value to an integer of width `lo..=hi` may return,
/// with the result widened to a mathematical integer: success exactly on
/// integers in the width, a type error on non-integers, a range error on
/// integers outside it.
pub open spec fn int_convert_rel(
    rt: &Ruby,
    val: Value,
    lo: int,
    hi: int,
    r: Result<int, Error>,
) -> bool {
    match r {
        Ok(x) => is_integer_value(rt, val) && lo <= integer_int(rt, val) <= hi && x == integer_int(
            rt,
            val,
        ),
        Err(e) => {
            if !is_integer_value(rt, val) {
                integer_type_error(rt, val, e)
            } else {
                !(lo <= integer_int(rt, val) <= hi) && (e matches Error::Raised { kind, .. }
                    && kind == ErrorKind::RangeError)
            }
        },
    }
}

impl TryConvert for i8 {
    open spec fn convert_rel(rt: &Ruby, val: Value, r: Result<i8, Error>) -> bool {
        int_convert_rel(
            rt,
            val,
            i8::MIN as int,
            i8::MAX as int,
            match r {
                Ok(x) => Ok(x as int),
                Err(e) => Err(e),
            },
        )
    }

    proof fn lemma_convert_exclusive(rt: &Ruby, val: Value, x: Self, e: Error) {
    }

    fn try_convert(rt: &Ruby, val: Value) -> (r: Result<Self, Error>) {
        match Integer::try_convert(rt, val) {
            Err(e) => Err(e),
            Ok(i) => i.to_i8(rt),
        }
    }
}

impl TryConvertToRust for i8 {
    fn try_convert_to_rust(rt: &Ruby, val: Value) -> (r: Result<Self, Error>) {
        Self::try_convert(rt, val)
    }
}

impl TryConvert for i16 {
    open spec fn convert_rel(rt: &Ruby, val: Value, r: Result<i16, Error>) -> bool {
        int_convert_rel(
            rt,
            val,
            i16::MIN as int,
            i16::MAX as int,
            match r {
                Ok(x) => Ok(x as int),
                Err(e) => Err(e),
            },
        )
    }

    proof fn lemma_convert_exclusive(rt: &Ruby, val: Value, x: Self, e: Error) {
    }

    fn try_convert(rt: &Ruby, val: Value) -> (r: Result<Self, Error>) {
        match Integer::try_convert(rt, val) {
            Err(e) => Err(e),
            Ok(i) => i.to_i16(rt),
        }
    }
}

impl TryConvertToRust for i16 {
    fn try_convert_to_rust(rt: &Ruby, val: Value) -> (r: Result<Self, Error>) {
        Self::try_convert(rt, val)
    }
}

impl TryConvert for i32 {
    open spec fn convert_rel(rt: &Ruby, val: Value, r: Result<i32, Error>) -> bool {
        int_convert_rel(
            rt,
            val,
            i32::MIN as int,
            i32::MAX as int,
            match r {
                Ok(x) => Ok(x as int),
                Err(e) => Err(e),
            },
        )
    }

    proof fn lemma_convert_exclusive(rt: &Ruby, val: Value, x: Self, e: Error) {
    }

    fn try_convert(rt: &Ruby, val: Value) -> (r: Result<Self, Error>) {
        match Integer::try_convert(rt, val) {
            Err(e) => Err(e),
            Ok(i) => i.to_i32(rt),
        }
    }
}

impl TryConvertToRust for i32 {
    fn try_convert_to_rust(rt: &Ruby, val: Value) -> (r: Result<Self, Error>) {
        Self::try_convert(rt, val)
    }
}

impl TryConvert for i64 {
    open spec fn convert_rel(rt: &Ruby, val: Value, r: Result<i64, Error>) -> bool {
        int_convert_rel(
            rt,
            val,
            i64::MIN as int,
            i64::MAX as int,
            match r {
                Ok(x) => Ok(x as int),
                Err(e) => Err(e),
            },
        )
    }

    proof fn lemma_convert_exclusive(rt: &Ruby, val: Value, x: Self, e: Error) {
    }

    fn try_convert(rt: &Ruby, val: Value) -> (r: Result<Self, Error>) {
        match Integer::try_convert(rt, val) {
            Err(e) => Err(e),
            Ok(i) => i.to_i64(rt),
        }
    }
}

impl TryConvertToRust for i64 {
    fn try_convert_to_rust(rt: &Ruby, val: Value) -> (r: Result<Self, Error>) {
        Self::try_convert(rt, val)
    }
}

impl TryConvert for isize {
    open spec fn convert_rel(rt: &Ruby, val: Value, r: Result<isize, Error>) -> bool {
        int_convert_rel(
            rt,
            val,
            isize::MIN as int,
            isize::MAX as int,
            match r {
                Ok(x) => Ok(x as int),
                Err(e) => Err(e),
            },
        )
    }

    proof fn lemma_convert_exclusive(rt: &Ruby, val: Value, x: Self, e: Error) {
    }

    fn try_convert(rt: &Ruby, val: Value) -> (r: Result<Self, Error>) {
        match Integer::try_convert(rt, val) {
            Err(e) => Err(e),
            Ok(i) => i.to_isize(rt),
        }
    }
}

impl TryConvertToRust for isize {
    fn try_convert_to_rust(rt: &Ruby, val: Value) -> (r: Result<Self, Error>) {
        Self::try_convert(rt, val)
    }
}

impl TryConvert for u8 {
    open spec fn convert_rel(rt: &Ruby, val: Value, r: Result<u8, Error>) -> bool {
        int_convert_rel(
            rt,
            val,
            0,
            u8::MAX as int,
            match r {
                Ok(x) => Ok(x as int),
                Err(e) => Err(e),
            },
        )
    }

    proof fn lemma_convert_exclusive(rt: &Ruby, val: Value, x: Self, e: Error) {
    }

    fn try_convert(rt: &Ruby, val: Value) -> (r: Result<Self, Error>) {
        match Integer::try_convert(rt, val) {
            Err(e) => Err(e),
            Ok(i) => i.to_u8(rt),
        }
    }
}

impl TryConvertToRust for u8 {
    fn try_convert_to_rust(rt: &Ruby, val: Value) -> (r: Result<Self, Error>) {
        Self::try_convert(rt, val)
    }
}

impl TryConvert for u16 {
    open spec fn convert_rel(rt: &Ruby, val: Value, r: Result<u16, Error>) -> bool {
        int_convert_rel(
            rt,
            val,
            0,
            u16::MAX as int,
            match r {
                Ok(x) => Ok(x as int),
                Err(e) => Err(e),
            },
        )
    }

    proof fn lemma_convert_exclusive(rt: &Ruby, val: Value, x: Self, e: Error) {
    }

    fn try_convert(rt: &Ruby, val: Value) -> (r: Result<Self, Error>) {
        match Integer::try_convert(rt, val) {
            Err(e) => Err(e),
            Ok(i) => i.to_u16(rt),
        }
    }
}

impl TryConvertToRust for u16 {
    fn try_convert_to_rust(rt: &Ruby, val: Value) -> (r: Result<Self, Error>) {
        Self::try_convert(rt, val)
    }
}

impl TryConvert for u32 {
    open spec fn convert_rel(rt: &Ruby, val: Value, r: Result<u32, Error>) -> bool {
        int_convert_rel(
            rt,
            val,
            0,
            u32::MAX as int,
            match r {
                Ok(x) => Ok(x as int),
                Err(e) => Err(e),
            },
        )
    }

    proof fn lemma_convert_exclusive(rt: &Ruby, val: Value, x: Self, e: Error) {
    }

    fn try_convert(rt: &Ruby, val: Value) -> (r: Result<Self, Error>) {
        match Integer::try_convert(rt, val) {
            Err(e) => Err(e),
            Ok(i) => i.to_u32(rt),
        }
    }
}

impl TryConvertToRust for u32 {
    fn try_convert_to_rust(rt: &Ruby, val: Value) -> (r: Result<Self, Error>) {
        Self::try_convert(rt, val)
    }
}

impl TryConvert for u64 {
    open spec fn convert_rel(rt: &Ruby, val: Value, r: Result<u64, Error>) -> bool {
        int_convert_rel(
            rt,
            val,
            0,
            u64::MAX as int,
            match r {
                Ok(x) => Ok(x as int),
                Err(e) => Err(e),
            },
        )
    }

    proof fn lemma_convert_exclusive(rt: &Ruby, val: Value, x: Self, e: Error) {
    }

    fn try_convert(rt: &Ruby, val: Value) -> (r: Result<Self, Error>) {
        match Integer::try_convert(rt, val) {
            Err(e) => Err(e),
            Ok(i) => i.to_u64(rt),
        }
    }
}

impl TryConvertToRust for u64 {
    fn try_convert_to_rust(rt: &Ruby, val: Value) -> (r: Result<Self, Error>) {
        Self::try_convert(rt, val)
    }
}

impl TryConvert for usize {
    open spec fn convert_rel(rt: &Ruby, val: Value, r: Result<usize, Error>) -> bool {
        int_convert_rel(
            rt,
            val,
            0,
            usize::MAX as int,
            match r {
                Ok(x) => Ok(x as int),
                Err(e) => Err(e),
            },
        )
    }

    proof fn lemma_convert_exclusive(rt: &Ruby, val: Value, x: Self, e: Error) {
    }

    fn try_convert(rt: &Ruby, val: Value) -> (r: Result<Self, Error>) {
        match Integer::try_convert(rt, val) {
            Err(e) => Err(e),
            Ok(i) => i.to_usize(rt),
        }
    }
}

impl TryConvertToRust for usize {
    fn try_convert_to_rust(rt: &Ruby, val: Value) -> (r: Result<Self, Error>) {
        Self::try_convert(rt, val)
    }
}

/// Round trip for every numeric width at once: a value standing for an
/// integer inside the width reads back as exactly that integer — the
/// conversion relation every numeric type instantiates admits nothing else.
pub proof fn lemma_numeric_round_trip(
    rt: &Ruby,
    v: Value,
    n: int,
    lo: int,
    hi: int,
    r: Result<int, Error>,
)
    requires
        is_integer_value(rt, v),
        integer_int(rt, v) == n,
        lo <= n <= hi,
        int_convert_rel(rt, v, lo, hi, r),
    ensures
        r == Ok::<int, Error>(n),
{
}

/// Round trip, foreign to host: a value standing for the integer `n` reads
/// back as exactly `Ok(n)` — the conversion relation admits nothing else.
/// Together with the encoding half (`IntoValue` for the numeric types says
/// the produced value stands for the number given, promoted to a heap big
/// integer rather than truncated when the immediate width is too narrow),
/// encoding and decoding compose to the identity on every in-range number.
pub proof fn lemma_i64_round_trip(rt: &Ruby, v: Value, n: i64, r: Result<i64, Error>)
    requires
        is_integer_value(rt, v),
        integer_int(rt, v) == n,
        <i64 as TryConvert>::convert_rel(rt, v, r),
    ensures
        r == Ok::<i64, Error>(n),
{
}

/// Round trip, foreign to host, for the unsigned widest type.
pub proof fn lemma_u64_round_trip(rt: &Ruby, v: Value, n: u64, r: Result<u64, Error>)
    requires
        is_integer_value(rt, v),
        integer_int(rt, v) == n,
        <u64 as TryConvert>::convert_rel(rt, v, r),
    ensures
        r == Ok::<u64, Error>(n),
{
}

/// An integer beyond the immediate width is never a fixnum: the constructors
/// route it to the heap rather than truncate.
pub proof fn lemma_out_of_range_is_never_immediate(rt: &Ruby, v: Value, n: int)
    requires
        is_integer_value(rt, v),
        integer_int(rt, v) == n,
        !crate::value::fixnum_fits(n),
    ensures
        !is_fixnum_raw(v.spec_raw()),
{
    if is_fixnum_raw(v.spec_raw()) {
        crate::value::lemma_fixnum_bounds(v.spec_raw());
    }
}

} // verus!
