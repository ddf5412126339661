use magnus::error::ErrorKind;
use magnus::integer::{Integer, IntegerType};
use magnus::{Fixnum, Qnil, Qtrue, RBignum, Ruby, TryConvert, Value};

#[test]
fn numeric_round_trip_in_range() {
    let mut rt = Ruby::new();
    let v = rt.into_value(42i64);
    assert_eq!(i64::try_convert(&rt, v).unwrap(), 42);
    let v = rt.into_value(-7i32);
    assert_eq!(i32::try_convert(&rt, v).unwrap(), -7);
    let v = rt.into_value(255u8);
    assert_eq!(u8::try_convert(&rt, v).unwrap(), 255);
    let v = rt.into_value(u64::MAX);
    assert_eq!(u64::try_convert(&rt, v).unwrap(), u64::MAX);
    let v = rt.into_value(i64::MIN);
    assert_eq!(i64::try_convert(&rt, v).unwrap(), i64::MIN);
    let v = rt.into_value(0usize);
    assert_eq!(usize::try_convert(&rt, v).unwrap(), 0);
}

#[test]
fn out_of_range_promotes_and_reads_back() {
    let mut rt = Ruby::new();
    // Too wide for the immediate: lands on the heap, reads back unchanged.
    let v = rt.into_value(u64::MAX);
    let i = Integer::from_value(&rt, v).unwrap();
    assert!(matches!(i.integer_type(&rt), IntegerType::Bignum(_)));
    assert_eq!(u64::try_convert(&rt, v).unwrap(), u64::MAX);
    // But it exceeds i64, and says so with a range error.
    let e = i64::try_convert(&rt, v).unwrap_err();
    assert_eq!(e.kind(), Some(ErrorKind::RangeError));
    assert_eq!(e.message(), "bignum too big to convert into `i64`");
}

#[test]
fn conversion_type_errors_name_both_sides() {
    let rt = Ruby::new();
    let nil = Qnil::new().as_value();
    let e = i64::try_convert(&rt, nil).unwrap_err();
    assert_eq!(e.kind(), Some(ErrorKind::TypeError));
    assert_eq!(e.message(), "no implicit conversion of NilClass into Integer");
    let e = Integer::try_convert(&rt, Qtrue::new().as_value()).unwrap_err();
    assert_eq!(e.message(), "no implicit conversion of TrueClass into Integer");
}

#[test]
fn option_reads_nil_as_absent() {
    let mut rt = Ruby::new();
    let nil = Qnil::new().as_value();
    assert_eq!(Option::<i64>::try_convert(&rt, nil).unwrap(), None);
    let v = rt.into_value(42i64);
    assert_eq!(Option::<i64>::try_convert(&rt, v).unwrap(), Some(42));
    // A present but wrong value still errors; absence is only the nil word.
    let t = Qtrue::new().as_value();
    assert!(Option::<i64>::try_convert(&rt, t).is_err());
}

#[test]
fn bool_conversion_is_total() {
    let mut rt = Ruby::new();
    assert!(!bool::try_convert(&rt, Qnil::new().as_value()).unwrap());
    assert!(bool::try_convert(&rt, Qtrue::new().as_value()).unwrap());
    let zero = rt.into_value(0i64);
    assert!(bool::try_convert(&rt, zero).unwrap());
}

#[test]
fn fixnum_and_bignum_convert_exclusively() {
    let mut rt = Ruby::new();
    let small = rt.into_value(1i64);
    let big = rt.into_value(u64::MAX);
    assert!(Fixnum::try_convert(&rt, small).is_ok());
    let e = Fixnum::try_convert(&rt, big).unwrap_err();
    assert_eq!(e.kind(), Some(ErrorKind::RangeError));
    assert_eq!(e.message(), "integer too big for fixnum");
    assert!(RBignum::try_convert(&rt, big).is_ok());
    let e = RBignum::try_convert(&rt, small).unwrap_err();
    assert_eq!(e.message(), "integer too small for bignum");
}

#[test]
fn value_conversion_is_identity() {
    let mut rt = Ruby::new();
    let v = rt.into_value(9i64);
    assert_eq!(<Value as magnus::TryConvert>::try_convert(&rt, v).unwrap(), v);
}

#[test]
fn into_value_encodes_the_basics() {
    let mut rt = Ruby::new();
    assert_eq!(rt.into_value(true).as_raw(), 0x14);
    assert_eq!(rt.into_value(false).as_raw(), 0x00);
    assert_eq!(rt.into_value(()).as_raw(), 0x08);
    assert_eq!(rt.into_value(None::<i64>).as_raw(), 0x08);
    let some = rt.into_value(Some(5i8));
    assert_eq!(i8::try_convert(&rt, some).unwrap(), 5);
    // 42 encoded as a fixnum: shifted left once, low bit set.
    assert_eq!(rt.into_value(42i64).as_raw(), (42 << 1) | 1);
}

#[test]
fn bignum_sign_flags() {
    let mut rt = Ruby::new();
    let pos = rt.bignum_from_u64(u64::MAX).unwrap();
    assert!(pos.is_positive(&rt));
    assert!(!pos.is_negative(&rt));
    let neg = rt.bignum_from_i64(i64::MIN).unwrap();
    assert!(neg.is_negative(&rt));
    assert!(!neg.is_positive(&rt));
    assert_eq!(neg.to_i64(&rt).unwrap(), i64::MIN);
    assert!(neg.to_u64(&rt).is_err());
    assert!(rt.bignum_from_i64(0).is_err());
    assert!(rt.bignum_from_u64(1).is_err());
}

#[test]
fn integer_narrowing_from_bignum_is_a_range_error() {
    let mut rt = Ruby::new();
    let big = Integer::from_u64(&mut rt, u64::MAX);
    assert_eq!(big.to_u64(&rt).unwrap(), u64::MAX);
    let e = big.to_i8(&rt).unwrap_err();
    assert_eq!(e.kind(), Some(ErrorKind::RangeError));
    let e = big.to_u32(&rt).unwrap_err();
    assert_eq!(e.kind(), Some(ErrorKind::RangeError));
}
