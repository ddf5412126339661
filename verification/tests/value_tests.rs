use magnus::error::ErrorKind;
use magnus::{Fixnum, Qfalse, Qnil, Qtrue, Qundef, Ruby, Value, ValueType};

#[test]
fn special_constants_have_their_words() {
    assert_eq!(Qnil::new().as_value().as_raw(), 0x08);
    assert_eq!(Qtrue::new().as_value().as_raw(), 0x14);
    assert_eq!(Qfalse::new().as_value().as_raw(), 0x00);
    assert_eq!(Qundef::new().to_value().as_raw(), 0x34);
}

#[test]
fn truthiness_follows_the_runtime_rule() {
    let mut rt = Ruby::new();
    assert!(!Qnil::new().as_value().to_bool());
    assert!(!Qfalse::new().as_value().to_bool());
    assert!(Qtrue::new().as_value().to_bool());
    let zero = rt.into_value(0i64);
    assert!(zero.to_bool());
}

#[test]
fn immediate_classification_is_exhaustive() {
    let mut rt = Ruby::new();
    assert_eq!(Qnil::new().as_value().rb_type(&rt), ValueType::Nil);
    assert_eq!(Qtrue::new().as_value().rb_type(&rt), ValueType::True);
    assert_eq!(Qfalse::new().as_value().rb_type(&rt), ValueType::False);
    assert_eq!(Qundef::new().to_value().rb_type(&rt), ValueType::Undef);
    let fx = rt.into_value(42i64);
    assert_eq!(fx.rb_type(&rt), ValueType::Fixnum);
    assert!(fx.is_immediate());
    let sym = magnus::StaticSymbol::new(&mut rt, "tagged").as_value();
    assert_eq!(sym.rb_type(&rt), ValueType::Symbol);
    assert!(sym.is_immediate());
    let flo = rt.float_from_bits(2.0f64.to_bits()).as_value();
    assert_eq!(flo.rb_type(&rt), ValueType::Float);
    assert!(flo.is_immediate());
    assert!(Qnil::new().as_value().is_immediate());
    assert!(Qfalse::new().as_value().is_immediate());
}

#[test]
fn nil_checks() {
    assert!(Qnil::new().as_value().is_nil());
    assert!(Qnil::from_value(Qnil::new().as_value()).is_some());
    assert!(Qnil::from_value(Qtrue::new().as_value()).is_none());
    assert!(Qtrue::from_value(Qtrue::new().as_value()).is_some());
    assert!(Qtrue::from_value(Qfalse::new().as_value()).is_none());
    assert!(Qfalse::from_value(Qfalse::new().as_value()).is_some());
    assert!(Qfalse::from_value(Qnil::new().as_value()).is_none());
    assert!(Qundef::from_value(Qnil::new().as_value()).is_none());
    assert!(Qundef::from_value(Qundef::new().to_value()).is_some());
}

#[test]
fn fixnum_boundary_values_round_trip_or_promote() {
    let mut rt = Ruby::new();
    // The largest integer the immediate width holds.
    let max_in = Fixnum::from_i64(&mut rt, 4611686018427387903);
    assert!(max_in.is_ok());
    assert_eq!(max_in.unwrap().to_i64(), 4611686018427387903);
    // One past it must fall back to a heap big integer, never truncate.
    let over = Fixnum::from_i64(&mut rt, 4611686018427387904);
    assert!(over.is_err());
    let big = over.unwrap_err();
    assert_eq!(big.to_i64(&rt).unwrap(), 4611686018427387904);
    let min_in = Fixnum::from_i64(&mut rt, -4611686018427387904);
    assert!(min_in.is_ok());
    assert_eq!(min_in.unwrap().to_i64(), -4611686018427387904);
    let under = Fixnum::from_i64(&mut rt, -4611686018427387905);
    assert!(under.is_err());
    assert_eq!(under.unwrap_err().to_i64(&rt).unwrap(), -4611686018427387905);
    let u_over = Fixnum::from_u64(&mut rt, 4611686018427387904);
    assert!(u_over.is_err());
}

#[test]
fn fixnum_narrowing_checks_width_exactly() {
    let mut rt = Ruby::new();
    let f = Fixnum::from_i64(&mut rt, 127).unwrap();
    assert_eq!(f.to_i8().unwrap(), 127);
    let f = Fixnum::from_i64(&mut rt, 128).unwrap();
    let e = f.to_i8().unwrap_err();
    assert_eq!(e.kind(), Some(ErrorKind::RangeError));
    assert_eq!(e.message(), "fixnum too big to convert into `i8`");
    let f = Fixnum::from_i64(&mut rt, -128).unwrap();
    assert_eq!(f.to_i8().unwrap(), -128);
    let f = Fixnum::from_i64(&mut rt, -129).unwrap();
    assert!(f.to_i8().is_err());
    let f = Fixnum::from_i64(&mut rt, 65535).unwrap();
    assert_eq!(f.to_u16().unwrap(), 65535);
    assert!(Fixnum::from_i64(&mut rt, 65536).unwrap().to_u16().is_err());
    let f = Fixnum::from_i64(&mut rt, 2147483647).unwrap();
    assert_eq!(f.to_i32().unwrap(), 2147483647);
    assert!(Fixnum::from_i64(&mut rt, 2147483648).unwrap().to_i32().is_err());
}

#[test]
fn negative_to_unsigned_never_wraps() {
    let mut rt = Ruby::new();
    let minus_one = Fixnum::from_i64(&mut rt, -1).unwrap();
    let e = minus_one.to_u8().unwrap_err();
    assert_eq!(e.kind(), Some(ErrorKind::RangeError));
    assert_eq!(e.message(), "can't convert negative integer to unsigned");
    assert!(minus_one.to_u16().is_err());
    assert!(minus_one.to_u32().is_err());
    assert!(minus_one.to_u64().is_err());
    assert!(minus_one.to_usize().is_err());
    assert_eq!(
        minus_one.to_u64().unwrap_err().message(),
        "can't convert negative integer to unsigned"
    );
}

#[test]
fn classnames_follow_the_class() {
    let mut rt = Ruby::new();
    assert_eq!(Qnil::new().as_value().classname(&rt), "NilClass");
    assert_eq!(Qtrue::new().as_value().classname(&rt), "TrueClass");
    assert_eq!(Qfalse::new().as_value().classname(&rt), "FalseClass");
    let n = rt.into_value(5i64);
    assert_eq!(n.classname(&rt), "Integer");
    let ary = magnus::RArray::new(&mut rt).as_value();
    assert_eq!(ary.classname(&rt), "Array");
    let hash = magnus::RHash::new(&mut rt).as_value();
    assert_eq!(hash.classname(&rt), "Hash");
}

#[test]
fn freeze_marks_heap_objects() {
    let mut rt = Ruby::new();
    let ary = magnus::RArray::new(&mut rt).as_value();
    assert!(!ary.is_frozen(&rt));
    assert!(ary.check_frozen(&rt).is_ok());
    ary.freeze(&mut rt);
    assert!(ary.is_frozen(&rt));
    let e = ary.check_frozen(&rt).unwrap_err();
    assert_eq!(e.kind(), Some(ErrorKind::FrozenError));
    assert_eq!(e.message(), "can't modify frozen Array");
    // Immediates are frozen from the start.
    let n = rt.into_value(3i64);
    assert!(n.is_frozen(&rt));
    assert_eq!(
        n.check_frozen(&rt).unwrap_err().message(),
        "can't modify frozen Integer"
    );
}

#[test]
fn leak_and_box_register_roots() {
    let mut rt = Ruby::new();
    let ary = magnus::RArray::new(&mut rt).as_value();
    assert_eq!(rt.roots.len(), 0);
    ary.leak(&mut rt);
    assert_eq!(rt.roots.len(), 1);
    let boxed = magnus::BoxValue::new(&mut rt, ary);
    assert_eq!(rt.roots.len(), 2);
    assert_eq!(boxed.as_value(), ary);
}

#[test]
fn globals_bind_and_rebind() {
    let mut rt = Ruby::new();
    let nil = Qnil::new().as_value();
    let i = magnus::define_global_variable(&mut rt, "$val", nil);
    assert_eq!(rt.globals.len(), 1);
    assert_eq!(rt.globals[i].0, "$val");
    assert!(rt.globals[i].1.is_nil());
    let answer = rt.into_value(42i64);
    let j = magnus::define_variable(&mut rt, "$val", answer);
    assert_eq!(i, j);
    assert_eq!(rt.globals.len(), 1);
    assert_eq!(rt.globals[j].1, answer);
    let other = magnus::define_variable(&mut rt, "$other", answer);
    assert_eq!(rt.globals.len(), 2);
    assert_ne!(other, i);
}

#[test]
fn unregistering_a_box_releases_its_root() {
    let mut rt = Ruby::new();
    let ary = magnus::RArray::new(&mut rt).as_value();
    let other = magnus::RHash::new(&mut rt).as_value();
    let first = magnus::BoxValue::new(&mut rt, ary);
    let middle = magnus::BoxValue::new(&mut rt, other);
    let second = magnus::BoxValue::new(&mut rt, ary);
    assert_eq!(rt.roots.len(), 3);
    // The most recent registration of the value leaves first.
    let got = second.unregister(&mut rt);
    assert_eq!(got, ary);
    assert_eq!(rt.roots.len(), 2);
    assert_eq!(rt.roots[0], ary);
    assert_eq!(rt.roots[1], other);
    let _ = middle.unregister(&mut rt);
    let _ = first.unregister(&mut rt);
    assert_eq!(rt.roots.len(), 0);
    // Releasing with no registration left changes nothing.
    let stray = magnus::BoxValue(ary);
    let _ = stray.unregister(&mut rt);
    assert_eq!(rt.roots.len(), 0);
}
