use magnus::{Float, Flonum, Id, Ruby, StaticSymbol};

#[test]
fn flonum_packs_exactly_or_not_at_all() {
    // The documented pair: one value the compact encoding holds exactly ...
    let fits = 1.7272337110188893e-77f64;
    let f = Flonum::from_bits(fits.to_bits()).unwrap();
    assert_eq!(f.to_bits(), fits.to_bits());
    // ... and a neighbour it cannot hold, which must go to the heap.
    let too_precise = 1.7272337110188890e-77f64;
    assert!(Flonum::from_bits(too_precise.to_bits()).is_none());
}

#[test]
fn common_floats_are_flonums() {
    let mut rt = Ruby::new();
    for x in [0.0f64, 1.0, 2.0, -2.5, 3.141592] {
        let f = rt.float_from_bits(x.to_bits());
        assert!(Flonum::from_value(f.as_value()).is_some());
        assert_eq!(f64::from_bits(f.to_bits(&rt)), x);
    }
}

#[test]
fn out_of_window_floats_take_the_heap_and_keep_their_bits() {
    let mut rt = Ruby::new();
    for x in [f64::MAX, f64::MIN_POSITIVE, f64::INFINITY, -0.0f64, 1.0e300] {
        let f = rt.float_from_bits(x.to_bits());
        assert!(Flonum::from_value(f.as_value()).is_none());
        assert_eq!(f.to_bits(&rt), x.to_bits());
    }
    let nan = rt.float_from_bits(f64::NAN.to_bits());
    assert!(f64::from_bits(nan.to_bits(&rt)).is_nan());
}

#[test]
fn float_from_value_takes_flonums_and_heap_floats() {
    let mut rt = Ruby::new();
    let flo = rt.float_from_bits(2.0f64.to_bits()).as_value();
    let heap = rt.float_from_bits(f64::MAX.to_bits()).as_value();
    assert!(Float::from_value(&rt, flo).is_some());
    assert!(Float::from_value(&rt, heap).is_some());
    let n = rt.into_value(2i64);
    assert!(Float::from_value(&rt, n).is_none());
}

#[test]
fn symbols_intern_once_and_read_back() {
    let mut rt = Ruby::new();
    let a = StaticSymbol::new(&mut rt, "example");
    assert_eq!(a.name(&rt).unwrap(), "example");
    // Interning the same name again gives the same symbol word.
    let b = StaticSymbol::new(&mut rt, "example");
    assert_eq!(a.as_value(), b.as_value());
    assert_eq!(rt.symbols.len(), 1);
    // A different name gets its own id.
    let c = StaticSymbol::new(&mut rt, "other");
    assert_ne!(a.as_value(), c.as_value());
    assert_eq!(rt.symbols.len(), 2);
    assert_eq!(c.name(&rt).unwrap(), "other");
}

#[test]
fn symbol_words_carry_their_id() {
    let mut rt = Ruby::new();
    let s = StaticSymbol::new(&mut rt, "first");
    let raw = s.as_value().as_raw();
    // Low byte is the symbol tag; the id sits above it.
    assert_eq!(raw & 0xff, 0x0c);
    let id = Id(raw >> 8);
    assert_eq!(id.name(&rt).unwrap(), "first");
    assert_eq!(id.as_rb_id(), 0);
    assert!(StaticSymbol::from_value(s.as_value()).is_some());
    let nil = magnus::Qnil::new().as_value();
    assert!(StaticSymbol::from_value(nil).is_none());
}

#[test]
fn float_conversion_checks_kind_and_compactness() {
    let mut rt = Ruby::new();
    let flo = rt.float_from_bits(2.0f64.to_bits()).as_value();
    let heap = rt.float_from_bits(f64::MAX.to_bits()).as_value();
    let n = rt.into_value(2i64);
    assert!(<Float as magnus::TryConvert>::try_convert(&rt, flo).is_ok());
    assert!(<Float as magnus::TryConvert>::try_convert(&rt, heap).is_ok());
    let e = <Float as magnus::TryConvert>::try_convert(&rt, n).unwrap_err();
    assert_eq!(e.message(), "no implicit conversion of Integer into Float");
    assert!(<Flonum as magnus::TryConvert>::try_convert(&rt, flo).is_ok());
    let e = <Flonum as magnus::TryConvert>::try_convert(&rt, heap).unwrap_err();
    assert_eq!(e.kind(), Some(magnus::error::ErrorKind::RangeError));
    assert_eq!(e.message(), "float out of range for flonum");
}
