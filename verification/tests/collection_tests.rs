use magnus::error::ErrorKind;
use magnus::{ForEach, Qnil, Qtrue, RArray, RHash, Ruby, ValueType};

#[test]
fn arrays_hold_their_elements_in_order() {
    let mut rt = Ruby::new();
    let a = rt.into_value(1i64);
    let b = rt.into_value(2i64);
    let c = rt.into_value(3i64);
    let ary = RArray::from_slice(&mut rt, &[a, b, c]);
    assert_eq!(ary.len(&rt), 3);
    assert!(!ary.is_empty(&rt));
    let snapshot = ary.each(&rt);
    assert_eq!(snapshot, vec![a, b, c]);
    assert_eq!(ary.to_vec::<i64>(&rt).unwrap(), vec![1, 2, 3]);
}

#[test]
fn array_push_and_pop_work_at_the_tail() {
    let mut rt = Ruby::new();
    let ary = RArray::new(&mut rt);
    assert!(ary.is_empty(&rt));
    assert!(ary.pop(&mut rt).is_nil());
    let a = rt.into_value(10i64);
    let b = rt.into_value(20i64);
    ary.push(&mut rt, a);
    ary.push(&mut rt, b);
    assert_eq!(ary.len(&rt), 2);
    assert_eq!(ary.pop(&mut rt), b);
    assert_eq!(ary.pop(&mut rt), a);
    assert!(ary.pop(&mut rt).is_nil());
}

#[test]
fn array_entry_counts_negative_offsets_from_the_end() {
    let mut rt = Ruby::new();
    let a = rt.into_value(1i64);
    let b = rt.into_value(2i64);
    let c = rt.into_value(3i64);
    let ary = RArray::from_vec(&mut rt, vec![a, b, c]);
    assert_eq!(ary.entry::<i64>(&rt, 0).unwrap(), 1);
    assert_eq!(ary.entry::<i64>(&rt, -1).unwrap(), 3);
    assert_eq!(ary.entry::<Option<i64>>(&rt, 3).unwrap(), None);
    assert!(ary.entry::<i64>(&rt, 3).is_err());
}

#[test]
fn array_conversion_fails_fast_on_the_first_bad_element() {
    let mut rt = Ruby::new();
    let good = rt.into_value(1i64);
    let bad = Qtrue::new().as_value();
    let ary = RArray::from_slice(&mut rt, &[good, bad, good]);
    let e = ary.to_vec::<i64>(&rt).unwrap_err();
    assert_eq!(e.kind(), Some(ErrorKind::TypeError));
    assert_eq!(e.message(), "no implicit conversion of TrueClass into Integer");
}

#[test]
fn wrong_tag_is_rejected_without_reading_further() {
    let mut rt = Ruby::new();
    let ary = RArray::new(&mut rt).as_value();
    let hash = RHash::new(&mut rt).as_value();
    // A mismatched heap tag answers None; only the tag field decides.
    assert!(RHash::from_value(&rt, ary).is_none());
    assert!(RArray::from_value(&rt, hash).is_none());
    assert!(RArray::from_value(&rt, ary).is_some());
    assert!(RHash::from_value(&rt, hash).is_some());
    assert!(RArray::from_value(&rt, Qnil::new().as_value()).is_none());
    assert!(magnus::RComplex::from_value(&rt, ary).is_none());
    assert!(magnus::RRational::from_value(&rt, ary).is_none());
    assert!(magnus::RRegexp::from_value(&rt, ary).is_none());
    assert!(magnus::RStruct::from_value(&rt, ary).is_none());
    assert!(magnus::RMatch::from_value(&rt, ary).is_none());
    assert_eq!(ary.rb_type(&rt), ValueType::Array);
    assert_eq!(hash.rb_type(&rt), ValueType::Hash);
}

#[test]
fn hash_set_get_and_overwrite() {
    let mut rt = Ruby::new();
    let h = RHash::new(&mut rt);
    assert!(h.is_empty(&rt));
    let k = rt.into_value(1i64);
    let v1 = rt.into_value(10i64);
    let v2 = rt.into_value(20i64);
    h.aset(&mut rt, k, v1).unwrap();
    assert_eq!(h.len(&rt), 1);
    assert_eq!(h.get(&rt, k), Some(v1));
    // Writing the same key again overwrites in place.
    h.aset(&mut rt, k, v2).unwrap();
    assert_eq!(h.len(&rt), 1);
    assert_eq!(h.get(&rt, k), Some(v2));
    assert_eq!(h.fetch(&rt, k).unwrap(), v2);
    assert_eq!(h.aref(&rt, k), v2);
    let missing = rt.into_value(9i64);
    assert_eq!(h.get(&rt, missing), None);
    assert!(h.aref(&rt, missing).is_nil());
    assert!(h.lookup(&rt, missing).is_nil());
    let e = h.fetch(&rt, missing).unwrap_err();
    assert_eq!(e.kind(), Some(ErrorKind::KeyError));
    assert_eq!(e.message(), "key not found");
}

#[test]
fn hash_keeps_insertion_order() {
    let mut rt = Ruby::new();
    let h = RHash::new(&mut rt);
    let k1 = rt.into_value(1i64);
    let k2 = rt.into_value(2i64);
    let k3 = rt.into_value(3i64);
    let v = Qtrue::new().as_value();
    h.aset(&mut rt, k2, v).unwrap();
    h.aset(&mut rt, k1, v).unwrap();
    h.aset(&mut rt, k3, v).unwrap();
    let pairs = h.entries(&rt);
    assert_eq!(pairs.len(), 3);
    assert_eq!(pairs[0].0, k2);
    assert_eq!(pairs[1].0, k1);
    assert_eq!(pairs[2].0, k3);
}

#[test]
fn foreach_honours_continue_stop_and_delete() {
    let mut rt = Ruby::new();
    let h = RHash::new(&mut rt);
    let keys: Vec<_> = (0..4i64).map(|i| {
        let k = rt.into_value(i);
        let v = rt.into_value(i * 10);
        h.aset(&mut rt, k, v).unwrap();
        k
    }).collect();
    // Delete the entry whose key is 1, keep the rest.
    let target = keys[1];
    let r = h.foreach(&mut rt, |k, _v| {
        if k == target {
            Ok(ForEach::Delete)
        } else {
            Ok(ForEach::Continue)
        }
    });
    assert!(r.is_ok());
    assert_eq!(h.len(&rt), 3);
    assert_eq!(h.get(&rt, target), None);
    // Stop at the first entry: everything stays.
    let r = h.foreach(&mut rt, |_k, _v| Ok(ForEach::Stop));
    assert!(r.is_ok());
    assert_eq!(h.len(&rt), 3);
    // An error from the callback surfaces and keeps the entries.
    let r = h.foreach(&mut rt, |_k, _v| {
        Err(magnus::Error::type_error("callback failed"))
    });
    assert_eq!(r.unwrap_err().message(), "callback failed");
    assert_eq!(h.len(&rt), 3);
}

#[test]
fn foreach_visits_in_enumeration_order() {
    let mut rt = Ruby::new();
    let h = RHash::new(&mut rt);
    let k1 = rt.into_value(7i64);
    let k2 = rt.into_value(8i64);
    let v = Qnil::new().as_value();
    h.aset(&mut rt, k1, v).unwrap();
    h.aset(&mut rt, k2, v).unwrap();
    let seen = std::cell::RefCell::new(Vec::new());
    h.foreach(&mut rt, |k, _v| {
        seen.borrow_mut().push(k);
        Ok(ForEach::Continue)
    }).unwrap();
    assert_eq!(*seen.borrow(), vec![k1, k2]);
}

#[test]
fn hash_converts_to_a_host_map() {
    let mut rt = Ruby::new();
    let h = RHash::new(&mut rt);
    for i in 0..3i64 {
        let k = rt.into_value(i);
        let v = rt.into_value(i * 100);
        h.aset(&mut rt, k, v).unwrap();
    }
    let map = h.to_hash_map::<i64, i64>(&rt).unwrap();
    assert_eq!(map.len(), 3);
    assert_eq!(map[&0], 0);
    assert_eq!(map[&1], 100);
    assert_eq!(map[&2], 200);
    // A value of the wrong kind stops the conversion with its own error.
    let k = rt.into_value(9i64);
    let bad = Qtrue::new().as_value();
    h.aset(&mut rt, k, bad).unwrap();
    let e = h.to_hash_map::<i64, i64>(&rt).unwrap_err();
    assert_eq!(e.kind(), Some(ErrorKind::TypeError));
}

#[test]
fn array_cat_appends_a_slice() {
    let mut rt = Ruby::new();
    let a = rt.into_value(1i64);
    let b = rt.into_value(2i64);
    let c = rt.into_value(3i64);
    let ary = RArray::from_slice(&mut rt, &[a]);
    ary.cat(&mut rt, &[b, c]);
    assert_eq!(ary.to_vec::<i64>(&rt).unwrap(), vec![1, 2, 3]);
}

#[test]
fn array_store_pads_with_nil_and_counts_from_the_end() {
    let mut rt = Ruby::new();
    let a = rt.into_value(1i64);
    let x = rt.into_value(9i64);
    let ary = RArray::from_slice(&mut rt, &[a]);
    // Beyond the end: the gap fills with nil.
    ary.store(&mut rt, 3, x).unwrap();
    assert_eq!(ary.len(&rt), 4);
    assert!(ary.entry_value(&rt, 1).is_nil());
    assert!(ary.entry_value(&rt, 2).is_nil());
    assert_eq!(ary.entry::<i64>(&rt, 3).unwrap(), 9);
    // Negative: counts from the end.
    ary.store(&mut rt, -1, a).unwrap();
    assert_eq!(ary.entry::<i64>(&rt, 3).unwrap(), 1);
    // Before the start: rejected, nothing changes.
    let e = ary.store(&mut rt, -9, a).unwrap_err();
    assert_eq!(e.kind(), Some(magnus::error::ErrorKind::IndexError));
    assert_eq!(e.message(), "index too small for array");
    assert_eq!(ary.len(&rt), 4);
}

#[test]
fn hash_size_is_a_fixnum() {
    let mut rt = Ruby::new();
    let h = RHash::new(&mut rt);
    let k = rt.into_value(1i64);
    let v = rt.into_value(2i64);
    h.aset(&mut rt, k, v).unwrap();
    assert_eq!(h.size(&rt).to_i64(), 1);
}

#[test]
fn hash_pairs_convert_or_fail_fast() {
    let mut rt = Ruby::new();
    let h = RHash::new(&mut rt);
    for i in 0..3i64 {
        let k = rt.into_value(i);
        let v = rt.into_value(i + 10);
        h.aset(&mut rt, k, v).unwrap();
    }
    let pairs = h.to_vec::<i64, i64>(&rt).unwrap();
    assert_eq!(pairs, vec![(0, 10), (1, 11), (2, 12)]);
    // The first failing entry's own error comes back.
    let k = rt.into_value(7i64);
    let bad = Qnil::new().as_value();
    h.aset(&mut rt, k, bad).unwrap();
    let e = h.to_vec::<i64, i64>(&rt).unwrap_err();
    assert_eq!(e.message(), "no implicit conversion of NilClass into Integer");
}

#[test]
fn frozen_hash_rejects_mutation() {
    let mut rt = Ruby::new();
    let h = RHash::new(&mut rt);
    let k = rt.into_value(1i64);
    let v = rt.into_value(2i64);
    h.aset(&mut rt, k, v).unwrap();
    h.as_value().freeze(&mut rt);
    let e = h.aset(&mut rt, k, v).unwrap_err();
    assert_eq!(e.kind(), Some(ErrorKind::FrozenError));
    assert_eq!(e.message(), "can't modify frozen Hash");
    // The pairs are exactly as they were.
    assert_eq!(h.len(&rt), 1);
    assert_eq!(h.get(&rt, k), Some(v));
}

#[test]
fn containers_convert_by_tag_alone() {
    let mut rt = Ruby::new();
    let ary = RArray::new(&mut rt).as_value();
    let hash = RHash::new(&mut rt).as_value();
    assert!(<RArray as magnus::TryConvert>::try_convert(&rt, ary).is_ok());
    assert!(<RHash as magnus::TryConvert>::try_convert(&rt, hash).is_ok());
    let e = <RArray as magnus::TryConvert>::try_convert(&rt, hash).unwrap_err();
    assert_eq!(e.message(), "no implicit conversion of Hash into Array");
    let e = <RHash as magnus::TryConvert>::try_convert(&rt, ary).unwrap_err();
    assert_eq!(e.message(), "no implicit conversion of Array into Hash");
    let nil = Qnil::new().as_value();
    let e = <RHash as magnus::TryConvert>::try_convert(&rt, nil).unwrap_err();
    assert_eq!(e.message(), "no implicit conversion of NilClass into Hash");
}
