use magnus::typed_data::{TYPED_FREE_IMMEDIATELY, TYPED_FROZEN_SHAREABLE, TYPED_WB_PROTECTED};
use magnus::{DataType, DataTypeBuilder, Obj, Qnil, RClass, Ruby, TypedData, Value};

struct Example {
    text: &'static str,
}

impl TypedData for Example {
    fn spec_class(rt: &Ruby) -> Value {
        Qnil::new().as_value().class(rt).as_value()
    }

    fn class(rt: &Ruby) -> RClass {
        Qnil::new().as_value().class(rt)
    }

    fn data_type() -> DataType {
        DataTypeBuilder::<Example>::new("example").build()
    }
}

#[test]
fn builder_defaults_set_only_the_write_barrier() {
    let dt = DataTypeBuilder::<Example>::new("example").build();
    assert_eq!(dt.name, "example");
    assert_eq!(dt.flags, TYPED_WB_PROTECTED);
    assert!(!dt.dmark);
    assert!(dt.dfree);
    assert!(!dt.dsize);
    assert!(!dt.dcompact);
}

#[test]
fn builder_with_mark_drops_the_barrier_flag() {
    let mut b = DataTypeBuilder::<Example>::new("marked");
    b.mark();
    b.size();
    b.compact();
    let dt = b.build();
    assert_eq!(dt.flags, 0);
    assert!(dt.dmark);
    assert!(dt.dsize);
    assert!(dt.dcompact);
}

#[test]
fn builder_flags_land_in_their_bits() {
    let mut b = DataTypeBuilder::<Example>::new("flags");
    b.mark();
    b.free_immediately();
    b.frozen_shareable();
    b.wb_protected();
    let dt = b.build();
    assert_eq!(
        dt.flags,
        TYPED_FREE_IMMEDIATELY | TYPED_WB_PROTECTED | TYPED_FROZEN_SHAREABLE
    );
}

#[test]
fn wrapping_keeps_the_host_value_and_its_class() {
    let mut rt = Ruby::new();
    let slots_before = rt.heap.len();
    let obj = rt.obj_wrap(Example { text: "payload" });
    assert_eq!(obj.get().text, "payload");
    // The wrapper is backed by a fresh object slot of the declared class,
    // unfrozen at birth.
    assert_eq!(rt.heap.len(), slots_before + 1);
    let v = obj.as_value();
    assert_eq!(v.rb_type(&rt), magnus::ValueType::Object);
    assert!(!v.is_frozen(&rt));
    let declared = Example::class(&rt).as_value();
    assert_eq!(v.class(&rt).as_value(), declared);
    let again = Obj::wrap(&mut rt, Example { text: "second" });
    assert_eq!(again.get().text, "second");
}
