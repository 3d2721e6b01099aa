use anycast::{AnyRef, AnyValue, AsAny, Downcast, TypeTag};

#[test]
fn test_as_any() {
    let value = 42;

    assert_eq!(value.downcast_ref::<i32>(), Some(&42));
}

#[test]
fn test_as_any_macro() {
    let value = 42;

    assert_eq!(value.downcast_ref::<i32>(), Some(&42));
}

#[test]
fn as_any_mut_macro() {
    let mut value = 42;

    assert_eq!(value.downcast_mut::<i32>(), Some(&mut 42));
}

#[test]
fn as_any_mut() {
    let mut value = 42;

    assert_eq!(value.downcast_mut::<i32>(), Some(&mut 42));
}

#[test]
fn into_any_macro() {
    let value = Box::new(42);
    let any = value.as_any_box();
    let option = any.downcast::<i32>();

    assert!(option.is_ok());
}

#[test]
fn into_any() {
    let value = Box::new(42);
    let any = value.as_any_box();
    let option = any.downcast::<i32>();

    assert!(option.is_ok());
}

#[test]
fn type_label() {
    let value = 42;
    assert_eq!(value.type_label(), "i32");
}

#[test]
fn is_holds_only_for_the_erased_type() {
    let value: u8 = 7;
    assert!(value.is::<u8>());
    assert!(!value.is::<i8>());
    assert!(!value.is::<u16>());
    assert!(!value.is::<String>());
    let erased = Box::new(value).as_any_box();
    assert!(erased.is::<u8>());
    assert!(!erased.is::<char>());
}

#[test]
fn downcast_ref_mismatch_leaves_value_alone() {
    let erased = Box::new(String::from("hello")).as_any_box();
    assert_eq!(erased.downcast_ref::<u32>(), None);
    assert_eq!(erased.downcast_ref::<String>(), Some(&String::from("hello")));
    assert_eq!(*erased, AnyValue::String(String::from("hello")));
}

#[test]
fn downcast_mut_write_is_seen_by_downcast_ref() {
    let mut erased = AnyValue::I64(-3);
    assert_eq!(erased.downcast_mut::<u64>(), None);
    if let Some(x) = erased.downcast_mut::<i64>() {
        *x = 1000;
    }
    assert_eq!(erased.downcast_ref::<i64>(), Some(&1000));
    assert_eq!(erased.type_id(), TypeTag::I64);
}

#[test]
fn downcast_mut_on_concrete_value_writes_through() {
    let mut value: char = 'a';
    assert_eq!(value.downcast_mut::<u32>(), None);
    if let Some(c) = value.downcast_mut::<char>() {
        *c = 'z';
    }
    assert_eq!(value, 'z');
}

#[test]
fn downcast_owned_mismatch_returns_same_container() {
    let erased = Box::new(42i32).as_any_box();
    let back = match erased.downcast::<i64>() {
        Ok(_) => panic!("an i32 narrowed to i64"),
        Err(e) => e,
    };
    assert_eq!(*back, AnyValue::I32(42));
    assert_eq!(back.type_id(), TypeTag::I32);
    let value = back.downcast::<i32>().unwrap();
    assert_eq!(*value, 42);
}

#[test]
fn downcast_owned_concrete_box() {
    let boxed: Box<u16> = Box::new(9);
    let back = boxed.downcast::<u32>().unwrap_err();
    assert_eq!(*back, 9u16);
    let same = back.downcast::<u16>().unwrap();
    assert_eq!(*same, 9);
}

#[test]
fn round_trip_through_erasure() {
    let text = String::from("round trip");
    let erased = Box::new(text.clone()).as_any_box();
    let recovered = erased.downcast_ref::<String>().unwrap();
    assert_eq!(recovered, &text);
    let owned = erased.downcast::<String>().unwrap();
    assert_eq!(*owned, text);
}

#[test]
fn scenario_erased_i32() {
    let erased = Box::new(42i32).as_any_box();
    assert!(erased.is::<i32>());
    assert_eq!(erased.downcast_ref::<i32>(), Some(&42));
    assert_eq!(erased.downcast_ref::<i64>(), None);
    assert_eq!(erased.type_id().name(), "i32");
}

#[test]
fn scenario_owned_i32() {
    let erased = Box::new(42i32).as_any_box();
    assert_eq!(*erased.downcast::<i32>().unwrap(), 42);
    let fresh = Box::new(42i32).as_any_box();
    let kept = fresh.downcast::<i64>().unwrap_err();
    assert_eq!(*kept, AnyValue::I32(42));
}

#[test]
fn type_tags_and_names() {
    assert_eq!(true.type_label(), "bool");
    assert_eq!('x'.type_label(), "char");
    assert_eq!(5usize.type_label(), "usize");
    assert_eq!((-5isize).type_label(), "isize");
    assert_eq!(1u128.type_label(), "u128");
    assert_eq!(String::new().type_label(), "alloc::string::String");
    assert_eq!(TypeTag::I8.name(), "i8");
    assert_ne!(TypeTag::U32, TypeTag::I32);
    assert_eq!(7u64.type_id(), TypeTag::U64);
}

#[test]
fn narrowing_primitives() {
    let value: i16 = -12;
    let view: AnyRef<'_> = value.as_any();
    assert_eq!(view.type_id(), TypeTag::I16);
    assert_eq!(<i16 as AsAny>::narrow_ref(value.as_any()), Some(&-12));
    assert_eq!(<u16 as AsAny>::narrow_ref(value.as_any()), None);
    let mut cell: i16 = 3;
    if let Some(x) = <i16 as AsAny>::narrow_mut(cell.as_any_mut()) {
        *x += 1;
    }
    assert_eq!(cell, 4);
    assert!(<bool as AsAny>::narrow_box(Box::new(AnyValue::Bool(true))).is_ok());
    assert!(<bool as AsAny>::narrow_box(Box::new(AnyValue::U8(1))).is_err());
}
