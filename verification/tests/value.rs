use bolt_rs::bt_object::Object;
use bolt_rs::value::{
    Value, ValueType, CANONICAL_NAN, VALUE_ENUM, VALUE_FALSE, VALUE_NULL, VALUE_OBJECT, VALUE_TRUE,
};

fn classes(value: Value) -> [bool; 5] {
    [value.is_null(), value.is_bool(), value.is_number(), value.is_enum(), value.is_object()]
}

fn exactly_one(value: Value) -> bool {
    classes(value).iter().filter(|held| **held).count() == 1
}

#[test]
fn constructed_values_hold_one_class() {
    let object = Object::from_raw(0x1238).expect("not null");
    let values = [
        Value::null(),
        Value::from_bool(true),
        Value::from_bool(false),
        Value::from_number(0f64.to_bits()),
        Value::from_number((-0f64).to_bits()),
        Value::from_number(6f64.to_bits()),
        Value::from_number((-1.5f64).to_bits()),
        Value::from_number(f64::INFINITY.to_bits()),
        Value::from_number(f64::NEG_INFINITY.to_bits()),
        Value::from_number(f64::NAN.to_bits()),
        Value::from_number(f64::MAX.to_bits()),
        Value::from_number(f64::MIN_POSITIVE.to_bits()),
        Value::from_enum(0),
        Value::from_enum(u32::MAX),
        Value::from_object(object),
    ];
    for value in values {
        assert!(exactly_one(value), "{:?}", value);
    }
    assert_eq!(classes(Value::null()), [true, false, false, false, false]);
    assert_eq!(classes(Value::from_bool(true)), [false, true, false, false, false]);
    assert_eq!(classes(Value::from_number(1f64.to_bits())), [false, false, true, false, false]);
    assert_eq!(classes(Value::from_enum(7)), [false, false, false, true, false]);
    assert_eq!(classes(Value::from_object(object)), [false, false, false, false, true]);
}

#[test]
fn every_word_holds_one_class() {
    let mut word: u64 = 0x9E37_79B9_7F4A_7C15;
    for _ in 0..20_000 {
        word ^= word << 13;
        word ^= word >> 7;
        word ^= word << 17;
        assert!(exactly_one(Value::from_raw(word)));
        assert!(exactly_one(Value::from_raw(word | 0x7FFC_0000_0000_0000)));
    }
    for high in 0u64..=0xFFFF {
        assert!(exactly_one(Value::from_raw(high << 48)));
        assert!(exactly_one(Value::from_raw((high << 48) | 1)));
    }
}

#[test]
fn value_words() {
    assert_eq!(Value::null().as_raw(), VALUE_NULL);
    assert_eq!(Value::null().as_raw(), 0x7FFC_0000_0000_0000);
    assert_eq!(Value::from_bool(false).as_raw(), VALUE_FALSE);
    assert_eq!(Value::from_bool(true).as_raw(), VALUE_TRUE);
    assert_eq!(Value::from_bool(true).as_raw(), 0x7FFD_0000_0000_0001);
    assert_eq!(Value::from_enum(5).as_raw(), VALUE_ENUM | 5);
    assert_eq!(Value::from_enum(5).as_raw(), 0x7FFE_0000_0000_0005);
    let object = Object::from_raw(0x40).expect("not null");
    assert_eq!(Value::from_object(object).as_raw(), VALUE_OBJECT | 0x40);
    assert_eq!(Value::from_object(object).as_raw(), 0x7FFF_0000_0000_0040);
    assert_eq!(Value::from_number(6f64.to_bits()).as_raw(), 0x4018_0000_0000_0000);
    assert_eq!(Value::from_raw(17).as_raw(), 17);
    assert_eq!(Value::from_raw(17), Value(17));
}

#[test]
fn numbers_round_trip() {
    for number in [
        0.0f64,
        -0.0,
        1.0,
        -1.0,
        6.0,
        5.0,
        0.1,
        -1234.5678,
        f64::MAX,
        f64::MIN,
        f64::MIN_POSITIVE,
        f64::EPSILON,
        f64::INFINITY,
        f64::NEG_INFINITY,
        4.9e-324,
    ] {
        let value = Value::from_number(number.to_bits());
        assert!(value.is_number());
        let back = value.as_number().expect("a number");
        assert_eq!(back, number.to_bits());
        assert_eq!(f64::from_bits(back).to_bits(), number.to_bits());
    }
    let nan = Value::from_number(f64::NAN.to_bits());
    assert!(f64::from_bits(nan.as_number().expect("a number")).is_nan());
}

#[test]
fn boxed_patterns_are_stored_as_the_canonical_nan() {
    for bits in [VALUE_NULL, VALUE_TRUE, VALUE_ENUM | 9, VALUE_OBJECT | 0x40, 0xFFFF_FFFF_FFFF_FFFF] {
        assert!(f64::from_bits(bits).is_nan());
        let value = Value::from_number(bits);
        assert!(value.is_number());
        assert_eq!(value.as_raw(), CANONICAL_NAN);
        assert_eq!(value.as_number(), Some(CANONICAL_NAN));
    }
    assert_eq!(Value::from_number(CANONICAL_NAN).as_raw(), CANONICAL_NAN);
    assert_eq!(Value::from_number(0x7FF8_0000_0000_0001).as_raw(), 0x7FF8_0000_0000_0001);
}

#[test]
fn accessors_check_before_they_unwrap() {
    let object = Object::from_raw(0x48).expect("not null");
    let null = Value::null();
    let flag = Value::from_bool(true);
    let number = Value::from_number(2.5f64.to_bits());
    let option = Value::from_enum(3);
    let boxed = Value::from_object(object);

    assert_eq!(flag.as_bool(), Some(true));
    assert_eq!(Value::from_bool(false).as_bool(), Some(false));
    assert_eq!(number.as_number(), Some(2.5f64.to_bits()));
    assert_eq!(option.as_enum(), Some(3));
    assert_eq!(Value::from_enum(u32::MAX).as_enum(), Some(u32::MAX));
    assert_eq!(boxed.as_object(), Some(object));

    for value in [null, number, option, boxed] {
        assert_eq!(value.as_bool(), None);
    }
    for value in [null, flag, option, boxed] {
        assert_eq!(value.as_number(), None);
    }
    for value in [null, flag, number, boxed] {
        assert_eq!(value.as_enum(), None);
    }
    for value in [null, flag, number, option] {
        assert_eq!(value.as_object(), None);
    }
    assert_eq!(Value::from_raw(VALUE_OBJECT).as_object(), None);
    assert!(Value::from_raw(VALUE_OBJECT).is_object());
}

#[test]
fn objects_keep_forty_eight_bits_of_address() {
    if usize::BITS == 64 {
        let wide = Object { ptr: 0x0001_0000_0000_0040u64 as usize };
        let value = Value::from_object(wide);
        assert!(value.is_object());
        assert_eq!(value.as_object(), Some(Object { ptr: 0x40 }));
        let top = Object { ptr: 0x0000_FFFF_FFFF_FFF8u64 as usize };
        assert_eq!(Value::from_object(top).as_object(), Some(top));
    }
}

#[test]
fn classification_goes_by_class_then_header() {
    let object = Object::from_raw(0x48).expect("not null");
    assert_eq!(ValueType::classify(Value::null(), None), ValueType::Null);
    assert_eq!(ValueType::classify(Value::from_bool(false), None), ValueType::Bool);
    assert_eq!(ValueType::classify(Value::from_number(0), None), ValueType::Number);
    assert_eq!(ValueType::classify(Value::from_enum(1), None), ValueType::Enum);
    assert_eq!(ValueType::classify(Value::from_object(object), None), ValueType::NoObject);
    let expected = [
        ValueType::NoObject,
        ValueType::Type,
        ValueType::String,
        ValueType::Module,
        ValueType::Import,
        ValueType::Function,
        ValueType::NativeFunction,
        ValueType::Closure,
        ValueType::Array,
        ValueType::Table,
        ValueType::UserData,
        ValueType::Annotation,
    ];
    for (tag, kind) in expected.iter().enumerate() {
        let header = (tag as u64) << 56;
        assert_eq!(ValueType::classify(Value::from_object(object), Some(header)), *kind);
        assert_eq!(ValueType::classify(Value::from_number(0), Some(header)), ValueType::Number);
        assert_eq!(ValueType::classify(Value::null(), Some(header)), ValueType::Null);
    }
    assert_eq!(
        ValueType::classify(Value::from_object(object), Some(0x0C00_0000_0000_0000)),
        ValueType::NoObject
    );
}
