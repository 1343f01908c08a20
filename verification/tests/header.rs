use bolt_rs::bt_object::{BoltObject, Object, ObjectType, RawObject, Type};
use bolt_rs::object_mask::{
    clear_mark, get_next_ptr, get_type, is_marked, set_mark, set_next_ptr, set_type, MARK_BIT,
    PTR_BITS, TYPE_MASK, TYPE_SHIFT,
};

fn raw(mask: u64) -> RawObject {
    RawObject {
        mask,
        signature: 0,
        type_: 0,
        num_upv: 0,
        array_length: 0,
        array_capacity: 0,
        table_length: 0,
        table_capacity: 0,
        is_inline: false,
        size: 0,
        next: 0,
    }
}

#[test]
fn header_constants_cover_the_word() {
    assert_eq!(MARK_BIT, 1);
    assert_eq!(PTR_BITS, 0x00FF_FFFF_FFFF_FFFE);
    assert_eq!(TYPE_MASK << TYPE_SHIFT, 0xFF00_0000_0000_0000);
    assert_eq!(MARK_BIT | PTR_BITS | (TYPE_MASK << TYPE_SHIFT), u64::MAX);
    assert_eq!(MARK_BIT & PTR_BITS, 0);
}

#[test]
fn header_fields_are_read_back() {
    let mut mask: u64 = 0;
    set_type(&mut mask, 9);
    set_next_ptr(&mut mask, 0x1000);
    set_mark(&mut mask);
    assert_eq!(get_type(mask), 9);
    assert_eq!(get_next_ptr(mask), 0x1000);
    assert!(is_marked(mask));
    assert_eq!(mask, 0x0900_0000_0000_1001);
    clear_mark(&mut mask);
    assert!(!is_marked(mask));
    assert_eq!(mask, 0x0900_0000_0000_1000);
}

#[test]
fn header_writes_do_not_disturb_each_other() {
    for start in [0u64, u64::MAX, 0x0123_4567_89AB_CDEF, 0xA5A5_A5A5_A5A5_A5A5] {
        for tag in 0u32..=11 {
            let mut mask = start;
            set_type(&mut mask, tag);
            assert_eq!(get_type(mask), tag);
            assert_eq!(get_next_ptr(mask), get_next_ptr(start));
            assert_eq!(is_marked(mask), is_marked(start));
        }
        let mut mask = start;
        set_next_ptr(&mut mask, 0x0000_7FFF_1234_5678);
        assert_eq!(get_next_ptr(mask), 0x0000_7FFF_1234_5678);
        assert_eq!(get_type(mask), get_type(start));
        assert_eq!(is_marked(mask), is_marked(start));

        let mut mask = start;
        set_mark(&mut mask);
        assert!(is_marked(mask));
        assert_eq!(get_type(mask), get_type(start));
        assert_eq!(get_next_ptr(mask), get_next_ptr(start));
        set_mark(&mut mask);
        assert!(is_marked(mask));
        clear_mark(&mut mask);
        assert!(!is_marked(mask));
        assert_eq!(get_type(mask), get_type(start));
        assert_eq!(get_next_ptr(mask), get_next_ptr(start));
    }
}

#[test]
fn header_keeps_only_what_fits() {
    let mut mask: u64 = 0;
    set_type(&mut mask, 0x1FF);
    assert_eq!(get_type(mask), 0xFF);
    assert_eq!(get_next_ptr(mask), 0);
    let mut mask: u64 = 0;
    set_next_ptr(&mut mask, u64::MAX);
    assert_eq!(get_next_ptr(mask), PTR_BITS);
    assert_eq!(get_type(mask), 0);
    assert!(!is_marked(mask));
}

#[test]
fn header_last_write_wins() {
    let mut mask: u64 = 0;
    set_type(&mut mask, 3);
    set_next_ptr(&mut mask, 0x40);
    set_type(&mut mask, 8);
    set_mark(&mut mask);
    set_next_ptr(&mut mask, 0x80);
    assert_eq!(get_type(mask), 8);
    assert_eq!(get_next_ptr(mask), 0x80);
    assert!(is_marked(mask));
}

#[test]
fn object_type_tags() {
    let kinds = [
        ObjectType::NoObject,
        ObjectType::Type,
        ObjectType::String,
        ObjectType::Module,
        ObjectType::Import,
        ObjectType::Function,
        ObjectType::NativeFunction,
        ObjectType::Closure,
        ObjectType::Array,
        ObjectType::Table,
        ObjectType::UserData,
        ObjectType::Annotation,
    ];
    for (tag, kind) in kinds.iter().enumerate() {
        assert_eq!(kind.tag(), tag as u32);
        assert_eq!(ObjectType::from_tag(tag as u32), *kind);
        assert_eq!(ObjectType::from(tag as u32), *kind);
        let mut mask: u64 = 0x00AA_0000_0000_0001;
        set_type(&mut mask, tag as u32);
        assert_eq!(ObjectType::from_mask(mask), *kind);
    }
    assert_eq!(ObjectType::from_tag(12), ObjectType::NoObject);
    assert_eq!(ObjectType::from_tag(255), ObjectType::NoObject);
    assert_eq!(ObjectType::from_mask(0xFF00_0000_0000_0000), ObjectType::NoObject);
}

#[test]
fn handles_refuse_null() {
    assert_eq!(Object::from_raw(0), None);
    assert_eq!(Type::from_raw(0), None);
    assert_eq!(Object::from_raw(64).map(|o| o.as_raw()), Some(64));
    assert_eq!(Type::from_raw(64).map(|t| t.as_raw()), Some(64));
    assert!(bolt_rs::bt_object::NativeFunction::from_raw(0).is_none());
    let native = bolt_rs::bt_object::NativeFunction::from_raw(24).expect("not null");
    assert_eq!(native.as_raw(), 24);
    assert_eq!(native.type_, None);
    assert!(bolt_rs::bt_object::Module::from_raw(0).is_none());
    let module = bolt_rs::bt_object::Module::from_raw(8).expect("not null");
    assert_eq!(module.name(), None);
    assert_eq!(module.path(), None);
    let named = bolt_rs::bt_object::Module {
        ptr: 8,
        name: Some("m".to_string()),
        path: Some("a/m.bolt".to_string()),
    };
    assert_eq!(named.name(), Some("m"));
    assert_eq!(named.path(), Some("a/m.bolt"));
}

#[test]
fn objects_are_described_by_their_header() {
    assert!(BoltObject::from_raw(0, &raw(0x0100_0000_0000_0000)).is_none());

    let none = BoltObject::from_raw(8, &raw(0)).expect("not null");
    assert!(none.is_none());
    assert_eq!(none.object_type(), ObjectType::NoObject);
    assert_eq!(none.as_raw_ptr(), 0);

    let mut image = raw(0);
    set_type(&mut image.mask, 8);
    image.array_length = 3;
    image.array_capacity = 4;
    match BoltObject::from_raw(16, &image).expect("not null") {
        BoltObject::Array(array) => {
            assert_eq!(array.ptr, 16);
            assert_eq!(array.length, 3);
            assert_eq!(array.capacity, 4);
        }
        other => panic!("not an array: {:?}", other),
    }

    let mut image = raw(0);
    set_type(&mut image.mask, 9);
    image.table_length = 2;
    image.table_capacity = 8;
    image.is_inline = true;
    match BoltObject::from_raw(24, &image).expect("not null") {
        BoltObject::Table(table) => {
            assert_eq!((table.ptr, table.length, table.capacity, table.is_inline), (24, 2, 8, true));
        }
        other => panic!("not a table: {:?}", other),
    }

    let mut image = raw(0);
    set_type(&mut image.mask, 5);
    image.signature = 40;
    match BoltObject::from_raw(32, &image).expect("not null") {
        BoltObject::Function(function) => {
            assert_eq!(function.ptr, 32);
            assert_eq!(function.signature, Some(Type { ptr: 40 }));
        }
        other => panic!("not a function: {:?}", other),
    }

    let mut image = raw(0);
    set_type(&mut image.mask, 6);
    match BoltObject::from_raw(32, &image).expect("not null") {
        BoltObject::NativeFunction(native) => assert_eq!(native.type_, None),
        other => panic!("not a native function: {:?}", other),
    }

    let mut image = raw(0);
    set_type(&mut image.mask, 7);
    image.num_upv = 5;
    match BoltObject::from_raw(32, &image).expect("not null") {
        BoltObject::Closure(closure) => assert_eq!(closure.num_upvalues, 5),
        other => panic!("not a closure: {:?}", other),
    }

    let mut image = raw(0);
    set_type(&mut image.mask, 10);
    image.size = 48;
    image.type_ = 56;
    match BoltObject::from_raw(32, &image).expect("not null") {
        BoltObject::UserData(userdata) => {
            assert_eq!(userdata.size, 48);
            assert_eq!(userdata.type_, Some(Type { ptr: 56 }));
        }
        other => panic!("not userdata: {:?}", other),
    }

    let mut image = raw(0);
    set_type(&mut image.mask, 11);
    image.next = 72;
    match BoltObject::from_raw(32, &image).expect("not null") {
        BoltObject::Annotation(annotation) => {
            assert_eq!(annotation.next, 72);
            assert!(annotation.name.is_none());
        }
        other => panic!("not an annotation: {:?}", other),
    }

    for (tag, kind) in [
        (1u32, ObjectType::Type),
        (2, ObjectType::String),
        (3, ObjectType::Module),
        (4, ObjectType::Import),
    ] {
        let mut image = raw(1);
        set_type(&mut image.mask, tag);
        let described = BoltObject::from_raw(80, &image).expect("not null");
        assert_eq!(described.object_type(), kind);
        assert_eq!(described.as_raw_ptr(), 80);
        assert!(!described.is_none());
    }
}
