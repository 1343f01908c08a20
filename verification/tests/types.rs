use bolt_rs::bt_object::{Annotation, BoltString, ObjectType, Type};
use bolt_rs::heap::{FieldAccess, FieldKind, ScalarKind, UserField};
use bolt_rs::{Context, Error, MakeBoltValueWithContext, Value};

fn context() -> Context {
    Context::from_raw(0x1000).expect("not null")
}

fn key(ctx: &mut Context, name: &str) -> Value {
    name.make_with_context(ctx)
}

#[test]
fn scalar_types_are_made_once() {
    let mut ctx = context();
    let any = ctx.type_any().expect("room");
    let null = ctx.type_null().expect("room");
    let number = ctx.type_number().expect("room");
    let boolean = ctx.type_bool().expect("room");
    let string = ctx.type_string().expect("room");
    let array = ctx.type_array().expect("room");
    let table = ctx.type_table().expect("room");
    let type_ = ctx.type_type().expect("room");
    let all = [any, null, number, boolean, string, array, table, type_];
    for (i, a) in all.iter().enumerate() {
        for (j, b) in all.iter().enumerate() {
            assert_eq!(a == b, i == j);
        }
        assert_eq!(ctx.object_type(a.as_object()), ObjectType::Type);
    }
    assert_eq!(ctx.type_number(), Some(number));
    assert_eq!(ctx.type_any(), Some(any));
    assert_eq!(ctx.type_scalar(ScalarKind::Table), Some(table));
    assert_eq!(ctx.find_scalar(ScalarKind::String), Some(string));
    assert_eq!(ctx.heap.len(), 8);
    assert_eq!(context().find_scalar(ScalarKind::String), None);
}

#[test]
fn aliases_lead_to_their_target() {
    let mut ctx = context();
    let number = ctx.type_number().expect("room");
    let meters = ctx.make_alias_type("Meters", number).expect("room");
    let distance = ctx.make_alias_type(String::from("Distance"), meters).expect("room");
    assert!(ctx.is_alias(meters));
    assert!(ctx.is_alias(distance));
    assert!(!ctx.is_alias(number));
    assert_eq!(ctx.type_dealias(distance), number);
    assert_eq!(ctx.type_dealias(meters), number);
    assert_eq!(ctx.type_dealias(number), number);
    assert!(ctx.type_is_equal(distance, number));
    assert!(ctx.type_is_equal(meters, distance));
    let string = ctx.type_string().expect("room");
    assert!(!ctx.type_is_equal(meters, string));
    assert_eq!(
        ctx.make_alias_type("Me\0ters", number),
        Err(Error::StringConversion { position: 2 })
    );
    let stranger = Type { ptr: 4096 };
    assert_eq!(ctx.type_dealias(stranger), stranger);
    assert!(!ctx.is_alias(stranger));
}

#[test]
fn unions_hold_each_variant_once() {
    let mut ctx = context();
    let number = ctx.type_number().expect("room");
    let string = ctx.type_string().expect("room");
    let boolean = ctx.type_bool().expect("room");
    let union = ctx.make_union().expect("room");
    assert_eq!(ctx.union_get_length(union), 0);
    ctx.union_push_variant(union, number);
    ctx.union_push_variant(union, string);
    ctx.union_push_variant(union, number);
    assert_eq!(ctx.union_get_length(union), 2);
    assert_eq!(ctx.union_get_variant(union, 0), Some(number));
    assert_eq!(ctx.union_get_variant(union, 1), Some(string));
    assert_eq!(ctx.union_get_variant(union, 2), None);
    assert_eq!(ctx.union_has_variant(union, number), 0);
    assert_eq!(ctx.union_has_variant(union, string), 1);
    assert_eq!(ctx.union_has_variant(union, boolean), -1);

    assert_eq!(ctx.union_get_length(number), -1);
    assert_eq!(ctx.union_get_variant(number, 0), None);
    assert_eq!(ctx.union_has_variant(number, number), -1);
    ctx.union_push_variant(number, string);
    assert_eq!(ctx.union_get_length(number), -1);
}

#[test]
fn unions_are_made_or_extended() {
    let mut ctx = context();
    let number = ctx.type_number().expect("room");
    let string = ctx.type_string().expect("room");
    let boolean = ctx.type_bool().expect("room");

    let pair = ctx.make_or_extend_union(number, string).expect("room");
    assert_ne!(pair, number);
    assert_eq!(ctx.union_get_length(pair), 2);
    assert_eq!(ctx.union_get_variant(pair, 0), Some(number));
    assert_eq!(ctx.union_get_variant(pair, 1), Some(string));

    let same = ctx.make_or_extend_union(pair, boolean).expect("room");
    assert_eq!(same, pair);
    assert_eq!(ctx.union_get_length(pair), 3);
    assert_eq!(ctx.make_or_extend_union(pair, string), Some(pair));
    assert_eq!(ctx.union_get_length(pair), 3);

    let single = ctx.make_or_extend_union(number, number).expect("room");
    assert_eq!(ctx.union_get_length(single), 1);

    let from = ctx.make_union_from(&[string, number, string, boolean, number]).expect("room");
    assert_eq!(ctx.union_get_length(from), 3);
    assert_eq!(ctx.union_get_variant(from, 0), Some(string));
    assert_eq!(ctx.union_get_variant(from, 1), Some(number));
    assert_eq!(ctx.union_get_variant(from, 2), Some(boolean));
    let empty = ctx.make_union_from(&[]).expect("room");
    assert_eq!(ctx.union_get_length(empty), 0);
}

#[test]
fn nullable_types_are_unions_with_null() {
    let mut ctx = context();
    let number = ctx.type_number().expect("room");
    assert!(!ctx.type_is_optional(number));
    let optional = ctx.type_make_nullable(number).expect("room");
    let null = ctx.type_null().expect("room");
    assert!(ctx.type_is_optional(optional));
    assert_eq!(ctx.union_get_length(optional), 2);
    assert_eq!(ctx.union_get_variant(optional, 0), Some(number));
    assert_eq!(ctx.union_get_variant(optional, 1), Some(null));
    assert_eq!(ctx.type_remove_nullable(optional), Some(number));
    assert_eq!(ctx.type_remove_nullable(number), Some(number));

    let string = ctx.type_string().expect("room");
    ctx.union_push_variant(optional, string);
    let plain = ctx.type_remove_nullable(optional).expect("room");
    assert_ne!(plain, optional);
    assert!(!ctx.type_is_optional(plain));
    assert_eq!(ctx.union_get_length(plain), 2);
    assert_eq!(ctx.union_get_variant(plain, 0), Some(number));
    assert_eq!(ctx.union_get_variant(plain, 1), Some(string));
    assert_eq!(ctx.union_get_length(optional), 3);
    let only_null = ctx.type_make_nullable(null).expect("room");
    assert_eq!(ctx.union_get_length(only_null), 1);
}

#[test]
fn signatures_keep_their_parameters() {
    let mut ctx = context();
    let number = ctx.type_number().expect("room");
    let string = ctx.type_string().expect("room");
    let signature = ctx.make_signature_type(number, &[string, number]).expect("room");
    assert!(ctx.type_is_methodic(signature, string));
    assert!(!ctx.type_is_methodic(signature, number));
    let none = ctx.make_signature_type(number, &[]).expect("room");
    assert!(!ctx.type_is_methodic(none, number));
    assert!(!ctx.type_is_methodic(number, number));

    let body = |ctx: &Context, t: Type| format!("{:?}", ctx.heap[t.ptr / 8 - 1].body);
    assert_eq!(
        body(&ctx, signature),
        format!(
            "Type(Signature {{ params: [{:?}, {:?}], ret: {:?}, vararg: None }})",
            string, number, number
        )
    );
    let many = vec![number; 255];
    let long = ctx.make_signature_type(string, &many).expect("room");
    assert!(body(&ctx, long).matches("Type { ptr").count() == 256);
    let too_many = vec![number; 256];
    let wrapped = ctx.make_signature_type(string, &too_many).expect("room");
    assert_eq!(
        body(&ctx, wrapped),
        format!("Type(Signature {{ params: [], ret: {:?}, vararg: None }})", string)
    );
    let more = vec![number; 258];
    let two = ctx.make_signature_type(string, &more).expect("room");
    assert!(body(&ctx, two).matches("Type { ptr").count() == 3);
}

#[test]
fn a_vararg_signature_is_a_new_type() {
    let mut ctx = context();
    let number = ctx.type_number().expect("room");
    let string = ctx.type_string().expect("room");
    let plain = ctx.make_signature_type(number, &[string]).expect("room");
    let before = format!("{:?}", ctx.heap[plain.ptr / 8 - 1]);
    let derived = ctx.make_signature_vararg(plain, number).expect("room");
    assert_ne!(derived, plain);
    assert_eq!(format!("{:?}", ctx.heap[plain.ptr / 8 - 1]), before);
    assert_eq!(
        format!("{:?}", ctx.heap[derived.ptr / 8 - 1].body),
        format!(
            "Type(Signature {{ params: [{:?}], ret: {:?}, vararg: Some({:?}) }})",
            string, number, number
        )
    );
    assert_eq!(ctx.make_signature_vararg(number, number), None);
    assert_eq!(ctx.make_signature_vararg(Type { ptr: 4096 }, number), None);
}

#[test]
fn array_and_map_types() {
    let mut ctx = context();
    let number = ctx.type_number().expect("room");
    let string = ctx.type_string().expect("room");
    let numbers = ctx.make_array_type(number).expect("room");
    let by_name = ctx.make_map(string, number).expect("room");
    assert_ne!(numbers, by_name);
    assert_eq!(
        format!("{:?}", ctx.heap[numbers.ptr / 8 - 1].body),
        format!("Type(ArrayOf {{ element: {:?} }})", number)
    );
    assert_eq!(
        format!("{:?}", ctx.heap[by_name.ptr / 8 - 1].body),
        format!("Type(MapOf {{ key: {:?}, value: {:?} }})", string, number)
    );
}

#[test]
fn test_make_primitive_type() {
    let mut ctx = context();

    let custom_type = ctx.make_primitive_type(0x5A70, "custom").expect("custom type");

    let type_name_value = "custom".make_with_context(&mut ctx);
    ctx.register_type(type_name_value, custom_type);

    assert_eq!(ctx.find_type(type_name_value), Some(custom_type));
    assert_eq!(ctx.object_type(custom_type.as_object()), ObjectType::Type);
    let text = ctx.find_string(b"custom").expect("interned");
    assert_eq!(
        format!("{:?}", ctx.heap[custom_type.ptr / 8 - 1].body),
        format!("Type(Primitive {{ name: {:?}, satisfier: {} }})", text, 0x5A70)
    );
    assert_eq!(
        ctx.make_primitive_type(0x5A70, "cus\0tom"),
        Err(Error::StringConversion { position: 3 })
    );
}

#[test]
fn types_are_found_by_name() {
    let mut ctx = context();
    let number = ctx.type_number().expect("room");
    let string = ctx.type_string().expect("room");
    let name = key(&mut ctx, "Count");
    let other = key(&mut ctx, "Label");
    assert_eq!(ctx.find_type(name), None);
    ctx.register_type(name, number);
    ctx.register_type(other, string);
    assert_eq!(ctx.find_type(name), Some(number));
    assert_eq!(ctx.find_type(other), Some(string));
    ctx.register_type(name, string);
    assert_eq!(ctx.find_type(name), Some(string));
    assert_eq!(ctx.find_type(Value::null()), None);
    ctx.register_prelude(name, number, Value::from_number(1f64.to_bits()));
    assert_eq!(ctx.prelude.len(), 1);
    assert_eq!(ctx.prelude[0].value, Value::from_number(1f64.to_bits()));
}

#[test]
fn fields_are_inherited_from_the_parent() {
    let mut ctx = context();
    let number = ctx.type_number().expect("room");
    let string = ctx.type_string().expect("room");
    let parent = ctx.make_tableshape_type("Animal", false).expect("room");
    let child = ctx.make_tableshape_type("Dog", true).expect("room");
    let legs = key(&mut ctx, "legs");
    let name = key(&mut ctx, "name");
    let four = Value::from_number(4f64.to_bits());
    ctx.type_add_field(parent, number, legs, four);
    ctx.tableshape_add_layout(child, string, name, string);

    assert_eq!(ctx.type_get_field_type(parent, legs), Some(number));
    assert_eq!(ctx.type_get_field(parent, legs), Some(four));
    assert_eq!(ctx.type_get_field_type(child, legs), None);
    assert_eq!(ctx.type_get_field(child, legs), None);

    ctx.tableshape_set_parent(child, parent);
    assert_eq!(ctx.tableshape_get_parent(child), Some(parent));
    assert_eq!(ctx.type_get_field_type(child, legs), Some(number));
    assert_eq!(ctx.type_get_field(child, legs), Some(four));
    assert_eq!(ctx.type_get_field_type(child, name), Some(string));
    assert_eq!(ctx.type_get_field_type(parent, name), None);
    assert_eq!(ctx.type_get_field(child, name), None);

    ctx.tableshape_remove_parent(child);
    assert_eq!(ctx.tableshape_get_parent(child), None);
    assert_eq!(ctx.type_get_field_type(child, legs), None);
    assert_eq!(ctx.type_get_field(child, legs), None);
    assert_eq!(ctx.type_get_field_type(child, name), Some(string));
}

#[test]
fn own_fields_come_before_inherited_ones() {
    let mut ctx = context();
    let number = ctx.type_number().expect("room");
    let string = ctx.type_string().expect("room");
    let top = ctx.make_tableshape_type("Top", false).expect("room");
    let middle = ctx.make_tableshape_type("Middle", false).expect("room");
    let bottom = ctx.make_tableshape_type("Bottom", false).expect("room");
    let id = key(&mut ctx, "id");
    let deep = key(&mut ctx, "deep");
    ctx.type_add_field(top, number, id, Value::from_number(1f64.to_bits()));
    ctx.type_add_field(top, number, deep, Value::from_number(9f64.to_bits()));
    ctx.type_add_field(bottom, string, id, Value::from_bool(true));
    ctx.tableshape_set_parent(bottom, middle);
    ctx.tableshape_set_parent(middle, top);
    assert_eq!(ctx.type_get_field_type(bottom, id), Some(string));
    assert_eq!(ctx.type_get_field(bottom, id), Some(Value::from_bool(true)));
    assert_eq!(ctx.type_get_field_type(middle, id), Some(number));
    assert_eq!(ctx.type_get_field_type(bottom, deep), Some(number));
    assert_eq!(ctx.type_get_field(bottom, deep), Some(Value::from_number(9f64.to_bits())));
    ctx.type_set_field(top, deep, Value::from_number(10f64.to_bits()));
    assert_eq!(ctx.type_get_field(bottom, deep), Some(Value::from_number(10f64.to_bits())));
    ctx.type_set_field(middle, deep, Value::null());
    assert_eq!(ctx.type_get_field(bottom, deep), Some(Value::null()));
    assert_eq!(ctx.type_get_field_type(bottom, deep), Some(number));
}

#[test]
fn a_search_up_the_parents_ends() {
    let mut ctx = context();
    let number = ctx.type_number().expect("room");
    let a = ctx.make_tableshape_type("A", false).expect("room");
    let b = ctx.make_tableshape_type("B", false).expect("room");
    let missing = key(&mut ctx, "missing");
    let present = key(&mut ctx, "present");
    ctx.tableshape_set_parent(a, b);
    ctx.tableshape_set_parent(b, a);
    ctx.tableshape_add_layout(b, number, present, number);
    assert_eq!(ctx.type_get_field_type(a, missing), None);
    assert_eq!(ctx.type_get_field(a, missing), None);
    assert_eq!(ctx.type_get_field_type(a, present), Some(number));
    ctx.tableshape_set_parent(a, a);
    assert_eq!(ctx.type_get_field_type(a, present), None);
    assert_eq!(ctx.type_get_field_type(number, present), None);
    assert_eq!(ctx.type_get_field(Type { ptr: 4096 }, present), None);
    ctx.tableshape_set_parent(number, a);
    assert_eq!(ctx.tableshape_get_parent(number), None);
    assert!(ctx.is_tableshape(a));
    assert!(!ctx.is_tableshape(number));
}

#[test]
fn tableshape_names_are_checked() {
    let mut ctx = context();
    assert_eq!(
        ctx.make_tableshape_type("\0", false),
        Err(Error::StringConversion { position: 0 })
    );
    assert_eq!(ctx.heap.len(), 0);
    let shape = ctx.make_tableshape_type("Shape", true).expect("room");
    let text = ctx.find_string(b"Shape").expect("interned");
    assert!(format!("{:?}", ctx.heap[shape.ptr / 8 - 1].body)
        .starts_with(&format!("Type(TableShape {{ name: {:?}, sealed: true, parent: None", text)));
    let node = Annotation { ptr: 800, name: None, next: 0 };
    let field = key(&mut ctx, "field");
    ctx.tableshape_set_field_annotations(shape, field, &node);
    assert!(format!("{:?}", ctx.heap[shape.ptr / 8 - 1].body).contains("annotations: 800"));
}

#[test]
fn enums_take_each_name_once() {
    let mut ctx = context();
    let color = ctx.make_enum_type("Color", false).expect("room");
    ctx.enum_push_option(color, "Red", Value::from_enum(0)).expect("room");
    ctx.enum_push_option(color, "Green", Value::from_enum(1)).expect("room");
    ctx.enum_push_option(color, "Red", Value::from_enum(7)).expect("room");
    let red = ctx.find_string(b"Red").expect("interned");
    let green = ctx.find_string(b"Green").expect("interned");
    assert_eq!(ctx.enum_get(color, red), Value::from_enum(0));
    assert_eq!(ctx.enum_get(color, green), Value::from_enum(1));
    assert_eq!(ctx.enum_contains(color, Value::from_enum(1)), Value::from_object(green.as_object()));
    assert_eq!(ctx.enum_contains(color, Value::from_enum(0)), Value::from_object(red.as_object()));
    assert!(ctx.enum_contains(color, Value::from_enum(7)).is_null());
    assert!(ctx.enum_contains(color, Value::null()).is_null());
    let blue = ctx.make_string("Blue").expect("room");
    assert!(ctx.enum_get(color, blue).is_null());
    assert!(ctx.enum_get(Type { ptr: 4096 }, red).is_null());
    assert!(ctx.enum_get(red_type(red), red).is_null());
    assert_eq!(
        ctx.enum_push_option(color, "Bl\0ue", Value::from_enum(2)),
        Err(Error::StringConversion { position: 2 })
    );
    assert_eq!(
        ctx.make_enum_type("Co\0lor", false),
        Err(Error::StringConversion { position: 2 })
    );
}

fn red_type(text: BoltString) -> Type {
    Type { ptr: text.ptr }
}

#[test]
fn sealed_enums_take_no_options() {
    let mut ctx = context();
    let sealed = ctx.make_enum_type("Sealed", true).expect("room");
    assert_eq!(ctx.enum_push_option(sealed, "One", Value::from_enum(1)), Ok(()));
    let one = ctx.find_string(b"One").expect("interned");
    assert!(ctx.enum_get(sealed, one).is_null());
    assert!(ctx.enum_contains(sealed, Value::from_enum(1)).is_null());
    let number = ctx.type_number().expect("room");
    assert_eq!(ctx.enum_push_option(number, "One", Value::from_enum(1)), Ok(()));
    assert!(ctx.enum_get(number, one).is_null());
}

#[test]
fn long_enum_names_are_cut() {
    let mut ctx = context();
    let long = "n".repeat(65536 + 3);
    let named = ctx.make_enum_type(long.as_str(), false).expect("room");
    let kept = ctx.find_string(b"nnn").expect("interned");
    assert!(format!("{:?}", ctx.heap[named.ptr / 8 - 1].body)
        .starts_with(&format!("Type(Enum {{ name: {:?}", kept)));
    assert_eq!(ctx.find_string(long.as_bytes()), None);
    let exact = "m".repeat(65535);
    ctx.enum_push_option(named, exact.as_str(), Value::from_enum(1)).expect("room");
    let whole = ctx.find_string(exact.as_bytes()).expect("interned");
    assert_eq!(ctx.enum_get(named, whole), Value::from_enum(1));
}

#[test]
fn userdata_types_list_their_fields() {
    let mut ctx = context();
    let number = ctx.type_number().expect("room");
    let point = ctx.make_userdata_type("Point").expect("room");
    ctx.userdata_type_field(point, "x", 0, FieldKind::Double).expect("room");
    ctx.userdata_type_field(point, "y", 8, FieldKind::Double).expect("room");
    ctx.userdata_type_field(point, "label", 16, FieldKind::String).expect("room");
    ctx.userdata_type_field(point, "visible", 24, FieldKind::Bool).expect("room");
    ctx.userdata_type_push_field(point, "tag", 32, number, 0x100, 0x200).expect("room");
    let string = ctx.type_string().expect("room");
    let boolean = ctx.type_bool().expect("room");
    let field = |ctx: &Context, name: &[u8]| {
        ctx.userdata_type_get_field(point, ctx.find_string(name).expect("interned"))
    };
    let x = ctx.find_string(b"x").expect("interned");
    assert_eq!(
        field(&ctx, b"x"),
        Some(UserField {
            name: x,
            offset: 0,
            field_type: number,
            access: FieldAccess::Engine(FieldKind::Double)
        })
    );
    assert_eq!(field(&ctx, b"y").map(|f| f.offset), Some(8));
    assert_eq!(field(&ctx, b"label").map(|f| (f.offset, f.field_type)), Some((16, string)));
    assert_eq!(field(&ctx, b"visible").map(|f| (f.offset, f.field_type)), Some((24, boolean)));
    assert_eq!(
        field(&ctx, b"tag").map(|f| f.access),
        Some(FieldAccess::Host { getter: 0x100, setter: 0x200 })
    );
    assert_eq!(field(&ctx, b"Point"), None);
    assert_eq!(
        ctx.userdata_type_field(point, "\0", 0, FieldKind::Int8),
        Err(Error::StringConversion { position: 0 })
    );
    assert_eq!(
        ctx.userdata_type_push_field(point, "z\0", 0, number, 0, 0),
        Err(Error::StringConversion { position: 1 })
    );
    assert_eq!(
        ctx.make_userdata_type("Po\0int"),
        Err(Error::StringConversion { position: 2 })
    );
    ctx.userdata_type_field(number, "x", 4, FieldKind::Uint32).expect("room");
    assert_eq!(ctx.userdata_type_get_field(number, x), None);

    let data = ctx.make_userdata(point, 0x7000, 40).expect("room");
    assert_eq!(data.size, 40);
    assert_eq!(data.type_, Some(point));
    assert_eq!(ctx.object_type(bolt_rs::bt_object::Object { ptr: data.ptr }), ObjectType::UserData);
    let image = ctx.read_object(bolt_rs::bt_object::Object { ptr: data.ptr }).expect("live");
    assert_eq!((image.size, image.type_), (40, point.ptr));
}

#[test]
fn annotations_are_walked_by_name() {
    let mut ctx = context();
    let doc = ctx.make_string("doc").expect("room");
    let range = ctx.make_string("range").expect("room");
    let unit = ctx.make_string("unit").expect("room");
    let first = ctx.make_annotation(doc).expect("room");
    let second = ctx.make_annotation(range).expect("room");
    let third = ctx.make_annotation(doc).expect("room");
    assert_eq!(ctx.object_type(bolt_rs::bt_object::Object { ptr: first.ptr }), ObjectType::Annotation);
    ctx.annotation_push(&second, Value::from_number(0f64.to_bits()));
    ctx.annotation_push(&second, Value::from_number(10f64.to_bits()));
    assert_eq!(
        ctx.annotation_values(&second),
        vec![Value::from_number(0f64.to_bits()), Value::from_number(10f64.to_bits())]
    );
    assert!(ctx.annotation_values(&first).is_empty());
    assert!(ctx.annotation_next(&first, range).is_none());

    ctx.annotation_set_next(&first, &second);
    ctx.annotation_set_next(&second, &third);
    assert_eq!(ctx.annotation_next(&first, range).map(|a| a.ptr), Some(second.ptr));
    assert_eq!(ctx.annotation_next(&first, range).map(|a| a.next), Some(third.ptr));
    assert_eq!(ctx.annotation_next(&first, doc).map(|a| a.ptr), Some(third.ptr));
    assert_eq!(ctx.annotation_next(&second, doc).map(|a| a.ptr), Some(third.ptr));
    assert!(ctx.annotation_next(&first, unit).is_none());
    assert!(ctx.annotation_next(&third, doc).is_none());
    ctx.annotation_set_next(&third, &first);
    assert!(ctx.annotation_next(&first, unit).is_none());
    assert_eq!(ctx.annotation_next(&third, doc).map(|a| a.ptr), Some(first.ptr));
    let stranger = Annotation { ptr: 4096, name: None, next: 0 };
    assert!(ctx.annotation_next(&stranger, doc).is_none());
    ctx.annotation_push(&stranger, Value::null());
    assert!(ctx.annotation_values(&stranger).is_empty());
    assert!(Annotation::from_raw(0).is_none());
    assert_eq!(Annotation::from_raw(8).map(|a| a.as_raw()), Some(8));
}

#[test]
fn types_made_of_the_same_parts_are_the_same_type() {
    let mut ctx = context();
    let number = ctx.type_number().expect("room");
    let string = ctx.type_string().expect("room");
    let numbers = ctx.make_array_type(number).expect("room");
    let more_numbers = ctx.make_array_type(number).expect("room");
    let strings = ctx.make_array_type(string).expect("room");
    assert_ne!(numbers, more_numbers);
    assert!(ctx.type_is_equal(numbers, more_numbers));
    assert!(ctx.type_is_equal(numbers, numbers));
    assert!(!ctx.type_is_equal(numbers, strings));
    assert!(!ctx.type_is_equal(numbers, number));

    let meters = ctx.make_alias_type("Meters", number).expect("room");
    let lengths = ctx.make_array_type(meters).expect("room");
    assert!(ctx.type_is_equal(lengths, numbers));
    assert!(ctx.type_is_equal(numbers, lengths));

    let map = ctx.make_map(string, numbers).expect("room");
    let same_map = ctx.make_map(string, lengths).expect("room");
    let other_map = ctx.make_map(number, numbers).expect("room");
    assert!(ctx.type_is_equal(map, same_map));
    assert!(!ctx.type_is_equal(map, other_map));

    let f = ctx.make_signature_type(number, &[string, numbers]).expect("room");
    let g = ctx.make_signature_type(meters, &[string, more_numbers]).expect("room");
    let h = ctx.make_signature_type(number, &[numbers, string]).expect("room");
    let short = ctx.make_signature_type(number, &[string]).expect("room");
    assert!(ctx.type_is_equal(f, g));
    assert!(!ctx.type_is_equal(f, h));
    assert!(!ctx.type_is_equal(f, short));
    let f_more = ctx.make_signature_vararg(f, number).expect("room");
    let g_more = ctx.make_signature_vararg(g, meters).expect("room");
    let g_other = ctx.make_signature_vararg(g, string).expect("room");
    assert!(ctx.type_is_equal(f_more, g_more));
    assert!(!ctx.type_is_equal(f_more, f));
    assert!(!ctx.type_is_equal(f_more, g_other));

    let ab = ctx.make_union_from(&[number, string]).expect("room");
    let ba = ctx.make_union_from(&[string, meters]).expect("room");
    let a = ctx.make_union_from(&[number]).expect("room");
    assert!(ctx.type_is_equal(ab, ba));
    assert!(!ctx.type_is_equal(ab, a));
    assert!(!ctx.type_is_equal(a, ab));
    assert!(!ctx.type_is_equal(a, number));
}

#[test]
fn named_types_are_the_same_as_themselves_alone() {
    let mut ctx = context();
    let one = ctx.make_tableshape_type("Point", false).expect("room");
    let two = ctx.make_tableshape_type("Point", false).expect("room");
    assert!(ctx.type_is_equal(one, one));
    assert!(!ctx.type_is_equal(one, two));
    let color = ctx.make_enum_type("Color", false).expect("room");
    let colour = ctx.make_enum_type("Color", false).expect("room");
    assert!(!ctx.type_is_equal(color, colour));
    let data = ctx.make_userdata_type("Data").expect("room");
    let other = ctx.make_userdata_type("Data").expect("room");
    assert!(!ctx.type_is_equal(data, other));
    let custom = ctx.make_primitive_type(1, "custom").expect("room");
    let again = ctx.make_primitive_type(1, "custom").expect("room");
    assert!(!ctx.type_is_equal(custom, again));
    assert!(ctx.type_is_equal(custom, custom));
    let stranger = Type { ptr: 4096 };
    assert!(ctx.type_is_equal(stranger, stranger));
    assert!(!ctx.type_is_equal(stranger, one));
}

#[test]
fn unions_hold_the_same_type_once() {
    let mut ctx = context();
    let number = ctx.type_number().expect("room");
    let numbers = ctx.make_array_type(number).expect("room");
    let more_numbers = ctx.make_array_type(number).expect("room");
    let meters = ctx.make_alias_type("Meters", number).expect("room");
    let union = ctx.make_union().expect("room");
    ctx.union_push_variant(union, numbers);
    ctx.union_push_variant(union, more_numbers);
    ctx.union_push_variant(union, number);
    ctx.union_push_variant(union, meters);
    assert_eq!(ctx.union_get_length(union), 2);
    assert_eq!(ctx.union_get_variant(union, 0), Some(numbers));
    assert_eq!(ctx.union_get_variant(union, 1), Some(number));
    assert_eq!(ctx.union_has_variant(union, more_numbers), 0);
    assert_eq!(ctx.union_has_variant(union, meters), 1);
    let from = ctx.make_union_from(&[meters, numbers, number, more_numbers]).expect("room");
    assert_eq!(ctx.union_get_length(from), 2);
    assert_eq!(ctx.union_get_variant(from, 0), Some(meters));
    assert_eq!(ctx.union_get_variant(from, 1), Some(numbers));
    let pair = ctx.make_or_extend_union(number, meters).expect("room");
    assert_eq!(ctx.union_get_length(pair), 1);
    ctx.union_push_variant(union, union);
    assert_eq!(ctx.union_get_length(union), 3);
    ctx.union_push_variant(union, union);
    assert_eq!(ctx.union_get_length(union), 3);
    assert!(ctx.type_is_equal(union, union));
}

#[test]
fn aliases_that_lead_nowhere_are_compared_in_finite_time() {
    let mut ctx = context();
    let number = ctx.type_number().expect("room");
    let stranger = Type { ptr: 4096 };
    let lost = ctx.make_alias_type("Lost", stranger).expect("room");
    assert!(!ctx.type_is_equal(lost, number));
    assert!(ctx.type_is_equal(lost, stranger));
    assert_eq!(ctx.type_dealias(lost), stranger);
}
