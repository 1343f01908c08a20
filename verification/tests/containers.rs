use bolt_rs::bt_object::{Array, BoltObject, Object, ObjectType, Table};
use bolt_rs::{Context, FromBoltValue, MakeBoltValue, MakeBoltValueWithContext, Value, ValueType};

fn context() -> Context {
    Context::from_raw(0x1000).expect("not null")
}

fn number(n: f64) -> Value {
    Value::from_number(n.to_bits())
}

#[test]
fn arrays_hold_values_by_position() {
    let mut ctx = context();
    let array = ctx.make_array(2).expect("room");
    assert_eq!(array, Array { ptr: 8, length: 0, capacity: 2 });
    assert_eq!(ctx.object_type(Object { ptr: array.ptr }), ObjectType::Array);
    assert_eq!(ctx.array_length(array), 0);
    assert!(ctx.array_get(array, 0).is_null());
    assert_eq!(ctx.array_push(array, number(10.0)), 1);
    assert_eq!(ctx.array_push(array, number(20.0)), 2);
    assert_eq!(ctx.array_push(array, Value::from_bool(true)), 3);
    assert_eq!(ctx.array_length(array), 3);
    assert_eq!(ctx.array_get(array, 0), number(10.0));
    assert_eq!(ctx.array_get(array, 1), number(20.0));
    assert_eq!(ctx.array_get(array, 2), Value::from_bool(true));
    assert!(ctx.array_get(array, 3).is_null());
    assert!(ctx.array_get(array, u64::MAX).is_null());

    assert!(ctx.array_set(array, 1, number(21.0)));
    assert!(!ctx.array_set(array, 3, number(30.0)));
    assert!(!ctx.array_set(array, u64::MAX, number(30.0)));
    assert_eq!(ctx.array_get(array, 1), number(21.0));
    assert_eq!(ctx.array_get(array, 0), number(10.0));
    assert_eq!(ctx.array_length(array), 3);

    match ctx.describe(Object { ptr: array.ptr }).expect("live") {
        BoltObject::Array(described) => {
            assert_eq!(described, Array { ptr: 8, length: 3, capacity: 3 });
        }
        other => panic!("not an array: {:?}", other),
    }
    let value = array.make();
    assert_eq!(ValueType::from_value(value, &ctx), ValueType::Array);
    assert_eq!(
        <Array as FromBoltValue>::from(value, &ctx),
        Ok(Array { ptr: 8, length: 3, capacity: 3 })
    );
    assert_eq!(
        <Array as FromBoltValue>::from_unchecked(value, &ctx),
        Array { ptr: 8, length: 3, capacity: 3 }
    );
}

#[test]
fn what_is_no_array_takes_no_elements() {
    let mut ctx = context();
    let table = ctx.make_table(0).expect("room");
    let not_an_array = Array { ptr: table.ptr, length: 0, capacity: 0 };
    let stranger = Array { ptr: 4096, length: 0, capacity: 0 };
    for array in [not_an_array, stranger] {
        assert_eq!(ctx.array_push(array, number(1.0)), 0);
        assert!(!ctx.array_set(array, 0, number(1.0)));
        assert!(ctx.array_get(array, 0).is_null());
        assert_eq!(ctx.array_length(array), 0);
    }
    let roomy = ctx.make_array(8).expect("room");
    ctx.array_push(roomy, number(1.0));
    match ctx.describe(Object { ptr: roomy.ptr }).expect("live") {
        BoltObject::Array(described) => assert_eq!((described.length, described.capacity), (1, 8)),
        other => panic!("not an array: {:?}", other),
    }
}

#[test]
fn tables_hold_one_value_for_each_key() {
    let mut ctx = context();
    let table = ctx.make_table(4).expect("room");
    assert_eq!(table, Table { ptr: 8, length: 0, capacity: 4, is_inline: false });
    let name = "name".make_with_context(&mut ctx);
    let age = "age".make_with_context(&mut ctx);
    let object = Object { ptr: table.ptr };
    assert!(ctx.get(object, name).is_null());
    assert!(ctx.table_set(table, name, number(1.0)));
    assert!(ctx.table_set(table, age, number(30.0)));
    assert!(ctx.table_set(table, number(7.0), Value::from_bool(false)));
    assert_eq!(ctx.get(object, name), number(1.0));
    assert_eq!(ctx.get(object, age), number(30.0));
    assert_eq!(ctx.get(object, number(7.0)), Value::from_bool(false));
    assert!(ctx.get(object, number(8.0)).is_null());

    assert!(ctx.table_set(table, name, number(2.0)));
    ctx.set(object, age, Value::null());
    assert_eq!(ctx.get(object, name), number(2.0));
    assert!(ctx.get(object, age).is_null());
    assert_eq!(ctx.get(object, number(7.0)), Value::from_bool(false));
    match ctx.describe(object).expect("live") {
        BoltObject::Table(described) => {
            assert_eq!(described, Table { ptr: 8, length: 3, capacity: 4, is_inline: false });
        }
        other => panic!("not a table: {:?}", other),
    }
    assert_eq!(
        <Table as FromBoltValue>::from(table.make(), &ctx),
        Ok(Table { ptr: 8, length: 3, capacity: 4, is_inline: false })
    );

    let stranger = Table { ptr: 4096, length: 0, capacity: 0, is_inline: false };
    assert!(!ctx.table_set(stranger, name, number(1.0)));
    let text = Object { ptr: ctx.find_string(b"name").expect("interned").ptr };
    ctx.set(text, name, number(1.0));
    assert!(ctx.get(text, name).is_null());
    assert_eq!(ctx.string_bytes(ctx.find_string(b"name").expect("interned")), Some(b"name".to_vec()));
}

#[test]
fn a_changed_container_can_be_greyed() {
    let mut ctx = context();
    let table = ctx.make_table(1).expect("room");
    let object = Object { ptr: table.ptr };
    ctx.set(object, number(1.0), number(2.0));
    ctx.grey_obj(object);
    assert!(bolt_rs::object_mask::is_marked(ctx.mask(object).expect("live")));
    assert_eq!(ctx.get(object, number(1.0)), number(2.0));
    assert_eq!(ctx.object_type(object), ObjectType::Table);
}
