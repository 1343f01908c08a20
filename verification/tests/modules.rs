use bolt_rs::bt_object::{Module, ObjectType, Type};
use bolt_rs::heap::Export;
use bolt_rs::{Context, MakeBoltValue, MakeBoltValueWithContext, ModuleError, Value, ValueType};

fn context() -> Context {
    Context::from_raw(0x1000).expect("not null")
}

#[test]
fn mod_test_bolt_module() {
    let mut ctx = context();

    let module = ctx.create_module("test_module").expect("Failed to create module");

    let found = ctx.get_module("test_module").expect("Failed to find module");

    assert_eq!(found.as_raw(), module.as_raw());
    assert_eq!(found.name(), Some("test_module"));
    assert!(ctx.is_module(&found));
}

#[test]
fn lib_test_bolt_module() {
    let mut ctx = context();

    let module = ctx.make_module().expect("Failed to create module");

    let name = "test_module".make_with_context(&mut ctx);
    ctx.register_module(name, &module);

    let found_module = ctx.get_module("test_module").expect("Failed to find module");

    assert_eq!(found_module.name(), Some("test_module"));
    assert_eq!(found_module.as_raw(), module.as_raw());
    assert_eq!(ctx.find_module(name, false).map(|m| m.as_raw()), Some(module.as_raw()));
}

#[test]
fn unregistered_names_are_not_found() {
    let mut ctx = context();
    assert_eq!(
        ctx.get_module("missing").map(|m| m.as_raw()),
        Err(ModuleError::NotFound("missing".to_string()))
    );
    ctx.create_module("present").expect("room");
    assert_eq!(
        ctx.get_module("missing").map(|m| m.as_raw()),
        Err(ModuleError::NotFound("missing".to_string()))
    );
    let unused = "unused".make_with_context(&mut ctx);
    assert_eq!(
        ctx.get_module("unused").map(|m| m.as_raw()),
        Err(ModuleError::NotFound("unused".to_string()))
    );
    assert!(ctx.find_module(unused, true).is_none());
    assert!(ctx.find_module(Value::null(), false).is_none());
}

#[test]
fn module_names_are_checked() {
    let mut ctx = context();
    assert_eq!(
        ctx.create_module("bad\0name").map(|m| m.as_raw()),
        Err(ModuleError::InvalidName("bad\0name".to_string()))
    );
    assert_eq!(ctx.heap.len(), 0);
    assert_eq!(
        ctx.get_module("bad\0name").map(|m| m.as_raw()),
        Err(ModuleError::InvalidName("bad\0name".to_string()))
    );
    let first = ctx.create_module("twice").expect("room");
    assert_eq!(
        ctx.create_module("twice").map(|m| m.as_raw()),
        Err(ModuleError::AlreadyRegistered("twice".to_string()))
    );
    assert_eq!(ctx.get_module("twice").map(|m| m.as_raw()), Ok(first.as_raw()));
    assert_eq!(ctx.modules.len(), 1);
}

#[test]
fn a_later_registration_replaces_an_earlier_one() {
    let mut ctx = context();
    let first = ctx.make_module().expect("room");
    let second = ctx.make_module().expect("room");
    let name = "shared".make_with_context(&mut ctx);
    let other = "other".make_with_context(&mut ctx);
    ctx.register_module(name, &first);
    ctx.register_module(other, &first);
    assert_eq!(ctx.find_module(name, false).map(|m| m.ptr), Some(first.ptr));
    ctx.register_module(name, &second);
    assert_eq!(ctx.find_module(name, false).map(|m| m.ptr), Some(second.ptr));
    assert_eq!(ctx.find_module(other, false).map(|m| m.ptr), Some(first.ptr));
    let stranger = Module { ptr: 4096, name: None, path: None };
    ctx.register_module(name, &stranger);
    assert_eq!(ctx.find_module(name, false).map(|m| m.ptr), Some(second.ptr));
    let text = ctx.find_string(b"shared").expect("interned");
    let not_a_module = Module { ptr: text.ptr, name: None, path: None };
    ctx.register_module(name, &not_a_module);
    assert_eq!(ctx.find_module(name, false).map(|m| m.ptr), Some(second.ptr));
}

#[test]
fn modules_are_objects() {
    let mut ctx = context();
    let module = ctx.make_module().expect("room");
    assert_eq!(ctx.object_type(module.as_object()), ObjectType::Module);
    let value = module.make();
    assert_eq!(ValueType::from_value(value, &ctx), ValueType::Module);
    let back = <Module as bolt_rs::FromBoltValue>::from(value, &ctx).expect("a module");
    assert_eq!(back.ptr, module.ptr);
    assert_eq!(back.name(), None);
}

#[test]
fn exports_are_found_by_key() {
    let mut ctx = context();
    let module = ctx.make_module().expect("room");
    let number = ctx.type_number().expect("room");
    let key = "answer".make_with_context(&mut ctx);
    let other = "question".make_with_context(&mut ctx);
    assert_eq!(ctx.find_export(&module, key), None);
    ctx.module_export(&module, number, key, Value::from_number(42f64.to_bits()));
    assert_eq!(
        ctx.find_export(&module, key),
        Some(Export { key, type_: number, value: Value::from_number(42f64.to_bits()) })
    );
    assert_eq!(ctx.find_export(&module, other), None);
    ctx.module_export(&module, number, key, Value::from_number(43f64.to_bits()));
    assert_eq!(
        ctx.find_export(&module, key).map(|e| e.value),
        Some(Value::from_number(43f64.to_bits()))
    );
    let stranger = Module { ptr: 4096, name: None, path: None };
    ctx.module_export(&stranger, number, key, Value::null());
    assert_eq!(ctx.find_export(&stranger, key), None);
}

#[test]
fn native_functions_are_exported_with_their_signature() {
    let mut ctx = context();
    let module = ctx.make_module().expect("room");
    let number = ctx.type_number().expect("room");
    ctx.module_export_native(&module, "addit", 0xABC0, number, &[number, number])
        .expect("room");
    let key = ctx.find_string(b"addit").expect("interned");
    let export = ctx
        .find_export(&module, Value::from_object(key.as_object()))
        .expect("exported");
    assert_eq!(ValueType::from_value(export.value, &ctx), ValueType::NativeFunction);
    assert!(ctx.is_callable(export.value));
    assert!(!ctx.is_callable(Value::from_object(key.as_object())));
    assert!(ctx.type_is_methodic(export.type_, number));
    assert!(!ctx.type_is_methodic(export.type_, Type { ptr: 4096 }));
    assert_eq!(
        ctx.module_export_native(&module, "a\0", 1, number, &[]),
        Err(bolt_rs::Error::StringConversion { position: 1 })
    );
}
