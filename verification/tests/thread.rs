use bolt_rs::bt_object::{Array, BoltObject, BoltString, Function, Module, Table, Type};
use bolt_rs::raw::{BoltContext, BoltThread};
use bolt_rs::{
    ArgError, CallSignature, Context, EnumValue, FromBoltValue, MakeBoltValue,
    MakeBoltValueWithContext, Number, ScalarTypeSignature, Thread, TypeSignature, Value,
    ValueType,
};

fn context() -> Context {
    Context::from_raw(0x1000).expect("not null")
}

fn add_numbers(ctx: &Context, thr: &mut Thread) -> Result<(), ArgError> {
    let a = thr.get_arg::<Number>(0, ctx)?;
    let b = thr.get_arg::<Number>(1, ctx)?;
    let ret = f64::from_bits(a.0) + f64::from_bits(b.0);
    thr.return_val(&Number(ret.to_bits()));
    Ok(())
}

fn call_addit(ctx: &Context, callable: Value, first: Value, second: Value) -> (Thread, Result<(), ArgError>) {
    let mut thread = Thread::from_raw(0x2000).expect("Null Thread");
    thread.push(&callable);
    thread.push(&first);
    thread.push(&second);
    thread.call(2);
    let outcome = add_numbers(ctx, &mut thread);
    (thread, outcome)
}

fn exported_addit(ctx: &mut Context) -> Value {
    let module = ctx.make_module().expect("Failed to create module");
    let signature = CallSignature {
        args: vec![Number::make_type(ctx), Number::make_type(ctx)],
        return_ty: Number::make_type(ctx),
    };
    let add_sig = signature.make_type(ctx);
    let native_fn = ctx.make_native(&module, add_sig, 0xADD0).expect("room");
    let func_value = Value::from_object(native_fn.as_object());
    let addit_name = "addit".make_with_context(ctx);
    ctx.module_export(&module, add_sig, addit_name, func_value);
    let module_name = "test_module".make_with_context(ctx);
    ctx.register_module(module_name, &module);

    let found = ctx.get_module("test_module").expect("registered");
    ctx.find_export(&found, addit_name).expect("exported").value
}

#[test]
fn mod_test_bolt_native_fn() {
    let mut ctx = context();
    let addit = exported_addit(&mut ctx);
    assert!(ctx.is_callable(addit));

    let (thread, outcome) = call_addit(
        &ctx,
        addit,
        Value::from_number(1f64.to_bits()),
        Value::from_number(5f64.to_bits()),
    );
    outcome.expect("Failed to call native function");
    assert_eq!(thread.callee(), addit);
    let result = thread.get_returned::<Number>(&ctx).expect("Native function returned wrong result");
    assert_eq!(f64::from_bits(result.0), 6.0);
    assert_eq!(result, Number(6f64.to_bits()));
}

#[test]
fn lib_test_bolt_native_fn() {
    let mut ctx = context();
    let addit = exported_addit(&mut ctx);

    let (_, result) = call_addit(
        &ctx,
        addit,
        Value::from_number(1f64.to_bits()),
        Value::from_number(5f64.to_bits()),
    );
    assert!(result.is_ok());

    let (thread, wrong_result) = call_addit(
        &ctx,
        addit,
        Value::from_number(1f64.to_bits()),
        Value::from_number(5f64.to_bits()),
    );
    assert!(wrong_result.is_ok());
    let result = thread.get_returned::<Number>(&ctx).expect("a number");
    assert!(f64::from_bits(result.0) == 6.0);
}

#[test]
fn a_native_function_reports_arguments_of_the_wrong_kind() {
    let mut ctx = context();
    let addit = exported_addit(&mut ctx);
    let text = "5".make_with_context(&mut ctx);

    let (thread, outcome) = call_addit(&ctx, addit, Value::from_number(1f64.to_bits()), text);
    assert_eq!(
        outcome,
        Err(ArgError::TypeGuard { expected: ValueType::Number, actual: ValueType::String })
    );
    assert!(thread.returned.is_null());
    assert_eq!(
        thread.get_returned::<Number>(&ctx),
        Err(ArgError::TypeGuard { expected: ValueType::Number, actual: ValueType::Null })
    );

    let (_, outcome) = call_addit(&ctx, addit, Value::from_bool(true), Value::from_number(0));
    assert_eq!(
        outcome,
        Err(ArgError::TypeGuard { expected: ValueType::Number, actual: ValueType::Bool })
    );

    let mut short = Thread::from_raw(0x2000).expect("Null Thread");
    short.push(&Number(0));
    short.push(&Number(1f64.to_bits()));
    short.call(1);
    assert_eq!(add_numbers(&ctx, &mut short), Err(ArgError::IndexOutOfBounds { idx: 1, len: 1 }));
}

#[test]
fn threads_refuse_null() {
    assert!(Thread::from_raw(0).is_none());
    let thread = Thread::from_raw(0x2000).expect("not null");
    assert_eq!(thread.as_ptr(), 0x2000);
    assert_eq!(thread.argc(), 0);
    assert!(thread.callee().is_null());
    assert_eq!(Thread::from_raw_unchecked(0x3000).as_ptr(), 0x3000);
    assert_eq!(BoltThread::from_raw(0), None);
    assert_eq!(BoltThread::from_raw(0x2000).map(|t| t.as_ptr()), Some(0x2000));
    assert_eq!(BoltContext::from_raw(0).as_ptr(), 0);
    assert_eq!(BoltContext::from_raw(0x1000).as_ptr(), 0x1000);
}

#[test]
fn arguments_beyond_the_count_are_out_of_bounds() {
    let ctx = context();
    for n in [0u8, 1, 2, 3, 200, 255] {
        let mut thread = Thread::from_raw(0x2000).expect("not null");
        thread.push(&Number(0));
        for i in 0..n {
            thread.push(&Number((i as f64).to_bits()));
        }
        thread.call(n);
        assert_eq!(thread.argc(), n);
        for idx in 0..=255u8 {
            let taken = thread.get_arg::<Number>(idx, &ctx);
            if idx < n {
                assert_eq!(taken, Ok(Number((idx as f64).to_bits())));
            } else {
                assert_eq!(taken, Err(ArgError::IndexOutOfBounds { idx, len: n }));
            }
        }
    }
}

#[test]
fn a_call_takes_what_was_pushed() {
    let ctx = context();
    let mut thread = Thread::from_raw(0x2000).expect("not null");
    thread.push(&Number(1f64.to_bits()));
    thread.call(1);
    assert_eq!(thread.argc(), 0);
    assert_eq!(thread.stack.len(), 1);
    thread.call(0);
    assert_eq!(thread.callee(), Value::from_number(1f64.to_bits()));
    assert_eq!(thread.stack.len(), 0);
    thread.call(0);
    assert_eq!(thread.callee(), Value::from_number(1f64.to_bits()));

    thread.push(&EnumValue(9));
    thread.push(&Number(2f64.to_bits()));
    thread.push(&EnumValue(1));
    thread.push(&EnumValue(2));
    thread.return_val(&Number(7f64.to_bits()));
    thread.call(2);
    assert_eq!(thread.stack, vec![Value::from_enum(9)]);
    assert_eq!(thread.callee(), Value::from_number(2f64.to_bits()));
    assert_eq!(thread.args, vec![Value::from_enum(1), Value::from_enum(2)]);
    assert!(thread.returned.is_null());
    assert_eq!(thread.get_arg::<EnumValue>(1, &ctx), Ok(EnumValue(2)));
    assert_eq!(thread.get_arg_unchecked::<EnumValue>(0, &ctx), EnumValue(1));
    thread.return_val(&EnumValue(3));
    assert_eq!(thread.get_returned::<EnumValue>(&ctx), Ok(EnumValue(3)));
    assert_eq!(thread.get_returned_unchecked::<EnumValue>(&ctx), EnumValue(3));
}

#[test]
fn mismatches_name_both_kinds() {
    let mut ctx = context();
    let text = "text".make_with_context(&mut ctx);
    let module = ctx.make_module().expect("room").make();
    let number_type = ctx.type_number().expect("room").make();
    let number = Value::from_number(1f64.to_bits());

    assert_eq!(
        <Number as FromBoltValue>::from(text, &ctx),
        Err(ArgError::TypeGuard { expected: ValueType::Number, actual: ValueType::String })
    );
    assert_eq!(
        <Number as FromBoltValue>::from(Value::null(), &ctx),
        Err(ArgError::TypeGuard { expected: ValueType::Number, actual: ValueType::Null })
    );
    assert_eq!(
        <EnumValue as FromBoltValue>::from(number, &ctx),
        Err(ArgError::TypeGuardEnum { actual: ValueType::Number })
    );
    assert_eq!(
        <EnumValue as FromBoltValue>::from(module, &ctx),
        Err(ArgError::TypeGuardEnum { actual: ValueType::Module })
    );
    assert_eq!(<EnumValue as FromBoltValue>::from(Value::from_enum(4), &ctx), Ok(EnumValue(4)));
    assert_eq!(
        <Type as FromBoltValue>::from(module, &ctx),
        Err(ArgError::TypeGuard { expected: ValueType::Type, actual: ValueType::Module })
    );
    assert_eq!(
        <Type as FromBoltValue>::from(number, &ctx),
        Err(ArgError::TypeGuard { expected: ValueType::Type, actual: ValueType::Number })
    );
    assert!(<Type as FromBoltValue>::from(number_type, &ctx).is_ok());
    assert_eq!(
        <BoltString as FromBoltValue>::from(number_type, &ctx),
        Err(ArgError::TypeGuard { expected: ValueType::String, actual: ValueType::Type })
    );
    assert!(<BoltString as FromBoltValue>::from(text, &ctx).is_ok());
    assert_eq!(
        <Module as FromBoltValue>::from(text, &ctx).map(|m| m.ptr),
        Err(ArgError::TypeGuard { expected: ValueType::Module, actual: ValueType::String })
    );
    assert_eq!(
        <Function as FromBoltValue>::from(text, &ctx),
        Err(ArgError::TypeGuard { expected: ValueType::Function, actual: ValueType::String })
    );
    assert_eq!(
        <Array as FromBoltValue>::from(Value::from_bool(true), &ctx),
        Err(ArgError::TypeGuard { expected: ValueType::Array, actual: ValueType::Bool })
    );
    assert_eq!(
        <Table as FromBoltValue>::from(Value::from_enum(1), &ctx),
        Err(ArgError::TypeGuard { expected: ValueType::Table, actual: ValueType::Enum })
    );
    let dangling = Value::from_object(bolt_rs::bt_object::Object { ptr: 4096 });
    assert_eq!(
        <Type as FromBoltValue>::from(dangling, &ctx),
        Err(ArgError::TypeGuard { expected: ValueType::Type, actual: ValueType::NoObject })
    );
    assert!(matches!(
        <BoltObject as FromBoltValue>::from(dangling, &ctx),
        Err(ArgError::TypeGuard { expected: ValueType::NoObject, actual: ValueType::NoObject })
    ));
    assert!(matches!(
        <BoltObject as FromBoltValue>::from(number, &ctx),
        Err(ArgError::TypeGuard { expected: ValueType::NoObject, actual: ValueType::Number })
    ));
}

#[test]
fn objects_of_every_kind_are_taken_as_their_kind() {
    let mut ctx = context();
    let array = Value::from_object(ctx.allocate(16, 8).expect("room"));
    let table = Value::from_object(ctx.allocate(16, 9).expect("room"));
    let function = Value::from_object(ctx.allocate(16, 5).expect("room"));
    assert_eq!(<Array as FromBoltValue>::from(array, &ctx).map(|a| a.ptr), Ok(8));
    assert_eq!(<Table as FromBoltValue>::from(table, &ctx).map(|t| t.ptr), Ok(16));
    assert_eq!(<Function as FromBoltValue>::from(function, &ctx).map(|f| f.ptr), Ok(24));
    assert_eq!(<Array as FromBoltValue>::from_unchecked(array, &ctx).make(), array);
    assert_eq!(<Table as FromBoltValue>::from_unchecked(table, &ctx).make(), table);
    assert_eq!(<Function as FromBoltValue>::from_unchecked(function, &ctx).make(), function);
    assert_eq!(
        <Array as FromBoltValue>::from(table, &ctx),
        Err(ArgError::TypeGuard { expected: ValueType::Array, actual: ValueType::Table })
    );
    match <BoltObject as FromBoltValue>::from(table, &ctx) {
        Ok(BoltObject::Table(described)) => assert_eq!(described.ptr, 16),
        other => panic!("not a table: {:?}", other),
    }
    let described = <BoltObject as FromBoltValue>::from_unchecked(function, &ctx);
    assert_eq!(described.make(), function);
    assert!(ctx.is_callable(function));
    assert!(!ctx.is_callable(table));
}

#[test]
fn host_values_round_trip() {
    let ctx = context();
    for number in [0.0f64, -0.0, 6.0, -12.75, 1e300, f64::INFINITY] {
        let made = Number(number.to_bits()).make();
        assert_eq!(<Number as FromBoltValue>::from(made, &ctx), Ok(Number(number.to_bits())));
        assert_eq!(<Number as FromBoltValue>::from_unchecked(made, &ctx), Number(number.to_bits()));
    }
    assert_eq!(EnumValue(77).make(), Value::from_enum(77));
    assert_eq!(Value::from_enum(77).make(), Value::from_enum(77));
    assert_eq!(<Value as FromBoltValue>::from(Value::null(), &ctx), Ok(Value::null()));
    assert_eq!(<Value as FromBoltValue>::from_unchecked(Value(17), &ctx), Value(17));
    assert_eq!(Type { ptr: 64 }.make(), Value::from_raw(0x7FFF_0000_0000_0040));
    assert_eq!(BoltString { ptr: 64 }.make(), Value::from_raw(0x7FFF_0000_0000_0040));
    assert_eq!(BoltObject::NoObject.make(), Value::from_raw(0x7FFF_0000_0000_0000));
}

#[test]
fn contexts_make_and_destroy_threads() {
    let mut ctx = context();
    let first = ctx.make_thread().expect("room");
    let second = ctx.make_thread().expect("room");
    assert_ne!(first.as_ptr(), second.as_ptr());
    assert!(ctx.has_thread(&first));
    assert!(ctx.has_thread(&second));
    let stranger = Thread::from_raw(4096).expect("not null");
    assert!(!ctx.has_thread(&stranger));
    let first_ptr = first.as_ptr();
    ctx.destroy_thread(first);
    assert!(!ctx.has_thread(&Thread::from_raw(first_ptr).expect("not null")));
    assert!(ctx.has_thread(&second));
    ctx.destroy_thread(stranger);
    assert!(ctx.has_thread(&second));
    let third = ctx.make_thread().expect("room");
    assert_ne!(third.as_ptr(), first_ptr);
}

#[test]
fn only_callables_are_executed() {
    let mut ctx = context();
    let module = ctx.make_module().expect("room");
    let number = ctx.type_number().expect("room");
    let native = ctx.make_native(&module, number, 0x10).expect("room");
    assert_eq!(native.type_, Some(number));
    let mut thread = ctx.make_thread().expect("room");
    thread.push(&Number(0));
    assert!(!ctx.execute_on_thread(&mut thread, &module));
    assert_eq!(thread.stack.len(), 1);
    assert!(!ctx.execute_on_thread(&mut thread, &Number(3)));
    let callable = BoltObject::NativeFunction(native);
    assert!(ctx.execute_on_thread(&mut thread, &callable));
    assert_eq!(thread.callee(), Value::from_object(native.as_object()));
    assert_eq!(thread.argc(), 0);
    assert_eq!(thread.stack.len(), 1);
}
