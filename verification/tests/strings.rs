use bolt_rs::bt_object::{BoltString, ObjectType};
use bolt_rs::wrappers::{c_string_bytes, find_nul};
use bolt_rs::{Context, Error, IntoCStr, MakeBoltValueWithContext, Value, ValueType};

fn context() -> Context {
    Context::from_raw(0x1000).expect("not null")
}

#[test]
fn nul_bytes_are_found_first() {
    assert_eq!(find_nul(b""), None);
    assert_eq!(find_nul(b"let x = 1"), None);
    assert_eq!(find_nul(b"\0"), Some(0));
    assert_eq!(find_nul(b"ab\0cd\0"), Some(2));
    assert_eq!(find_nul(b"abcd\0"), Some(4));
    assert_eq!(c_string_bytes(b"abc"), Ok(b"abc".to_vec()));
    assert_eq!(c_string_bytes(b"a\0c"), Err(Error::StringConversion { position: 1 }));
}

#[test]
fn test_into_cstr_trait() {
    assert_eq!("let x = 1".as_c_str(), Ok(b"let x = 1".to_vec()));
    assert_eq!(String::from("let x = 1").as_c_str(), Ok(b"let x = 1".to_vec()));
    assert_eq!("let\0x".as_c_str(), Err(Error::StringConversion { position: 3 }));
    assert_eq!(String::from("\0").as_c_str(), Err(Error::StringConversion { position: 0 }));
    assert_eq!("gr\u{fc}n".as_c_str(), Ok(vec![b'g', b'r', 0xC3, 0xBC, b'n']));
    let mut ctx = context();
    ctx.make_string("let x = 1").expect("Failed with &str");
    ctx.make_string(String::from("let x = 1")).expect("Failed with String");
}

#[test]
fn strings_are_interned() {
    let mut ctx = context();
    let first = ctx.get_or_make_interned("addit").expect("room");
    let other = ctx.get_or_make_interned("test_module").expect("room");
    let again = ctx.get_or_make_interned("addit").expect("room");
    let made = ctx.make_string(String::from("addit")).expect("room");
    let hashed = ctx.make_string_hashed("addit").expect("room");
    assert_eq!(first, again);
    assert_eq!(first, made);
    assert_eq!(first, hashed);
    assert_ne!(first, other);
    assert_eq!(ctx.heap.len(), 2);
    assert_eq!(ctx.string_bytes(first), Some(b"addit".to_vec()));
    assert_eq!(ctx.string_bytes(other), Some(b"test_module".to_vec()));
    assert_eq!(ctx.find_string(b"addit"), Some(first));
    assert_eq!(ctx.find_string(b"addi"), None);
    assert_eq!(ctx.object_type(first.as_object()), ObjectType::String);
    let empty = ctx.make_string("").expect("room");
    assert_eq!(ctx.string_bytes(empty), Some(Vec::new()));
    assert_ne!(empty, first);
}

#[test]
fn strings_with_nul_are_refused_before_anything_is_made() {
    let mut ctx = context();
    assert_eq!(ctx.make_string("a\0b"), Err(Error::StringConversion { position: 1 }));
    assert_eq!(ctx.get_or_make_interned("\0"), Err(Error::StringConversion { position: 0 }));
    assert_eq!(ctx.make_string_len("ab\0", 1), Err(Error::StringConversion { position: 2 }));
    assert_eq!(ctx.heap.len(), 0);
    assert_eq!(ctx.append_module_path("lib/\0"), Err(Error::StringConversion { position: 4 }));
    assert!(ctx.module_paths.is_empty());
}

#[test]
fn string_prefixes_and_joins() {
    let mut ctx = context();
    let whole = ctx.make_string("hello world").expect("room");
    let hello = ctx.make_string_len("hello world", 5).expect("room");
    assert_eq!(ctx.string_bytes(hello), Some(b"hello".to_vec()));
    assert_eq!(ctx.make_string_len("hello world", 11), Ok(whole));
    assert_eq!(ctx.make_string_len("hello world", 500), Ok(whole));
    assert_eq!(ctx.make_string_hashed_len("hello", 5), Ok(hello));
    let none = ctx.make_string_len("hello", 0).expect("room");
    assert_eq!(ctx.string_bytes(none), Some(Vec::new()));

    let space = ctx.make_string(" ").expect("room");
    let world = ctx.make_string("world").expect("room");
    let front = ctx.string_concat(hello, space).expect("room");
    assert_eq!(ctx.string_bytes(front), Some(b"hello ".to_vec()));
    assert_eq!(ctx.string_concat(front, world), Some(whole));
    assert_eq!(ctx.string_append_cstr(front, "world"), Ok(whole));
    assert_eq!(
        ctx.string_append_cstr(front, "wor\0ld"),
        Err(Error::StringConversion { position: 3 })
    );
    let stranger = BoltString { ptr: 4096 };
    assert_eq!(ctx.string_concat(stranger, world), None);
    assert_eq!(ctx.string_concat(world, stranger), None);
    assert_eq!(ctx.string_bytes(stranger), None);
    assert_eq!(
        ctx.string_append_cstr(stranger, "x"),
        Err(Error::BoltError { msg: "Not a string".to_string() })
    );
}

#[test]
fn text_becomes_a_string_value() {
    let mut ctx = context();
    let value = "custom".make_with_context(&mut ctx);
    assert!(value.is_object());
    assert_eq!(ValueType::from_value(value, &ctx), ValueType::String);
    let text = ctx.find_string(b"custom").expect("interned");
    assert_eq!(value, Value::from_object(text.as_object()));
    assert_eq!("custom".make_with_context(&mut ctx), value);
    assert_eq!(String::from("custom").make_with_context(&mut ctx), value);

    let empty = "cus\0tom".make_with_context(&mut ctx);
    let nothing = ctx.find_string(b"").expect("interned");
    assert_eq!(empty, Value::from_object(nothing.as_object()));
    assert_eq!(ctx.find_string(b"cus"), None);
}

#[test]
fn module_paths_are_kept_in_order() {
    let mut ctx = context();
    ctx.append_module_path("%s.bolt").expect("room");
    ctx.append_module_path("lib/%s.bolt").expect("room");
    let first = ctx.find_string(b"%s.bolt").expect("interned");
    let second = ctx.find_string(b"lib/%s.bolt").expect("interned");
    assert_eq!(ctx.module_paths, vec![first, second]);
}
