use osgood_v8::binding::v8;
use osgood_v8::handle::Handle;
use osgood_v8::platform::PlatformRegistry;
use osgood_v8::stack::Stack;
use osgood_v8::HandleScope;
use osgood_v8::Isolate;
use osgood_v8::Platform;
use osgood_v8::Value;

fn isolate_at(registry: &mut PlatformRegistry, address: usize) -> Isolate {
    let (platform, _) = Platform::get(registry);
    Isolate::new(platform, address)
}

#[test]
fn value_from_a_handle_refers_to_the_same_address() {
    let mut registry = PlatformRegistry::new();
    let mut stack = Stack::new();
    let mut isolate = isolate_at(&mut registry, 0x1000);
    isolate.enter(&mut stack);
    let scope = HandleScope::new(&mut isolate, &mut stack);

    let value = Value::from(&scope, Handle::from(v8::Local::new(0x60)));
    assert_eq!(value.handle().into_local(&scope).val_, 0x60);
    let copy = value;
    assert_eq!(copy.clone().handle().into_local(&scope).val_, 0x60);
}

#[test]
fn value_to_string_is_what_the_engine_made() {
    let mut registry = PlatformRegistry::new();
    let mut stack = Stack::new();
    let mut isolate = isolate_at(&mut registry, 0x1000);
    isolate.enter(&mut stack);
    let scope = HandleScope::new(&mut isolate, &mut stack);

    let value = Value::from(&scope, Handle::from(v8::Local::new(0x60)));
    let string = value.to_string(&scope, v8::MaybeLocal::new(0x3000));
    assert_eq!(string.unwrap().handle().into_local(&scope).val_, 0x3000);
    assert!(value.to_string(&scope, v8::MaybeLocal::new(0)).is_none());
}

#[test]
fn value_equals_is_the_answer_of_the_engine() {
    let mut registry = PlatformRegistry::new();
    let mut stack = Stack::new();
    let mut isolate = isolate_at(&mut registry, 0x1000);
    isolate.enter(&mut stack);
    let scope = HandleScope::new(&mut isolate, &mut stack);

    let value = Value::from(&scope, Handle::from(v8::Local::new(0x60)));
    assert!(value.equals(&scope, v8::Maybe { has_value_: true, value_: true }));
    assert!(!value.equals(&scope, v8::Maybe { has_value_: true, value_: false }));
}

#[test]
fn value_into_rust_string_decodes_utf8() {
    let mut registry = PlatformRegistry::new();
    let mut stack = Stack::new();
    let mut isolate = isolate_at(&mut registry, 0x1000);
    isolate.enter(&mut stack);
    let scope = HandleScope::new(&mut isolate, &mut stack);

    let value = Value::from(&scope, Handle::from(v8::Local::new(0x60)));
    assert_eq!(value.into_rust_string(&scope, &stack, vec![0x62, 0x61, 0x72]), "bar");
    assert_eq!(value.into_rust_string(&scope, &stack, Vec::new()), "");
    assert_eq!(
        value.into_rust_string(&scope, &stack, vec![0x68, 0xc3, 0xa9, 0x20, 0xe2, 0x82, 0xac, 0x20, 0xf0, 0x9f, 0x98, 0x80]),
        "h\u{e9} \u{20ac} \u{1f600}"
    );
}
