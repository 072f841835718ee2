use osgood_v8::binding::v8;
use osgood_v8::binding::Local;
use osgood_v8::binding::Maybe;
use osgood_v8::binding::MaybeLocal;

#[test]
fn maybe_with_a_value_is_some() {
    assert_eq!(Maybe { has_value_: true, value_: 7u32 }.to_option(), Some(7));
    assert_eq!(Maybe { has_value_: true, value_: false }.to_option(), Some(false));
}

#[test]
fn maybe_without_a_value_is_none() {
    assert_eq!(Maybe { has_value_: false, value_: 7u32 }.to_option(), None);
    assert_eq!(Maybe { has_value_: false, value_: true }.to_option(), None);
}

#[test]
fn maybe_converts_as_it_is_asked_for_an_option() {
    let some: Option<i32> = Maybe { has_value_: true, value_: -3 }.into();
    let none: Option<i32> = Maybe { has_value_: false, value_: -3 }.into();
    assert_eq!(some, Some(-3));
    assert_eq!(none, None);
}

#[test]
fn maybe_local_that_is_empty_is_none() {
    let empty: MaybeLocal<v8::Value> = MaybeLocal::new(0);
    assert!(empty.to_option().is_none());
    let empty: MaybeLocal<v8::Module> = MaybeLocal::new(0);
    let none: Option<Local<v8::Module>> = empty.into();
    assert!(none.is_none());
}

#[test]
fn maybe_local_that_refers_is_some() {
    let full: MaybeLocal<v8::Value> = MaybeLocal::new(0x40);
    assert_eq!(full.to_option().unwrap().val_, 0x40);
    let full: MaybeLocal<v8::String> = MaybeLocal::new(usize::MAX);
    let some: Option<Local<v8::String>> = full.into();
    assert_eq!(some.unwrap().val_, usize::MAX);
}

#[test]
fn local_cast_keeps_the_address() {
    let mut string: Local<v8::String> = Local::new(0x40);
    let value: Local<v8::Value> = string.cast();
    assert_eq!(value.val_, 0x40);
    assert_eq!(string.val_, 0x40);
}

#[test]
fn local_cast_there_and_back_is_the_same_reference() {
    let string: Local<v8::String> = Local::new(0x48);
    let mut value: Local<v8::Value> = string.clone().cast();
    let back: Local<v8::String> = value.cast();
    assert_eq!(back.val_, string.val_);

    let mut empty: Local<v8::Object> = Local::new(0);
    let value: Local<v8::Value> = empty.cast();
    assert_eq!(value.val_, 0);
}
