use osgood_v8::binding::v8;
use osgood_v8::platform::PlatformRegistry;
use osgood_v8::stack::Stack;
use osgood_v8::Context;
use osgood_v8::HandleScope;
use osgood_v8::Isolate;
use osgood_v8::Object;
use osgood_v8::Platform;
use osgood_v8::String;
use osgood_v8::Value;

fn isolate_at(registry: &mut PlatformRegistry, address: usize) -> Isolate {
    let (platform, _) = Platform::get(registry);
    Isolate::new(platform, address)
}

/// Stands for the engine's heap: the strings it made, and the properties it was given.
struct Heap {
    strings: Vec<std::string::String>,
    objects: usize,
    properties: Vec<(usize, std::string::String, usize)>,
}

impl Heap {
    const STRINGS: usize = 0x3000;
    const OBJECTS: usize = 0x5000;

    fn new() -> Heap {
        Heap { strings: Vec::new(), objects: 0, properties: Vec::new() }
    }

    fn new_from_utf8(&mut self, text: &str) -> v8::MaybeLocal<v8::String> {
        self.strings.push(text.to_owned());
        v8::MaybeLocal::new(Self::STRINGS + self.strings.len() - 1)
    }

    fn new_object(&mut self) -> v8::Local<v8::Object> {
        self.objects += 1;
        v8::Local::new(Self::OBJECTS + self.objects - 1)
    }

    fn text(&self, value: &v8::Local<v8::Value>) -> &str {
        &self.strings[value.val_ - Self::STRINGS]
    }

    /// The engine's answer to a request to set a property.
    fn set(
        &mut self,
        object: &v8::Local<v8::Object>,
        key: &v8::Local<v8::Value>,
        value: &v8::Local<v8::Value>,
    ) -> v8::Maybe<bool> {
        let key = self.text(key).to_owned();
        self.properties.push((object.val_, key, value.val_));
        v8::Maybe { has_value_: true, value_: true }
    }

    /// The engine's answer to a request for a property.
    fn get(&self, object: &v8::Local<v8::Object>, key: &v8::Local<v8::Value>) -> v8::MaybeLocal<v8::Value> {
        let key = self.text(key);
        let found = self.properties.iter().rev().find(|p| p.0 == object.val_ && p.1 == key);
        v8::MaybeLocal::new(found.map_or(0, |p| p.2))
    }

    /// The bytes of the engine's copy of a value in UTF-8.
    fn utf8_value(&self, value: &v8::Local<v8::Value>) -> Vec<u8> {
        self.text(value).as_bytes().to_vec()
    }
}

#[test]
fn object_new() {
    let mut registry = PlatformRegistry::new();
    let mut stack = Stack::new();
    let mut heap = Heap::new();
    let ref mut isolate = isolate_at(&mut registry, 0x1000);
    isolate.enter(&mut stack);
    let ref scope = HandleScope::new(isolate, &mut stack);
    let ref mut _context = Context::new(scope, &stack, v8::Local::new(0x20));

    let obj = Object::new(scope, &stack, heap.new_object());
    assert_eq!(obj.handle().into_local(scope).val_, 0x5000);
}

#[test]
fn object_set_get() {
    let mut registry = PlatformRegistry::new();
    let mut stack = Stack::new();
    let mut heap = Heap::new();
    let ref mut isolate = isolate_at(&mut registry, 0x1000);
    isolate.enter(&mut stack);
    let ref scope = HandleScope::new(isolate, &mut stack);
    let ref mut _context = Context::new(scope, &stack, v8::Local::new(0x20));

    let mut obj = Object::new(scope, &stack, heap.new_object());
    let key = String::new(scope, &stack, heap.new_from_utf8("foo"));
    let val = String::new(scope, &stack, heap.new_from_utf8("bar"));
    let key: Value = key.into();
    let val: Value = val.into();
    let done = heap.set(
        obj.handle().into_local(scope),
        key.handle().into_local(scope),
        val.handle().into_local(scope),
    );
    assert!(obj.set(scope, done));

    let found = heap.get(obj.handle().into_local(scope), key.handle().into_local(scope));
    let val = obj.get(scope, found);
    assert!(val.is_some());
    let val = val.unwrap();
    let utf8 = heap.utf8_value(val.handle().into_local(scope));
    let val = val.into_rust_string(scope, &stack, utf8);
    assert_eq!(val, "bar");
}

#[test]
fn object_property_that_is_not_there() {
    let mut registry = PlatformRegistry::new();
    let mut stack = Stack::new();
    let mut heap = Heap::new();
    let mut isolate = isolate_at(&mut registry, 0x1000);
    isolate.enter(&mut stack);
    let scope = HandleScope::new(&mut isolate, &mut stack);

    let obj = Object::new(&scope, &stack, heap.new_object());
    let key: Value = String::new(&scope, &stack, heap.new_from_utf8("foo")).into();
    let found = heap.get(obj.handle().into_local(&scope), key.handle().into_local(&scope));
    assert!(obj.get(&scope, found).is_none());
}

#[test]
fn object_set_without_an_answer_counts_as_not_set() {
    let mut registry = PlatformRegistry::new();
    let mut stack = Stack::new();
    let mut heap = Heap::new();
    let mut isolate = isolate_at(&mut registry, 0x1000);
    isolate.enter(&mut stack);
    let scope = HandleScope::new(&mut isolate, &mut stack);

    let mut obj = Object::new(&scope, &stack, heap.new_object());
    assert!(!obj.set(&scope, v8::Maybe { has_value_: false, value_: true }));
    assert!(!obj.set(&scope, v8::Maybe { has_value_: false, value_: false }));
    assert!(!obj.set(&scope, v8::Maybe { has_value_: true, value_: false }));
    assert!(obj.set(&scope, v8::Maybe { has_value_: true, value_: true }));
    assert_eq!(obj.clone().handle().into_local(&scope).val_, 0x5000);
}
