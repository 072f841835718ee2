//! Objects of the scripting language.

use crate::binding::v8;
use crate::handle::Handle;
use crate::handle_scope::HandleScope;
use crate::isolate;
use crate::stack::Stack;
use crate::value::Value;
use std::marker::PhantomData;
use vstd::prelude::*;

verus! {

/// An object of the scripting language.
pub struct Object<'a> {
    pub(crate) val: Handle<v8::Object>,
    scope: PhantomData<&'a u8>,
}

impl<'a> Clone for Object<'a> {
    fn clone(&self) -> (res: Self)
        ensures
            res == *self,
    {
        Object { val: self.val, scope: PhantomData }
    }
}

impl<'a> View for Object<'a> {
    type V = usize;

    /// The address of the object on the engine's heap.
    closed spec fn view(&self) -> usize {
        self.val@
    }
}

impl<'a> Object<'a> {
    /// Wraps the object that the engine made in the active isolate, which there has to
    /// be.
    pub fn new<'p, P>(_scope: &'a HandleScope<'a, 'p, P>, stack: &Stack, obj: v8::Local<v8::Object>) -> (res: Self)
        requires
            stack@.current() is Some,
        ensures
            res@ == obj@,
    {
        let _isolate = isolate::get_current(stack);
        Object { val: Handle::from(obj), scope: PhantomData }
    }

    /// The object's handle.
    pub fn handle(&self) -> (res: Handle<v8::Object>)
        ensures
            res == Handle::<v8::Object>::at(self@),
    {
        self.val
    }

    /// The property that the engine found under a key, `found` being its answer: `None`
    /// where it found none.
    pub fn get<'p, P>(
        &self,
        scope: &'a HandleScope<'a, 'p, P>,
        found: v8::MaybeLocal<v8::Value>,
    ) -> (res: Option<Value<'a>>)
        ensures
            match res {
                Some(value) => found@ == Some(value@),
                None => found@ is None,
            },
    {
        match found.to_option() {
            Some(val) => Some(Value::from(scope, Handle::from(val))),
            None => None,
        }
    }

    /// Whether the engine set a property, `done` being its answer: an answer that is
    /// absent counts as no.
    pub fn set<'p, P>(&mut self, _scope: &'a HandleScope<'a, 'p, P>, done: v8::Maybe<bool>) -> (res: bool)
        ensures
            *final(self) == *old(self),
            res == (done@ == Some(true)),
    {
        match done.to_option() {
            Some(set) => set,
            None => false,
        }
    }
}

} // verus!
