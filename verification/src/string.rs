//! Strings of the scripting language.

use crate::binding::v8;
use crate::handle::Handle;
use crate::handle::HandleKind;
use crate::handle_scope::HandleScope;
use crate::isolate;
use crate::stack::Stack;
use crate::value::Value;
use std::marker::PhantomData;
use vstd::prelude::*;

verus! {

/// A string of the scripting language.
#[derive(Debug)]
pub struct String<'a> {
    pub(crate) val: Handle<v8::String>,
    pub(crate) scope: PhantomData<&'a u8>,
}

impl<'a> Copy for String<'a> {}

impl<'a> Clone for String<'a> {
    fn clone(&self) -> (res: Self)
        ensures
            res == *self,
    {
        *self
    }
}

impl<'a> View for String<'a> {
    type V = usize;

    /// The address of the string on the engine's heap.
    closed spec fn view(&self) -> usize {
        self.val@
    }
}

impl<'a> String<'a> {
    /// The length that the engine is told for `text`: its length in bytes, or `None`
    /// where that does not fit the engine's 32-bit lengths.
    pub fn utf8_length(text: &str) -> (res: Option<i32>)
        ensures
            text.len() <= i32::MAX ==> res == Some(text.len() as i32),
            text.len() > i32::MAX ==> res is None,
    {
        match i32::try_from(text.len()) {
            Ok(length) => Some(length),
            Err(_) => None,
        }
    }

    /// Wraps the string that the engine made from a text of the host in the active
    /// isolate, which there has to be; `made` is the engine's answer. An engine that makes
    /// no string is fatal, so the empty reference is not accepted here.
    pub fn new<'p, P>(
        _scope: &'a HandleScope<'a, 'p, P>,
        stack: &Stack,
        made: v8::MaybeLocal<v8::String>,
    ) -> (res: Self)
        requires
            stack@.current() is Some,
            made@ is Some,
        ensures
            made@ == Some(res@),
    {
        let _isolate = isolate::get_current(stack);
        let val = made.to_option().unwrap();
        String { val: Handle::from(val), scope: PhantomData }
    }

    /// The string that a reference of the engine refers to.
    pub(crate) fn from_local(local: v8::Local<v8::String>) -> (res: Self)
        ensures
            res@ == local@,
    {
        String { val: Handle::from(local), scope: PhantomData }
    }

    /// The string's handle.
    pub fn handle(&self) -> (res: Handle<v8::String>)
        ensures
            res == Handle::<v8::String>::at(self@),
    {
        self.val
    }
}

/// A string is a value: read as one, it refers to the same address.
pub proof fn string_is_a_value(string: String)
    ensures
        <Value as vstd::std_specs::convert::FromSpec<String>>::from_spec(string)@ == string@,
{
    Value::view_is_handle(<Value as vstd::std_specs::convert::FromSpec<String>>::from_spec(string));
}

impl<'a> From<String<'a>> for Value<'a> {
    /// A string is a value: the same reference, read as one to a value.
    fn from(string: String<'a>) -> (res: Self) {
        match &string.val.base {
            HandleKind::Local(local) => {
                let mut local = *local;
                let val: v8::Local<v8::Value> = local.cast();
                Value { val: Handle::from(val), scope: string.scope }
            },
        }
    }
}

impl<'a> vstd::std_specs::convert::FromSpecImpl<String<'a>> for Value<'a> {
    open spec fn obeys_from_spec() -> bool {
        true
    }

    closed spec fn from_spec(string: String<'a>) -> Self {
        Value { val: Handle::at(string.val@), scope: string.scope }
    }
}

/// What a value that is handed to the engine as a string is to begin with.
pub enum Source {
    /// A string of the engine, at this address.
    Made(usize),
    /// A text of the host, which the engine first has to make a string of.
    Text(Seq<char>),
}

/// What can be handed to the engine as a string: a string of the engine, or a text of the
/// host that the engine first has to make one of.
pub trait IntoV8String<'a, 'p, P> {
    /// What the value is to begin with.
    spec fn source(&self) -> Source;

    /// The text that the engine has to make a string of, if any.
    fn text(&self) -> (res: Option<&str>)
        ensures
            match res {
                Some(text) => self.source() == Source::Text(text@),
                None => self.source() is Made,
            },
    ;

    /// The value as a string of the engine. Where there was a text for the engine to make
    /// a string of, `made` is its answer, as for [`String::new`]; else `made` is not
    /// looked at.
    fn to_v8_string(
        &self,
        scope: &'a HandleScope<'a, 'p, P>,
        stack: &Stack,
        made: v8::MaybeLocal<v8::String>,
    ) -> (res: String<'a>)
        requires
            self.source() is Text ==> stack@.current() is Some && made@ is Some,
        ensures
            match self.source() {
                Source::Made(address) => res@ == address,
                Source::Text(_) => made@ == Some(res@),
            },
    ;
}

impl<'a, 'p, P> IntoV8String<'a, 'p, P> for String<'a> {
    open spec fn source(&self) -> Source {
        Source::Made(self@)
    }

    fn text(&self) -> (res: Option<&str>) {
        None
    }

    fn to_v8_string(
        &self,
        _scope: &'a HandleScope<'a, 'p, P>,
        _stack: &Stack,
        _made: v8::MaybeLocal<v8::String>,
    ) -> (res: Self) {
        *self
    }
}

impl<'a, 'p, P> IntoV8String<'a, 'p, P> for &str {
    open spec fn source(&self) -> Source {
        Source::Text(self@)
    }

    fn text(&self) -> (res: Option<&str>) {
        Some(*self)
    }

    fn to_v8_string(
        &self,
        scope: &'a HandleScope<'a, 'p, P>,
        stack: &Stack,
        made: v8::MaybeLocal<v8::String>,
    ) -> (res: String<'a>) {
        String::new(scope, stack, made)
    }
}

impl<'a, 'p, P> IntoV8String<'a, 'p, P> for std::string::String {
    open spec fn source(&self) -> Source {
        Source::Text(self@)
    }

    fn text(&self) -> (res: Option<&str>) {
        Some(self.as_str())
    }

    fn to_v8_string(
        &self,
        scope: &'a HandleScope<'a, 'p, P>,
        stack: &Stack,
        made: v8::MaybeLocal<v8::String>,
    ) -> (res: String<'a>) {
        String::new(scope, stack, made)
    }
}

} // verus!
