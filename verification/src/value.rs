//! Values of the scripting language.

use crate::binding::v8;
use crate::handle::Handle;
use crate::handle_scope::HandleScope;
use crate::isolate;
use crate::stack::Stack;
use crate::string::String;
use std::marker::PhantomData;
use vstd::prelude::*;
use vstd::utf8::decode_utf8;
use vstd::utf8::valid_utf8;

verus! {

/// A value of the scripting language.
#[derive(Debug)]
pub struct Value<'a> {
    pub(crate) val: Handle<v8::Value>,
    pub(crate) scope: PhantomData<&'a u8>,
}

impl<'a> Copy for Value<'a> {}

impl<'a> Clone for Value<'a> {
    fn clone(&self) -> (res: Self)
        ensures
            res == *self,
    {
        *self
    }
}

impl<'a> View for Value<'a> {
    type V = usize;

    /// The address of the value on the engine's heap.
    closed spec fn view(&self) -> usize {
        self.val@
    }
}

/// `String::from_utf8` of the standard library: the bytes as a string where they are
/// valid UTF-8, and nothing where they are not.
#[verifier::external_body]
fn string_from_utf8(bytes: Vec<u8>) -> (res: Option<std::string::String>)
    ensures
        res is Some <==> valid_utf8(bytes@),
        res matches Some(s) ==> s@ == decode_utf8(bytes@),
{
    match std::string::String::from_utf8(bytes) {
        Ok(s) => Some(s),
        Err(_) => None,
    }
}

impl<'a> Value<'a> {
    /// A value's view is the address that its handle refers to.
    pub(crate) proof fn view_is_handle(self)
        ensures
            self@ == self.val@,
    {
    }

    /// The value that `val` refers to, tied to `scope`.
    pub fn from<'p, P>(_scope: &'a HandleScope<'a, 'p, P>, val: Handle<v8::Value>) -> (res: Self)
        ensures
            res@ == val@,
    {
        Value { scope: PhantomData, val }
    }

    /// The value's handle.
    pub fn handle(&self) -> (res: Handle<v8::Value>)
        ensures
            res == Handle::<v8::Value>::at(self@),
    {
        self.val
    }

    /// The string that the engine made of this value, `made` being its answer: `None`
    /// where the engine made none.
    pub fn to_string<'p, P>(
        &self,
        _scope: &'a HandleScope<'a, 'p, P>,
        made: v8::MaybeLocal<v8::String>,
    ) -> (res: Option<String<'a>>)
        ensures
            match res {
                Some(string) => made@ == Some(string@),
                None => made@ is None,
            },
    {
        match made.to_option() {
            Some(val) => Some(String::from_local(val)),
            None => None,
        }
    }

    /// Whether the engine found this value equal to another without regard to type,
    /// `res` being its answer. An engine that gives no answer is fatal, so such an answer
    /// is not accepted here.
    pub fn equals<'p, P>(&self, _scope: &'a HandleScope<'a, 'p, P>, res: v8::Maybe<bool>) -> (equal: bool)
        requires
            res@ is Some,
        ensures
            res@ == Some(equal),
    {
        res.to_option().unwrap()
    }

    /// This value as a string of the host, `utf8` being the bytes of the engine's copy of
    /// it in UTF-8, which they have to be. An isolate has to be active.
    pub fn into_rust_string<'p, P>(
        &self,
        _scope: &'a HandleScope<'a, 'p, P>,
        stack: &Stack,
        utf8: Vec<u8>,
    ) -> (res: std::string::String)
        requires
            stack@.current() is Some,
            valid_utf8(utf8@),
        ensures
            res@ == decode_utf8(utf8@),
    {
        let _isolate = isolate::get_current(stack);
        string_from_utf8(utf8).unwrap()
    }
}

} // verus!
