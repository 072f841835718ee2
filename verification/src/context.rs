//! Execution contexts: sandboxed global environments within an isolate.

use crate::binding::v8;
use crate::handle_scope::HandleScope;
use crate::isolate;
use crate::stack::Stack;
use std::marker::PhantomData;
use vstd::prelude::*;

verus! {

/// A sandboxed execution context.
///
/// A context is tied to the scope it was made in and does not outlive it. Entering and
/// leaving a context is between the host and the engine: the layer keeps no record of
/// it and tests nothing.
#[derive(Debug)]
pub struct Context<'a> {
    pub(crate) context_: v8::Local<v8::Context>,
    scope: PhantomData<&'a i8>,
}

impl<'a> Copy for Context<'a> {}

impl<'a> Clone for Context<'a> {
    fn clone(&self) -> (res: Self)
        ensures
            res == *self,
    {
        *self
    }
}

impl<'a> View for Context<'a> {
    type V = usize;

    /// The address of the engine's context.
    closed spec fn view(&self) -> usize {
        self.context_.val_
    }
}

impl<'a> Context<'a> {
    /// Wraps the context that the engine made in the active isolate, which there has to
    /// be.
    pub fn new<P>(_scope: &'a HandleScope<P>, stack: &Stack, context_: v8::Local<v8::Context>) -> (res: Self)
        requires
            stack@.current() is Some,
        ensures
            res@ == context_@,
    {
        let _isolate = isolate::get_current(stack);
        Context { context_, scope: PhantomData }
    }

    /// The context of a reference that the engine itself hands over, in a call that it
    /// makes into the layer.
    pub(crate) fn from_engine(context_: v8::Local<v8::Context>) -> (res: Self)
        ensures
            res@ == context_@,
    {
        Context { context_, scope: PhantomData }
    }

    /// The context's reference in the form that the engine takes.
    pub fn local(&self) -> (res: v8::Local<v8::Context>)
        ensures
            res == v8::Local::<v8::Context>::at(self@),
    {
        self.context_
    }
}

} // verus!
