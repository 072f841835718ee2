//! Handles: references to the engine's heap as the layer passes them on.

use crate::binding::v8;
use crate::handle_scope::HandleScope;
use vstd::prelude::*;

verus! {

/// The forms in which a handle holds its reference.
#[derive(Debug)]
pub enum HandleKind<T> {
    /// A reference that lives as long as the scope it was made in.
    Local(v8::Local<T>),
}

impl<T> Copy for HandleKind<T> {}

impl<T> Clone for HandleKind<T> {
    fn clone(&self) -> (res: Self)
        ensures
            res == *self,
    {
        *self
    }
}

/// A reference to a value of class `T` on the engine's heap.
#[derive(Debug)]
pub struct Handle<T> {
    pub base: HandleKind<T>,
}

impl<T> Copy for Handle<T> {}

impl<T> Clone for Handle<T> {
    fn clone(&self) -> (res: Self)
        ensures
            res == *self,
    {
        *self
    }
}

impl<T> View for Handle<T> {
    type V = usize;

    /// The address that the handle refers to.
    open spec fn view(&self) -> usize {
        self.local().val_
    }
}

impl<T> Handle<T> {
    /// The handle that refers to `address`.
    pub open spec fn at(address: usize) -> Self {
        Handle { base: HandleKind::Local(v8::Local::at(address)) }
    }

    /// The engine's reference that the handle holds.
    pub open spec fn local(self) -> v8::Local<T> {
        match self.base {
            HandleKind::Local(local) => local,
        }
    }

    /// The handle's reference in the form that the engine takes. The scope is asked for
    /// because only a live scope makes the reference good for anything.
    pub fn into_local<'a, 'p, P>(&self, _scope: &'a HandleScope<'a, 'p, P>) -> (res: &v8::Local<T>)
        ensures
            *res == self.local(),
    {
        match &self.base {
            HandleKind::Local(local) => local,
        }
    }
}

impl<T> From<v8::Local<T>> for Handle<T> {
    fn from(local: v8::Local<T>) -> (res: Self) {
        Handle { base: HandleKind::Local(local) }
    }
}

impl<T> vstd::std_specs::convert::FromSpecImpl<v8::Local<T>> for Handle<T> {
    open spec fn obeys_from_spec() -> bool {
        true
    }

    open spec fn from_spec(local: v8::Local<T>) -> Self {
        Handle { base: HandleKind::Local(local) }
    }
}

} // verus!
