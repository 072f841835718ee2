//! Handle scopes: the windows in which references to the engine's heap are valid.

use crate::stack::ScopeId;
use crate::stack::Stack;
use std::marker::PhantomData;
use vstd::prelude::*;

verus! {

/// Marks what a handle scope can be opened under: an isolate, or another handle scope.
pub trait Scope {}

/// A scope in which values of the engine's heap can be made and referred to.
///
/// A scope borrows its parent for as long as it lives, so that the parent can neither be
/// used nor end before the scope has ended: scopes end in the reverse of the order in
/// which they began.
#[derive(Debug)]
pub struct HandleScope<'a, 'p: 'a, P> {
    pub(crate) local: PhantomData<&'a u8>,
    parent: &'p mut P,
    depth: usize,
    isolate: usize,
}

impl<'a, 'p, P> View for HandleScope<'a, 'p, P> {
    type V = ScopeId;

    /// The scope's place in the thread's record.
    closed spec fn view(&self) -> ScopeId {
        ScopeId { depth: self.depth as nat, isolate: self.isolate }
    }
}

impl<'a, 'p, P> HandleScope<'a, 'p, P> {
    /// The borrow of the parent that the scope holds.
    pub closed spec fn parent(self) -> &'p mut P {
        self.parent
    }
}

impl<'a, 'p, P> HandleScope<'a, 'p, P> where P: Scope {
    /// Opens a scope under `parent`, in the active isolate of the thread, which there has
    /// to be. The parent stays borrowed until the scope ends.
    pub fn new(parent: &'p mut P, stack: &mut Stack) -> (res: Self)
        requires
            old(stack)@.current() is Some,
        ensures
            res@ == old(stack)@.next_scope(old(stack)@.current().unwrap()),
            final(stack)@ == old(stack)@.open_scope(old(stack)@.current().unwrap()),
            *res.parent() == *old(parent),
            *final(res.parent()) == *final(parent),
    {
        let isolate = crate::isolate::get_current(stack);
        let depth = stack.open_scope(isolate);
        HandleScope { parent, depth, isolate, local: PhantomData }
    }
}

impl<'a, 'p, P> HandleScope<'a, 'p, P> {
    /// The address of the isolate that the scope was opened in.
    pub fn isolate(&self) -> (res: usize)
        ensures
            res == self@.isolate,
    {
        self.isolate
    }

    /// Whether the scope is open and every scope opened after it is closed.
    pub fn is_innermost(&self, stack: &Stack) -> (res: bool)
        ensures
            res == stack@.innermost(self@),
    {
        stack.innermost(self.depth, self.isolate)
    }

    /// Closes the scope, which has to be the innermost open one, and gives the parent
    /// back as it was.
    pub fn close(self, stack: &mut Stack)
        requires
            old(stack)@.innermost(self@),
        ensures
            final(stack)@ == old(stack)@.close_scope(),
            *final(self.parent()) == *old(self.parent()),
    {
        stack.close_scope();
    }
}

impl<'a, 'p, P> Scope for HandleScope<'a, 'p, P> {}

} // verus!
