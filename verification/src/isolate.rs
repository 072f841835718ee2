//! Isolates: independent instances of the engine, of which one at most is active on a
//! thread.

use crate::handle_scope::Scope;
use crate::platform::Platform;
use crate::stack::Stack;
use std::marker::PhantomData;
use std::rc::Rc;
use vstd::prelude::*;

verus! {

/// An isolated instance of the engine.
///
/// An isolate is not to be entered from more than one thread at a time. It cannot be
/// sent or shared across threads, and stays on the thread that made it.
#[derive(Debug)]
pub struct Isolate {
    _platform: Platform,
    isolate_: usize,
    _thread: PhantomData<Rc<()>>,
}

impl View for Isolate {
    type V = usize;

    /// The address of the engine's isolate.
    closed spec fn view(&self) -> usize {
        self.isolate_
    }
}

impl Isolate {
    /// An isolate is never at the address zero, which is where the engine has none.
    #[verifier::type_invariant]
    spec fn is_somewhere(self) -> bool {
        self.isolate_ != 0
    }

    /// The engine handle that the isolate keeps alive.
    pub closed spec fn platform(&self) -> Platform {
        self._platform
    }

    /// Wraps the isolate that the engine made, `isolate` being its address, and keeps
    /// `platform` for as long as the isolate lives. The engine answers with zero where it
    /// could not make one: that is fatal, so it is not accepted here.
    pub fn new(platform: Platform, isolate: usize) -> (res: Isolate)
        requires
            isolate != 0,
        ensures
            res@ == isolate,
            res.platform() == platform,
    {
        Isolate { _platform: platform, isolate_: isolate, _thread: PhantomData }
    }

    /// The address of the engine's isolate, which is not zero.
    pub fn address(&self) -> (res: usize)
        ensures
            res == self@,
            res != 0,
    {
        proof {
            use_type_invariant(self);
        }
        self.isolate_
    }

    /// Makes this isolate the active one of the thread. The isolate that was active
    /// becomes so again when this one is left.
    pub fn enter(&mut self, stack: &mut Stack)
        ensures
            *final(self) == *old(self),
            final(stack)@ == old(stack)@.enter(old(self)@),
    {
        stack.enter(self.isolate_);
    }

    /// Whether this isolate is the active one of the thread.
    pub fn is_current(&self, stack: &Stack) -> (res: bool)
        ensures
            res == (stack@.current() == Some(self@)),
    {
        match stack.current() {
            Some(current) => current == self.isolate_,
            None => false,
        }
    }

    /// Leaves this isolate, which has to be the active one: to leave another would
    /// corrupt the engine's own stack.
    pub fn exit(&mut self, stack: &mut Stack)
        requires
            old(stack)@.current() == Some(old(self)@),
        ensures
            *final(self) == *old(self),
            final(stack)@ == old(stack)@.exit(),
    {
        stack.exit();
    }

    /// Whether this isolate has been entered and not left as often.
    pub fn is_in_use(&self, stack: &Stack) -> (res: bool)
        ensures
            res == stack@.in_use(self@),
    {
        stack.in_use(self.isolate_)
    }

    /// Ends the isolate's life and hands back the engine handle that it kept. The flag
    /// says whether the host has to dispose of the engine's isolate.
    ///
    /// An isolate that is in use cannot be disposed of. While the thread unwinds from an
    /// earlier failure nothing is tested and nothing disposed of, so that the failure is
    /// not masked by a second one.
    pub fn dispose(self, stack: &Stack, panicking: bool) -> (res: (Platform, bool))
        requires
            panicking || !stack@.in_use(self@),
        ensures
            res.0 == self.platform(),
            res.1 == !panicking,
    {
        (self._platform, !panicking)
    }
}

impl Scope for Isolate {}

/// The active isolate of the thread. That there is one is the single test that keeps
/// every operation on the engine's heap from running without an isolate.
pub fn get_current(stack: &Stack) -> (isolate: usize)
    requires
        stack@.current() is Some,
    ensures
        stack@.current() == Some(isolate),
{
    stack.current().unwrap()
}

} // verus!
