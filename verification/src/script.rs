//! Scripts: units that are compiled once and then run.

use crate::binding::v8;
use crate::binding::CompileResult;
use crate::binding::RunResult;
use crate::context::Context;
use crate::handle::Handle;
use crate::handle_scope::HandleScope;
use crate::isolate;
use crate::stack::Stack;
use crate::value::Value;
use vstd::prelude::*;

verus! {

/// A compiled script, bound to the context it was compiled against.
pub struct Script<'a, 'c: 'a> {
    pub(crate) val: Handle<v8::Script>,
    context: &'a Context<'c>,
}

impl<'a, 'c> View for Script<'a, 'c> {
    type V = usize;

    /// The address of the script on the engine's heap.
    closed spec fn view(&self) -> usize {
        self.val@
    }
}

impl<'a, 'c> Script<'a, 'c> {
    /// The context that the script is bound to.
    pub closed spec fn context(&self) -> Context<'c> {
        *self.context
    }

    /// What the engine's answer to a request to compile a script means, an isolate being
    /// active: the script, bound to `context`, where it compiled, else the exception that
    /// the engine threw, as a value for the caller to inspect.
    pub fn new<'p, P>(
        scope: &'a HandleScope<'a, 'p, P>,
        stack: &Stack,
        context: &'a Context<'c>,
        res: CompileResult<v8::Script>,
    ) -> (script: Result<Self, Value<'a>>)
        requires
            stack@.current() is Some,
        ensures
            match script {
                Ok(compiled) => res.is_ok && compiled@ == res.ret_val@ && compiled.context() == *context,
                Err(exception) => !res.is_ok && exception@ == res.exception@,
            },
    {
        let _isolate = isolate::get_current(stack);
        if res.is_ok {
            Ok(Script { val: Handle::from(res.ret_val), context })
        } else {
            Err(Value::from(scope, Handle::from(res.exception)))
        }
    }

    /// The script's handle.
    pub fn handle(&self) -> (res: Handle<v8::Script>)
        ensures
            res == Handle::<v8::Script>::at(self@),
    {
        self.val
    }

    /// The context that the script is bound to, and under which it is run.
    pub fn bound_context(&self) -> (res: &'a Context<'c>)
        ensures
            *res == self.context(),
    {
        self.context
    }

    /// What the engine's answer to a request to run the script means, an isolate being
    /// active: the value of the script where it ran to its end, and the value that was
    /// thrown where it did not. Which of the two it is shows in the arm, not in the value.
    pub fn run<'p, P>(
        &mut self,
        scope: &'a HandleScope<'a, 'p, P>,
        stack: &Stack,
        res: RunResult,
    ) -> (value: Result<Value<'a>, Value<'a>>)
        requires
            stack@.current() is Some,
        ensures
            *final(self) == *old(self),
            match value {
                Ok(completion) => res.is_ok && completion@ == res.ret_val@,
                Err(thrown) => !res.is_ok && thrown@ == res.ret_val@,
            },
    {
        let _isolate = isolate::get_current(stack);
        if res.is_ok {
            Ok(Value::from(scope, Handle::from(res.ret_val)))
        } else {
            Err(Value::from(scope, Handle::from(res.ret_val)))
        }
    }
}

} // verus!
