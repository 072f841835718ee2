//! Modules: compiled units that import from one another.
//!
//! When the engine instantiates a module it has to resolve what the module imports. It
//! asks through one fixed function, which cannot carry a closure of the host. So the
//! layer keeps a table from the identity hash of a module to the callback that resolves
//! its imports, fills it before the engine is asked to instantiate the module, and looks
//! the callback up when the engine asks.

use crate::binding::v8;
use crate::binding::CompileResult;
use crate::context::Context;
use crate::handle::Handle;
use crate::handle::HandleKind;
use crate::handle_scope::HandleScope;
use crate::isolate;
use crate::stack::Stack;
use crate::string::String;
use crate::value::Value;
use std::collections::HashMap;
use vstd::prelude::*;

verus! {

/// The callback registered for the module with identity hash `id`, if there is one: a
/// module that is not in the table has none, as has a module registered without one.
pub open spec fn resolver_of<F>(entries: Map<i32, Option<F>>, id: i32) -> Option<F> {
    if entries.contains_key(id) {
        entries[id]
    } else {
        None
    }
}

/// The process-wide table of callbacks, by the identity hash of the module that each was
/// registered for. One per process, under a lock that the host holds for the length of
/// one call. An entry is never taken out.
pub struct ResolverTable<F> {
    entries: HashMap<i32, Option<F>>,
}

impl<F> View for ResolverTable<F> {
    type V = Map<i32, Option<F>>;

    closed spec fn view(&self) -> Map<i32, Option<F>> {
        self.entries@
    }
}

impl<F> ResolverTable<F> {
    /// The table with no module in it.
    pub fn new() -> (res: Self)
        ensures
            res@ == Map::<i32, Option<F>>::empty(),
    {
        ResolverTable { entries: HashMap::new() }
    }

    /// Puts `callback` in the place of whatever was registered for `id`.
    pub(crate) fn register(&mut self, id: i32, callback: Option<F>)
        ensures
            final(self)@ == old(self)@.insert(id, callback),
    {
        broadcast use vstd::std_specs::hash::group_hash_axioms;

        let _ = self.entries.insert(id, callback);
    }

    /// The callback registered for `id`. That there is none is an answer, not a fault.
    pub fn lookup(&self, id: i32) -> (res: Option<&F>)
        ensures
            match res {
                Some(callback) => resolver_of(self@, id) == Some(*callback),
                None => resolver_of(self@, id) is None,
            },
    {
        broadcast use vstd::std_specs::hash::group_hash_axioms;

        match self.entries.get(&id) {
            Some(Some(callback)) => Some(callback),
            _ => None,
        }
    }
}

/// A compiled module, bound to the context it was compiled against.
pub struct Module<'a, 'c> {
    pub(crate) val: Handle<v8::Module>,
    context: &'a Context<'c>,
}

impl<'a, 'c> View for Module<'a, 'c> {
    type V = usize;

    /// The address of the module on the engine's heap.
    closed spec fn view(&self) -> usize {
        self.val@
    }
}

impl<'a, 'c> Module<'a, 'c> {
    /// The context that the module is bound to.
    pub closed spec fn context(&self) -> Context<'c> {
        *self.context
    }

    /// What the engine's answer to a request to compile a module means, an isolate being
    /// active: the module, bound to `context`, where it compiled, else the exception
    /// that the engine threw, as a value for the caller to inspect.
    pub fn new<'p, P>(
        scope: &'a HandleScope<'a, 'p, P>,
        stack: &Stack,
        context: &'a Context<'c>,
        res: CompileResult<v8::Module>,
    ) -> (module: Result<Self, Value<'a>>)
        requires
            stack@.current() is Some,
        ensures
            match module {
                Ok(compiled) => res.is_ok && compiled@ == res.ret_val@ && compiled.context() == *context,
                Err(exception) => !res.is_ok && exception@ == res.exception@,
            },
    {
        let _isolate = isolate::get_current(stack);
        if res.is_ok {
            Ok(Module { val: Handle::from(res.ret_val), context })
        } else {
            Err(Value::from(scope, Handle::from(res.exception)))
        }
    }

    /// The module's handle.
    pub fn handle(&self) -> (res: Handle<v8::Module>)
        ensures
            res == Handle::<v8::Module>::at(self@),
    {
        self.val
    }

    /// The context that the module is bound to.
    pub fn bound_context(&self) -> (res: &'a Context<'c>)
        ensures
            *res == self.context(),
    {
        self.context
    }

    /// Prepares the module for being instantiated: registers `callback` as what resolves
    /// the imports of the module, `id` being the module's identity hash. This comes before
    /// the engine is asked to instantiate the module, because the engine may ask for a
    /// resolution while it does so.
    pub fn instantiate<'p, P, F>(
        &mut self,
        _scope: &mut HandleScope<'a, 'p, P>,
        table: &mut ResolverTable<F>,
        id: i32,
        callback: Option<F>,
    )
        ensures
            final(table)@ == old(table)@.insert(id, callback),
            *final(self) == *old(self),
            *final(_scope) == *old(_scope),
    {
        table.register(id, callback);
    }

    /// The reference that the engine is answered with where a callback resolved an
    /// import to `resolved`: the module's reference, or the empty reference for none.
    pub fn into_maybe_local(resolved: Option<Module<'a, 'c>>) -> (res: v8::MaybeLocal<v8::Module>)
        ensures
            res == v8::MaybeLocal::<v8::Module>::at(address_of(resolved)),
    {
        match resolved {
            Some(module) => match module.val.base {
                HandleKind::Local(local) => v8::MaybeLocal::new(local.val_),
            },
            None => v8::MaybeLocal::new(0),
        }
    }
}

/// The address that a resolution stands for: that of the module, or zero for none.
pub open spec fn address_of(resolved: Option<Module>) -> usize {
    match resolved {
        Some(module) => module@,
        None => 0,
    }
}

/// Whether `callback` can be called with the context at `context`, the specifier at
/// `specifier` and the referrer.
pub open spec fn accepts<F>(callback: F, context: usize, specifier: usize, referrer: i32) -> bool where
    F: for <'a, 'c>Fn(&'a Context<'c>, String<'a>, i32) -> Option<Module<'a, 'c>>,
{
    forall|c: &Context, s: String|
        c@ == context && s@ == specifier ==> #[trigger] call_requires(callback, (c, s, referrer))
}

/// Whether `answer` is what `callback` resolves to when it is called with the context at
/// `context`, the specifier at `specifier` and the referrer: the address of the module
/// that it returns, or zero where it returns none.
pub open spec fn resolves_to<F>(
    callback: F,
    context: usize,
    specifier: usize,
    referrer: i32,
    answer: usize,
) -> bool where F: for <'a, 'c>Fn(&'a Context<'c>, String<'a>, i32) -> Option<Module<'a, 'c>> {
    exists|c: &Context, s: String, resolved: Option<Module>|
        c@ == context && s@ == specifier && #[trigger] call_ensures(
            callback,
            (c, s, referrer),
            resolved,
        ) && answer == address_of(resolved)
}

/// Forwards the engine's request to resolve an import to `callback`, the callback that was
/// looked up for the module that imports. `context` and `specifier` are what the engine
/// hands over, `referrer` is the identity hash of that module.
///
/// The callback is called with the context, the specifier and the referrer, and the
/// module that it resolves to is the answer. Without a callback the answer is the empty
/// reference: no resolution is available.
pub fn resolve_with<F>(
    callback: Option<&F>,
    context: v8::Local<v8::Context>,
    specifier: v8::Local<v8::String>,
    referrer: i32,
) -> (res: v8::MaybeLocal<v8::Module>) where
    F: for <'a, 'c>Fn(&'a Context<'c>, String<'a>, i32) -> Option<Module<'a, 'c>>,

    requires
        callback matches Some(f) ==> accepts(*f, context@, specifier@, referrer),
    ensures
        callback is None ==> res.val_ == 0,
        callback matches Some(f) ==> resolves_to(*f, context@, specifier@, referrer, res.val_),
{
    match callback {
        None => v8::MaybeLocal::new(0),
        Some(callback) => {
            let context = Context::from_engine(context);
            let specifier = String::from_local(specifier);
            let resolved = callback(&context, specifier, referrer);
            Module::into_maybe_local(resolved)
        },
    }
}

/// Answers the engine's request to resolve an import: looks up the callback that is
/// registered for the module that imports, and forwards the request to it as
/// [`resolve_with`] does. A module that is not in the table has no callback.
pub fn resolve_callback<F>(
    table: &ResolverTable<F>,
    context: v8::Local<v8::Context>,
    specifier: v8::Local<v8::String>,
    referrer: i32,
) -> (res: v8::MaybeLocal<v8::Module>) where
    F: for <'a, 'c>Fn(&'a Context<'c>, String<'a>, i32) -> Option<Module<'a, 'c>>,

    requires
        resolver_of(table@, referrer) matches Some(f) ==> accepts(f, context@, specifier@, referrer),
    ensures
        resolver_of(table@, referrer) is None ==> res.val_ == 0,
        resolver_of(table@, referrer) matches Some(f) ==> resolves_to(
            f,
            context@,
            specifier@,
            referrer,
            res.val_,
        ),
{
    resolve_with(table.lookup(referrer), context, specifier, referrer)
}

} // verus!
