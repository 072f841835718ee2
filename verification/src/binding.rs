//! The engine's native surface as the layer sees it: plain values.
//!
//! The layer makes no native call itself. Its host makes each call and hands over what
//! came back, in the types of this module: a reference is the address that the engine
//! gave out, and zero is the engine's empty reference.
//!
//! A reference is good on the thread that it was given out on and on no other, so the
//! types that hold one cannot be sent or shared across threads.

use std::marker::PhantomData;
use std::rc::Rc;
use vstd::prelude::*;

pub mod v8;

verus! {

/// A reference to a value of class `T` on the engine's heap.
#[derive(Debug)]
pub struct Local<T> {
    pub val_: usize,
    pub _phantom_0: PhantomData<Rc<T>>,
}

impl<T> Copy for Local<T> {}

impl<T> Clone for Local<T> {
    fn clone(&self) -> (res: Self)
        ensures
            res == *self,
    {
        *self
    }
}

impl<T> View for Local<T> {
    type V = usize;

    /// The address that the reference holds.
    open spec fn view(&self) -> usize {
        self.val_
    }
}

impl<T> Local<T> {
    /// The reference to class `T` that holds `val_`.
    pub open spec fn at(val_: usize) -> Self {
        Local { val_, _phantom_0: PhantomData }
    }

    /// Wraps an address that the engine gave out.
    pub fn new(val_: usize) -> (res: Self)
        ensures
            res == Self::at(val_),
    {
        Local { val_, _phantom_0: PhantomData }
    }

    /// The same reference, read as one to class `U`.
    pub open spec fn spec_cast<U>(self) -> Local<U> {
        Local::<U>::at(self.val_)
    }

    /// Reads this reference as one to class `U`. Nothing is tested: the result holds the
    /// same address whatever it refers to, so the caller has to know that the value is a
    /// `U` in the engine's hierarchy before the engine is given the result.
    pub fn cast<U>(&mut self) -> (res: Local<U>)
        ensures
            res == old(self).spec_cast::<U>(),
            *final(self) == *old(self),
    {
        Local { val_: self.val_, _phantom_0: PhantomData }
    }
}

/// A reference read as one to another class, and then as one to its own class again, is
/// the reference that it was: a cast changes nothing about what is referred to.
pub proof fn cast_round_trip<T, U>(local: Local<T>)
    ensures
        local.spec_cast::<U>()@ == local@,
        local.spec_cast::<U>().spec_cast::<T>() == local,
{
}

/// A reference that the engine leaves empty where an operation produced nothing.
#[derive(Debug)]
pub struct MaybeLocal<T> {
    pub val_: usize,
    pub _phantom_0: PhantomData<Rc<T>>,
}

impl<T> View for MaybeLocal<T> {
    type V = Option<usize>;

    /// The address, or `None` for the empty reference.
    open spec fn view(&self) -> Option<usize> {
        if self.val_ == 0 {
            None
        } else {
            Some(self.val_)
        }
    }
}

impl<T> MaybeLocal<T> {
    /// The possibly empty reference to class `T` that holds `val_`.
    pub open spec fn at(val_: usize) -> Self {
        MaybeLocal { val_, _phantom_0: PhantomData }
    }

    /// Wraps what the engine returned; zero is its empty reference.
    pub fn new(val_: usize) -> (res: Self)
        ensures
            res == Self::at(val_),
    {
        MaybeLocal { val_, _phantom_0: PhantomData }
    }

    /// `None` for the empty reference, else the reference itself. Nothing is tested of
    /// what the reference refers to.
    pub fn to_option(self) -> (res: Option<Local<T>>)
        ensures
            match self@ {
                Some(address) => res == Some(Local::<T>::at(address)),
                None => res is None,
            },
    {
        Option::from(self)
    }
}

impl<T> From<MaybeLocal<T>> for Option<Local<T>> {
    fn from(maybe: MaybeLocal<T>) -> (res: Self) {
        if maybe.val_ == 0 {
            None
        } else {
            Some(Local { val_: maybe.val_, _phantom_0: PhantomData })
        }
    }
}

impl<T> vstd::std_specs::convert::FromSpecImpl<MaybeLocal<T>> for Option<Local<T>> {
    open spec fn obeys_from_spec() -> bool {
        true
    }

    open spec fn from_spec(maybe: MaybeLocal<T>) -> Self {
        if maybe.val_ == 0 {
            None
        } else {
            Some(Local::at(maybe.val_))
        }
    }
}

/// A result of the engine that may be absent without anything having been thrown.
/// The payload means something only where the flag is set.
#[derive(Debug)]
pub struct Maybe<T> {
    pub has_value_: bool,
    pub value_: T,
}

impl<T> View for Maybe<T> {
    type V = Option<T>;

    /// The payload, or `None` where the flag says there is none.
    open spec fn view(&self) -> Option<T> {
        if self.has_value_ {
            Some(self.value_)
        } else {
            None
        }
    }
}

impl<T> Maybe<T> {
    /// The payload where the flag says there is one, else `None`.
    pub fn to_option(self) -> (res: Option<T>)
        ensures
            res == self@,
    {
        Option::from(self)
    }
}

impl<T> From<Maybe<T>> for Option<T> {
    fn from(maybe: Maybe<T>) -> (res: Self) {
        if maybe.has_value_ {
            Some(maybe.value_)
        } else {
            None
        }
    }
}

impl<T> vstd::std_specs::convert::FromSpecImpl<Maybe<T>> for Option<T> {
    open spec fn obeys_from_spec() -> bool {
        true
    }

    open spec fn from_spec(maybe: Maybe<T>) -> Self {
        if maybe.has_value_ {
            Some(maybe.value_)
        } else {
            None
        }
    }
}

/// What the engine answers when it is asked to compile a unit of class `T`.
#[derive(Debug)]
pub struct CompileResult<T> {
    /// Whether the unit compiled.
    pub is_ok: bool,
    /// The compiled unit; it means something only where the unit compiled.
    pub ret_val: Local<T>,
    /// What the engine threw; it means something only where the unit did not compile.
    pub exception: Local<v8::Value>,
}

/// What the engine answers when it is asked to run a script.
#[derive(Debug)]
pub struct RunResult {
    /// Whether the script ran to its end without throwing.
    pub is_ok: bool,
    /// The value of the script where it ran to its end, else the value that was thrown.
    pub ret_val: Local<v8::Value>,
}

} // verus!
