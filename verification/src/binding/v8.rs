//! The engine's classes, as far as the layer tells them apart.
//!
//! The engine keeps every value on its own heap; the layer never looks inside one. What it
//! needs of a class is its name, to say what a reference refers to.

use vstd::prelude::*;

pub use super::Local;
pub use super::Maybe;
pub use super::MaybeLocal;

verus! {

/// Any value of the scripting language.
#[derive(Debug)]
pub struct Value;

/// A string of the scripting language.
#[derive(Debug)]
pub struct String;

/// An object of the scripting language.
#[derive(Debug)]
pub struct Object;

/// A sandboxed global environment.
#[derive(Debug)]
pub struct Context;

/// A compiled script.
#[derive(Debug)]
pub struct Script;

/// A compiled module.
#[derive(Debug)]
pub struct Module;

} // verus!
