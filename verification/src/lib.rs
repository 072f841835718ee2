//! A safety layer over an embeddable scripting engine.
//!
//! The engine manages its own heap. A reference to a value on that heap is good only
//! while the handle scope that it was made in is open and the isolate that it belongs to
//! is the active one of the thread; the engine itself tests none of this. The layer
//! keeps the record that is needed to test it, and states as preconditions what the
//! engine leaves to its users.
//!
//! The layer makes no native call. Its host makes each call and hands over what came
//! back; the layer says what that means, and what may be done next.

pub mod binding;
pub mod context;
pub mod handle;
pub mod handle_scope;
pub mod isolate;
pub mod module;
pub mod object;
pub mod platform;
pub mod script;
pub mod stack;
pub mod string;
pub mod value;

pub use context::Context;
pub use handle_scope::HandleScope;
pub use isolate::Isolate;
pub use module::Module;
pub use object::Object;
pub use platform::Platform;
pub use script::Script;
pub use string::String;
pub use value::Value;
