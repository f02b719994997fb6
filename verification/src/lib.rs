//! A safe embedding layer for a stack-based, garbage-collected scripting
//! virtual machine.
//!
//! The crate models the embedded runtime itself (operand stack, registry,
//! object heap) as verified data, and builds on it the safety-load-bearing
//! bridge: reference handles anchored in the registry, stack-guard
//! discipline, bidirectional value marshaling, a callback adapter with an
//! exclusivity guard and an error boundary, and bounded-lifetime scopes
//! with two-phase teardown.

pub mod error;
pub mod value;
pub mod lua;
pub mod util;
pub mod callback;
pub mod scope;
pub mod laws;

pub use error::Error;
pub use value::{LuaRef, ObjTag, VmValue, Value, MultiValue, Function, Table};
pub use lua::{Lua, RegSlot, HeapObj, MAX_STACK};
pub use util::StackGuard;
pub use callback::{Callback, CallbackOutcome};
pub use scope::{Scope, ScopeEntry};
pub use laws::scope_exit_law;
