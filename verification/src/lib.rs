//! Lifecycle core of a binding to a native JavaScript engine.
//!
//! The engine is reached through five native entry points: create a runtime,
//! create a context in it, set the calling thread's current context, run a
//! script, dispose a runtime. This crate holds the decisions of the binding
//! and none of the native calls: it says which entry point is to be invoked
//! next, takes the status and the handle that came back, and says what the
//! caller of the binding gets. The embedding code performs the calls.

pub mod engine;
pub mod handle;
pub mod laws;
pub mod protocol;
pub mod runtime;
pub mod status;

pub use handle::{ContextHandle, RuntimeAttributes, RuntimeHandle, ValueHandle};
pub use protocol::{Call, Reply};
pub use runtime::{Construction, Runtime};
pub use status::ErrorCode;
