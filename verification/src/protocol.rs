use vstd::prelude::*;
use crate::handle::{ContextHandle, RuntimeAttributes, RuntimeHandle};
use crate::status::ErrorCode;

verus! {

/// A native entry point to invoke, with its arguments.
#[derive(Clone, Copy, PartialEq, Eq, Structural, Debug)]
pub enum Call {
    /// Create a runtime with these attributes and the engine's default
    /// memory handling.
    CreateRuntime { attributes: RuntimeAttributes },
    /// Create a context bound to this runtime.
    CreateContext { rt: RuntimeHandle },
    /// Make this context the calling thread's current one; the null handle
    /// clears the slot.
    SetCurrentContext { cx: ContextHandle },
    /// Dispose this runtime, and with it its contexts and values.
    DisposeRuntime { rt: RuntimeHandle },
}

/// What a native entry point gave back: its status, and the address it wrote
/// to its output parameter (zero where it has none or wrote nothing).
#[derive(Clone, Copy, PartialEq, Eq, Structural, Debug)]
pub struct Reply {
    pub status: ErrorCode,
    pub out: usize,
}

} // verus!
