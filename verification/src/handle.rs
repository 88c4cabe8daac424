use vstd::prelude::*;

verus! {

/// Identifies one instance of the native engine. The address is the engine's
/// own; zero is the null handle.
#[derive(Clone, Copy, PartialEq, Eq, Structural, Debug)]
pub struct RuntimeHandle {
    pub addr: usize,
}

/// Identifies one execution context bound to a runtime. Zero is the null
/// handle, which stands for "no context".
#[derive(Clone, Copy, PartialEq, Eq, Structural, Debug)]
pub struct ContextHandle {
    pub addr: usize,
}

/// Identifies a value that lives in the engine's heap. The engine's collector
/// owns the value; the handle is only carried.
#[derive(Clone, Copy, PartialEq, Eq, Structural, Debug)]
pub struct ValueHandle {
    pub addr: usize,
}

/// The flag set that selects the engine's attributes for a new runtime. It is
/// handed to the engine unchanged.
#[derive(Clone, Copy, PartialEq, Eq, Structural, Debug)]
pub struct RuntimeAttributes {
    pub bits: u32,
}

impl RuntimeHandle {
    /// Whether this is the null handle.
    pub fn is_null(&self) -> (r: bool)
        ensures
            r == (self.addr == 0),
    {
        self.addr == 0
    }
}

impl ContextHandle {
    /// The handle that stands for "no context".
    pub fn null() -> (r: ContextHandle)
        ensures
            r == (ContextHandle { addr: 0 }),
    {
        ContextHandle { addr: 0 }
    }

    /// Whether this is the null handle.
    pub fn is_null(&self) -> (r: bool)
        ensures
            r == (self.addr == 0),
    {
        self.addr == 0
    }
}

impl ValueHandle {
    /// Whether this is the null handle.
    pub fn is_null(&self) -> (r: bool)
        ensures
            r == (self.addr == 0),
    {
        self.addr == 0
    }
}

} // verus!
