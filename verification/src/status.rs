use vstd::prelude::*;

verus! {

/// The status that every native entry point returns, as the number the engine
/// gave. Zero means success; every other number is a failure kind of the
/// engine's own, which this crate hands on as it is.
#[derive(Clone, Copy, PartialEq, Eq, Structural, Debug)]
pub struct ErrorCode {
    pub code: u32,
}

impl ErrorCode {
    /// Whether the status is the engine's "no error".
    pub open spec fn succeeded(self) -> bool {
        self.code == 0
    }

    /// Whether the status is the engine's "no error".
    pub fn is_success(&self) -> (r: bool)
        ensures
            r == self.succeeded(),
    {
        self.code == 0
    }
}

} // verus!
