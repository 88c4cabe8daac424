use vstd::prelude::*;
use crate::handle::{ContextHandle, RuntimeHandle};
use crate::protocol::{Call, Reply};

verus! {

/// What the native engine holds for the calling thread, as far as the
/// lifecycle of a runtime touches it: the thread's single current-context
/// slot, and the runtimes that were created and not yet disposed. A value of
/// this type exists in proofs only.
pub struct Engine {
    pub current: ContextHandle,
    pub live: Set<RuntimeHandle>,
}

impl Engine {
    /// A thread on which nothing was created and no context is current.
    pub open spec fn idle() -> Engine {
        Engine { current: ContextHandle { addr: 0 }, live: Set::empty() }
    }

    /// The engine after it answered `call` with `reply`. A call that the
    /// engine refused changes nothing. The slot holds whatever was set last.
    pub open spec fn after(self, call: Call, reply: Reply) -> Engine {
        if !reply.status.succeeded() {
            self
        } else {
            match call {
                Call::CreateRuntime { attributes } => Engine {
                    current: self.current,
                    live: self.live.insert(RuntimeHandle { addr: reply.out }),
                },
                Call::CreateContext { rt } => self,
                Call::SetCurrentContext { cx } => Engine { current: cx, live: self.live },
                Call::DisposeRuntime { rt } => Engine {
                    current: self.current,
                    live: self.live.remove(rt),
                },
            }
        }
    }
}

} // verus!
