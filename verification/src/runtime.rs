use vstd::prelude::*;
use crate::handle::{ContextHandle, RuntimeAttributes, RuntimeHandle, ValueHandle};
use crate::protocol::{Call, Reply};
use crate::status::ErrorCode;

verus! {

/// A runtime of the native engine together with its one context.
///
/// Both handles were created by one construction and are never replaced. The
/// value cannot be copied: it is given up to `dispose`, once.
#[derive(PartialEq, Eq, Debug)]
pub struct Runtime {
    rt: RuntimeHandle,
    cx: ContextHandle,
}

/// The construction of a `Runtime`, between two native calls.
///
/// `pending` names the call to make; `advance` takes what the engine
/// answered. `Ready` and `Failed` are final: nothing is pending there, and
/// `finish` gives the result.
#[derive(PartialEq, Eq, Debug)]
pub enum Construction {
    /// The runtime is to be created.
    CreatingRuntime { attributes: RuntimeAttributes },
    /// The runtime exists; its context is to be created.
    CreatingContext { rt: RuntimeHandle },
    /// Runtime and context exist; the context is to be made current.
    Activating { rt: RuntimeHandle, cx: ContextHandle },
    /// A step after the runtime's creation failed with `status`; the runtime
    /// is to be disposed, so that a failed construction holds nothing.
    Releasing { rt: RuntimeHandle, status: ErrorCode },
    /// All three calls succeeded.
    Ready { rt: RuntimeHandle, cx: ContextHandle },
    /// Construction failed with `status`.
    Failed { status: ErrorCode },
}

/// The two calls that release a runtime, in their order: clear the thread's
/// current context, then dispose the runtime.
pub open spec fn teardown_calls(rt: RuntimeHandle) -> (Call, Call) {
    (Call::SetCurrentContext { cx: ContextHandle { addr: 0 } }, Call::DisposeRuntime { rt })
}

/// The outcome of a construction that yielded a runtime with these handles.
pub open spec fn built(rt: RuntimeHandle, cx: ContextHandle) -> Option<
    Result<(RuntimeHandle, ContextHandle), ErrorCode>,
> {
    Some(Ok((rt, cx)))
}

/// The outcome of a construction that failed with this status.
pub open spec fn failed(status: ErrorCode) -> Option<
    Result<(RuntimeHandle, ContextHandle), ErrorCode>,
> {
    Some(Err(status))
}

impl Construction {
    /// The native call that this state waits for, if any.
    pub open spec fn pending_call(self) -> Option<Call> {
        match self {
            Construction::CreatingRuntime { attributes } => Some(
                Call::CreateRuntime { attributes },
            ),
            Construction::CreatingContext { rt } => Some(Call::CreateContext { rt }),
            Construction::Activating { rt, cx } => Some(Call::SetCurrentContext { cx }),
            Construction::Releasing { rt, status } => Some(Call::DisposeRuntime { rt }),
            Construction::Ready { rt, cx } => None,
            Construction::Failed { status } => None,
        }
    }

    /// The state after the engine answered the pending call with `reply`.
    ///
    /// A success moves on to the next call, with the handle that the engine
    /// wrote. A failure ends the construction with the engine's status, after
    /// the runtime, if one was obtained, has been disposed. The status of that
    /// disposal is not looked at. A final state stays as it is.
    pub open spec fn advanced(self, reply: Reply) -> Construction {
        match self {
            Construction::CreatingRuntime { attributes } => if reply.status.succeeded() {
                Construction::CreatingContext { rt: RuntimeHandle { addr: reply.out } }
            } else {
                Construction::Failed { status: reply.status }
            },
            Construction::CreatingContext { rt } => if reply.status.succeeded() {
                Construction::Activating { rt, cx: ContextHandle { addr: reply.out } }
            } else {
                Construction::Releasing { rt, status: reply.status }
            },
            Construction::Activating { rt, cx } => if reply.status.succeeded() {
                Construction::Ready { rt, cx }
            } else {
                Construction::Releasing { rt, status: reply.status }
            },
            Construction::Releasing { rt, status } => Construction::Failed { status },
            Construction::Ready { rt, cx } => self,
            Construction::Failed { status } => self,
        }
    }

    /// The result of a construction that is over: the handles of the new
    /// runtime, or the status it failed with. `None` while a call is pending.
    pub open spec fn outcome(self) -> Option<Result<(RuntimeHandle, ContextHandle), ErrorCode>> {
        match self {
            Construction::Ready { rt, cx } => built(rt, cx),
            Construction::Failed { status } => failed(status),
            _ => None,
        }
    }

    /// The native call to make now, or `None` when the construction is over.
    pub fn pending(&self) -> (r: Option<Call>)
        ensures
            r == self.pending_call(),
    {
        match self {
            Construction::CreatingRuntime { attributes } => Some(
                Call::CreateRuntime { attributes: *attributes },
            ),
            Construction::CreatingContext { rt } => Some(Call::CreateContext { rt: *rt }),
            Construction::Activating { rt: _, cx } => Some(Call::SetCurrentContext { cx: *cx }),
            Construction::Releasing { rt, status: _ } => Some(Call::DisposeRuntime { rt: *rt }),
            Construction::Ready { .. } => None,
            Construction::Failed { .. } => None,
        }
    }

    /// Takes the engine's answer to the pending call and moves on.
    pub fn advance(self, reply: Reply) -> (r: Construction)
        ensures
            r == self.advanced(reply),
    {
        let accepted = reply.status.is_success();
        match self {
            Construction::CreatingRuntime { attributes: _ } => {
                if accepted {
                    Construction::CreatingContext { rt: RuntimeHandle { addr: reply.out } }
                } else {
                    Construction::Failed { status: reply.status }
                }
            },
            Construction::CreatingContext { rt } => {
                if accepted {
                    Construction::Activating { rt, cx: ContextHandle { addr: reply.out } }
                } else {
                    Construction::Releasing { rt, status: reply.status }
                }
            },
            Construction::Activating { rt, cx } => {
                if accepted {
                    Construction::Ready { rt, cx }
                } else {
                    Construction::Releasing { rt, status: reply.status }
                }
            },
            Construction::Releasing { rt: _, status } => Construction::Failed { status },
            Construction::Ready { rt, cx } => Construction::Ready { rt, cx },
            Construction::Failed { status } => Construction::Failed { status },
        }
    }

    /// Ends the construction: the runtime, or the engine's status. While a
    /// call is pending the construction comes back unchanged.
    pub fn finish(self) -> (r: Result<Result<Runtime, ErrorCode>, Construction>)
        ensures
            match r {
                Ok(Ok(runtime)) => self.outcome() == built(runtime.handle(), runtime.context()),
                Ok(Err(status)) => self.outcome() == failed(status),
                Err(unfinished) => self.outcome() is None && unfinished == self,
            },
            r is Err <==> self.pending_call() is Some,
    {
        match self {
            Construction::Ready { rt, cx } => Ok(Ok(Runtime { rt, cx })),
            Construction::Failed { status } => Ok(Err(status)),
            unfinished => Err(unfinished),
        }
    }
}

impl Runtime {
    /// The runtime handle that this value owns.
    pub closed spec fn handle(self) -> RuntimeHandle {
        self.rt
    }

    /// The context handle that this value owns.
    pub closed spec fn context(self) -> ContextHandle {
        self.cx
    }

    /// Starts the construction of a runtime with the given attributes. The
    /// first call to make is the creation of the native runtime.
    pub fn new(attributes: RuntimeAttributes) -> (r: Construction)
        ensures
            r == (Construction::CreatingRuntime { attributes }),
    {
        Construction::CreatingRuntime { attributes }
    }

    /// The runtime handle, for native calls that this crate does not cover.
    /// Ownership stays here.
    pub fn rt(&self) -> (r: RuntimeHandle)
        ensures
            r == self.handle(),
    {
        self.rt
    }

    /// The context handle, for native calls that this crate does not cover.
    /// Ownership stays here.
    pub fn cx(&self) -> (r: ContextHandle)
        ensures
            r == self.context(),
    {
        self.cx
    }

    /// The result of running a script, from what the engine's "run script"
    /// entry point answered: the value handle it wrote where its status is
    /// success, else its status and no value.
    ///
    /// The script runs in the thread's current context. This runtime's context
    /// was made current by its construction; whoever set another one since
    /// has to set this one again before the script is run.
    pub fn run_script(&self, reply: Reply) -> (r: Result<ValueHandle, ErrorCode>)
        ensures
            reply.status.succeeded() ==> r == Ok::<ValueHandle, ErrorCode>(
                ValueHandle { addr: reply.out },
            ),
            !reply.status.succeeded() ==> r == Err::<ValueHandle, ErrorCode>(reply.status),
    {
        if reply.status.is_success() {
            Ok(ValueHandle { addr: reply.out })
        } else {
            Err(reply.status)
        }
    }

    /// Gives the runtime up. The two calls that come back are to be made in
    /// their order, whatever the first one answers; their statuses are of no
    /// interest. The value is gone afterwards, so a runtime is disposed once.
    pub fn dispose(self) -> (r: (Call, Call))
        ensures
            r == teardown_calls(self.handle()),
    {
        (Call::SetCurrentContext { cx: ContextHandle::null() }, Call::DisposeRuntime { rt: self.rt })
    }
}

} // verus!
