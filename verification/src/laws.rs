use vstd::prelude::*;
use crate::engine::Engine;
use crate::handle::{ContextHandle, RuntimeAttributes, RuntimeHandle};
use crate::protocol::{Call, Reply};
use crate::runtime::{built, failed, teardown_calls, Construction, Runtime};

verus! {

/// A construction under way, together with the engine that answers it. A
/// value of this type exists in proofs only.
pub struct Session {
    pub state: Construction,
    pub engine: Engine,
}

impl Session {
    /// A construction that has made no call yet, on the given engine.
    pub open spec fn start(attributes: RuntimeAttributes, engine: Engine) -> Session {
        Session { state: Construction::CreatingRuntime { attributes }, engine }
    }

    /// One exchange: the pending call is made and the engine answers it with
    /// `reply`. Where nothing is pending, no call is made and `reply` is not
    /// looked at.
    pub open spec fn step(self, reply: Reply) -> Session {
        match self.state.pending_call() {
            Some(call) => Session {
                state: self.state.advanced(reply),
                engine: self.engine.after(call, reply),
            },
            None => self,
        }
    }
}

/// The engine after the two calls that release `rt` were made and answered
/// with `cleared` and `disposed`.
pub open spec fn released(
    engine: Engine,
    rt: RuntimeHandle,
    cleared: Reply,
    disposed: Reply,
) -> Engine {
    engine.after(teardown_calls(rt).0, cleared).after(teardown_calls(rt).1, disposed)
}

/// A construction either waits for a call or has a result, never both.
pub proof fn pending_or_over(state: Construction)
    ensures
        state.pending_call() is Some <==> state.outcome() is None,
{
}

/// Every construction is over after at most four answers, whatever they are:
/// nothing is pending then, and the result is there.
pub proof fn construction_ends(
    attributes: RuntimeAttributes,
    r1: Reply,
    r2: Reply,
    r3: Reply,
    r4: Reply,
)
    ensures
        ({
            let end = Construction::CreatingRuntime { attributes }.advanced(r1).advanced(
                r2,
            ).advanced(r3).advanced(r4);
            end.pending_call() is None && end.outcome() is Some
        }),
{
}

/// What a construction asks of the engine, call by call: a runtime with the
/// attributes it was started with, unchanged; then a context in the runtime
/// that the engine has just written; then that this context, as the engine
/// wrote it, be the thread's current one.
pub proof fn construction_calls(attributes: RuntimeAttributes, r1: Reply, r2: Reply)
    requires
        r1.status.succeeded(),
        r2.status.succeeded(),
    ensures
        ({
            let start = Construction::CreatingRuntime { attributes };
            let rt = RuntimeHandle { addr: r1.out };
            let cx = ContextHandle { addr: r2.out };
            &&& start.pending_call() == Some(Call::CreateRuntime { attributes })
            &&& start.advanced(r1).pending_call() == Some(Call::CreateContext { rt })
            &&& start.advanced(r1).advanced(r2).pending_call() == Some(
                Call::SetCurrentContext { cx },
            )
        }),
{
}

/// A construction yields a runtime exactly when the engine accepted the
/// creation of the runtime, the creation of the context and the activation
/// of the context. The runtime then holds the two handles that the engine
/// wrote. Otherwise the construction fails with the status of the first call
/// that the engine refused.
pub proof fn construction_result(
    attributes: RuntimeAttributes,
    r1: Reply,
    r2: Reply,
    r3: Reply,
    r4: Reply,
)
    ensures
        ({
            let end = Construction::CreatingRuntime { attributes }.advanced(r1).advanced(
                r2,
            ).advanced(r3).advanced(r4);
            let rt = RuntimeHandle { addr: r1.out };
            let cx = ContextHandle { addr: r2.out };
            let all = r1.status.succeeded() && r2.status.succeeded() && r3.status.succeeded();
            &&& all ==> end.outcome() == built(rt, cx)
            &&& !r1.status.succeeded() ==> end.outcome() == failed(r1.status)
            &&& r1.status.succeeded() && !r2.status.succeeded() ==> end.outcome() == failed(r2.status)
            &&& r1.status.succeeded() && r2.status.succeeded() && !r3.status.succeeded()
                ==> end.outcome() == failed(r3.status)
        }),
{
}

/// A runtime that a construction yielded holds a non-null runtime handle and
/// a non-null context handle. This is stated for an engine that writes no
/// null handle where it answers with success.
pub proof fn constructed_handles_are_not_null(
    attributes: RuntimeAttributes,
    r1: Reply,
    r2: Reply,
    r3: Reply,
    runtime: Runtime,
)
    requires
        (Construction::CreatingRuntime { attributes }).advanced(r1).advanced(r2).advanced(r3)
            .outcome() == built(runtime.handle(), runtime.context()),
        r1.status.succeeded() ==> r1.out != 0,
        r2.status.succeeded() ==> r2.out != 0,
    ensures
        runtime.handle().addr != 0,
        runtime.context().addr != 0,
{
}

/// Where the engine refuses to create the runtime, the construction is over
/// at once: it fails with that status, and no further call is made.
pub proof fn refused_runtime_ends_construction(attributes: RuntimeAttributes, r1: Reply)
    requires
        !r1.status.succeeded(),
    ensures
        ({
            let end = Construction::CreatingRuntime { attributes }.advanced(r1);
            end.pending_call() is None && end.outcome() == failed(r1.status)
        }),
{
}

/// After a successful construction the new context is the thread's current
/// one, and the new runtime is among the live ones, whatever the engine held
/// before.
pub proof fn construction_activates_context(
    attributes: RuntimeAttributes,
    engine: Engine,
    r1: Reply,
    r2: Reply,
    r3: Reply,
)
    requires
        r1.status.succeeded(),
        r2.status.succeeded(),
        r3.status.succeeded(),
    ensures
        ({
            let end = Session::start(attributes, engine).step(r1).step(r2).step(r3);
            &&& end.state.outcome() == built(RuntimeHandle { addr: r1.out }, ContextHandle { addr: r2.out })
            &&& end.engine.current == (ContextHandle { addr: r2.out })
            &&& end.engine.live.contains(RuntimeHandle { addr: r1.out })
        }),
{
}

/// A construction that fails leaves the engine as it found it: the thread's
/// current context is the one from before, and so are the live runtimes. This
/// is stated for an engine that hands out a runtime handle that is not in use
/// and that accepts the disposal of the runtime it has just created.
pub proof fn failed_construction_holds_nothing(
    attributes: RuntimeAttributes,
    engine: Engine,
    r1: Reply,
    r2: Reply,
    r3: Reply,
    r4: Reply,
)
    requires
        !engine.live.contains(RuntimeHandle { addr: r1.out }),
        !(r1.status.succeeded() && r2.status.succeeded() && r3.status.succeeded()),
        r1.status.succeeded() && !r2.status.succeeded() ==> r3.status.succeeded(),
        r1.status.succeeded() && r2.status.succeeded() ==> r4.status.succeeded(),
    ensures
        ({
            let end = Session::start(attributes, engine).step(r1).step(r2).step(r3).step(r4);
            &&& end.state is Failed
            &&& end.engine.current == engine.current
            &&& end.engine.live =~= engine.live
        }),
{
}

/// Disposal makes two calls: it clears the thread's current context, then
/// disposes the runtime that the value owns. On an engine that accepts both,
/// no context is current afterwards and the runtime is no longer live; the
/// other live runtimes stay.
pub proof fn disposal_clears_and_releases(
    runtime: Runtime,
    engine: Engine,
    cleared: Reply,
    disposed: Reply,
)
    requires
        cleared.status.succeeded(),
        disposed.status.succeeded(),
    ensures
        ({
            let end = released(engine, runtime.handle(), cleared, disposed);
            &&& end.current == (ContextHandle { addr: 0 })
            &&& end.live =~= engine.live.remove(runtime.handle())
        }),
{
}

/// Two runtimes, each constructed and then disposed, one after the other on
/// an idle thread, leave the thread idle: no context is current after the
/// first disposal, and after the second none is current and no runtime is
/// live. This is stated for an engine that accepts every call.
pub proof fn sequential_runtimes_leave_nothing(
    first: RuntimeAttributes,
    second: RuntimeAttributes,
    a: Seq<Reply>,
    b: Seq<Reply>,
)
    requires
        a.len() == 5,
        b.len() == 5,
        forall|i: int| 0 <= i < 5 ==> (#[trigger] a[i]).status.succeeded(),
        forall|i: int| 0 <= i < 5 ==> (#[trigger] b[i]).status.succeeded(),
    ensures
        ({
            let one = Session::start(first, Engine::idle()).step(a[0]).step(a[1]).step(a[2]);
            let between = released(one.engine, RuntimeHandle { addr: a[0].out }, a[3], a[4]);
            let two = Session::start(second, between).step(b[0]).step(b[1]).step(b[2]);
            let end = released(two.engine, RuntimeHandle { addr: b[0].out }, b[3], b[4]);
            &&& one.state is Ready
            &&& one.engine.current == (ContextHandle { addr: a[1].out })
            &&& between =~= Engine::idle()
            &&& two.state is Ready
            &&& two.engine.current == (ContextHandle { addr: b[1].out })
            &&& end =~= Engine::idle()
        }),
{
    let one = Session::start(first, Engine::idle()).step(a[0]).step(a[1]).step(a[2]);
    let between = released(one.engine, RuntimeHandle { addr: a[0].out }, a[3], a[4]);
    assert(between.live =~= Set::<RuntimeHandle>::empty());
    assert(between =~= Engine::idle());
    let two = Session::start(second, between).step(b[0]).step(b[1]).step(b[2]);
    let end = released(two.engine, RuntimeHandle { addr: b[0].out }, b[3], b[4]);
    assert(end.live =~= Set::<RuntimeHandle>::empty());
}

} // verus!
