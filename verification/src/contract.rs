//! The executor capability traits and the task-handle contract.
//!
//! Each trait is one capability a backing runtime may offer; an adapter
//! implements exactly the capabilities its runtime supports.  The contracts
//! are stated over the transitions of [`crate::model`], so every conforming
//! implementation exhibits the same observable behavior, whatever runtime is
//! underneath.

use vstd::prelude::*;

use crate::model::{
    cancel_result, cancel_step, detach_step, join_result, join_step, next_id, run_to_completion,
    spawn_step, task_live,
};
use crate::runtime::{Runtime, TaskHandle};
use crate::work::WorkUnit;

verus! {

/// The current executor does not support spawning thread-confined units.
/// Holds the unit that the caller tried to spawn, unchanged, so that the
/// caller can recover it and try another strategy instead of losing it.
#[derive(Debug, PartialEq, Eq, Structural)]
pub struct LocalExecutorError(pub WorkUnit);

/// The caller's unique capability to observe, detach or cancel one spawned
/// unit of work.
///
/// A handle is consumed by whichever of the terminal operations the caller
/// picks, so each terminal state is entered at most once; `release` is what
/// letting the handle go out of scope does, and applies the adapter's
/// documented drop policy.
pub trait Task: Sized {
    /// Which entry of the execution context this handle observes.
    spec fn id(&self) -> int;

    /// The adapter's drop policy: whether releasing the handle without an
    /// explicit choice detaches the unit (letting it run unattended) rather
    /// than canceling it.
    spec fn detaches_on_release(&self) -> bool;

    /// Cancels the unit and waits for it to actually stop running.
    ///
    /// Yields the unit's result if the unit happened to finish before the
    /// cancellation took effect, and nothing if it had not run: the race is
    /// resolved in favor of any result that was produced, never against it.
    fn cancel(self, rt: &mut Runtime) -> (r: Option<u64>)
        requires
            task_live(old(rt)@, self.id()),
        ensures
            final(rt)@ == cancel_step(old(rt)@, self.id()),
            r == cancel_result(old(rt)@, self.id()),
    ;

    /// Irrevocably abandons observation: the unit keeps running to
    /// completion on the runtime's own schedule and its result is discarded.
    /// Detaching returns at once and records nothing.
    fn detach(self, rt: &mut Runtime)
        requires
            task_live(old(rt)@, self.id()),
        ensures
            final(rt)@ == detach_step(old(rt)@, self.id()),
    ;

    /// Awaits the unit's completion and yields its result, driving the unit
    /// to completion if the runtime had not run it yet.
    fn join(self, rt: &mut Runtime) -> (r: u64)
        requires
            task_live(old(rt)@, self.id()),
        ensures
            final(rt)@ == join_step(old(rt)@, self.id()),
            r == join_result(old(rt)@, self.id()),
    ;

    /// What dropping the handle without an explicit choice does: the
    /// adapter's documented policy, either detaching the unit or canceling
    /// it with the result discarded.  Work is never left dangling.
    fn release(self, rt: &mut Runtime)
        requires
            task_live(old(rt)@, self.id()),
        ensures
            final(rt)@ == if self.detaches_on_release() {
                detach_step(old(rt)@, self.id())
            } else {
                cancel_step(old(rt)@, self.id())
            },
    ;
}

/// The capability to run asynchronous units of work: blocking on one until
/// it completes, and spawning concurrent ones.
pub trait Executor {
    /// Whether the backing runtime supports thread-confined spawning.  An
    /// adapter answers deterministically: local spawning either always
    /// succeeds or always hands the unit back.
    spec fn supports_local(&self) -> bool;

    /// Runs `w` to completion on the calling thread and only then returns:
    /// the unit's full side effect is visible the moment the call returns.
    fn block_on(&self, rt: &mut Runtime, w: WorkUnit)
        ensures
            final(rt)@ == run_to_completion(old(rt)@, w),
    ;

    /// Submits thread-safe work and immediately returns a live handle to
    /// it.  Spawning is a scheduling request: the unit is owned by the
    /// runtime from this point and runs on the runtime's own schedule,
    /// concurrently with the caller.
    fn spawn(&self, rt: &mut Runtime, w: WorkUnit) -> (h: TaskHandle)
        ensures
            final(rt)@ == spawn_step(old(rt)@, w),
            h.id() == next_id(old(rt)@),
    ;

    /// Submits work that must run on the calling thread.  Succeeds exactly
    /// when the backing runtime supports thread-confined execution; on a
    /// runtime without that capability the unexecuted unit is handed back
    /// unchanged — a discoverable capability gap, not a fatal error, and
    /// never a silent drop of the unit.
    fn spawn_local(&self, rt: &mut Runtime, w: WorkUnit) -> (r: Result<
        TaskHandle,
        LocalExecutorError,
    >)
        ensures
            r matches Ok(h) ==> self.supports_local() && final(rt)@ == spawn_step(old(rt)@, w)
                && h.id() == next_id(old(rt)@),
            r matches Err(e) ==> e.0 == w && final(rt)@ == old(rt)@,
        default_ensures
            r is Err,
    {
        Err(LocalExecutorError(w))
    }
}

/// The capability to move a synchronous, thread-safe closure onto a thread
/// where blocking is acceptable and expose its completion as awaitable.
pub trait BlockingExecutor {
    /// Runs blocking work off the cooperative threads and resolves once it
    /// has completed: when the call returns, the work has run exactly once
    /// and its side effect is visible.
    fn spawn_blocking(&self, rt: &mut Runtime, w: WorkUnit)
        ensures
            final(rt)@ == run_to_completion(old(rt)@, w),
    ;
}

/// The composed capability: anything that can both spawn asynchronous work
/// and run blocking work.
pub trait FullExecutor: Executor + BlockingExecutor {

}

impl<E: Executor + BlockingExecutor> FullExecutor for E {

}

/// A holder of an executor behaves like that executor: every capability of
/// the inner value is forwarded transparently, so shared or boxed executors
/// compose with code that is polymorphic over the capability traits.
#[derive(Debug, Clone, Copy)]
pub struct Delegate<E>(pub E);

impl<E: Executor> Executor for Delegate<E> {
    open spec fn supports_local(&self) -> bool {
        self.0.supports_local()
    }

    fn block_on(&self, rt: &mut Runtime, w: WorkUnit) {
        self.0.block_on(rt, w)
    }

    fn spawn(&self, rt: &mut Runtime, w: WorkUnit) -> (h: TaskHandle) {
        self.0.spawn(rt, w)
    }

    fn spawn_local(&self, rt: &mut Runtime, w: WorkUnit) -> (r: Result<
        TaskHandle,
        LocalExecutorError,
    >) {
        self.0.spawn_local(rt, w)
    }
}

impl<E: BlockingExecutor> BlockingExecutor for Delegate<E> {
    fn spawn_blocking(&self, rt: &mut Runtime, w: WorkUnit) {
        self.0.spawn_blocking(rt, w)
    }
}

} // verus!
