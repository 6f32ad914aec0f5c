//! One adapter per backing runtime.
//!
//! Each adapter is a capability token for one concrete runtime and
//! implements exactly the capabilities that runtime offers, with the
//! capability answers and the drop policy fixed per adapter and stated in
//! its contracts: whether thread-confined spawning succeeds or hands the
//! unit back, and whether releasing a handle without an explicit choice
//! detaches the unit or cancels it.

use vstd::prelude::*;

use crate::contract::{BlockingExecutor, Executor, LocalExecutorError, Task};
use crate::runtime::{Runtime, TaskHandle};
use crate::work::WorkUnit;

verus! {

/// The executor interface on top of the async-std runtime.
///
/// Supports thread-confined spawning.  Releasing a handle without an
/// explicit choice detaches the unit: its join handle lets work run on.
#[derive(Debug, Copy, Clone, PartialEq, Eq, PartialOrd, Ord)]
pub struct AsyncStd;

impl Default for AsyncStd {
    fn default() -> (r: Self)
        ensures
            r == AsyncStd,
    {
        AsyncStd
    }
}

impl Executor for AsyncStd {
    open spec fn supports_local(&self) -> bool {
        true
    }

    fn block_on(&self, rt: &mut Runtime, w: WorkUnit) {
        rt.run_inline(w)
    }

    fn spawn(&self, rt: &mut Runtime, w: WorkUnit) -> (h: TaskHandle)
        ensures
            h.detaches_on_release(),
    {
        rt.enqueue(w, true)
    }

    fn spawn_local(&self, rt: &mut Runtime, w: WorkUnit) -> (r: Result<
        TaskHandle,
        LocalExecutorError,
    >)
        ensures
            r is Ok,
    {
        Ok(rt.enqueue(w, true))
    }
}

impl BlockingExecutor for AsyncStd {
    fn spawn_blocking(&self, rt: &mut Runtime, w: WorkUnit) {
        rt.run_inline(w)
    }
}

/// The executor interface on top of the async-global-executor runtime.
///
/// Supports thread-confined spawning.  Releasing a handle without an
/// explicit choice detaches the unit rather than canceling it.
#[derive(Debug, Copy, Clone, PartialEq, Eq, PartialOrd, Ord)]
pub struct AsyncGlobalExecutor;

impl Default for AsyncGlobalExecutor {
    fn default() -> (r: Self)
        ensures
            r == AsyncGlobalExecutor,
    {
        AsyncGlobalExecutor
    }
}

impl Executor for AsyncGlobalExecutor {
    open spec fn supports_local(&self) -> bool {
        true
    }

    fn block_on(&self, rt: &mut Runtime, w: WorkUnit) {
        rt.run_inline(w)
    }

    fn spawn(&self, rt: &mut Runtime, w: WorkUnit) -> (h: TaskHandle)
        ensures
            h.detaches_on_release(),
    {
        rt.enqueue(w, true)
    }

    fn spawn_local(&self, rt: &mut Runtime, w: WorkUnit) -> (r: Result<
        TaskHandle,
        LocalExecutorError,
    >)
        ensures
            r is Ok,
    {
        Ok(rt.enqueue(w, true))
    }
}

impl BlockingExecutor for AsyncGlobalExecutor {
    fn spawn_blocking(&self, rt: &mut Runtime, w: WorkUnit) {
        rt.run_inline(w)
    }
}

/// The executor interface on top of the bastion runtime.
///
/// Has no thread-confined spawning: local work is handed back to the
/// caller.  Releasing a handle without an explicit choice cancels the unit:
/// its recoverable handle stops work that nobody observes.
#[derive(Debug, Copy, Clone, PartialEq, Eq, PartialOrd, Ord)]
pub struct Bastion;

impl Default for Bastion {
    fn default() -> (r: Self)
        ensures
            r == Bastion,
    {
        Bastion
    }
}

impl Executor for Bastion {
    open spec fn supports_local(&self) -> bool {
        false
    }

    fn block_on(&self, rt: &mut Runtime, w: WorkUnit) {
        rt.run_inline(w)
    }

    fn spawn(&self, rt: &mut Runtime, w: WorkUnit) -> (h: TaskHandle)
        ensures
            !h.detaches_on_release(),
    {
        rt.enqueue(w, false)
    }
}

impl BlockingExecutor for Bastion {
    fn spawn_blocking(&self, rt: &mut Runtime, w: WorkUnit) {
        rt.run_inline(w)
    }
}

/// The executor interface on top of the smol runtime.
///
/// Has no thread-confined spawning: local work is handed back to the
/// caller.  Releasing a handle without an explicit choice detaches the
/// unit rather than canceling it.
#[derive(Debug, Copy, Clone, PartialEq, Eq, PartialOrd, Ord)]
pub struct Smol;

impl Default for Smol {
    fn default() -> (r: Self)
        ensures
            r == Smol,
    {
        Smol
    }
}

impl Executor for Smol {
    open spec fn supports_local(&self) -> bool {
        false
    }

    fn block_on(&self, rt: &mut Runtime, w: WorkUnit) {
        rt.run_inline(w)
    }

    fn spawn(&self, rt: &mut Runtime, w: WorkUnit) -> (h: TaskHandle)
        ensures
            h.detaches_on_release(),
    {
        rt.enqueue(w, true)
    }
}

impl BlockingExecutor for Smol {
    fn spawn_blocking(&self, rt: &mut Runtime, w: WorkUnit) {
        rt.run_inline(w)
    }
}

/// The executor interface on top of the tokio runtime.
///
/// May be configured with an explicit handle to a runtime context;
/// otherwise every operation is routed to the ambient context.  Has no
/// thread-confined spawning: local work is handed back.  Releasing a
/// handle without an explicit choice detaches the unit.
#[derive(Debug, Clone)]
pub struct Tokio {
    handle: Option<u64>,
}

impl Default for Tokio {
    fn default() -> (r: Self)
        ensures
            r.configured() is None,
    {
        Tokio { handle: None }
    }
}

impl Tokio {
    /// The explicitly configured runtime context, if any.
    pub closed spec fn configured(&self) -> Option<u64> {
        self.handle
    }

    /// Configures this executor to route its work to context `handle`.
    pub fn with_handle(self, handle: u64) -> (r: Self)
        ensures
            r.configured() == Some(handle),
    {
        Tokio { handle: Some(handle) }
    }

    /// An executor attached to the currently running context, whose
    /// identity the caller hands in from its environment.
    pub fn current(ambient: u64) -> (r: Self)
        ensures
            r.configured() == Some(ambient),
    {
        Tokio { handle: Some(ambient) }
    }

    /// The configured context, if any.
    pub fn handle(&self) -> (h: Option<u64>)
        ensures
            h == self.configured(),
    {
        self.handle
    }

    /// The routing decision every operation of this adapter makes: work
    /// goes to the explicitly configured context when there is one, and to
    /// the ambient context otherwise.
    pub fn context(&self, ambient: u64) -> (c: u64)
        ensures
            c == match self.configured() {
                Some(h) => h,
                None => ambient,
            },
    {
        match self.handle {
            Some(h) => h,
            None => ambient,
        }
    }
}

impl Executor for Tokio {
    open spec fn supports_local(&self) -> bool {
        false
    }

    fn block_on(&self, rt: &mut Runtime, w: WorkUnit) {
        rt.run_inline(w)
    }

    fn spawn(&self, rt: &mut Runtime, w: WorkUnit) -> (h: TaskHandle)
        ensures
            h.detaches_on_release(),
    {
        rt.enqueue(w, true)
    }
}

impl BlockingExecutor for Tokio {
    fn spawn_blocking(&self, rt: &mut Runtime, w: WorkUnit) {
        rt.run_inline(w)
    }
}

} // verus!
