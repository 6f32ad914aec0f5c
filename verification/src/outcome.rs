//! Settling what a backing runtime reports about a spawned unit.
//!
//! A real runtime answers a join, a poll or a cancellation with one of two
//! reports: the unit finished and produced its value, or the unit was
//! stopped before producing one.  What that report means to the caller
//! depends on which operation was in flight; these decisions are the
//! per-report policy every adapter applies, and an adapter's glue feeds the
//! report straight into them.

use vstd::prelude::*;

verus! {

/// What a backing runtime reports when a spawned unit is joined or polled
/// to its end: the unit ran and produced its value, or it was stopped
/// before producing one.
#[derive(Debug, Clone, Copy, PartialEq, Eq)]
pub enum JoinOutcome<T> {
    /// The unit ran to completion and produced this value.
    Finished(T),
    /// The unit was stopped before it produced a value.
    Stopped,
}

/// An unrecoverable contract violation at the adapter boundary.  The
/// awaited result can never be produced, so the condition is raised loudly
/// to the caller of the operation that hit it, never swallowed into a
/// fabricated default value.
#[derive(Debug, Clone, Copy, PartialEq, Eq, Structural)]
pub enum FatalError {
    /// A unit the caller was merely awaiting was forcibly stopped by some
    /// other mechanism, such as a runtime shutdown.
    AwaitedTaskStopped,
    /// The runtime's blocking pool failed to run a blocking unit at all.
    BlockingTaskFailed,
}

/// Settles the report of a unit the caller was awaiting for completion.
/// A stop while nobody asked for one means the result can never arrive:
/// that is the unrecoverable condition, surfaced explicitly.
pub fn settle_awaited<T>(o: JoinOutcome<T>) -> (r: Result<T, FatalError>)
    ensures
        r == match o {
            JoinOutcome::Finished(v) => Ok::<T, FatalError>(v),
            JoinOutcome::Stopped => Err::<T, FatalError>(FatalError::AwaitedTaskStopped),
        },
{
    match o {
        JoinOutcome::Finished(v) => Ok(v),
        JoinOutcome::Stopped => Err(FatalError::AwaitedTaskStopped),
    }
}

/// Settles the report of a unit the caller canceled: the cancellation race
/// is resolved in favor of any result that exists.  A unit that finished
/// before the stop took effect keeps its result; only a unit that was
/// stopped short yields nothing.
pub fn settle_canceled<T>(o: JoinOutcome<T>) -> (r: Option<T>)
    ensures
        r == match o {
            JoinOutcome::Finished(v) => Some(v),
            JoinOutcome::Stopped => None::<T>,
        },
{
    match o {
        JoinOutcome::Finished(v) => Some(v),
        JoinOutcome::Stopped => None,
    }
}

/// Settles the report of a blocking unit handed to the runtime's blocking
/// pool.  The pool runs the unit exactly once or not at all: a report that
/// it could not be run is the unrecoverable condition, raised rather than
/// waited out.
pub fn settle_blocking<T>(o: JoinOutcome<T>) -> (r: Result<T, FatalError>)
    ensures
        r == match o {
            JoinOutcome::Finished(v) => Ok::<T, FatalError>(v),
            JoinOutcome::Stopped => Err::<T, FatalError>(FatalError::BlockingTaskFailed),
        },
{
    match o {
        JoinOutcome::Finished(v) => Ok(v),
        JoinOutcome::Stopped => Err(FatalError::BlockingTaskFailed),
    }
}

} // verus!
