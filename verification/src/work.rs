//! The caller-supplied unit of work.

use vstd::prelude::*;

verus! {

/// A unit of work submitted to an executor.
///
/// The abstraction never looks inside the computation a caller submits; all
/// it ever relies on is that running the unit produces the unit's own result
/// and its own side effect, and nothing else.  A unit is therefore modeled by
/// the two things an observer can see of it: the side effect it records when
/// it runs (tracked under `id` in the runtime's effect log) and the `output`
/// it yields to whoever observes its completion.
#[derive(Clone, Copy, Debug, PartialEq, Eq, Structural)]
pub struct WorkUnit {
    /// Identifies the unit's side effect in the runtime's effect log.
    pub id: u64,
    /// The result the unit produces when it runs to completion.
    pub output: u64,
}

} // verus!
