//! The mathematical model of an execution context.
//!
//! A context is a table of every unit of work ever submitted to it, each
//! with its handle lifecycle and whether the runtime has run it yet, plus
//! the ordered log of side effects of the units that have run.  Every
//! operation of the executor contract is specified as a transition over
//! this model; the conformance laws are proved over these transitions.

use vstd::prelude::*;

use crate::work::WorkUnit;

verus! {

/// The lifecycle of one spawned unit, as seen through its handle.
///
/// `Running` is the only live state: the handle is outstanding and the unit
/// may or may not have produced its result yet.  The three terminal states
/// are mutually exclusive and each is entered at most once, when the handle
/// is consumed: `Completed` when its result is observed (by awaiting it, or
/// by a cancellation that arrived after the unit had finished), `Canceled`
/// when a cancellation stopped the unit before it produced a result, and
/// `Detached` when the caller irrevocably gave up observation.
#[derive(Clone, Copy, Debug, PartialEq, Eq, Structural)]
pub enum Lifecycle {
    /// The handle is outstanding; the unit is owned by the runtime.
    Running,
    /// The unit's result was observed; terminal.
    Completed,
    /// The unit was stopped before producing a result; terminal.
    Canceled,
    /// Observation rights were abandoned; the unit runs unattended; terminal.
    Detached,
}

/// One submitted unit of work, as the execution context tracks it.
#[derive(Clone, Copy, Debug, PartialEq, Eq, Structural)]
pub struct TaskEntry {
    /// The unit of work that was submitted.
    pub work: WorkUnit,
    /// Whether the runtime has run the unit to completion.
    pub finished: bool,
    /// Where the unit's handle stands in its lifecycle.
    pub lifecycle: Lifecycle,
}

impl TaskEntry {
    /// The entry a freshly spawned unit gets: not yet run, handle live.
    pub open spec fn spawned(work: WorkUnit) -> TaskEntry {
        TaskEntry { work, finished: false, lifecycle: Lifecycle::Running }
    }
}

/// The abstract state of an execution context: the submitted units and the
/// ordered log of side effects of the units that have run so far.
#[verifier::ext_equal]
pub struct Model {
    /// Every unit ever submitted, indexed by spawn order.
    pub tasks: Seq<TaskEntry>,
    /// The `id`s of the units that have run, in the order they ran.
    pub log: Seq<u64>,
}

impl Model {
    /// The empty context: nothing submitted, nothing run.
    pub open spec fn empty() -> Model {
        Model { tasks: Seq::empty(), log: Seq::empty() }
    }

    /// A unit whose result was observed must indeed have run.
    pub open spec fn wf(self) -> bool {
        forall|i: int|
            0 <= i < self.tasks.len() && #[trigger] self.tasks[i].lifecycle is Completed
                ==> self.tasks[i].finished
    }
}

/// `id` names a unit whose handle is still outstanding.
pub open spec fn task_live(m: Model, id: int) -> bool {
    &&& 0 <= id < m.tasks.len()
    &&& m.tasks[id].lifecycle is Running
}

/// Submitting a unit: it joins the table in the spawned state and nothing
/// runs yet — spawning is a scheduling request, not execution.
pub open spec fn spawn_step(m: Model, w: WorkUnit) -> Model {
    Model { tasks: m.tasks.push(TaskEntry::spawned(w)), log: m.log }
}

/// The id the next spawned unit will get.
pub open spec fn next_id(m: Model) -> int {
    m.tasks.len() as int
}

/// Whether a scheduling step may run unit `id`: the unit has not run yet and
/// was not canceled.  A detached unit keeps running on the runtime's own
/// schedule; a canceled unit never runs again.
pub open spec fn runnable(m: Model, id: int) -> bool {
    &&& 0 <= id < m.tasks.len()
    &&& !m.tasks[id].finished
    &&& (m.tasks[id].lifecycle is Running || m.tasks[id].lifecycle is Detached)
}

/// One scheduling step of the runtime itself: it runs unit `id` to
/// completion, recording the unit's side effect.  On a unit that already ran
/// or was canceled the step does nothing.
pub open spec fn run_step(m: Model, id: int) -> Model {
    if runnable(m, id) {
        Model {
            tasks: m.tasks.update(
                id,
                TaskEntry { finished: true, ..m.tasks[id] },
            ),
            log: m.log.push(m.tasks[id].work.id),
        }
    } else {
        m
    }
}

/// What canceling the unit yields: its result if the unit happened to finish
/// before the cancellation took effect, and nothing otherwise.  The race is
/// resolved in favor of the result that exists — cancellation never discards
/// an already-produced result.
pub open spec fn cancel_result(m: Model, id: int) -> Option<u64> {
    if m.tasks[id].finished {
        Some(m.tasks[id].work.output)
    } else {
        None
    }
}

/// Canceling the unit: if it had already finished, its result is observed
/// and the handle completes; otherwise the unit is stopped before ever
/// running and the handle is canceled.  Either way the unit's side effect is
/// exactly what it was — a canceled unit never runs afterwards.
pub open spec fn cancel_step(m: Model, id: int) -> Model {
    let lifecycle = if m.tasks[id].finished {
        Lifecycle::Completed
    } else {
        Lifecycle::Canceled
    };
    Model {
        tasks: m.tasks.update(id, TaskEntry { lifecycle, ..m.tasks[id] }),
        log: m.log,
    }
}

/// Detaching the unit: observation rights are abandoned, and nothing else
/// changes — in particular the unit's progress and the effect log are
/// untouched, so detaching never blocks the caller and never disturbs the
/// unit's eventual completion.
pub open spec fn detach_step(m: Model, id: int) -> Model {
    Model {
        tasks: m.tasks.update(
            id,
            TaskEntry { lifecycle: Lifecycle::Detached, ..m.tasks[id] },
        ),
        log: m.log,
    }
}

/// What awaiting the unit's handle yields: always the unit's own result.
pub open spec fn join_result(m: Model, id: int) -> u64 {
    m.tasks[id].work.output
}

/// Awaiting the unit's handle: the wait drives the unit to completion if the
/// runtime had not run it yet (recording its side effect), and the handle
/// completes with the unit's result.
pub open spec fn join_step(m: Model, id: int) -> Model {
    let ran = if m.tasks[id].finished {
        m
    } else {
        Model {
            tasks: m.tasks.update(id, TaskEntry { finished: true, ..m.tasks[id] }),
            log: m.log.push(m.tasks[id].work.id),
        }
    };
    Model {
        tasks: ran.tasks.update(
            id,
            TaskEntry { lifecycle: Lifecycle::Completed, ..ran.tasks[id] },
        ),
        log: ran.log,
    }
}

/// Running a unit inline, on the calling thread, to completion: its side
/// effect is recorded, and only then does control return to the caller.
/// This is the meaning of `block_on` and of awaited blocking work: the
/// caller sees the unit's full effect the moment the call returns.
pub open spec fn run_to_completion(m: Model, w: WorkUnit) -> Model {
    Model { tasks: m.tasks, log: m.log.push(w.id) }
}

} // verus!
