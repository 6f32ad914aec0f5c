//! The execution context and the concrete task handle.
//!
//! [`Runtime`] stands for the ambient execution context an adapter submits
//! work to: the table of submitted units and the log of side effects of the
//! units that have run.  Adapters never own it; they receive it the way a
//! real adapter reaches the currently active runtime instance.  Its
//! scheduling step, [`Runtime::tick`], is how the context runs a unit on
//! its own schedule, concurrently with the caller.

use vstd::prelude::*;

use crate::contract::Task;
use crate::model::{
    cancel_step, detach_step, join_step, next_id, run_step, run_to_completion, spawn_step,
    Lifecycle, Model, TaskEntry,
};
use crate::work::WorkUnit;

verus! {

/// An execution context: every unit ever submitted to it, and the ordered
/// log of the side effects of the units that have run.
#[derive(Debug)]
pub struct Runtime {
    tasks: Vec<TaskEntry>,
    log: Vec<u64>,
}

impl View for Runtime {
    type V = Model;

    closed spec fn view(&self) -> Model {
        Model { tasks: self.tasks@, log: self.log@ }
    }
}

/// The unique handle to one spawned unit of work.
///
/// Only spawning creates a handle, a handle cannot be cloned, and every
/// terminal operation consumes it: at most one handle observes a given unit,
/// and each unit's lifecycle leaves its live state at most once.
#[derive(Debug)]
pub struct TaskHandle {
    id: usize,
    detach_on_release: bool,
}

impl Runtime {
    /// A fresh context with nothing submitted and nothing run.
    pub fn new() -> (rt: Runtime)
        ensures
            rt@ == Model::empty(),
    {
        let rt = Runtime { tasks: Vec::new(), log: Vec::new() };
        rt
    }

    /// Enters `w` into the table in the spawned state and hands out its
    /// handle, carrying the spawning adapter's drop policy.  Nothing runs
    /// yet: submission only schedules.
    pub fn enqueue(&mut self, w: WorkUnit, detach_on_release: bool) -> (h: TaskHandle)
        ensures
            final(self)@ == spawn_step(old(self)@, w),
            h.id() == next_id(old(self)@),
            h.detaches_on_release() == detach_on_release,
    {
        let id = self.tasks.len();
        self.tasks.push(TaskEntry { work: w, finished: false, lifecycle: Lifecycle::Running });
        TaskHandle { id, detach_on_release }
    }

    /// Runs `w` inline, on the calling thread, to completion: its side
    /// effect is recorded and only then does the call return.
    pub fn run_inline(&mut self, w: WorkUnit)
        ensures
            final(self)@ == run_to_completion(old(self)@, w),
    {
        self.log.push(w.id);
    }

    /// One scheduling step of the context itself: runs unit `id` to
    /// completion and records its side effect, unless the unit already ran
    /// or was canceled, in which case nothing happens.  This is the
    /// concurrency of the model: the context may take this step at any
    /// point between the caller's own operations.
    pub fn tick(&mut self, id: usize)
        requires
            id < old(self)@.tasks.len(),
        ensures
            final(self)@ == run_step(old(self)@, id as int),
    {
        let entry = self.tasks[id];
        let can_run = !entry.finished && (matches!(entry.lifecycle, Lifecycle::Running)
            || matches!(entry.lifecycle, Lifecycle::Detached));
        if can_run {
            self.tasks[id] = TaskEntry { finished: true, ..entry };
            self.log.push(entry.work.id);
        }
    }

    /// How many units were ever submitted to this context.
    pub fn task_count(&self) -> (n: usize)
        ensures
            n == self@.tasks.len(),
    {
        self.tasks.len()
    }

    /// How many side effects have been recorded so far.
    pub fn effect_count(&self) -> (n: usize)
        ensures
            n == self@.log.len(),
    {
        self.log.len()
    }

    /// The `i`-th recorded side effect.
    pub fn effect_at(&self, i: usize) -> (e: u64)
        requires
            i < self@.log.len(),
        ensures
            e == self@.log[i as int],
    {
        self.log[i]
    }

    /// Whether the unit with effect mark `id` has run: whether its side
    /// effect stands in the log.
    pub fn has_effect(&self, id: u64) -> (b: bool)
        ensures
            b == self@.log.contains(id),
    {
        let mut i: usize = 0;
        while i < self.log.len()
            invariant
                i <= self@.log.len(),
                forall|j: int| 0 <= j < i ==> self@.log[j] != id,
            decreases self@.log.len() - i,
        {
            if self.log[i] == id {
                return true;
            }
            i += 1;
        }
        false
    }

    /// Where unit `id` stands in its lifecycle.
    pub fn task_state(&self, id: usize) -> (s: Lifecycle)
        requires
            id < self@.tasks.len(),
        ensures
            s == self@.tasks[id as int].lifecycle,
    {
        self.tasks[id].lifecycle
    }

    /// Whether the context has run unit `id` to completion.
    pub fn task_finished(&self, id: usize) -> (b: bool)
        requires
            id < self@.tasks.len(),
        ensures
            b == self@.tasks[id as int].finished,
    {
        self.tasks[id].finished
    }

    /// Replaces the lifecycle of unit `id`, leaving everything else as is.
    fn set_lifecycle(&mut self, id: usize, lifecycle: Lifecycle)
        requires
            id < old(self)@.tasks.len(),
        ensures
            final(self)@ == (Model {
                tasks: old(self)@.tasks.update(
                    id as int,
                    TaskEntry { lifecycle, ..old(self)@.tasks[id as int] },
                ),
                log: old(self)@.log,
            }),
    {
        let entry = self.tasks[id];
        self.tasks[id] = TaskEntry { lifecycle, ..entry };
    }
}

impl TaskHandle {
    /// The index of the handle's task id, for driving [`Runtime::tick`].
    pub fn index(&self) -> (i: usize)
        ensures
            i == self.id(),
    {
        self.id
    }
}

impl Task for TaskHandle {
    closed spec fn id(&self) -> int {
        self.id as int
    }

    closed spec fn detaches_on_release(&self) -> bool {
        self.detach_on_release
    }

    fn cancel(self, rt: &mut Runtime) -> (r: Option<u64>) {
        let entry = rt.tasks[self.id];
        if entry.finished {
            rt.set_lifecycle(self.id, Lifecycle::Completed);
            Some(entry.work.output)
        } else {
            rt.set_lifecycle(self.id, Lifecycle::Canceled);
            None
        }
    }

    fn detach(self, rt: &mut Runtime) {
        rt.set_lifecycle(self.id, Lifecycle::Detached);
    }

    fn join(self, rt: &mut Runtime) -> (r: u64) {
        let entry = rt.tasks[self.id];
        if !entry.finished {
            rt.tasks[self.id] = TaskEntry { finished: true, ..entry };
            rt.log.push(entry.work.id);
        }
        rt.set_lifecycle(self.id, Lifecycle::Completed);
        entry.work.output
    }

    fn release(self, rt: &mut Runtime) {
        if self.detach_on_release {
            self.detach(rt);
        } else {
            let _ = self.cancel(rt);
        }
    }
}

} // verus!
