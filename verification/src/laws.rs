//! The cross-operation guarantees of the contract, proved once over the
//! model transitions and therefore holding of every conforming adapter.

use vstd::prelude::*;

use crate::model::{
    cancel_result, cancel_step, detach_step, join_result, join_step, next_id, run_step,
    runnable, spawn_step, task_live, Lifecycle, Model, TaskEntry,
};
use crate::work::WorkUnit;

verus! {

/// Independently spawned units never cross-talk: after spawning two units,
/// awaiting each handle yields that unit's own result, in whichever order
/// the handles are awaited — the later spawn and the other join leave each
/// unit's result untouched.
pub proof fn lemma_no_cross_talk(m: Model, w1: WorkUnit, w2: WorkUnit)
    ensures
        ({
            let m2 = spawn_step(spawn_step(m, w1), w2);
            let id1 = next_id(m);
            let id2 = next_id(spawn_step(m, w1));
            &&& join_result(m2, id1) == w1.output
            &&& join_result(m2, id2) == w2.output
            &&& join_result(join_step(m2, id2), id1) == w1.output
            &&& join_result(join_step(m2, id1), id2) == w2.output
        }),
{
}

/// Submitting a whole batch of units, one spawn after another.
pub open spec fn spawn_all(m: Model, ws: Seq<WorkUnit>) -> Model
    decreases ws.len(),
{
    if ws.len() == 0 {
        m
    } else {
        spawn_all(spawn_step(m, ws[0]), ws.drop_first())
    }
}

/// A batch of spawns leaves everything that was already there exactly as
/// it was, runs nothing, and adds one entry per unit.
pub proof fn lemma_spawn_all_frames(m: Model, ws: Seq<WorkUnit>)
    ensures
        spawn_all(m, ws).tasks.len() == m.tasks.len() + ws.len(),
        spawn_all(m, ws).log == m.log,
        forall|j: int|
            0 <= j < m.tasks.len() ==> #[trigger] spawn_all(m, ws).tasks[j] == m.tasks[j],
    decreases ws.len(),
{
    if ws.len() > 0 {
        lemma_spawn_all_frames(spawn_step(m, ws[0]), ws.drop_first());
    }
}

/// However many independent units are spawned, each handle observes its
/// own unit: after any batch of spawns, the entry behind the `i`-th new
/// handle is exactly the `i`-th unit, fresh and live, and awaiting that
/// handle yields that unit's own result — no cross-talk, whatever the
/// submission order put around it.
pub proof fn lemma_each_unit_keeps_its_own_result(m: Model, ws: Seq<WorkUnit>, i: int)
    requires
        0 <= i < ws.len(),
    ensures
        spawn_all(m, ws).tasks[m.tasks.len() + i] == TaskEntry::spawned(ws[i]),
        task_live(spawn_all(m, ws), m.tasks.len() + i),
        join_result(spawn_all(m, ws), m.tasks.len() + i) == ws[i].output,
    decreases ws.len(),
{
    lemma_spawn_all_frames(m, ws);
    let m1 = spawn_step(m, ws[0]);
    if i == 0 {
        lemma_spawn_all_frames(m1, ws.drop_first());
        assert(spawn_all(m, ws).tasks[m.tasks.len() as int] == m1.tasks[m.tasks.len() as int]);
    } else {
        lemma_each_unit_keeps_its_own_result(m1, ws.drop_first(), i - 1);
        assert(ws.drop_first()[i - 1] == ws[i]);
    }
}

/// A spawn touches no unit that was already submitted: every existing
/// entry, and in particular every existing unit's result, is left as it
/// was, and the effect log does not move.
pub proof fn lemma_spawn_frames_others(m: Model, w: WorkUnit, other: int)
    requires
        0 <= other < m.tasks.len(),
    ensures
        spawn_step(m, w).tasks[other] == m.tasks[other],
        spawn_step(m, w).log == m.log,
{
}

/// Awaiting one unit touches no other: every other entry is left as it
/// was, so results can be collected in any order.
pub proof fn lemma_join_frames_others(m: Model, id: int, other: int)
    requires
        0 <= id < m.tasks.len(),
        0 <= other < m.tasks.len(),
        other != id,
    ensures
        join_step(m, id).tasks[other] == m.tasks[other],
{
}

/// Canceling a unit that has not yet run yields no result, leaves the unit
/// canceled, and stops it for good: no later scheduling step of the
/// runtime ever runs it, so its side effect never appears.
pub proof fn lemma_cancel_before_run(m: Model, w: WorkUnit)
    ensures
        ({
            let m1 = spawn_step(m, w);
            let id = next_id(m);
            &&& cancel_result(m1, id) is None
            &&& cancel_step(m1, id).tasks[id].lifecycle is Canceled
            &&& cancel_step(m1, id).log == m.log
            &&& run_step(cancel_step(m1, id), id) == cancel_step(m1, id)
        }),
{
}

/// Canceling a unit that had already finished yields that unit's own
/// result — never "no result": the race between completion and
/// cancellation is resolved in favor of the result that exists, and the
/// handle completes.
pub proof fn lemma_cancel_after_completion(m: Model, id: int)
    requires
        0 <= id < m.tasks.len(),
        m.tasks[id].finished,
    ensures
        cancel_result(m, id) == Some(m.tasks[id].work.output),
        cancel_step(m, id).tasks[id].lifecycle is Completed,
        cancel_step(m, id).log == m.log,
{
}

/// Detaching neither blocks nor disturbs: it records nothing, runs
/// nothing, and touches no other unit — and the detached unit still
/// completes on the runtime's own schedule, its side effect appearing
/// exactly as it would have.
pub proof fn lemma_detach_unobtrusive(m: Model, id: int)
    requires
        0 <= id < m.tasks.len(),
    ensures
        ({
            let d = detach_step(m, id);
            &&& d.log == m.log
            &&& d.tasks[id].finished == m.tasks[id].finished
            &&& d.tasks[id].work == m.tasks[id].work
            &&& forall|j: int|
                0 <= j < m.tasks.len() && j != id ==> #[trigger] d.tasks[j] == m.tasks[j]
            &&& !m.tasks[id].finished ==> {
                &&& run_step(d, id).tasks[id].finished
                &&& run_step(d, id).log == m.log.push(m.tasks[id].work.id)
            }
        }),
{
}

/// Terminal states are entered at most once: every terminal transition
/// moves a live unit to a terminal state and leaves it no longer live, so
/// no further lifecycle transition can apply to it.
pub proof fn lemma_terminal_once(m: Model, id: int)
    requires
        task_live(m, id),
    ensures
        join_step(m, id).tasks[id].lifecycle is Completed,
        detach_step(m, id).tasks[id].lifecycle is Detached,
        cancel_step(m, id).tasks[id].lifecycle == (if m.tasks[id].finished {
            Lifecycle::Completed
        } else {
            Lifecycle::Canceled
        }),
        !task_live(join_step(m, id), id),
        !task_live(detach_step(m, id), id),
        !task_live(cancel_step(m, id), id),
{
}

/// The runtime's own scheduling never moves a handle through its
/// lifecycle: only the holder of the handle can complete, cancel or detach
/// a unit, whatever the runtime does in between.
pub proof fn lemma_run_preserves_lifecycle(m: Model, id: int, j: int)
    requires
        0 <= j < m.tasks.len(),
    ensures
        run_step(m, id).tasks[j].lifecycle == m.tasks[j].lifecycle,
        run_step(m, id).tasks[j].work == m.tasks[j].work,
{
}

/// Every transition preserves well-formedness: a unit whose result was
/// observed has always actually run.
pub proof fn lemma_steps_preserve_wf(m: Model, w: WorkUnit, id: int)
    requires
        m.wf(),
    ensures
        spawn_step(m, w).wf(),
        run_step(m, id).wf(),
        0 <= id < m.tasks.len() ==> cancel_step(m, id).wf(),
        0 <= id < m.tasks.len() ==> detach_step(m, id).wf(),
        task_live(m, id) ==> join_step(m, id).wf(),
{
    assert forall|i: int|
        0 <= i < spawn_step(m, w).tasks.len()
            && #[trigger] spawn_step(m, w).tasks[i].lifecycle is Completed
            implies spawn_step(m, w).tasks[i].finished by {
        if i < m.tasks.len() {
            assert(m.tasks[i].lifecycle is Completed);
        }
    }
    if runnable(m, id) {
        assert forall|i: int|
            0 <= i < run_step(m, id).tasks.len()
                && #[trigger] run_step(m, id).tasks[i].lifecycle is Completed
                implies run_step(m, id).tasks[i].finished by {
            if i != id {
                assert(m.tasks[i].lifecycle is Completed);
            }
        }
    }
    if 0 <= id < m.tasks.len() {
        assert forall|i: int|
            0 <= i < cancel_step(m, id).tasks.len()
                && #[trigger] cancel_step(m, id).tasks[i].lifecycle is Completed
                implies cancel_step(m, id).tasks[i].finished by {
            if i != id {
                assert(m.tasks[i].lifecycle is Completed);
            }
        }
        assert forall|i: int|
            0 <= i < detach_step(m, id).tasks.len()
                && #[trigger] detach_step(m, id).tasks[i].lifecycle is Completed
                implies detach_step(m, id).tasks[i].finished by {
            if i != id {
                assert(m.tasks[i].lifecycle is Completed);
            }
        }
    }
    if task_live(m, id) {
        assert forall|i: int|
            0 <= i < join_step(m, id).tasks.len()
                && #[trigger] join_step(m, id).tasks[i].lifecycle is Completed
                implies join_step(m, id).tasks[i].finished by {
            if i != id {
                assert(m.tasks[i].lifecycle is Completed);
                assert(join_step(m, id).tasks[i] == m.tasks[i]);
            }
        }
    }
}

/// A freshly spawned unit has not run, is live, and remembers exactly the
/// unit that was submitted: ownership of the unit passes to the runtime at
/// spawn time, unchanged.
pub proof fn lemma_spawn_starts_live(m: Model, w: WorkUnit)
    ensures
        ({
            let id = next_id(m);
            let m1 = spawn_step(m, w);
            &&& task_live(m1, id)
            &&& !m1.tasks[id].finished
            &&& m1.tasks[id].work == w
            &&& m1.tasks[id] == TaskEntry::spawned(w)
        }),
{
}

/// A unit observed as completed has its full side effect visible to the
/// observer: awaiting a handle leaves the unit's effect in the log — at
/// its old position if the runtime had already run it, and appended by the
/// wait itself otherwise.
pub proof fn lemma_join_makes_effect_visible(m: Model, id: int)
    requires
        task_live(m, id),
        m.tasks[id].finished ==> m.log.contains(m.tasks[id].work.id),
    ensures
        join_step(m, id).log.contains(m.tasks[id].work.id),
        join_step(m, id).tasks[id].finished,
        join_step(m, id).tasks[id].lifecycle is Completed,
{
    if !m.tasks[id].finished {
        assert(join_step(m, id).log == m.log.push(m.tasks[id].work.id));
        assert(join_step(m, id).log[m.log.len() as int] == m.tasks[id].work.id);
    }
}

} // verus!
