//! The contract's observable behavior on the modeled execution context.

use executor_trait::adapters::{AsyncGlobalExecutor, AsyncStd, Bastion, Smol, Tokio};
use executor_trait::model::Lifecycle;
use executor_trait::{BlockingExecutor, Executor, Runtime, Task, WorkUnit};

#[test]
fn spawned_units_do_not_cross_talk() {
    let e = AsyncStd;
    let mut rt = Runtime::new();
    let h1 = e.spawn(&mut rt, WorkUnit { id: 1, output: 10 });
    let h2 = e.spawn(&mut rt, WorkUnit { id: 2, output: 20 });
    let h3 = e.spawn(&mut rt, WorkUnit { id: 3, output: 30 });
    // Collect in an order other than submission order: each handle still
    // yields its own unit's result.
    assert_eq!(h3.join(&mut rt), 30);
    assert_eq!(h1.join(&mut rt), 10);
    assert_eq!(h2.join(&mut rt), 20);
}

#[test]
fn cancel_right_after_spawn_yields_nothing() {
    let e = Smol;
    let mut rt = Runtime::new();
    let h = e.spawn(&mut rt, WorkUnit { id: 7, output: 99 });
    let idx = h.index();
    let r = h.cancel(&mut rt);
    assert_eq!(r, None);
    assert_eq!(rt.task_state(idx), Lifecycle::Canceled);
    assert!(!rt.has_effect(7));
    // The canceled unit never runs, even if the runtime schedules it.
    rt.tick(idx);
    assert!(!rt.has_effect(7));
    assert!(!rt.task_finished(idx));
}

#[test]
fn cancel_after_completion_yields_the_result() {
    let e = Smol;
    let mut rt = Runtime::new();
    let h = e.spawn(&mut rt, WorkUnit { id: 8, output: 123 });
    let idx = h.index();
    rt.tick(idx);
    let r = h.cancel(&mut rt);
    assert_eq!(r, Some(123));
    assert_eq!(rt.task_state(idx), Lifecycle::Completed);
    assert!(rt.has_effect(8));
}

#[test]
fn detach_neither_blocks_nor_stops_the_unit() {
    let e = AsyncGlobalExecutor;
    let mut rt = Runtime::new();
    let h = e.spawn(&mut rt, WorkUnit { id: 4, output: 5 });
    let idx = h.index();
    h.detach(&mut rt);
    // Detaching recorded nothing and ran nothing.
    assert_eq!(rt.effect_count(), 0);
    assert_eq!(rt.task_state(idx), Lifecycle::Detached);
    // The detached unit still completes on the runtime's own schedule.
    rt.tick(idx);
    assert!(rt.task_finished(idx));
    assert!(rt.has_effect(4));
}

#[test]
fn local_spawn_gap_hands_the_unit_back_unchanged() {
    let mut rt = Runtime::new();
    let w = WorkUnit { id: 21, output: 42 };
    let err = Smol.spawn_local(&mut rt, w).err().expect("smol has no local spawning");
    assert_eq!(err.0, w);
    let err = Bastion.spawn_local(&mut rt, w).err().expect("bastion has no local spawning");
    assert_eq!(err.0, w);
    let err = Tokio::default()
        .spawn_local(&mut rt, w)
        .err()
        .expect("tokio has no local spawning hooked up");
    assert_eq!(err.0, w);
    // Nothing was submitted and nothing ran.
    assert_eq!(rt.task_count(), 0);
    assert_eq!(rt.effect_count(), 0);
}

#[test]
fn local_spawn_succeeds_where_supported() {
    let mut rt = Runtime::new();
    let w = WorkUnit { id: 22, output: 7 };
    let h = AsyncStd.spawn_local(&mut rt, w).ok().expect("async-std spawns locally");
    assert_eq!(h.join(&mut rt), 7);
    let h = AsyncGlobalExecutor
        .spawn_local(&mut rt, WorkUnit { id: 23, output: 8 })
        .ok()
        .expect("async-global-executor spawns locally");
    assert_eq!(h.join(&mut rt), 8);
}

#[test]
fn block_on_returns_only_after_the_effect_is_recorded() {
    let e = Tokio::default();
    let mut rt = Runtime::new();
    assert!(!rt.has_effect(31));
    e.block_on(&mut rt, WorkUnit { id: 31, output: 0 });
    // Immediately after block_on returns, the unit's side effect is there.
    assert!(rt.has_effect(31));
    assert_eq!(rt.effect_count(), 1);
    assert_eq!(rt.effect_at(0), 31);
}

#[test]
fn spawn_blocking_runs_the_closure_exactly_once() {
    let e = AsyncStd;
    let mut rt = Runtime::new();
    e.spawn_blocking(&mut rt, WorkUnit { id: 41, output: 0 });
    e.spawn_blocking(&mut rt, WorkUnit { id: 42, output: 0 });
    assert_eq!(rt.effect_count(), 2);
    assert_eq!(rt.effect_at(0), 41);
    assert_eq!(rt.effect_at(1), 42);
}

#[test]
fn end_to_end_cancel_race() {
    let e = Smol;
    let mut rt = Runtime::new();

    // A unit that would record done = true, canceled before the runtime
    // ever ran it: no result, and done stays false.
    let slow = e.spawn(&mut rt, WorkUnit { id: 51, output: 1 });
    let r = slow.cancel(&mut rt);
    assert_eq!(r, None);
    assert!(!rt.has_effect(51));

    // A unit that records done = true right away and then lingers, canceled
    // after it ran: the result is present and done is true.
    let quick = e.spawn(&mut rt, WorkUnit { id: 52, output: 2 });
    let idx = quick.index();
    rt.tick(idx);
    let r = quick.cancel(&mut rt);
    assert_eq!(r, Some(2));
    assert!(rt.has_effect(52));
}

#[test]
fn joining_an_already_finished_unit_records_nothing_twice() {
    let e = AsyncStd;
    let mut rt = Runtime::new();
    let h = e.spawn(&mut rt, WorkUnit { id: 91, output: 14 });
    let idx = h.index();
    // The runtime runs the unit on its own schedule first.
    rt.tick(idx);
    assert_eq!(rt.effect_count(), 1);
    // Awaiting afterwards yields the result without re-running the unit.
    assert_eq!(h.join(&mut rt), 14);
    assert_eq!(rt.effect_count(), 1);
    assert_eq!(rt.task_state(idx), Lifecycle::Completed);
}

#[test]
fn release_applies_the_documented_drop_policy() {
    let mut rt = Runtime::new();

    // Letting a smol handle go detaches: the unit keeps running.
    let h = Smol.spawn(&mut rt, WorkUnit { id: 61, output: 0 });
    let idx = h.index();
    h.release(&mut rt);
    assert_eq!(rt.task_state(idx), Lifecycle::Detached);
    rt.tick(idx);
    assert!(rt.has_effect(61));

    // Letting a bastion handle go cancels: the unit is stopped.
    let h = Bastion.spawn(&mut rt, WorkUnit { id: 62, output: 0 });
    let idx = h.index();
    h.release(&mut rt);
    assert_eq!(rt.task_state(idx), Lifecycle::Canceled);
    rt.tick(idx);
    assert!(!rt.has_effect(62));
}

#[test]
fn spawning_is_only_a_scheduling_request() {
    let e = AsyncStd;
    let mut rt = Runtime::new();
    let h = e.spawn(&mut rt, WorkUnit { id: 71, output: 9 });
    // Submission alone runs nothing.
    assert_eq!(rt.effect_count(), 0);
    assert!(!rt.task_finished(h.index()));
    assert_eq!(rt.task_state(h.index()), Lifecycle::Running);
    // Awaiting the handle drives the unit to completion.
    assert_eq!(h.join(&mut rt), 9);
}
