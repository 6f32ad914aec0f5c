//! The decision layer against live runtimes: the reports real backends give
//! settle exactly as the verified policy says.

use std::cell::Cell;

use executor_trait::outcome::{settle_awaited, settle_canceled, FatalError, JoinOutcome};

#[test]
fn smol_join_yields_the_units_own_result() {
    let out = smol::block_on(async {
        let t = smol::spawn(async { 7u64 });
        t.await
    });
    assert_eq!(out, 7);
}

#[test]
fn smol_cancel_of_an_unstarted_unit_yields_nothing() {
    let res = smol::block_on(async {
        let t = smol::spawn(std::future::pending::<u64>());
        t.cancel().await
    });
    let report = match res {
        Some(v) => JoinOutcome::Finished(v),
        None => JoinOutcome::Stopped,
    };
    assert_eq!(settle_canceled(report), None);
}

#[test]
fn tokio_abort_reports_a_stop_and_settles_to_nothing() {
    let rt = tokio::runtime::Runtime::new().expect("runtime");
    let report = rt.block_on(async {
        let h = tokio::spawn(std::future::pending::<u64>());
        h.abort();
        match h.await {
            Ok(v) => JoinOutcome::Finished(v),
            Err(e) => {
                assert!(e.is_cancelled());
                JoinOutcome::Stopped
            }
        }
    });
    assert_eq!(settle_canceled(report), None);
}

#[test]
fn tokio_finished_unit_settles_to_its_value() {
    let rt = tokio::runtime::Runtime::new().expect("runtime");
    let report = rt.block_on(async {
        let h = tokio::spawn(async { 5u64 });
        match h.await {
            Ok(v) => JoinOutcome::Finished(v),
            Err(_) => JoinOutcome::Stopped,
        }
    });
    assert_eq!(settle_awaited(report), Ok(5));
}

#[test]
fn tokio_stop_while_awaiting_is_fatal() {
    let rt = tokio::runtime::Runtime::new().expect("runtime");
    let report = rt.block_on(async {
        let h = tokio::spawn(std::future::pending::<u64>());
        h.abort();
        match h.await {
            Ok(v) => JoinOutcome::Finished(v),
            Err(_) => JoinOutcome::Stopped,
        }
    });
    assert_eq!(settle_awaited(report), Err(FatalError::AwaitedTaskStopped));
}

#[test]
fn async_std_block_on_returns_after_the_side_effect() {
    let done = Cell::new(false);
    assert!(!done.get());
    async_std::task::block_on(async {
        done.set(true);
    });
    // The effect is visible the moment block_on returns.
    assert!(done.get());
}
