//! Adapter-specific surface: tokio context routing and delegation.

use executor_trait::adapters::Tokio;
use executor_trait::contract::Delegate;
use executor_trait::{Executor, Runtime, Task, WorkUnit};

#[test]
fn tokio_routes_to_the_configured_context() {
    let plain = Tokio::default();
    assert_eq!(plain.handle(), None);
    // Without a configured handle, work goes to the ambient context.
    assert_eq!(plain.context(5), 5);

    let pinned = Tokio::default().with_handle(9);
    assert_eq!(pinned.handle(), Some(9));
    // A configured handle wins over the ambient context.
    assert_eq!(pinned.context(5), 9);

    let attached = Tokio::current(3);
    assert_eq!(attached.handle(), Some(3));
    assert_eq!(attached.context(5), 3);
}

#[test]
fn a_holder_of_an_executor_behaves_like_it() {
    let shared = Delegate(Tokio::default());
    let mut rt = Runtime::new();
    let w = WorkUnit { id: 81, output: 17 };

    // The capability gap of the inner executor shows through unchanged.
    let err = shared.spawn_local(&mut rt, w).err().expect("tokio has no local spawning");
    assert_eq!(err.0, w);

    // So do spawning and blocking.
    let h = shared.spawn(&mut rt, w);
    assert_eq!(h.join(&mut rt), 17);
    shared.block_on(&mut rt, WorkUnit { id: 82, output: 0 });
    assert!(rt.has_effect(82));
}
