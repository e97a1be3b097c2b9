use std::sync::Arc;
use window_mux::pipelines::{PipelineRegistry, Pipelines};

fn empty_bundle() -> Pipelines {
    Pipelines { render: Vec::new(), compute: Vec::new() }
}

#[test]
fn lookup_misses_on_empty_registry() {
    let reg = PipelineRegistry::new();
    assert!(reg.lookup(1).is_none());
}

#[test]
fn live_bundle_is_shared_by_reference() {
    // Two requests for the same kind, while a component keeps the bundle
    // alive, hand out reference-equal bundles without rebuilding.
    let mut reg = PipelineRegistry::new();
    let first = Arc::new(empty_bundle());
    reg.install(1, &first);

    let second = reg.lookup(1).expect("bundle is alive");
    assert!(Arc::ptr_eq(&first, &second));
    let third = reg.lookup(1).expect("bundle is still alive");
    assert!(Arc::ptr_eq(&first, &third));
}

#[test]
fn registry_does_not_keep_bundles_alive() {
    // Once every strong handle is dropped the bundle is gone: the registry
    // entry is stale and the next lookup misses, forcing a rebuild.
    let mut reg = PipelineRegistry::new();
    let strong = Arc::new(empty_bundle());
    reg.install(9, &strong);
    assert!(reg.lookup(9).is_some());

    drop(strong);
    assert!(reg.lookup(9).is_none());

    // A fresh bundle overwrites the stale entry and is shared from then on.
    let rebuilt = Arc::new(empty_bundle());
    reg.install(9, &rebuilt);
    let again = reg.lookup(9).expect("rebuilt bundle is alive");
    assert!(Arc::ptr_eq(&rebuilt, &again));
}

#[test]
fn kinds_are_cached_independently() {
    let mut reg = PipelineRegistry::new();
    let a = Arc::new(empty_bundle());
    let b = Arc::new(empty_bundle());
    reg.install(1, &a);
    reg.install(2, &b);

    let got_a = reg.lookup(1).unwrap();
    let got_b = reg.lookup(2).unwrap();
    assert!(Arc::ptr_eq(&a, &got_a));
    assert!(Arc::ptr_eq(&b, &got_b));
    assert!(!Arc::ptr_eq(&got_a, &got_b));

    drop(a);
    drop(got_a);
    assert!(reg.lookup(1).is_none());
    assert!(reg.lookup(2).is_some());
}
