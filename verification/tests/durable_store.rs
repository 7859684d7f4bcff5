use orchestrator::{Decision, DurableCapacity};

fn store() -> (tempfile::TempDir, DurableCapacity) {
    let dir = tempfile::tempdir().unwrap();
    let path = dir.path().join("ledger.db");
    let capacity = DurableCapacity::open(&path).unwrap();
    (dir, capacity)
}

#[test]
fn configure_keeps_the_first_capacity() {
    let (_dir, mut store) = store();
    assert!(!store.configure("bad label", 2).unwrap());
    assert!(!store.configure("gpu", 0).unwrap());
    assert!(store.configure("gpu", 2).unwrap());
    assert!(!store.configure("gpu", 3).unwrap());
    assert!(store.configure("gpu", 2).unwrap());
}

#[test]
fn unknown_and_malformed_requests_are_refused() {
    let (_dir, mut store) = store();
    assert_eq!(
        store.reserve("job", "nowhere", 1, 0, 10).unwrap(),
        Decision::Refused("unknown_resource")
    );
    assert_eq!(
        store.reserve("job", "nowhere", 0, 0, 10).unwrap(),
        Decision::Refused("invalid_request")
    );
    store.configure("gpu", 1).unwrap();
    assert_eq!(
        store.reserve("job", "gpu", 1, 0, 0).unwrap(),
        Decision::Refused("invalid_request")
    );
}

#[test]
fn conflicting_and_listed_leases() {
    let (_dir, mut store) = store();
    store.configure("gpu", 4).unwrap();
    let Decision::Granted(a) = store.reserve("a", "gpu", 1, 0, 100).unwrap() else {
        panic!()
    };
    let Decision::Granted(b) = store.reserve("b", "gpu", 2, 10, 20).unwrap() else {
        panic!()
    };
    assert_eq!((a.generation, b.generation), (1, 2));
    assert_eq!(
        store.reserve("a", "gpu", 3, 20, 100).unwrap(),
        Decision::Refused("conflicting_reservation")
    );
    assert_eq!(store.active("gpu", 20).unwrap(), vec![a.clone(), b.clone()]);
    assert_eq!(store.active("gpu", 30).unwrap(), vec![a.clone()]);
    assert_eq!(store.release("a", "gpu", a.generation, 40).unwrap(), "released");
    assert_eq!(store.active("gpu", 40).unwrap(), Vec::new());
}

#[test]
fn expiry_frees_capacity_at_the_expiry_instant() {
    let (_dir, mut store) = store();
    assert!(store.configure("local", 2).unwrap());
    let Decision::Granted(first) = store.reserve("job", "local", 2, 100, 100).unwrap() else {
        panic!()
    };
    assert_eq!((first.generation, first.expires_ms), (1, 200));
    let Decision::Granted(second) = store.reserve("other", "local", 2, 200, 100).unwrap() else {
        panic!()
    };
    assert_eq!(second.generation, 2);
    assert_eq!(second.created_ms, 200);
    assert_eq!(store.release("job", "local", first.generation, 200).unwrap(), "already_released");
}
