use orchestrator::{Decision, DurableCapacity};

#[test]
fn restart_replay_and_stale_release() {
    let dir = tempfile::tempdir().unwrap();
    let path = dir.path().join("capacity.db");
    let mut first = DurableCapacity::open(&path).unwrap();
    assert!(first.configure("local", 2).unwrap());
    let Decision::Granted(old) = first.reserve("job", "local", 2, 100, 100).unwrap() else {
        panic!()
    };
    drop(first);
    let mut second = DurableCapacity::open(&path).unwrap();
    assert_eq!(
        second.reserve("job", "local", 2, 150, 100).unwrap(),
        Decision::Duplicate(old.clone())
    );
    assert_eq!(
        second.reserve("other", "local", 1, 150, 100).unwrap(),
        Decision::Refused("insufficient_capacity")
    );
    let Decision::Granted(new) = second.reserve("job", "local", 2, 201, 100).unwrap() else {
        panic!()
    };
    assert!(new.generation > old.generation);
    assert_eq!(
        second.release("job", "local", old.generation, 202).unwrap(),
        "stale_generation"
    );
    assert_eq!(
        second.release("job", "local", new.generation, 302).unwrap(),
        "expired_lease"
    );
    assert_eq!(
        second.release("job", "local", new.generation, 250).unwrap(),
        "released"
    );
    assert_eq!(
        second.release("job", "local", new.generation, 250).unwrap(),
        "already_released"
    );
}

#[test]
fn two_connections_share_capacity_and_generations() {
    let dir = tempfile::tempdir().unwrap();
    let path = dir.path().join("capacity.db");
    let mut a = DurableCapacity::open(&path).unwrap();
    let mut b = DurableCapacity::open(&path).unwrap();
    a.configure("local", 1).unwrap();
    assert!(matches!(
        a.reserve("a", "local", 1, 10, 100).unwrap(),
        Decision::Granted(_)
    ));
    assert_eq!(
        b.reserve("b", "local", 1, 10, 100).unwrap(),
        Decision::Refused("insufficient_capacity")
    );
    assert_eq!(b.active("local", 10).unwrap().len(), 1);
}
