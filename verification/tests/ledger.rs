use orchestrator::ledger::{live_at, release_from};
use orchestrator::{Decision, Lease, ResourceLedger};

fn ledger(capacity: u32) -> ResourceLedger {
    ResourceLedger {
        capacity,
        generation: 0,
        active: Vec::new(),
    }
}

fn lease(owner: &str, slots: u32, generation: i64, expires_ms: i64) -> Lease {
    Lease {
        owner: owner.to_string(),
        resource: "local".to_string(),
        slots,
        generation,
        created_ms: 0,
        expires_ms,
    }
}

#[test]
fn grant_then_replay_gives_the_same_lease() {
    let mut l = ledger(2);
    let Decision::Granted(granted) = l.reserve("job", "local", 2, 100, 100) else {
        panic!()
    };
    assert_eq!(granted, lease_at("job", 2, 1, 100, 200));
    assert_eq!(l.generation, 1);
    assert_eq!(l.reserve("job", "local", 2, 199, 5), Decision::Duplicate(granted.clone()));
    assert_eq!(
        l.reserve("job", "local", 1, 150, 5),
        Decision::Refused("conflicting_reservation")
    );
    assert_eq!(l.active, vec![granted]);
}

fn lease_at(owner: &str, slots: u32, generation: i64, created_ms: i64, expires_ms: i64) -> Lease {
    Lease {
        owner: owner.to_string(),
        resource: "local".to_string(),
        slots,
        generation,
        created_ms,
        expires_ms,
    }
}

#[test]
fn grants_never_exceed_capacity() {
    let mut l = ledger(3);
    assert!(matches!(l.reserve("a", "local", 2, 0, 50), Decision::Granted(_)));
    assert_eq!(
        l.reserve("b", "local", 2, 10, 50),
        Decision::Refused("insufficient_capacity")
    );
    assert!(matches!(l.reserve("b", "local", 1, 10, 50), Decision::Granted(_)));
    assert_eq!(
        l.reserve("c", "local", 1, 20, 50),
        Decision::Refused("insufficient_capacity")
    );
    // Once the first lease has expired its slots are free again.
    let Decision::Granted(c) = l.reserve("c", "local", 2, 50, 50) else {
        panic!()
    };
    assert_eq!(c.generation, 3);
    let held: u32 = l.active.iter().map(|x| x.slots).sum();
    assert_eq!(held, 3);
    assert_eq!(l.active.len(), 2);
}

#[test]
fn malformed_requests_are_refused_without_change() {
    let mut l = ledger(5);
    let long = "x".repeat(97);
    let cases: Vec<(&str, &str, u32, i64, i64)> = vec![
        ("", "local", 1, 0, 10),
        ("job", "", 1, 0, 10),
        ("job!", "local", 1, 0, 10),
        ("jöb", "local", 1, 0, 10),
        (long.as_str(), "local", 1, 0, 10),
        ("job", "local", 0, 0, 10),
        ("job", "local", 1, 0, 0),
        ("job", "local", 1, 0, -5),
        ("job", "local", 1, i64::MAX, 1),
    ];
    for (owner, resource, slots, now, ttl) in cases {
        assert_eq!(
            l.reserve(owner, resource, slots, now, ttl),
            Decision::Refused("invalid_request")
        );
    }
    assert_eq!(l.generation, 0);
    assert!(l.active.is_empty());
    let longest = "y".repeat(96);
    assert!(matches!(l.reserve(&longest, "local", 1, 0, 10), Decision::Granted(_)));
}

#[test]
fn exhausted_generations_refuse() {
    let mut l = ResourceLedger {
        capacity: 4,
        generation: i64::MAX,
        active: Vec::new(),
    };
    assert_eq!(
        l.reserve("job", "local", 1, 0, 10),
        Decision::Refused("generation_exhausted")
    );
    assert_eq!(l.generation, i64::MAX);
}

#[test]
fn release_answers() {
    let mut active = vec![lease("a", 1, 3, 100), lease("b", 1, 4, 100)];
    assert_eq!(release_from(&mut active, "a", 2, 50), "stale_generation");
    assert_eq!(release_from(&mut active, "a", 3, 100), "expired_lease");
    assert_eq!(active.len(), 2);
    assert_eq!(release_from(&mut active, "a", 3, 99), "released");
    assert_eq!(active, vec![lease("b", 1, 4, 100)]);
    assert_eq!(release_from(&mut active, "a", 3, 99), "already_released");
    assert_eq!(release_from(&mut active, "c", 1, 0), "already_released");
}

#[test]
fn live_leases_keep_their_order() {
    let active = vec![lease("a", 1, 1, 10), lease("b", 1, 2, 30), lease("c", 1, 3, 20)];
    assert_eq!(live_at(&active, 15), vec![lease("b", 1, 2, 30), lease("c", 1, 3, 20)]);
    assert_eq!(live_at(&active, 30), Vec::<Lease>::new());
}
