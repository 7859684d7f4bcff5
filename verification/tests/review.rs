use orchestrator::{review, AdapterError, ReviewOutcome, ReviewRequest, ReviewTransport, SCHEMA};
use std::time::Duration;

struct Fixture {
    failures: usize,
    outcome: &'static str,
    calls: usize,
}

impl ReviewTransport for Fixture {
    fn exchange(&mut self, _: &[u8], timeout: Duration) -> Result<Vec<u8>, AdapterError> {
        assert_eq!(timeout, Duration::from_secs(2));
        self.calls += 1;
        if self.calls <= self.failures {
            return Err(AdapterError::Timeout);
        }
        Ok(format!(r#"{{"schema_version":"{SCHEMA}","correlation_id":"c1","idempotency_key":"i1","outcome":"{}"}}"#,self.outcome).into_bytes())
    }
}

fn request() -> ReviewRequest {
    ReviewRequest {
        schema_version: SCHEMA.into(),
        correlation_id: "c1".into(),
        idempotency_key: "i1".into(),
        action_class: "schedule".into(),
        resource_class: "compute".into(),
    }
}

#[test]
fn retry_and_review_outcomes() {
    let mut fixture = Fixture {
        failures: 2,
        outcome: "approved",
        calls: 0,
    };
    assert_eq!(
        review(&mut fixture, &request()),
        Ok(ReviewOutcome::Approved)
    );
    assert_eq!(fixture.calls, 3);
    let mut rejected = Fixture {
        failures: 0,
        outcome: "rejected",
        calls: 0,
    };
    assert_eq!(
        review(&mut rejected, &request()),
        Ok(ReviewOutcome::Rejected)
    );
}

#[test]
fn timeout_and_malformed_are_closed() {
    let mut timeout = Fixture {
        failures: 3,
        outcome: "approved",
        calls: 0,
    };
    assert_eq!(review(&mut timeout, &request()), Err(AdapterError::Timeout));
    let mut malformed = Fixture {
        failures: 0,
        outcome: "other",
        calls: 0,
    };
    assert_eq!(
        review(&mut malformed, &request()),
        Err(AdapterError::InvalidResponse)
    );
}
