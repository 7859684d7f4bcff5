use orchestrator::review::{count_string_tokens, decode_response, encode_request, interpret_reply, should_retry, Recorded};
use orchestrator::{review, AdapterError, ReviewOutcome, ReviewRequest, ReviewTransport, SCHEMA};
use std::time::Duration;

struct Scripted {
    answers: Vec<Result<Vec<u8>, AdapterError>>,
    sent: Vec<Vec<u8>>,
}

impl ReviewTransport for Scripted {
    fn exchange(&mut self, request: &[u8], _timeout: Duration) -> Result<Vec<u8>, AdapterError> {
        self.sent.push(request.to_vec());
        self.answers.remove(0)
    }
}

fn request() -> ReviewRequest {
    ReviewRequest {
        schema_version: SCHEMA.into(),
        correlation_id: "c1".into(),
        idempotency_key: "i1".into(),
        action_class: "schedule".into(),
        resource_class: "compute".into(),
    }
}

fn answer(text: &str) -> Result<Vec<u8>, AdapterError> {
    Ok(text.as_bytes().to_vec())
}

fn good(outcome: &str) -> String {
    format!(r#"{{"schema_version":"{SCHEMA}","correlation_id":"c1","idempotency_key":"i1","outcome":"{outcome}"}}"#)
}

#[test]
fn requests_are_encoded_as_json() {
    assert_eq!(
        String::from_utf8(encode_request(&request())).unwrap(),
        r#"{"schema_version":"athernex.paperclip.review.v1","correlation_id":"c1","idempotency_key":"i1","action_class":"schedule","resource_class":"compute"}"#
    );
}

#[test]
fn malformed_requests_are_never_sent() {
    let mut bad = request();
    bad.schema_version = "v0".into();
    let mut transport = Scripted { answers: vec![answer(&good("approved"))], sent: Vec::new() };
    assert_eq!(review(&mut transport, &bad), Err(AdapterError::InvalidRequest));
    let mut bad_label = request();
    bad_label.action_class = "sched ule".into();
    assert_eq!(review(&mut transport, &bad_label), Err(AdapterError::InvalidRequest));
    assert!(transport.sent.is_empty());
}

#[test]
fn transport_failures_retry_and_others_do_not() {
    let mut transport = Scripted {
        answers: vec![Err(AdapterError::Transport), Err(AdapterError::Timeout), answer(&good("pending"))],
        sent: Vec::new(),
    };
    assert_eq!(review(&mut transport, &request()), Ok(ReviewOutcome::Pending));
    assert_eq!(transport.sent.len(), 3);
    assert_eq!(transport.sent[0], encode_request(&request()));

    let mut transport = Scripted {
        answers: vec![Err(AdapterError::Transport), Err(AdapterError::Transport), Err(AdapterError::Transport)],
        sent: Vec::new(),
    };
    assert_eq!(review(&mut transport, &request()), Err(AdapterError::Transport));
    assert_eq!(transport.sent.len(), 3);

    let mut transport = Scripted {
        answers: vec![Err(AdapterError::InvalidResponse), answer(&good("approved"))],
        sent: Vec::new(),
    };
    assert_eq!(review(&mut transport, &request()), Err(AdapterError::InvalidResponse));
    assert_eq!(transport.sent.len(), 1);

    assert!(should_retry(0, &AdapterError::Timeout));
    assert!(should_retry(1, &AdapterError::Transport));
    assert!(!should_retry(2, &AdapterError::Timeout));
    assert!(!should_retry(0, &AdapterError::InvalidRequest));
}

#[test]
fn replies_must_echo_the_request() {
    let r = request();
    assert_eq!(interpret_reply(&r, good("approved").as_bytes()), Ok(ReviewOutcome::Approved));
    assert_eq!(interpret_reply(&r, good("rejected").as_bytes()), Ok(ReviewOutcome::Rejected));
    assert_eq!(interpret_reply(&r, good("pending").as_bytes()), Ok(ReviewOutcome::Pending));
    assert_eq!(interpret_reply(&r, good("Approved").as_bytes()), Err(AdapterError::InvalidResponse));
    let wrong_id = good("approved").replace("\"c1\"", "\"c2\"");
    assert_eq!(interpret_reply(&r, wrong_id.as_bytes()), Err(AdapterError::InvalidResponse));
    let wrong_key = good("approved").replace("\"i1\"", "\"i2\"");
    assert_eq!(interpret_reply(&r, wrong_key.as_bytes()), Err(AdapterError::InvalidResponse));
    let wrong_schema = good("approved").replace("v1", "v2");
    assert_eq!(interpret_reply(&r, wrong_schema.as_bytes()), Err(AdapterError::InvalidResponse));
}

#[test]
fn replies_are_read_strictly() {
    let r = request();
    let extra = good("approved").replace("}", r#","note":"x"}"#);
    assert_eq!(interpret_reply(&r, extra.as_bytes()), Err(AdapterError::InvalidResponse));
    let missing = format!(r#"{{"schema_version":"{SCHEMA}","correlation_id":"c1","outcome":"approved"}}"#);
    assert_eq!(interpret_reply(&r, missing.as_bytes()), Err(AdapterError::InvalidResponse));
    let number = good("approved").replace("\"i1\"", "1");
    assert_eq!(interpret_reply(&r, number.as_bytes()), Err(AdapterError::InvalidResponse));
    assert_eq!(interpret_reply(&r, b"not json"), Err(AdapterError::InvalidResponse));
    let array = format!(r#"["{SCHEMA}","c1","i1","rejected"]"#);
    assert_eq!(interpret_reply(&r, array.as_bytes()), Ok(ReviewOutcome::Rejected));
    let short = format!(r#"["{SCHEMA}","c1","i1"]"#);
    assert_eq!(interpret_reply(&r, short.as_bytes()), Err(AdapterError::InvalidResponse));
    let padded = format!("{}{}", good("approved"), " ".repeat(4096));
    assert_eq!(interpret_reply(&r, padded.as_bytes()), Err(AdapterError::InvalidResponse));
    let spaced = format!("{}{}", good("approved"), " ".repeat(10));
    assert_eq!(interpret_reply(&r, spaced.as_bytes()), Ok(ReviewOutcome::Approved));
}

#[test]
fn responses_decode_into_their_fields() {
    let decoded = decode_response(good("approved").as_bytes()).unwrap();
    assert_eq!(decoded.schema_version, SCHEMA);
    assert_eq!(decoded.correlation_id, "c1");
    assert_eq!(decoded.idempotency_key, "i1");
    assert_eq!(decoded.outcome, "approved");
    assert!(decode_response(b"{}").is_none());
}

#[test]
fn repeated_keys_are_refused() {
    let r = request();
    let repeated = format!(
        r#"{{"schema_version":"{SCHEMA}","correlation_id":"c1","idempotency_key":"i1","outcome":"pending","outcome":"approved"}}"#
    );
    assert_eq!(interpret_reply(&r, repeated.as_bytes()), Err(AdapterError::InvalidResponse));
    let same_twice = good("approved").replace("}", r#","outcome":"approved"}"#);
    assert_eq!(interpret_reply(&r, same_twice.as_bytes()), Err(AdapterError::InvalidResponse));
    assert!(decode_response(repeated.as_bytes()).is_none());
}

#[test]
fn escaped_quotes_are_not_counted_as_strings() {
    assert_eq!(count_string_tokens(br#"{"a":"x\"y","b":"\\"}"#), 4);
    assert_eq!(count_string_tokens(b"[]"), 0);
    let r = request();
    let escaped = good("approved").replace("\"i1\"", "\"i\\u0031\"");
    assert_eq!(interpret_reply(&r, escaped.as_bytes()), Ok(ReviewOutcome::Approved));
}

#[test]
fn recorded_transport_passes_exchanges_on() {
    let scripted = Scripted {
        answers: vec![Err(AdapterError::Timeout), Err(AdapterError::Timeout), Err(AdapterError::Timeout)],
        sent: Vec::new(),
    };
    let mut recorded = Recorded::new(scripted);
    assert_eq!(review(&mut recorded, &request()), Err(AdapterError::Timeout));
    assert_eq!(recorded.inner().sent.len(), 3);
    assert!(recorded.inner().sent.iter().all(|sent| *sent == encode_request(&request())));

    let scripted = Scripted { answers: vec![answer(&good("rejected"))], sent: Vec::new() };
    let mut recorded = Recorded::new(scripted);
    assert_eq!(review(&mut recorded, &request()), Ok(ReviewOutcome::Rejected));
    assert_eq!(recorded.inner().sent.len(), 1);
}
