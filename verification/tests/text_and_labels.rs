use orchestrator::safe_label;
use orchestrator::text::parse_u32;
use orchestrator::{describe_decision, SchedulingDecision};

#[test]
fn labels_are_short_ascii_words() {
    assert!(safe_label("a"));
    assert!(safe_label("Job_01-x"));
    assert!(safe_label(&"z".repeat(96)));
    assert!(!safe_label(&"z".repeat(97)));
    assert!(!safe_label(""));
    assert!(!safe_label("a b"));
    assert!(!safe_label("a.b"));
    assert!(!safe_label("é"));
}

#[test]
fn decimal_text_of_each_decision() {
    assert_eq!(
        describe_decision(&SchedulingDecision::RunHere { run_id: "r", slots: 0 }),
        "run_here run_id=r slots=0"
    );
    assert_eq!(
        describe_decision(&SchedulingDecision::DispatchRemote { run_id: "r", slots: 4294967295 }),
        "dispatch_remote run_id=r slots=4294967295"
    );
    assert_eq!(
        describe_decision(&SchedulingDecision::RequestPowerOn {
            run_id: "r",
            target_group: "g",
            slots: 10
        }),
        "request_power_on run_id=r target_group=g slots=10"
    );
    assert_eq!(
        describe_decision(&SchedulingDecision::Hold { run_id: "r", reason: "why" }),
        "hold run_id=r reason=why"
    );
    assert_eq!(
        describe_decision(&SchedulingDecision::RequestPowerOff {
            target_group: "g",
            idle_seconds: 901
        }),
        "request_power_off target_group=g idle_seconds=901"
    );
}

#[test]
fn parsing_matches_the_standard_library() {
    for text in ["12", "+0", "0004294967295", "4294967296", "+-1", "", "x"] {
        assert_eq!(parse_u32(text), text.parse::<u32>().ok(), "{text:?}");
    }
}
