use orchestrator::{
    next_delivery_attempt, sample_kafka_contract, sample_scheduling_decisions, DeliveryFailure,
    InMemoryBroker, KafkaTopic, MessageConsumer, MessageEnvelope, MessageProducer,
    OrchestratorConfig, SchedulingDecision, WorkflowState,
};

fn config(retry_limit: u32) -> OrchestratorConfig {
    let mut config = OrchestratorConfig::from_env(&Vec::new());
    config.retry_limit = retry_limit;
    config
}

fn envelope(topic: KafkaTopic, run_id: &str, retry_limit: u32) -> MessageEnvelope {
    MessageEnvelope::new(
        topic,
        run_id,
        WorkflowState::Scheduled,
        "body".to_string(),
        &config(retry_limit),
    )
}

#[test]
fn envelopes_start_at_the_first_attempt() {
    let e = envelope(KafkaTopic::AgentReview, "run-7", 1);
    assert_eq!(e.idempotency_key, "run-7:agent.review");
    assert_eq!(e.correlation_id, "run-7");
    assert_eq!(e.attempt, 1);
    assert_eq!(e.max_attempts, 3);
    assert_eq!(envelope(KafkaTopic::AgentReview, "run-7", 5).max_attempts, 5);
}

#[test]
fn retries_end_in_the_deadletter_topic() {
    let mut e = envelope(KafkaTopic::AgentCommands, "run-1", 3);
    let mut retries = 0;
    while e.topic == KafkaTopic::AgentCommands {
        e = next_delivery_attempt(&e, DeliveryFailure::Transient("timeout"));
        retries += 1;
    }
    assert_eq!(retries, 3);
    assert_eq!(e.workflow_state, WorkflowState::Deadlettered);
    assert_eq!(e.attempt, 3);
    assert_eq!(e.idempotency_key, "run-1:agent.deadletter");
    assert_eq!(
        e.payload,
        "delivery_failed source_topic=agent.commands reason=timeout payload=retry source_topic=agent.commands reason=timeout payload=retry source_topic=agent.commands reason=timeout payload=body"
    );
}

#[test]
fn a_retry_names_its_topic_and_reason() {
    let e = envelope(KafkaTopic::PowerCommands, "run-2", 3);
    let retry = next_delivery_attempt(&e, DeliveryFailure::Transient("busy"));
    assert_eq!(retry.payload, "retry source_topic=power.commands reason=busy payload=body");
    assert_eq!(retry.idempotency_key, e.idempotency_key);
}

#[test]
fn draining_splits_by_topic_in_order() {
    let mut broker = InMemoryBroker::default();
    broker.publish(envelope(KafkaTopic::AgentCommands, "a", 3));
    broker.publish(envelope(KafkaTopic::PowerCommands, "b", 3));
    broker.publish(envelope(KafkaTopic::AgentCommands, "c", 3));
    let commands = broker.drain_topic(KafkaTopic::AgentCommands);
    let ids: Vec<&str> = commands.iter().map(|e| e.correlation_id.as_str()).collect();
    assert_eq!(ids, vec!["a", "c"]);
    assert!(broker.drain_topic(KafkaTopic::AgentCommands).is_empty());
    let power = broker.drain_topic(KafkaTopic::PowerCommands);
    assert_eq!(power.len(), 1);
    assert_eq!(power[0].correlation_id, "b");
}

#[test]
fn sample_contract_lists_power_command_then_deadletters() {
    let sample = sample_kafka_contract(&config(3));
    assert_eq!(sample.len(), 3);
    assert_eq!(sample[0].topic, KafkaTopic::PowerCommands);
    assert_eq!(
        sample[0].payload,
        "request_power_on run_id=batch-remote-001 target_group=worker-group-a slots=4"
    );
    assert_eq!(sample[1].topic, KafkaTopic::AgentDeadletter);
    assert_eq!(sample[1].attempt, 3);
    assert!(sample[1].payload.contains("reason=sample broker timeout"));
    assert_eq!(sample[2].attempt, 1);
    assert!(sample[2].payload.contains("reason=sample invalid envelope"));
}

#[test]
fn sample_decisions_follow_the_rules() {
    let decisions = sample_scheduling_decisions(&config(3));
    assert_eq!(
        decisions,
        [
            SchedulingDecision::RunHere { run_id: "interactive-local-001", slots: 1 },
            SchedulingDecision::RequestPowerOn {
                run_id: "batch-remote-001",
                target_group: "worker-group-a",
                slots: 4
            },
            SchedulingDecision::Hold {
                run_id: "maintenance-001",
                reason: "maintenance jobs require an explicit promotion window"
            },
        ]
    );
}
