use orchestrator::{
    decide_capacity_action, decide_idle_action, envelope_for_decision, kafka_topics,
    next_delivery_attempt, publish_scheduling_observation, workflow_states, CapacitySnapshot,
    DeliveryFailure, InMemoryBroker, JobPriority, JobRequest, KafkaTopic, MessageConsumer,
    MessageEnvelope, OrchestratorConfig, SchedulingDecision, WorkflowState,
};

fn config() -> OrchestratorConfig {
    OrchestratorConfig {
        project_name: "Project Athernex".to_string(),
        control_plane_role: "local-control-plane".to_string(),
        scheduler_mode: "contract-only".to_string(),
        local_capacity_slots: 2,
        remote_wake_threshold_slots: 3,
        idle_powerdown_after_seconds: 900,
        kafka_bootstrap_servers: "127.0.0.1:9092".to_string(),
        localstack_endpoint: "http://127.0.0.1:4566".to_string(),
        paperclip_endpoint: "http://127.0.0.1:3100".to_string(),
        max_in_flight: 8,
        retry_limit: 3,
    }
}

#[test]
fn interactive_jobs_prefer_available_local_capacity() {
    let decision = decide_capacity_action(
        &JobRequest {
            run_id: "interactive-local-001",
            required_slots: 1,
            priority: JobPriority::Interactive,
            allows_remote_capacity: false,
        },
        &CapacitySnapshot {
            local_available_slots: 2,
            remote_online_slots: 4,
            remote_powering_slots: 0,
            idle_seconds: 0,
        },
        &config(),
    );

    assert_eq!(
        decision,
        SchedulingDecision::RunHere {
            run_id: "interactive-local-001",
            slots: 1
        }
    );
}

#[test]
fn oversized_remote_allowed_jobs_request_power_on_at_threshold() {
    let decision = decide_capacity_action(
        &JobRequest {
            run_id: "batch-remote-001",
            required_slots: 4,
            priority: JobPriority::Batch,
            allows_remote_capacity: true,
        },
        &CapacitySnapshot {
            local_available_slots: 2,
            remote_online_slots: 0,
            remote_powering_slots: 0,
            idle_seconds: 0,
        },
        &config(),
    );

    assert_eq!(
        decision,
        SchedulingDecision::RequestPowerOn {
            run_id: "batch-remote-001",
            target_group: "worker-group-a",
            slots: 4
        }
    );
}

#[test]
fn maintenance_jobs_hold_for_promotion_window() {
    let decision = decide_capacity_action(
        &JobRequest {
            run_id: "maintenance-001",
            required_slots: 1,
            priority: JobPriority::Maintenance,
            allows_remote_capacity: false,
        },
        &CapacitySnapshot {
            local_available_slots: 2,
            remote_online_slots: 0,
            remote_powering_slots: 0,
            idle_seconds: 0,
        },
        &config(),
    );

    assert_eq!(
        decision,
        SchedulingDecision::Hold {
            run_id: "maintenance-001",
            reason: "maintenance jobs require an explicit promotion window"
        }
    );
}

#[test]
fn idle_remote_workers_request_power_off_after_threshold() {
    let decision = decide_idle_action(
        &CapacitySnapshot {
            local_available_slots: 2,
            remote_online_slots: 4,
            remote_powering_slots: 0,
            idle_seconds: 901,
        },
        &config(),
    );

    assert_eq!(
        decision,
        Some(SchedulingDecision::RequestPowerOff {
            target_group: "worker-group-a",
            idle_seconds: 901
        })
    );
}

#[test]
fn workflow_state_count_matches_public_contract() {
    assert_eq!(workflow_states().len(), 9);
    assert!(workflow_states().contains(&WorkflowState::Deadlettered));
}

#[test]
fn kafka_topics_include_review_and_audit_paths() {
    let topics = kafka_topics();

    assert!(topics.contains(&"agent.review"));
    assert!(topics.contains(&"agent.audit"));
    assert!(topics.contains(&"agent.deadletter"));
}

#[test]
fn power_on_decisions_publish_to_power_commands() {
    let mut broker = InMemoryBroker::default();
    let envelope = publish_scheduling_observation(
        &mut broker,
        &JobRequest {
            run_id: "batch-remote-001",
            required_slots: 4,
            priority: JobPriority::Batch,
            allows_remote_capacity: true,
        },
        &CapacitySnapshot {
            local_available_slots: 2,
            remote_online_slots: 0,
            remote_powering_slots: 0,
            idle_seconds: 0,
        },
        &config(),
    );

    let power_commands = broker.drain_topic(KafkaTopic::PowerCommands);

    assert_eq!(envelope.topic, KafkaTopic::PowerCommands);
    assert_eq!(power_commands.len(), 1);
    assert_eq!(power_commands[0].correlation_id, "batch-remote-001");
    assert!(power_commands[0].payload.contains("request_power_on"));
    assert!(broker.drain_topic(KafkaTopic::AgentCommands).is_empty());
}

#[test]
fn hold_decisions_publish_to_scheduler_capacity() {
    let mut broker = InMemoryBroker::default();
    let envelope = publish_scheduling_observation(
        &mut broker,
        &JobRequest {
            run_id: "small-remote-001",
            required_slots: 2,
            priority: JobPriority::Batch,
            allows_remote_capacity: true,
        },
        &CapacitySnapshot {
            local_available_slots: 0,
            remote_online_slots: 0,
            remote_powering_slots: 0,
            idle_seconds: 0,
        },
        &config(),
    );

    assert_eq!(envelope.topic, KafkaTopic::SchedulerCapacity);
    assert_eq!(
        broker.drain_topic(KafkaTopic::SchedulerCapacity)[0].payload,
        "hold run_id=small-remote-001 reason=below remote wake threshold"
    );
}

#[test]
fn transient_delivery_failure_retries_on_original_topic() {
    let envelope = MessageEnvelope::new(
        KafkaTopic::AgentCommands,
        "interactive-local-001",
        WorkflowState::Scheduled,
        "run_here run_id=interactive-local-001 slots=1".to_string(),
        &config(),
    );

    let retry = next_delivery_attempt(&envelope, DeliveryFailure::Transient("broker timeout"));

    assert_eq!(retry.topic, KafkaTopic::AgentCommands);
    assert_eq!(retry.workflow_state, WorkflowState::Retrying);
    assert_eq!(retry.attempt, 2);
    assert_eq!(retry.correlation_id, envelope.correlation_id);
    assert!(retry.payload.contains("broker timeout"));
}

#[test]
fn exhausted_transient_failure_routes_to_deadletter() {
    let mut envelope = MessageEnvelope::new(
        KafkaTopic::PowerCommands,
        "batch-remote-001",
        WorkflowState::Scheduled,
        "request_power_on run_id=batch-remote-001 target_group=worker-group-a slots=4".to_string(),
        &config(),
    );
    envelope.attempt = envelope.max_attempts;

    let deadletter = next_delivery_attempt(&envelope, DeliveryFailure::Transient("broker timeout"));

    assert_eq!(deadletter.topic, KafkaTopic::AgentDeadletter);
    assert_eq!(deadletter.workflow_state, WorkflowState::Deadlettered);
    assert_eq!(deadletter.correlation_id, "batch-remote-001");
    assert!(deadletter.payload.contains("source_topic=power.commands"));
}

#[test]
fn permanent_delivery_failure_routes_to_deadletter_immediately() {
    let envelope = MessageEnvelope::new(
        KafkaTopic::SchedulerCapacity,
        "maintenance-001",
        WorkflowState::Scheduled,
        "hold run_id=maintenance-001 reason=promotion window required".to_string(),
        &config(),
    );

    let deadletter = next_delivery_attempt(&envelope, DeliveryFailure::Permanent("invalid envelope"));

    assert_eq!(deadletter.topic, KafkaTopic::AgentDeadletter);
    assert_eq!(deadletter.workflow_state, WorkflowState::Deadlettered);
    assert_eq!(deadletter.attempt, 1);
    assert!(deadletter.payload.contains("invalid envelope"));
}

#[test]
fn decision_envelopes_carry_the_description() {
    let decision = SchedulingDecision::DispatchRemote {
        run_id: "batch-remote-002",
        slots: 12,
    };
    let envelope = envelope_for_decision("batch-remote-002", &decision, &config());
    assert_eq!(envelope.topic, KafkaTopic::AgentCommands);
    assert_eq!(envelope.idempotency_key, "batch-remote-002:agent.commands");
    assert_eq!(envelope.payload, "dispatch_remote run_id=batch-remote-002 slots=12");
    assert_eq!(envelope.attempt, 1);
    assert_eq!(envelope.max_attempts, 3);
}
