//! The control-plane logic of the agent orchestrator: where jobs run, how
//! scheduling decisions travel as messages and are retried or dead-lettered,
//! how capacity leases are granted and released (in memory and in a SQLite
//! store), and how actions are sent for review.

pub mod config;
pub mod durable_capacity;
pub mod labels;
pub mod ledger;
pub mod ledger_laws;
pub mod messaging;
pub mod messaging_laws;
pub mod review;
pub mod scheduling;
pub mod sql_journal;
pub mod text;

pub use config::OrchestratorConfig;
pub use durable_capacity::{DurableCapacity, StoreError};
pub use labels::safe_label;
pub use ledger::{Decision, Lease, ResourceLedger};
pub use messaging::{
    envelope_for_decision, kafka_topics, next_delivery_attempt, publish_scheduling_observation,
    sample_kafka_contract, sample_scheduling_decisions, workflow_states, DeliveryFailure,
    InMemoryBroker, KafkaTopic, MessageConsumer, MessageEnvelope, MessageProducer, WorkflowState,
};
pub use review::{
    review, AdapterError, ReviewOutcome, ReviewRequest, ReviewResponse, ReviewTransport, SCHEMA,
};
pub use scheduling::{
    decide_capacity_action, decide_idle_action, describe_decision, CapacitySnapshot, JobPriority,
    JobRequest, SchedulingDecision,
};
