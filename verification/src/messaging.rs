use vstd::prelude::*;
use vstd::string::*;
use crate::config::OrchestratorConfig;
use crate::scheduling::{
    capacity_decision, decide_capacity_action, describe_decision, decision_text, CapacitySnapshot,
    JobRequest, SchedulingDecision,
};

verus! {

/// At least this many delivery attempts are made before a message is
/// dead-lettered.
pub const DEFAULT_MAX_DELIVERY_ATTEMPTS: u32 = 3;

/// Where a workflow run stands.
#[derive(Clone, Copy, Debug, PartialEq, Eq, Structural)]
pub enum WorkflowState {
    Received,
    Validated,
    Scheduled,
    Running,
    Reviewing,
    Accepted,
    Retrying,
    Quarantined,
    Deadlettered,
}

/// The topics that messages travel on.
#[derive(Clone, Copy, Debug, PartialEq, Eq, Structural)]
pub enum KafkaTopic {
    AgentCommands,
    AgentObservations,
    AgentResults,
    AgentReview,
    AgentDeadletter,
    SchedulerCapacity,
    PowerCommands,
    PowerObservations,
    SecurityFindings,
    AgentAudit,
}

/// The name of a topic.
pub open spec fn topic_name(topic: KafkaTopic) -> Seq<char> {
    match topic {
        KafkaTopic::AgentCommands => "agent.commands"@,
        KafkaTopic::AgentObservations => "agent.observations"@,
        KafkaTopic::AgentResults => "agent.results"@,
        KafkaTopic::AgentReview => "agent.review"@,
        KafkaTopic::AgentDeadletter => "agent.deadletter"@,
        KafkaTopic::SchedulerCapacity => "scheduler.capacity"@,
        KafkaTopic::PowerCommands => "power.commands"@,
        KafkaTopic::PowerObservations => "power.observations"@,
        KafkaTopic::SecurityFindings => "security.findings"@,
        KafkaTopic::AgentAudit => "agent.audit"@,
    }
}

impl KafkaTopic {
    /// The name of the topic (see `topic_name`).
    pub fn as_str(self) -> (res: &'static str)
        ensures
            res@ == topic_name(self),
    {
        match self {
            KafkaTopic::AgentCommands => "agent.commands",
            KafkaTopic::AgentObservations => "agent.observations",
            KafkaTopic::AgentResults => "agent.results",
            KafkaTopic::AgentReview => "agent.review",
            KafkaTopic::AgentDeadletter => "agent.deadletter",
            KafkaTopic::SchedulerCapacity => "scheduler.capacity",
            KafkaTopic::PowerCommands => "power.commands",
            KafkaTopic::PowerObservations => "power.observations",
            KafkaTopic::SecurityFindings => "security.findings",
            KafkaTopic::AgentAudit => "agent.audit",
        }
    }
}

/// A message and its delivery bookkeeping.
#[derive(Clone, Debug, PartialEq, Eq)]
pub struct MessageEnvelope {
    pub topic: KafkaTopic,
    pub idempotency_key: String,
    pub correlation_id: String,
    pub workflow_state: WorkflowState,
    pub attempt: u32,
    pub max_attempts: u32,
    pub payload: String,
}

/// A message envelope as plain values.
pub struct EnvelopeView {
    pub topic: KafkaTopic,
    pub idempotency_key: Seq<char>,
    pub correlation_id: Seq<char>,
    pub workflow_state: WorkflowState,
    pub attempt: u32,
    pub max_attempts: u32,
    pub payload: Seq<char>,
}

impl View for MessageEnvelope {
    type V = EnvelopeView;

    open spec fn view(&self) -> EnvelopeView {
        EnvelopeView {
            topic: self.topic,
            idempotency_key: self.idempotency_key@,
            correlation_id: self.correlation_id@,
            workflow_state: self.workflow_state,
            attempt: self.attempt,
            max_attempts: self.max_attempts,
            payload: self.payload@,
        }
    }
}

/// The views of a sequence of envelopes.
pub open spec fn envelope_views(s: Seq<MessageEnvelope>) -> Seq<EnvelopeView> {
    s.map_values(|e: MessageEnvelope| e@)
}

/// The key under which a run's message on a topic is delivered once.
pub open spec fn idempotency_key_for(run_id: Seq<char>, topic: KafkaTopic) -> Seq<char> {
    run_id + ":"@ + topic_name(topic)
}

/// How many delivery attempts a message gets: the configured retry limit,
/// but never fewer than `DEFAULT_MAX_DELIVERY_ATTEMPTS`.
pub open spec fn max_attempts_for(config: OrchestratorConfig) -> u32 {
    if config.retry_limit >= DEFAULT_MAX_DELIVERY_ATTEMPTS {
        config.retry_limit
    } else {
        DEFAULT_MAX_DELIVERY_ATTEMPTS
    }
}

/// A fresh envelope for a run's message on a topic, at its first attempt.
pub open spec fn new_envelope(
    topic: KafkaTopic,
    run_id: Seq<char>,
    workflow_state: WorkflowState,
    payload: Seq<char>,
    config: OrchestratorConfig,
) -> EnvelopeView {
    EnvelopeView {
        topic,
        idempotency_key: idempotency_key_for(run_id, topic),
        correlation_id: run_id,
        workflow_state,
        attempt: 1,
        max_attempts: max_attempts_for(config),
        payload,
    }
}

/// The dead-letter form of an envelope whose delivery failed for `reason`,
/// sent on `topic` for the same run and attempt.
pub open spec fn delivery_failure_envelope(e: EnvelopeView, topic: KafkaTopic, reason: Seq<char>) -> EnvelopeView {
    EnvelopeView {
        topic,
        idempotency_key: idempotency_key_for(e.correlation_id, topic),
        correlation_id: e.correlation_id,
        workflow_state: WorkflowState::Deadlettered,
        attempt: e.attempt,
        max_attempts: e.max_attempts,
        payload: "delivery_failed source_topic="@ + topic_name(e.topic) + " reason="@ + reason
            + " payload="@ + e.payload,
    }
}

impl MessageEnvelope {
    /// A field-by-field copy of the envelope.
    pub fn copy(&self) -> (res: MessageEnvelope)
        ensures
            res@ == self@,
    {
        MessageEnvelope {
            topic: self.topic,
            idempotency_key: self.idempotency_key.clone(),
            correlation_id: self.correlation_id.clone(),
            workflow_state: self.workflow_state,
            attempt: self.attempt,
            max_attempts: self.max_attempts,
            payload: self.payload.clone(),
        }
    }

    /// A fresh envelope for the run `run_id` (see `new_envelope`).
    pub fn new(
        topic: KafkaTopic,
        run_id: &str,
        workflow_state: WorkflowState,
        payload: String,
        config: &OrchestratorConfig,
    ) -> (res: Self)
        ensures
            res@ == new_envelope(topic, run_id@, workflow_state, payload@, *config),
    {
        let mut key = run_id.to_owned();
        key.append(":");
        key.append(topic.as_str());
        let max_attempts = if config.retry_limit >= DEFAULT_MAX_DELIVERY_ATTEMPTS {
            config.retry_limit
        } else {
            DEFAULT_MAX_DELIVERY_ATTEMPTS
        };
        MessageEnvelope {
            topic,
            idempotency_key: key,
            correlation_id: run_id.to_owned(),
            workflow_state,
            attempt: 1,
            max_attempts,
            payload,
        }
    }

    /// The dead-letter form of this envelope (see
    /// `delivery_failure_envelope`).
    pub fn with_delivery_failure(&self, topic: KafkaTopic, reason: &str) -> (res: Self)
        ensures
            res@ == delivery_failure_envelope(self@, topic, reason@),
    {
        let mut key = self.correlation_id.clone();
        key.append(":");
        key.append(topic.as_str());
        let mut payload = String::new();
        payload.append("delivery_failed source_topic=");
        payload.append(self.topic.as_str());
        payload.append(" reason=");
        payload.append(reason);
        payload.append(" payload=");
        payload.append(self.payload.as_str());
        assert(payload@ =~= "delivery_failed source_topic="@ + topic_name(self.topic) + " reason="@
            + reason@ + " payload="@ + self.payload@);
        MessageEnvelope {
            topic,
            idempotency_key: key,
            correlation_id: self.correlation_id.clone(),
            workflow_state: WorkflowState::Deadlettered,
            attempt: self.attempt,
            max_attempts: self.max_attempts,
            payload,
        }
    }
}

/// The envelopes of `s` that travel on `topic`, in their order.
pub open spec fn on_topic(s: Seq<EnvelopeView>, topic: KafkaTopic) -> Seq<EnvelopeView>
    decreases s.len(),
{
    if s.len() == 0 {
        s
    } else if s.last().topic == topic {
        on_topic(s.drop_last(), topic).push(s.last())
    } else {
        on_topic(s.drop_last(), topic)
    }
}

/// The envelopes of `s` that travel on other topics than `topic`, in their
/// order.
pub open spec fn off_topic(s: Seq<EnvelopeView>, topic: KafkaTopic) -> Seq<EnvelopeView>
    decreases s.len(),
{
    if s.len() == 0 {
        s
    } else if s.last().topic != topic {
        off_topic(s.drop_last(), topic).push(s.last())
    } else {
        off_topic(s.drop_last(), topic)
    }
}

/// Something that messages can be published to.
pub trait MessageProducer {
    /// The messages published so far that are still held.
    spec fn published(&self) -> Seq<EnvelopeView>;

    /// Publishes one message after those already held.
    fn publish(&mut self, envelope: MessageEnvelope)
        ensures
            final(self).published() == old(self).published().push(envelope@),
    ;
}

/// Something that messages can be taken from, topic by topic.
pub trait MessageConsumer {
    /// The messages waiting to be taken.
    spec fn pending(&self) -> Seq<EnvelopeView>;

    /// Takes every waiting message on `topic`, in publication order, and
    /// leaves the others waiting in their order.
    fn drain_topic(&mut self, topic: KafkaTopic) -> (res: Vec<MessageEnvelope>)
        ensures
            envelope_views(res@) == on_topic(old(self).pending(), topic),
            final(self).pending() == off_topic(old(self).pending(), topic),
    ;
}

/// A broker that keeps published messages in memory, in publication order.
#[derive(Debug)]
pub struct InMemoryBroker {
    envelopes: Vec<MessageEnvelope>,
}

impl InMemoryBroker {
    /// The messages that the broker holds.
    pub closed spec fn held(&self) -> Seq<EnvelopeView> {
        envelope_views(self.envelopes@)
    }
}

impl Default for InMemoryBroker {
    fn default() -> (res: Self)
        ensures
            res.held() == Seq::<EnvelopeView>::empty(),
    {
        let res = InMemoryBroker { envelopes: Vec::new() };
        assert(res.held() =~= Seq::<EnvelopeView>::empty());
        res
    }
}

impl MessageProducer for InMemoryBroker {
    open spec fn published(&self) -> Seq<EnvelopeView> {
        self.held()
    }

    fn publish(&mut self, envelope: MessageEnvelope) {
        let ghost before = self.envelopes@;
        self.envelopes.push(envelope);
        assert(envelope_views(self.envelopes@) =~= envelope_views(before).push(envelope@));
    }
}

impl MessageConsumer for InMemoryBroker {
    open spec fn pending(&self) -> Seq<EnvelopeView> {
        self.held()
    }

    fn drain_topic(&mut self, topic: KafkaTopic) -> (res: Vec<MessageEnvelope>) {
        let mut matched: Vec<MessageEnvelope> = Vec::new();
        let mut remaining: Vec<MessageEnvelope> = Vec::new();
        let ghost all = envelope_views(self.envelopes@);
        let mut i: usize = 0;
        while i < self.envelopes.len()
            invariant
                all == envelope_views(self.envelopes@),
                0 <= i <= self.envelopes@.len(),
                envelope_views(matched@) =~= on_topic(all.take(i as int), topic),
                envelope_views(remaining@) =~= off_topic(all.take(i as int), topic),
            decreases self.envelopes@.len() - i,
        {
            assert(all.take(i + 1).drop_last() =~= all.take(i as int));
            assert(all.take(i + 1).last() == self.envelopes@[i as int]@);
            let e = self.envelopes[i].copy();
            if e.topic == topic {
                matched.push(e);
            } else {
                remaining.push(e);
            }
            i = i + 1;
        }
        assert(all.take(self.envelopes@.len() as int) =~= all);
        self.envelopes = remaining;
        matched
    }
}

/// Why a delivery failed: a transient failure may be retried, a permanent
/// one may not.
#[derive(Debug, PartialEq, Eq)]
pub enum DeliveryFailure {
    Transient(&'static str),
    Permanent(&'static str),
}

/// The envelope to deliver after a failed delivery: a permanent failure,
/// or a transient one at the last allowed attempt, goes to the dead-letter
/// topic; another transient failure is retried on the same topic at the
/// next attempt.
pub open spec fn delivery_after_failure(e: EnvelopeView, failure: DeliveryFailure) -> EnvelopeView {
    match failure {
        DeliveryFailure::Permanent(reason) => delivery_failure_envelope(
            e,
            KafkaTopic::AgentDeadletter,
            reason@,
        ),
        DeliveryFailure::Transient(reason) => if e.attempt >= e.max_attempts {
            delivery_failure_envelope(e, KafkaTopic::AgentDeadletter, reason@)
        } else {
            EnvelopeView {
                workflow_state: WorkflowState::Retrying,
                attempt: (e.attempt + 1) as u32,
                payload: "retry source_topic="@ + topic_name(e.topic) + " reason="@ + reason@
                    + " payload="@ + e.payload,
                ..e
            }
        },
    }
}

/// The envelope to deliver after a failed delivery (see
/// `delivery_after_failure`).
pub fn next_delivery_attempt(envelope: &MessageEnvelope, failure: DeliveryFailure) -> (res:
    MessageEnvelope)
    ensures
        res@ == delivery_after_failure(envelope@, failure),
{
    match failure {
        DeliveryFailure::Permanent(reason) => {
            envelope.with_delivery_failure(KafkaTopic::AgentDeadletter, reason)
        },
        DeliveryFailure::Transient(reason) => {
            if envelope.attempt >= envelope.max_attempts {
                envelope.with_delivery_failure(KafkaTopic::AgentDeadletter, reason)
            } else {
                let mut retry = envelope.copy();
                retry.workflow_state = WorkflowState::Retrying;
                retry.attempt = retry.attempt + 1;
                let mut payload = String::new();
                payload.append("retry source_topic=");
                payload.append(envelope.topic.as_str());
                payload.append(" reason=");
                payload.append(reason);
                payload.append(" payload=");
                payload.append(envelope.payload.as_str());
                assert(payload@ =~= "retry source_topic="@ + topic_name(envelope.topic)
                    + " reason="@ + reason@ + " payload="@ + envelope.payload@);
                retry.payload = payload;
                retry
            }
        },
    }
}

/// The topic that a decision is published on: work goes to the agent
/// commands, power changes to the power commands, and waiting to the
/// scheduler capacity topic.
pub open spec fn decision_topic(decision: SchedulingDecision) -> KafkaTopic {
    match decision {
        SchedulingDecision::RunHere { .. } => KafkaTopic::AgentCommands,
        SchedulingDecision::DispatchRemote { .. } => KafkaTopic::AgentCommands,
        SchedulingDecision::RequestPowerOn { .. } => KafkaTopic::PowerCommands,
        SchedulingDecision::RequestPowerOff { .. } => KafkaTopic::PowerCommands,
        SchedulingDecision::Hold { .. } => KafkaTopic::SchedulerCapacity,
    }
}

/// The envelope that carries a decision for a run: on the decision's
/// topic, in the scheduled state, with the decision's description.
pub open spec fn decision_envelope(
    run_id: Seq<char>,
    decision: SchedulingDecision,
    config: OrchestratorConfig,
) -> EnvelopeView {
    new_envelope(
        decision_topic(decision),
        run_id,
        WorkflowState::Scheduled,
        decision_text(decision),
        config,
    )
}

/// The envelope that carries a decision for a run (see `decision_envelope`).
pub fn envelope_for_decision(
    run_id: &str,
    decision: &SchedulingDecision,
    config: &OrchestratorConfig,
) -> (res: MessageEnvelope)
    ensures
        res@ == decision_envelope(run_id@, *decision, *config),
{
    let topic = match decision {
        SchedulingDecision::RunHere { .. } | SchedulingDecision::DispatchRemote { .. } => {
            KafkaTopic::AgentCommands
        },
        SchedulingDecision::RequestPowerOn { .. } | SchedulingDecision::RequestPowerOff { .. } => {
            KafkaTopic::PowerCommands
        },
        SchedulingDecision::Hold { .. } => KafkaTopic::SchedulerCapacity,
    };
    MessageEnvelope::new(
        topic,
        run_id,
        WorkflowState::Scheduled,
        describe_decision(decision),
        config,
    )
}

/// Decides where a job runs, publishes the envelope that carries the
/// decision, and returns that envelope.
pub fn publish_scheduling_observation(
    producer: &mut impl MessageProducer,
    job: &JobRequest,
    capacity: &CapacitySnapshot,
    config: &OrchestratorConfig,
) -> (res: MessageEnvelope)
    ensures
        res@ == decision_envelope(job.run_id@, capacity_decision(*job, *capacity, *config), *config),
        final(producer).published() == old(producer).published().push(res@),
{
    let decision = decide_capacity_action(job, capacity, config);
    let envelope = envelope_for_decision(job.run_id, &decision, config);
    producer.publish(envelope.copy());
    envelope
}

/// Every workflow state, in lifecycle order.
pub open spec fn all_workflow_states() -> Seq<WorkflowState> {
    seq![
        WorkflowState::Received,
        WorkflowState::Validated,
        WorkflowState::Scheduled,
        WorkflowState::Running,
        WorkflowState::Reviewing,
        WorkflowState::Accepted,
        WorkflowState::Retrying,
        WorkflowState::Quarantined,
        WorkflowState::Deadlettered,
    ]
}

/// Every topic, in the order in which they are listed.
pub open spec fn all_topics() -> Seq<KafkaTopic> {
    seq![
        KafkaTopic::AgentCommands,
        KafkaTopic::AgentObservations,
        KafkaTopic::AgentResults,
        KafkaTopic::AgentReview,
        KafkaTopic::AgentDeadletter,
        KafkaTopic::SchedulerCapacity,
        KafkaTopic::PowerCommands,
        KafkaTopic::PowerObservations,
        KafkaTopic::SecurityFindings,
        KafkaTopic::AgentAudit,
    ]
}

/// Every workflow state (see `all_workflow_states`).
pub fn workflow_states() -> (res: [WorkflowState; 9])
    ensures
        res@ == all_workflow_states(),
{
    let res = [
        WorkflowState::Received,
        WorkflowState::Validated,
        WorkflowState::Scheduled,
        WorkflowState::Running,
        WorkflowState::Reviewing,
        WorkflowState::Accepted,
        WorkflowState::Retrying,
        WorkflowState::Quarantined,
        WorkflowState::Deadlettered,
    ];
    assert(res@ =~= all_workflow_states());
    res
}

/// The names of every topic, in the order of `all_topics`.
pub fn kafka_topics() -> (res: [&'static str; 10])
    ensures
        res@.len() == all_topics().len(),
        forall|i: int| 0 <= i < 10 ==> (#[trigger] res@[i])@ == topic_name(all_topics()[i]),
{
    let res = [
        KafkaTopic::AgentCommands.as_str(),
        KafkaTopic::AgentObservations.as_str(),
        KafkaTopic::AgentResults.as_str(),
        KafkaTopic::AgentReview.as_str(),
        KafkaTopic::AgentDeadletter.as_str(),
        KafkaTopic::SchedulerCapacity.as_str(),
        KafkaTopic::PowerCommands.as_str(),
        KafkaTopic::PowerObservations.as_str(),
        KafkaTopic::SecurityFindings.as_str(),
        KafkaTopic::AgentAudit.as_str(),
    ];
    res
}

/// The capacity of a control plane with only its own local slots free.
pub open spec fn local_only_capacity(config: OrchestratorConfig) -> CapacitySnapshot {
    CapacitySnapshot {
        local_available_slots: config.local_capacity_slots,
        remote_online_slots: 0,
        remote_powering_slots: 0,
        idle_seconds: 0,
    }
}

/// The sample jobs: an interactive one-slot job, a four-slot batch job
/// that may use remote workers, and a maintenance job.
pub open spec fn sample_jobs() -> Seq<JobRequest> {
    seq![
        JobRequest {
            run_id: "interactive-local-001",
            required_slots: 1,
            priority: crate::scheduling::JobPriority::Interactive,
            allows_remote_capacity: false,
        },
        JobRequest {
            run_id: "batch-remote-001",
            required_slots: 4,
            priority: crate::scheduling::JobPriority::Batch,
            allows_remote_capacity: true,
        },
        JobRequest {
            run_id: "maintenance-001",
            required_slots: 1,
            priority: crate::scheduling::JobPriority::Maintenance,
            allows_remote_capacity: false,
        },
    ]
}

fn sample_job(i: usize) -> (res: JobRequest)
    requires
        i < 3,
    ensures
        res == sample_jobs()[i as int],
{
    if i == 0 {
        JobRequest {
            run_id: "interactive-local-001",
            required_slots: 1,
            priority: crate::scheduling::JobPriority::Interactive,
            allows_remote_capacity: false,
        }
    } else if i == 1 {
        JobRequest {
            run_id: "batch-remote-001",
            required_slots: 4,
            priority: crate::scheduling::JobPriority::Batch,
            allows_remote_capacity: true,
        }
    } else {
        JobRequest {
            run_id: "maintenance-001",
            required_slots: 1,
            priority: crate::scheduling::JobPriority::Maintenance,
            allows_remote_capacity: false,
        }
    }
}

fn local_only(config: &OrchestratorConfig) -> (res: CapacitySnapshot)
    ensures
        res == local_only_capacity(*config),
{
    CapacitySnapshot {
        local_available_slots: config.local_capacity_slots,
        remote_online_slots: 0,
        remote_powering_slots: 0,
        idle_seconds: 0,
    }
}

/// The decisions for the sample jobs on local capacity only.
pub fn sample_scheduling_decisions(config: &OrchestratorConfig) -> (res: [SchedulingDecision; 3])
    ensures
        forall|i: int|
            0 <= i < 3 ==> res@[i] == capacity_decision(
                #[trigger] sample_jobs()[i],
                local_only_capacity(*config),
                *config,
            ),
        res@.len() == 3,
{
    let first = decide_capacity_action(&sample_job(0), &local_only(config), config);
    let second = decide_capacity_action(&sample_job(1), &local_only(config), config);
    let third = decide_capacity_action(&sample_job(2), &local_only(config), config);
    let res = [first, second, third];
    assert forall|i: int| 0 <= i < 3 implies res@[i] == capacity_decision(
        #[trigger] sample_jobs()[i],
        local_only_capacity(*config),
        *config,
    ) by {
        if i == 0 {
        } else if i == 1 {
        } else {
        }
    }
    res
}

/// The queue that the sample delivery contract builds: the batch job's
/// decision, the dead-letter form of that envelope after a transient
/// failure at its last attempt, and its dead-letter form after a permanent
/// failure.
pub open spec fn sample_queue(config: OrchestratorConfig) -> Seq<EnvelopeView> {
    let first = decision_envelope(
        "batch-remote-001"@,
        capacity_decision(sample_jobs()[1], local_only_capacity(config), config),
        config,
    );
    seq![
        first,
        delivery_after_failure(
            EnvelopeView { attempt: first.max_attempts, ..first },
            DeliveryFailure::Transient("sample broker timeout"),
        ),
        delivery_after_failure(first, DeliveryFailure::Permanent("sample invalid envelope")),
    ]
}

/// The sample delivery contract: what the power command topic and then the
/// dead-letter topic give for the sample queue.
pub fn sample_kafka_contract(config: &OrchestratorConfig) -> (res: Vec<MessageEnvelope>)
    ensures
        envelope_views(res@) == on_topic(sample_queue(*config), KafkaTopic::PowerCommands)
            + on_topic(
            off_topic(sample_queue(*config), KafkaTopic::PowerCommands),
            KafkaTopic::AgentDeadletter,
        ),
{
    let mut broker = InMemoryBroker::default();
    let power_command = publish_scheduling_observation(
        &mut broker,
        &sample_job(1),
        &local_only(config),
        config,
    );
    let mut exhausted_command = power_command.copy();
    exhausted_command.attempt = exhausted_command.max_attempts;
    broker.publish(
        next_delivery_attempt(&exhausted_command, DeliveryFailure::Transient("sample broker timeout")),
    );
    broker.publish(
        next_delivery_attempt(&power_command, DeliveryFailure::Permanent("sample invalid envelope")),
    );
    assert(broker.pending() =~= sample_queue(*config));
    let mut sample = broker.drain_topic(KafkaTopic::PowerCommands);
    let deadletters = broker.drain_topic(KafkaTopic::AgentDeadletter);
    let ghost first_part = envelope_views(sample@);
    let ghost second_part = envelope_views(deadletters@);
    let mut i: usize = 0;
    while i < deadletters.len()
        invariant
            0 <= i <= deadletters@.len(),
            envelope_views(sample@) =~= first_part + second_part.take(i as int),
            second_part == envelope_views(deadletters@),
        decreases deadletters@.len() - i,
    {
        let ghost before = sample@;
        assert(second_part.take(i + 1) =~= second_part.take(i as int).push(deadletters@[i as int]@));
        sample.push(deadletters[i].copy());
        assert(envelope_views(sample@) =~= envelope_views(before).push(deadletters@[i as int]@));
        i = i + 1;
    }
    assert(second_part.take(deadletters@.len() as int) =~= second_part);
    sample
}

} // verus!
