use vstd::prelude::*;
use crate::config::OrchestratorConfig;
use crate::messaging::{
    decision_envelope, delivery_after_failure, idempotency_key_for, new_envelope, off_topic,
    on_topic, topic_name, DeliveryFailure, EnvelopeView, KafkaTopic, WorkflowState,
};
use crate::scheduling::{decision_text, SchedulingDecision};

verus! {

/// A failed delivery never goes beyond the allowed attempts: a message
/// within its attempts is either retried on its own topic at the next
/// attempt, still within them, or dead-lettered at the same attempt; in
/// both cases it keeps its run and its attempt limit. Permanent failures,
/// and transient ones at the last attempt, always dead-letter.
pub proof fn law_delivery_attempts_bounded(e: EnvelopeView, failure: DeliveryFailure)
    requires
        1 <= e.attempt <= e.max_attempts,
    ensures
        ({
            let next = delivery_after_failure(e, failure);
            &&& next.correlation_id == e.correlation_id
            &&& next.max_attempts == e.max_attempts
            &&& 1 <= next.attempt <= next.max_attempts
            &&& (next.workflow_state == WorkflowState::Retrying && next.topic == e.topic
                && next.attempt == e.attempt + 1 && next.idempotency_key == e.idempotency_key)
                || (next.workflow_state == WorkflowState::Deadlettered && next.topic
                == KafkaTopic::AgentDeadletter && next.attempt == e.attempt
                && next.idempotency_key == idempotency_key_for(
                e.correlation_id,
                KafkaTopic::AgentDeadletter,
            ))
            &&& (failure is Permanent || e.attempt >= e.max_attempts) ==> next.workflow_state
                == WorkflowState::Deadlettered
        }),
{
}

/// The envelope after `k` transient failures in a row, each for `reason`.
pub open spec fn after_transient_failures(e: EnvelopeView, reason: &'static str, k: nat) -> EnvelopeView
    decreases k,
{
    if k == 0 {
        e
    } else {
        delivery_after_failure(
            after_transient_failures(e, reason, (k - 1) as nat),
            DeliveryFailure::Transient(reason),
        )
    }
}

/// A message that keeps failing transiently is dead-lettered at the latest
/// after its remaining attempts: from attempt `a` of `m`, the `m - a + 1`-th
/// failure in a row sends it to the dead-letter topic.
pub proof fn law_transient_failures_end_in_deadletter(
    e: EnvelopeView,
    reason: &'static str,
)
    requires
        1 <= e.attempt <= e.max_attempts,
    ensures
        after_transient_failures(e, reason, (e.max_attempts - e.attempt + 1) as nat).topic
            == KafkaTopic::AgentDeadletter,
        after_transient_failures(e, reason, (e.max_attempts - e.attempt + 1) as nat).workflow_state
            == WorkflowState::Deadlettered,
{
    lemma_transient_retries(e, reason, (e.max_attempts - e.attempt) as nat);
}

proof fn lemma_transient_retries(e: EnvelopeView, reason: &'static str, k: nat)
    requires
        1 <= e.attempt <= e.max_attempts,
        k <= e.max_attempts - e.attempt,
    ensures
        after_transient_failures(e, reason, k).attempt == e.attempt + k,
        after_transient_failures(e, reason, k).max_attempts == e.max_attempts,
    decreases k,
{
    if k > 0 {
        lemma_transient_retries(e, reason, (k - 1) as nat);
    }
}

/// Draining a topic splits the messages: those taken are all on that topic
/// and those left are on others, and together they are all the messages.
pub proof fn law_drain_partitions(s: Seq<EnvelopeView>, topic: KafkaTopic)
    ensures
        on_topic(s, topic).len() + off_topic(s, topic).len() == s.len(),
        forall|i: int|
            0 <= i < on_topic(s, topic).len() ==> (#[trigger] on_topic(s, topic)[i]).topic == topic,
        forall|i: int|
            0 <= i < off_topic(s, topic).len() ==> (#[trigger] off_topic(s, topic)[i]).topic != topic,
    decreases s.len(),
{
    if s.len() > 0 {
        law_drain_partitions(s.drop_last(), topic);
        let on = on_topic(s.drop_last(), topic);
        let off = off_topic(s.drop_last(), topic);
        assert forall|i: int| 0 <= i < on_topic(s, topic).len() implies (#[trigger] on_topic(
            s,
            topic,
        )[i]).topic == topic by {
            if i < on.len() {
                assert(on_topic(s, topic)[i] == on[i]);
            }
        }
        assert forall|i: int| 0 <= i < off_topic(s, topic).len() implies (#[trigger] off_topic(
            s,
            topic,
        )[i]).topic != topic by {
            if i < off.len() {
                assert(off_topic(s, topic)[i] == off[i]);
            }
        }
    }
}

/// A published message is the last one that draining its topic gives, and
/// it leaves the messages of other topics as they were.
pub proof fn law_publish_then_drain(s: Seq<EnvelopeView>, e: EnvelopeView)
    ensures
        on_topic(s.push(e), e.topic) == on_topic(s, e.topic).push(e),
        off_topic(s.push(e), e.topic) == off_topic(s, e.topic),
{
    assert(s.push(e).drop_last() =~= s);
}

/// No two topics share a name.
pub proof fn law_topic_names_distinct(a: KafkaTopic, b: KafkaTopic)
    ensures
        topic_name(a) == topic_name(b) ==> a == b,
{
    reveal_strlit("agent.commands");
    reveal_strlit("agent.observations");
    reveal_strlit("agent.results");
    reveal_strlit("agent.review");
    reveal_strlit("agent.deadletter");
    reveal_strlit("scheduler.capacity");
    reveal_strlit("power.commands");
    reveal_strlit("power.observations");
    reveal_strlit("security.findings");
    reveal_strlit("agent.audit");
    if topic_name(a) == topic_name(b) && a != b {
        let x = topic_name(a);
        let y = topic_name(b);
        assert(x.len() == y.len());
        assert(x[0] == y[0] && x[6] == y[6] && x[7] == y[7] && x[8] == y[8]);
    }
}

/// A new envelope carries exactly what it was made with: its topic, the run
/// as its correlation id, its workflow state and its payload, at the first
/// attempt, keyed by the run and the topic's name. It is allowed the
/// configured retry limit of attempts, but never fewer than three.
pub proof fn law_new_envelope_keeps_inputs(
    topic: KafkaTopic,
    run_id: Seq<char>,
    workflow_state: WorkflowState,
    payload: Seq<char>,
    config: OrchestratorConfig,
)
    ensures
        ({
            let e = new_envelope(topic, run_id, workflow_state, payload, config);
            &&& e.topic == topic
            &&& e.correlation_id == run_id
            &&& e.workflow_state == workflow_state
            &&& e.payload == payload
            &&& e.attempt == 1
            &&& e.idempotency_key == run_id + ":"@ + topic_name(topic)
            &&& config.retry_limit >= 3 ==> e.max_attempts == config.retry_limit
            &&& config.retry_limit < 3 ==> e.max_attempts == 3
        }),
{
}

/// A decision to run work (here or on remote workers) is published on the
/// agent commands topic, a power decision on the power commands topic, and
/// a hold on the scheduler capacity topic, keyed by the run and that
/// topic's name. Every such envelope is for the run, in the scheduled
/// state, at the first attempt, and carries the decision's description.
pub proof fn law_decision_envelope_topics(
    run_id: Seq<char>,
    decision: SchedulingDecision,
    config: OrchestratorConfig,
)
    ensures
        ({
            let e = decision_envelope(run_id, decision, config);
            &&& (decision is RunHere || decision is DispatchRemote) ==> e.topic
                == KafkaTopic::AgentCommands && e.idempotency_key == run_id + ":"@
                + "agent.commands"@
            &&& (decision is RequestPowerOn || decision is RequestPowerOff) ==> e.topic
                == KafkaTopic::PowerCommands && e.idempotency_key == run_id + ":"@
                + "power.commands"@
            &&& decision is Hold ==> e.topic == KafkaTopic::SchedulerCapacity && e.idempotency_key
                == run_id + ":"@ + "scheduler.capacity"@
            &&& e.correlation_id == run_id
            &&& e.workflow_state == WorkflowState::Scheduled
            &&& e.attempt == 1
            &&& e.payload == decision_text(decision)
        }),
{
}

/// The reason that a failure gives.
pub open spec fn failure_reason(failure: DeliveryFailure) -> Seq<char> {
    match failure {
        DeliveryFailure::Permanent(reason) => reason@,
        DeliveryFailure::Transient(reason) => reason@,
    }
}

/// A permanent failure, or a transient one at the last allowed attempt,
/// dead-letters the message: the new envelope goes on the dead-letter topic
/// in the dead-lettered state, for the same run, attempt and attempt limit,
/// keyed by the run and that topic, and its payload names the source topic
/// and the reason and then carries the failed message's payload whole.
/// Another transient failure retries the message on its own topic and key,
/// in the retrying state at the next attempt, with a payload that names
/// the source topic and the reason and then carries the original payload.
pub proof fn law_failed_delivery_carries_payload(e: EnvelopeView, failure: DeliveryFailure)
    ensures
        ({
            let next = delivery_after_failure(e, failure);
            let reason = failure_reason(failure);
            &&& (failure is Permanent || e.attempt >= e.max_attempts) ==> {
                &&& next.topic == KafkaTopic::AgentDeadletter
                &&& next.workflow_state == WorkflowState::Deadlettered
                &&& next.correlation_id == e.correlation_id
                &&& next.attempt == e.attempt
                &&& next.max_attempts == e.max_attempts
                &&& next.idempotency_key == e.correlation_id + ":"@ + "agent.deadletter"@
                &&& next.payload == "delivery_failed source_topic="@ + topic_name(e.topic)
                    + " reason="@ + reason + " payload="@ + e.payload
            }
            &&& (failure is Transient && e.attempt < e.max_attempts) ==> {
                &&& next.topic == e.topic
                &&& next.workflow_state == WorkflowState::Retrying
                &&& next.correlation_id == e.correlation_id
                &&& next.attempt == e.attempt + 1
                &&& next.max_attempts == e.max_attempts
                &&& next.idempotency_key == e.idempotency_key
                &&& next.payload == "retry source_topic="@ + topic_name(e.topic) + " reason="@
                    + reason + " payload="@ + e.payload
            }
        }),
{
}

} // verus!
