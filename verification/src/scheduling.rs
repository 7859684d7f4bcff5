use vstd::prelude::*;
use vstd::string::*;
use crate::config::OrchestratorConfig;
use crate::text::{decimal, push_decimal};

verus! {

/// A job that asks for capacity.
#[derive(Debug)]
pub struct JobRequest {
    pub run_id: &'static str,
    pub required_slots: u32,
    pub priority: JobPriority,
    pub allows_remote_capacity: bool,
}

/// How urgent a job is.
#[derive(Debug)]
pub enum JobPriority {
    Interactive,
    Batch,
    Maintenance,
}

/// The capacity that the scheduler sees.
#[derive(Debug)]
pub struct CapacitySnapshot {
    pub local_available_slots: u32,
    pub remote_online_slots: u32,
    pub remote_powering_slots: u32,
    pub idle_seconds: u32,
}

/// What the scheduler decides to do.
#[derive(Debug, PartialEq, Eq)]
pub enum SchedulingDecision {
    RunHere { run_id: &'static str, slots: u32 },
    DispatchRemote { run_id: &'static str, slots: u32 },
    RequestPowerOn { run_id: &'static str, target_group: &'static str, slots: u32 },
    Hold { run_id: &'static str, reason: &'static str },
    RequestPowerOff { target_group: &'static str, idle_seconds: u32 },
}

/// The remote worker group that is powered on and off.
pub const REMOTE_WORKER_GROUP: &'static str = "worker-group-a";

/// Where a job runs: interactive jobs run here when local capacity allows;
/// maintenance jobs wait for a promotion window; otherwise a job runs here
/// when local capacity allows, waits when it may not use remote workers,
/// goes to the remote workers when enough of them are online, waits while
/// they are powering on, asks for them to be powered on when it needs at
/// least the wake threshold, and waits otherwise.
pub open spec fn capacity_decision(
    job: JobRequest,
    capacity: CapacitySnapshot,
    config: OrchestratorConfig,
) -> SchedulingDecision {
    if job.priority is Interactive && job.required_slots <= capacity.local_available_slots {
        SchedulingDecision::RunHere { run_id: job.run_id, slots: job.required_slots }
    } else if job.priority is Maintenance {
        SchedulingDecision::Hold {
            run_id: job.run_id,
            reason: "maintenance jobs require an explicit promotion window",
        }
    } else if job.required_slots <= capacity.local_available_slots {
        SchedulingDecision::RunHere { run_id: job.run_id, slots: job.required_slots }
    } else if !job.allows_remote_capacity {
        SchedulingDecision::Hold {
            run_id: job.run_id,
            reason: "job does not allow remote worker capacity",
        }
    } else if job.required_slots <= capacity.remote_online_slots {
        SchedulingDecision::DispatchRemote { run_id: job.run_id, slots: job.required_slots }
    } else if capacity.remote_powering_slots > 0 {
        SchedulingDecision::Hold {
            run_id: job.run_id,
            reason: "remote worker group is already powering on",
        }
    } else if job.required_slots >= config.remote_wake_threshold_slots {
        SchedulingDecision::RequestPowerOn {
            run_id: job.run_id,
            target_group: REMOTE_WORKER_GROUP,
            slots: job.required_slots,
        }
    } else {
        SchedulingDecision::Hold { run_id: job.run_id, reason: "below remote wake threshold" }
    }
}

/// Decides where a job runs (see `capacity_decision`).
pub fn decide_capacity_action(
    job: &JobRequest,
    capacity: &CapacitySnapshot,
    config: &OrchestratorConfig,
) -> (res: SchedulingDecision)
    ensures
        res == capacity_decision(*job, *capacity, *config),
{
    match job.priority {
        JobPriority::Interactive => {
            if job.required_slots <= capacity.local_available_slots {
                return SchedulingDecision::RunHere {
                    run_id: job.run_id,
                    slots: job.required_slots,
                };
            }
        },
        JobPriority::Maintenance => {
            return SchedulingDecision::Hold {
                run_id: job.run_id,
                reason: "maintenance jobs require an explicit promotion window",
            };
        },
        _ => {},
    }
    if job.required_slots <= capacity.local_available_slots {
        return SchedulingDecision::RunHere { run_id: job.run_id, slots: job.required_slots };
    }
    if !job.allows_remote_capacity {
        return SchedulingDecision::Hold {
            run_id: job.run_id,
            reason: "job does not allow remote worker capacity",
        };
    }
    if job.required_slots <= capacity.remote_online_slots {
        return SchedulingDecision::DispatchRemote {
            run_id: job.run_id,
            slots: job.required_slots,
        };
    }
    if capacity.remote_powering_slots > 0 {
        return SchedulingDecision::Hold {
            run_id: job.run_id,
            reason: "remote worker group is already powering on",
        };
    }
    if job.required_slots >= config.remote_wake_threshold_slots {
        return SchedulingDecision::RequestPowerOn {
            run_id: job.run_id,
            target_group: REMOTE_WORKER_GROUP,
            slots: job.required_slots,
        };
    }
    SchedulingDecision::Hold { run_id: job.run_id, reason: "below remote wake threshold" }
}

/// Whether idle remote workers are powered off: when some are online and
/// the group has been idle for at least the power-down delay.
pub open spec fn idle_decision(capacity: CapacitySnapshot, config: OrchestratorConfig) -> Option<
    SchedulingDecision,
> {
    if capacity.remote_online_slots > 0 && capacity.idle_seconds
        >= config.idle_powerdown_after_seconds {
        Some(
            SchedulingDecision::RequestPowerOff {
                target_group: REMOTE_WORKER_GROUP,
                idle_seconds: capacity.idle_seconds,
            },
        )
    } else {
        None
    }
}

/// Decides whether idle remote workers are powered off (see
/// `idle_decision`).
pub fn decide_idle_action(capacity: &CapacitySnapshot, config: &OrchestratorConfig) -> (res: Option<
    SchedulingDecision,
>)
    ensures
        res == idle_decision(*capacity, *config),
{
    if capacity.remote_online_slots > 0 && capacity.idle_seconds
        >= config.idle_powerdown_after_seconds {
        return Some(
            SchedulingDecision::RequestPowerOff {
                target_group: REMOTE_WORKER_GROUP,
                idle_seconds: capacity.idle_seconds,
            },
        );
    }
    None
}

/// The one-line description of a decision, as it is logged and sent.
pub open spec fn decision_text(decision: SchedulingDecision) -> Seq<char> {
    match decision {
        SchedulingDecision::RunHere { run_id, slots } => "run_here run_id="@ + run_id@
            + " slots="@ + decimal(slots as nat),
        SchedulingDecision::DispatchRemote { run_id, slots } => "dispatch_remote run_id="@
            + run_id@ + " slots="@ + decimal(slots as nat),
        SchedulingDecision::RequestPowerOn { run_id, target_group, slots } =>
            "request_power_on run_id="@ + run_id@ + " target_group="@ + target_group@
            + " slots="@ + decimal(slots as nat),
        SchedulingDecision::Hold { run_id, reason } => "hold run_id="@ + run_id@ + " reason="@
            + reason@,
        SchedulingDecision::RequestPowerOff { target_group, idle_seconds } =>
            "request_power_off target_group="@ + target_group@ + " idle_seconds="@ + decimal(
            idle_seconds as nat,
        ),
    }
}

/// Describes a decision in one line (see `decision_text`).
pub fn describe_decision(decision: &SchedulingDecision) -> (res: String)
    ensures
        res@ == decision_text(*decision),
{
    let mut out = String::new();
    match decision {
        SchedulingDecision::RunHere { run_id, slots } => {
            out.append("run_here run_id=");
            out.append(run_id);
            out.append(" slots=");
            push_decimal(&mut out, *slots);
        },
        SchedulingDecision::DispatchRemote { run_id, slots } => {
            out.append("dispatch_remote run_id=");
            out.append(run_id);
            out.append(" slots=");
            push_decimal(&mut out, *slots);
        },
        SchedulingDecision::RequestPowerOn { run_id, target_group, slots } => {
            out.append("request_power_on run_id=");
            out.append(run_id);
            out.append(" target_group=");
            out.append(target_group);
            out.append(" slots=");
            push_decimal(&mut out, *slots);
        },
        SchedulingDecision::Hold { run_id, reason } => {
            out.append("hold run_id=");
            out.append(run_id);
            out.append(" reason=");
            out.append(reason);
        },
        SchedulingDecision::RequestPowerOff { target_group, idle_seconds } => {
            out.append("request_power_off target_group=");
            out.append(target_group);
            out.append(" idle_seconds=");
            push_decimal(&mut out, *idle_seconds);
        },
    }
    assert(out@ =~= decision_text(*decision));
    out
}

/// A decision never overcommits: work runs here only on local slots that
/// are free, goes to remote workers only where the job allows it and enough
/// of them are online, and powers workers on only for a job that allows
/// remote work, fits neither here nor on the online workers, meets the wake
/// threshold, while no worker is already powering on. Maintenance jobs
/// always wait, and every decision is about the job's own run and slots.
pub proof fn law_decision_respects_capacity(
    job: JobRequest,
    capacity: CapacitySnapshot,
    config: OrchestratorConfig,
)
    ensures
        ({
            let d = capacity_decision(job, capacity, config);
            &&& job.priority is Maintenance ==> d is Hold
            &&& d matches SchedulingDecision::RunHere { run_id, slots } ==> run_id == job.run_id
                && slots == job.required_slots && slots <= capacity.local_available_slots
            &&& d matches SchedulingDecision::DispatchRemote { run_id, slots } ==> run_id
                == job.run_id && slots == job.required_slots && job.allows_remote_capacity
                && capacity.local_available_slots < slots && slots
                <= capacity.remote_online_slots
            &&& d matches SchedulingDecision::RequestPowerOn { run_id, target_group, slots } ==> {
                &&& run_id == job.run_id && slots == job.required_slots
                &&& target_group == REMOTE_WORKER_GROUP
                &&& job.allows_remote_capacity
                &&& capacity.local_available_slots < slots
                &&& capacity.remote_online_slots < slots
                &&& capacity.remote_powering_slots == 0
                &&& slots >= config.remote_wake_threshold_slots
            }
            &&& d matches SchedulingDecision::Hold { run_id, .. } ==> run_id == job.run_id
            &&& d !is RequestPowerOff
        }),
{
}

/// Idle workers are powered off only when some are online and the group
/// has been idle at least as long as the power-down delay, and then the
/// decision carries that idle time.
pub proof fn law_idle_power_off(capacity: CapacitySnapshot, config: OrchestratorConfig)
    ensures
        idle_decision(capacity, config) is Some <==> capacity.remote_online_slots > 0
            && capacity.idle_seconds >= config.idle_powerdown_after_seconds,
        idle_decision(capacity, config) matches Some(d) ==> d
            == (SchedulingDecision::RequestPowerOff {
            target_group: REMOTE_WORKER_GROUP,
            idle_seconds: capacity.idle_seconds,
        }),
{
}

/// A job that is not a maintenance job and whose slots fit in the free
/// local slots runs here, on its own run and slots, whatever its priority
/// and whether or not it allows remote capacity.
pub proof fn law_local_fit_runs_here(
    job: JobRequest,
    capacity: CapacitySnapshot,
    config: OrchestratorConfig,
)
    requires
        !(job.priority is Maintenance),
        job.required_slots <= capacity.local_available_slots,
    ensures
        capacity_decision(job, capacity, config) == (SchedulingDecision::RunHere {
            run_id: job.run_id,
            slots: job.required_slots,
        }),
{
}

/// A maintenance job always waits for an explicit promotion window, however
/// much capacity is free.
pub proof fn law_maintenance_waits(job: JobRequest, capacity: CapacitySnapshot, config: OrchestratorConfig)
    requires
        job.priority is Maintenance,
    ensures
        capacity_decision(job, capacity, config) == (SchedulingDecision::Hold {
            run_id: job.run_id,
            reason: "maintenance jobs require an explicit promotion window",
        }),
{
}

/// A job that is not a maintenance job and does not fit in the free local
/// slots waits when it does not allow remote capacity. When it does, it is
/// sent to the remote workers if enough of them are online; else it waits
/// while some are powering on; else it asks for the remote group to be
/// powered on for its slots if it needs at least the wake threshold, and
/// waits otherwise.
pub proof fn law_beyond_local_capacity(
    job: JobRequest,
    capacity: CapacitySnapshot,
    config: OrchestratorConfig,
)
    requires
        !(job.priority is Maintenance),
        job.required_slots > capacity.local_available_slots,
    ensures
        ({
            let d = capacity_decision(job, capacity, config);
            &&& !job.allows_remote_capacity ==> d == (SchedulingDecision::Hold {
                run_id: job.run_id,
                reason: "job does not allow remote worker capacity",
            })
            &&& job.allows_remote_capacity && job.required_slots <= capacity.remote_online_slots
                ==> d == (SchedulingDecision::DispatchRemote {
                run_id: job.run_id,
                slots: job.required_slots,
            })
            &&& job.allows_remote_capacity && job.required_slots > capacity.remote_online_slots
                && capacity.remote_powering_slots > 0 ==> d == (SchedulingDecision::Hold {
                run_id: job.run_id,
                reason: "remote worker group is already powering on",
            })
            &&& job.allows_remote_capacity && job.required_slots > capacity.remote_online_slots
                && capacity.remote_powering_slots == 0 && job.required_slots
                >= config.remote_wake_threshold_slots ==> d == (SchedulingDecision::RequestPowerOn {
                run_id: job.run_id,
                target_group: "worker-group-a",
                slots: job.required_slots,
            })
            &&& job.allows_remote_capacity && job.required_slots > capacity.remote_online_slots
                && capacity.remote_powering_slots == 0 && job.required_slots
                < config.remote_wake_threshold_slots ==> d == (SchedulingDecision::Hold {
                run_id: job.run_id,
                reason: "below remote wake threshold",
            })
        }),
{
}

} // verus!
