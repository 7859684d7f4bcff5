use vstd::prelude::*;
use vstd::string::*;
use crate::text::{parse_u32, parse_u32_spec};

verus! {

/// The settings of the orchestrator.
#[derive(Debug)]
pub struct OrchestratorConfig {
    pub project_name: String,
    pub control_plane_role: String,
    pub scheduler_mode: String,
    pub local_capacity_slots: u32,
    pub remote_wake_threshold_slots: u32,
    pub idle_powerdown_after_seconds: u32,
    pub kafka_bootstrap_servers: String,
    pub localstack_endpoint: String,
    pub paperclip_endpoint: String,
    pub max_in_flight: u32,
    pub retry_limit: u32,
}

/// The value of the first variable named `key` among the environment
/// variables `vars`, if there is one.
pub open spec fn env_lookup(vars: Seq<(String, String)>, key: Seq<char>) -> Option<Seq<char>>
    decreases vars.len(),
{
    if vars.len() == 0 {
        None
    } else {
        match env_lookup(vars.drop_last(), key) {
            Some(v) => Some(v),
            None => if vars.last().0@ == key {
                Some(vars.last().1@)
            } else {
                None
            },
        }
    }
}

/// The text setting `key`: its variable's value, or `default` where it is
/// not set.
pub open spec fn env_text(vars: Seq<(String, String)>, key: Seq<char>, default: Seq<char>) -> Seq<
    char,
> {
    match env_lookup(vars, key) {
        Some(v) => v,
        None => default,
    }
}

/// The number setting `key`: its variable's value read as `str::parse::<u32>`
/// reads it, or `default` where it is not set or does not read as a `u32`.
pub open spec fn env_u32(vars: Seq<(String, String)>, key: Seq<char>, default: u32) -> u32 {
    match env_lookup(vars, key) {
        Some(v) => match parse_u32_spec(vstd::utf8::encode_utf8(v)) {
            Some(n) => n,
            None => default,
        },
        None => default,
    }
}

fn lookup(vars: &Vec<(String, String)>, key: &str) -> (res: Option<usize>)
    ensures
        match res {
            Some(i) => i < vars@.len() && env_lookup(vars@, key@) == Some(vars@[i as int].1@),
            None => env_lookup(vars@, key@) is None,
        },
{
    let wanted = key.to_owned();
    let mut i: usize = 0;
    while i < vars.len()
        invariant
            wanted@ == key@,
            0 <= i <= vars@.len(),
            env_lookup(vars@.take(i as int), key@) is None,
        decreases vars@.len() - i,
    {
        assert(vars@.take(i + 1).drop_last() =~= vars@.take(i as int));
        if vars[i].0 == wanted {
            proof {
                lemma_env_lookup_prefix(vars@, i + 1, key@);
            }
            return Some(i);
        }
        i = i + 1;
    }
    assert(vars@.take(vars@.len() as int) =~= vars@);
    None
}

/// Once a prefix of the variables sets `key`, the whole list gives that
/// same value.
proof fn lemma_env_lookup_prefix(vars: Seq<(String, String)>, n: int, key: Seq<char>)
    requires
        0 <= n <= vars.len(),
        env_lookup(vars.take(n), key) is Some,
    ensures
        env_lookup(vars, key) == env_lookup(vars.take(n), key),
    decreases vars.len() - n,
{
    if n < vars.len() {
        assert(vars.take(n + 1).drop_last() =~= vars.take(n));
        lemma_env_lookup_prefix(vars, n + 1, key);
    } else {
        assert(vars.take(n) =~= vars);
    }
}

/// The text setting `key` of the environment variables `vars` (see
/// `env_text`).
pub fn read_env(vars: &Vec<(String, String)>, key: &str, default: &str) -> (res: String)
    ensures
        res@ == env_text(vars@, key@, default@),
{
    match lookup(vars, key) {
        Some(i) => vars[i].1.clone(),
        None => default.to_owned(),
    }
}

/// The number setting `key` of the environment variables `vars` (see
/// `env_u32`).
pub fn read_u32_env(vars: &Vec<(String, String)>, key: &str, default: u32) -> (res: u32)
    ensures
        res == env_u32(vars@, key@, default),
{
    match lookup(vars, key) {
        Some(i) => match parse_u32(vars[i].1.as_str()) {
            Some(n) => n,
            None => default,
        },
        None => default,
    }
}

/// A key that no variable names gives nothing, so its setting takes its
/// default.
pub proof fn law_env_unset_key(vars: Seq<(String, String)>, key: Seq<char>)
    requires
        forall|j: int| 0 <= j < vars.len() ==> (#[trigger] vars[j]).0@ != key,
    ensures
        env_lookup(vars, key) is None,
        forall|default: Seq<char>| #[trigger] env_text(vars, key, default) == default,
        forall|default: u32| #[trigger] env_u32(vars, key, default) == default,
    decreases vars.len(),
{
    if vars.len() > 0 {
        law_env_unset_key(vars.drop_last(), key);
        assert(vars.last() == vars[vars.len() - 1]);
    }
}

/// A key that exactly one variable names gives that variable's value, as
/// text or, where it reads as a `u32`, as that number.
pub proof fn law_env_set_key(vars: Seq<(String, String)>, key: Seq<char>, i: int)
    requires
        0 <= i < vars.len(),
        vars[i].0@ == key,
        forall|j: int| 0 <= j < vars.len() && j != i ==> (#[trigger] vars[j]).0@ != key,
    ensures
        env_lookup(vars, key) == Some(vars[i].1@),
        forall|default: Seq<char>| #[trigger] env_text(vars, key, default) == vars[i].1@,
        forall|default: u32|
            parse_u32_spec(vstd::utf8::encode_utf8(vars[i].1@)) matches Some(n) ==> #[trigger] env_u32(
                vars,
                key,
                default,
            ) == n,
    decreases vars.len(),
{
    let rest = vars.drop_last();
    if i < vars.len() - 1 {
        assert forall|j: int| 0 <= j < rest.len() && j != i implies (#[trigger] rest[j]).0@ != key by {
            assert(rest[j] == vars[j]);
        }
        law_env_set_key(rest, key, i);
    } else {
        assert forall|j: int| 0 <= j < rest.len() implies (#[trigger] rest[j]).0@ != key by {
            assert(rest[j] == vars[j]);
        }
        law_env_unset_key(rest, key);
    }
}

impl OrchestratorConfig {
    /// The settings that the environment variables `vars` give, each one
    /// falling back on its default.
    pub fn from_env(vars: &Vec<(String, String)>) -> (res: Self)
        ensures
            res.project_name@ == env_text(vars@, "ATHERNEX_PROJECT_NAME"@, "Project Athernex"@),
            res.control_plane_role@ == env_text(
                vars@,
                "ATHERNEX_CONTROL_PLANE_ROLE"@,
                "local-control-plane"@,
            ),
            res.scheduler_mode@ == env_text(vars@, "ATHERNEX_SCHEDULER_MODE"@, "contract-only"@),
            res.local_capacity_slots == env_u32(vars@, "ATHERNEX_LOCAL_CAPACITY_SLOTS"@, 2),
            res.remote_wake_threshold_slots == env_u32(
                vars@,
                "ATHERNEX_REMOTE_WAKE_THRESHOLD_SLOTS"@,
                3,
            ),
            res.idle_powerdown_after_seconds == env_u32(
                vars@,
                "ATHERNEX_IDLE_POWERDOWN_AFTER_SECONDS"@,
                900,
            ),
            res.kafka_bootstrap_servers@ == env_text(
                vars@,
                "KAFKA_BOOTSTRAP_SERVERS"@,
                "127.0.0.1:9092"@,
            ),
            res.localstack_endpoint@ == env_text(
                vars@,
                "LOCALSTACK_ENDPOINT"@,
                "http://127.0.0.1:4566"@,
            ),
            res.paperclip_endpoint@ == env_text(
                vars@,
                "PAPERCLIP_ENDPOINT"@,
                "http://127.0.0.1:3100"@,
            ),
            res.max_in_flight == env_u32(vars@, "AGENT_MAX_IN_FLIGHT"@, 8),
            res.retry_limit == env_u32(vars@, "AGENT_RETRY_LIMIT"@, 3),
    {
        OrchestratorConfig {
            project_name: read_env(vars, "ATHERNEX_PROJECT_NAME", "Project Athernex"),
            control_plane_role: read_env(
                vars,
                "ATHERNEX_CONTROL_PLANE_ROLE",
                "local-control-plane",
            ),
            scheduler_mode: read_env(vars, "ATHERNEX_SCHEDULER_MODE", "contract-only"),
            local_capacity_slots: read_u32_env(vars, "ATHERNEX_LOCAL_CAPACITY_SLOTS", 2),
            remote_wake_threshold_slots: read_u32_env(
                vars,
                "ATHERNEX_REMOTE_WAKE_THRESHOLD_SLOTS",
                3,
            ),
            idle_powerdown_after_seconds: read_u32_env(
                vars,
                "ATHERNEX_IDLE_POWERDOWN_AFTER_SECONDS",
                900,
            ),
            kafka_bootstrap_servers: read_env(vars, "KAFKA_BOOTSTRAP_SERVERS", "127.0.0.1:9092"),
            localstack_endpoint: read_env(vars, "LOCALSTACK_ENDPOINT", "http://127.0.0.1:4566"),
            paperclip_endpoint: read_env(vars, "PAPERCLIP_ENDPOINT", "http://127.0.0.1:3100"),
            max_in_flight: read_u32_env(vars, "AGENT_MAX_IN_FLIGHT", 8),
            retry_limit: read_u32_env(vars, "AGENT_RETRY_LIMIT", 3),
        }
    }
}

} // verus!
