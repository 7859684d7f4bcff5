use orchestrator::config::{read_env, read_u32_env};
use orchestrator::OrchestratorConfig;

fn vars(pairs: &[(&str, &str)]) -> Vec<(String, String)> {
    pairs.iter().map(|(k, v)| (k.to_string(), v.to_string())).collect()
}

#[test]
fn defaults_apply_without_variables() {
    let config = OrchestratorConfig::from_env(&Vec::new());
    assert_eq!(config.project_name, "Project Athernex");
    assert_eq!(config.control_plane_role, "local-control-plane");
    assert_eq!(config.scheduler_mode, "contract-only");
    assert_eq!(config.local_capacity_slots, 2);
    assert_eq!(config.remote_wake_threshold_slots, 3);
    assert_eq!(config.idle_powerdown_after_seconds, 900);
    assert_eq!(config.kafka_bootstrap_servers, "127.0.0.1:9092");
    assert_eq!(config.localstack_endpoint, "http://127.0.0.1:4566");
    assert_eq!(config.paperclip_endpoint, "http://127.0.0.1:3100");
    assert_eq!(config.max_in_flight, 8);
    assert_eq!(config.retry_limit, 3);
}

#[test]
fn variables_override_defaults() {
    let config = OrchestratorConfig::from_env(&vars(&[
        ("ATHERNEX_PROJECT_NAME", "Lab"),
        ("AGENT_RETRY_LIMIT", "7"),
        ("ATHERNEX_LOCAL_CAPACITY_SLOTS", "not a number"),
        ("AGENT_MAX_IN_FLIGHT", "+16"),
    ]));
    assert_eq!(config.project_name, "Lab");
    assert_eq!(config.retry_limit, 7);
    assert_eq!(config.local_capacity_slots, 2);
    assert_eq!(config.max_in_flight, 16);
}

#[test]
fn numbers_read_as_u32_does() {
    for text in ["0", "007", "+12", "4294967295", "", "+", "-1", "-0", " 1", "1 ", "4294967296", "99999999999", "1e3", "١"] {
        let env = vars(&[("N", text)]);
        assert_eq!(read_u32_env(&env, "N", 5), text.parse::<u32>().unwrap_or(5), "{text:?}");
    }
}

#[test]
fn the_first_setting_of_a_name_counts() {
    let env = vars(&[("K", "first"), ("K", "second")]);
    assert_eq!(read_env(&env, "K", "default"), "first");
    assert_eq!(read_env(&env, "k", "default"), "default");
}
