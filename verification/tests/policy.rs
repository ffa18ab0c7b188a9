use pullpiri::messages::{ErrorCode, ResourceType, ScenarioState, StateChange};
use pullpiri::nodeagent::config::{default_yaml_storage, Config};
use pullpiri::policymanager::{
    check_id, check_policy, policy_decision, report_policy_approval, report_policy_denial,
    report_policy_verification, report_scenario_state_change,
};
use pullpiri::statemanager::state_machine::StateMachine;

#[test]
fn only_the_known_scenario_may_proceed() {
    let check = check_policy("test_scenario");
    assert_eq!(check.status, 0);
    assert_eq!(check.desc, "Policy check passed");
    assert_eq!(policy_decision(&check), "allowed");

    let check = check_policy("");
    assert_eq!(check.status, 1);
    assert_eq!(check.desc, "Scenario name cannot be empty");
    assert_eq!(policy_decision(&check), "denied");

    let check = check_policy("other");
    assert_eq!(check.status, 1);
    assert_eq!(check.desc, "Policy check failed for scenario: other");
    assert_eq!(policy_decision(&check), "denied");
}

#[test]
fn checks_are_numbered_by_their_time() {
    assert_eq!(check_id(0), "check-0");
    assert_eq!(check_id(1700000000123), "check-1700000000123");
}

#[test]
fn test_report_policy_verification() {
    let change = report_policy_verification("security-scenario", "allowed", "policy-123", 17);
    assert_eq!(change.resource_type, ResourceType::Scenario.to_i32());
    assert_eq!(change.resource_name, "security-scenario");
    assert_eq!(change.current_state, "satisfied");
    assert_eq!(change.target_state, "allowed");
    assert!(change.transition_id.contains("policy-verification-policy-123"));
    assert_eq!(change.transition_id, "policy-verification-policy-123");
    assert_eq!(change.timestamp_ns, 17);
    assert_eq!(change.source, "policymanager");
}

#[test]
fn test_report_policy_approval() {
    let change = report_policy_approval("emergency-scenario", "policy-456", 18);
    assert!(change.transition_id.contains("policy-approval-policy-456"));
    assert_eq!(change.resource_name, "emergency-scenario");
    assert_eq!(change.current_state, "satisfied");
    assert_eq!(change.target_state, "allowed");
}

#[test]
fn test_report_policy_denial() {
    let change = report_policy_denial("restricted-scenario", "policy-789", 19);
    assert!(change.transition_id.contains("policy-denial-policy-789"));
    assert_eq!(change.resource_name, "restricted-scenario");
    assert_eq!(change.current_state, "satisfied");
    assert_eq!(change.target_state, "denied");
}

#[test]
fn reports_name_the_states_that_they_are_given() {
    let change = report_scenario_state_change("s", "idle", "waiting", "t-1", -5);
    assert_eq!(change.current_state, "idle");
    assert_eq!(change.target_state, "waiting");
    assert_eq!(change.transition_id, "t-1");
    assert_eq!(change.timestamp_ns, -5);
}

#[test]
fn approval_of_a_waiting_scenario_is_granted_and_denial_follows() {
    let mut machine = StateMachine::new();
    let wait = StateChange {
        resource_type: ResourceType::Scenario.to_i32(),
        resource_name: "s".to_string(),
        current_state: "idle".to_string(),
        target_state: "waiting".to_string(),
        transition_id: "t-0".to_string(),
        timestamp_ns: 1,
        source: "apiserver".to_string(),
    };
    assert!(machine.process_state_change(wait).is_success());
    let result = machine.process_state_change(report_policy_approval("s", "p1", 2));
    assert_eq!(result.error_code, ErrorCode::Success);
    assert_eq!(result.new_state, ScenarioState::Allowed.to_i32());
    let result = machine.process_state_change(report_policy_denial("s", "p2", 3));
    assert_eq!(result.error_code, ErrorCode::Success);
    assert_eq!(result.new_state, ScenarioState::Denied.to_i32());
}

#[test]
fn decisions_on_a_satisfied_scenario_are_granted() {
    let decided = |change: StateChange| {
        let mut machine = StateMachine::new();
        let result = machine.process_state_change(change);
        assert_eq!(result.error_code, ErrorCode::Success);
        result.new_state
    };
    assert_eq!(decided(report_policy_approval("s", "p", 1)), ScenarioState::Allowed.to_i32());
    assert_eq!(decided(report_policy_denial("s", "p", 1)), ScenarioState::Denied.to_i32());
    for name in ["test_scenario", "other"] {
        let check = check_policy(name);
        let report = report_policy_verification(name, policy_decision(&check), "p", 1);
        let expected = if check.status == 0 {
            ScenarioState::Allowed
        } else {
            ScenarioState::Denied
        };
        assert_eq!(decided(report), expected.to_i32());
    }
}

// ── The node agent's configuration ───────────────────────────────────────────

#[test]
fn nothing_is_set_by_default() {
    let config = Config::default();
    assert_eq!(config.get_host_ip(), "");
    assert_eq!(config.get_hostname(), "");
    assert_eq!(config.get_yaml_storage(), "");
    assert_eq!(config.nodeagent.grpc_port, 0);
    assert_eq!(config.nodeagent.metrics.collection_interval, 0);
    assert_eq!(default_yaml_storage(), "/etc/piccolo/yaml");
}

#[test]
fn getters_read_their_settings() {
    let mut config = Config::default();
    config.nodeagent.master_ip = "10.0.0.1".to_string();
    config.nodeagent.system.hostname = "node-7".to_string();
    config.nodeagent.yaml_storage = "/var/y".to_string();
    assert_eq!(config.get_host_ip(), "10.0.0.1");
    assert_eq!(config.get_hostname(), "node-7");
    assert_eq!(config.get_yaml_storage(), "/var/y");
}

#[test]
fn the_first_configuration_stays() {
    let mut first = Config::default();
    first.nodeagent.master_ip = "1".to_string();
    let mut second = Config::default();
    second.nodeagent.master_ip = "2".to_string();
    let mut slot: Option<Config> = None;
    Config::set_global(&mut slot, first);
    Config::set_global(&mut slot, second.clone());
    assert_eq!(Config::get(&mut slot).get_host_ip(), "1");
    let mut unset: Option<Config> = None;
    assert_eq!(Config::get(&mut unset).get_host_ip(), "");
    Config::set_global(&mut unset, second);
    assert_eq!(Config::get(&mut unset).get_host_ip(), "");
}
