use pullpiri::messages::{
    ContainerInfo, ContainerList, ErrorCode, ModelState, PackageState, ResourceType, ScenarioState,
    StateChange,
};
use pullpiri::grouping::distinct_names_of;
use pullpiri::statemanager::clock::stamp_of;
use pullpiri::statemanager::conditions::evaluate_condition;
use pullpiri::statemanager::model_state::{model_state_by_words, model_state_entry};
use pullpiri::statemanager::state_machine::{
    generate_resource_key, validate_state_change, StateMachine, BACKOFF_DURATION_NS,
    MAX_CONSECUTIVE_FAILURES,
};
use pullpiri::statemanager::transitions::{
    infer_event_from_states, initialize_model_transitions,
    initialize_package_transitions, initialize_scenario_transitions, state_str_to_enum,
};
use pullpiri::string_map::StringMap;

fn map(entries: &[(&str, &str)]) -> StringMap<String> {
    let mut result = StringMap::new();
    for (key, value) in entries {
        result.insert(key.to_string(), value.to_string());
    }
    result
}

fn change(resource_type: ResourceType, name: &str, from: &str, to: &str, id: &str) -> StateChange {
    StateChange {
        resource_type: resource_type.to_i32(),
        resource_name: name.to_string(),
        current_state: from.to_string(),
        target_state: to.to_string(),
        transition_id: id.to_string(),
        timestamp_ns: 42,
        source: "apiserver".to_string(),
    }
}

fn scenario(name: &str, from: &str, to: &str, id: &str) -> StateChange {
    change(ResourceType::Scenario, name, from, to, id)
}

fn container(id: &str, names: &[&str], states: &[(&str, &str)]) -> ContainerInfo {
    ContainerInfo {
        id: id.to_string(),
        names: names.iter().map(|n| n.to_string()).collect(),
        image: "test_image".to_string(),
        state: map(states),
        config: StringMap::new(),
        annotation: StringMap::new(),
        stats: StringMap::new(),
    }
}

fn list(containers: Vec<ContainerInfo>) -> ContainerList {
    ContainerList { node_name: "node".to_string(), containers }
}

// ── The state of a model by its containers ───────────────────────────────────

#[test]
fn test_evaluate_model_state_from_containers_empty() {
    let state_machine = StateMachine::new();
    let container_states = StringMap::new();
    let result =
        state_machine.evaluate_model_state_from_containers("test_model", &container_states);
    assert_eq!(result, ModelState::Pending);
}

#[test]
fn test_evaluate_model_state_from_containers_all_running() {
    let state_machine = StateMachine::new();
    let container_states =
        map(&[("test_model_container1", "running"), ("test_model_container2", "running")]);
    let result =
        state_machine.evaluate_model_state_from_containers("test_model", &container_states);
    assert_eq!(result, ModelState::Running);
}

#[test]
fn test_evaluate_model_state_from_containers_all_paused() {
    let state_machine = StateMachine::new();
    let container_states =
        map(&[("test_model_container1", "paused"), ("test_model_container2", "paused")]);
    let result =
        state_machine.evaluate_model_state_from_containers("test_model", &container_states);
    assert_eq!(result, ModelState::Unknown);
}

#[test]
fn test_evaluate_model_state_from_containers_all_exited() {
    let state_machine = StateMachine::new();
    let container_states =
        map(&[("test_model_container1", "exited"), ("test_model_container2", "stopped")]);
    let result =
        state_machine.evaluate_model_state_from_containers("test_model", &container_states);
    assert_eq!(result, ModelState::Succeeded);
}

#[test]
fn test_evaluate_model_state_from_containers_has_dead() {
    let state_machine = StateMachine::new();
    let container_states =
        map(&[("test_model_container1", "running"), ("test_model_container2", "dead")]);
    let result =
        state_machine.evaluate_model_state_from_containers("test_model", &container_states);
    assert_eq!(result, ModelState::Failed);
}

#[test]
fn test_evaluate_model_state_from_containers_mixed_states() {
    let state_machine = StateMachine::new();
    let container_states =
        map(&[("test_model_container1", "running"), ("test_model_container2", "paused")]);
    let result =
        state_machine.evaluate_model_state_from_containers("test_model", &container_states);
    assert_eq!(result, ModelState::Running);
}

#[test]
fn states_are_read_in_any_case_and_by_name() {
    let state_machine = StateMachine::new();
    let states = map(&[("test_model_1", "PAUSED"), ("other", "dead"), ("test_model_2", "Paused")]);
    assert_eq!(
        state_machine.evaluate_model_state_from_containers("test_model", &states),
        ModelState::Unknown
    );
    assert_eq!(
        state_machine.evaluate_model_state_from_containers("other", &states),
        ModelState::Failed
    );
    for word in ["failed", "ERROR", "Dead"] {
        let states = map(&[("m", word), ("m2", "running")]);
        assert_eq!(
            state_machine.evaluate_model_state_from_containers("m", &states),
            ModelState::Failed
        );
    }
}

#[test]
fn test_model_state_evaluation() {
    let state_machine = StateMachine::new();
    let states = map(&[
        ("model-test_model-container1", "running"),
        ("model-test_model-container2", "dead"),
        ("model-paused_model-container1", "paused"),
    ]);
    let dead = state_machine.evaluate_model_state_from_containers("test_model", &states);
    let paused = state_machine.evaluate_model_state_from_containers("paused_model", &states);
    assert_eq!(
        model_state_entry("test_model", dead),
        ("/model/test_model/state".to_string(), "Dead".to_string())
    );
    assert_eq!(
        model_state_entry("paused_model", paused),
        ("/model/paused_model/state".to_string(), "Paused".to_string())
    );
}

#[test]
fn states_of_models_are_stored_by_word() {
    assert_eq!(model_state_entry("m", ModelState::Pending).1, "Created");
    assert_eq!(model_state_entry("m", ModelState::Succeeded).1, "Exited");
    assert_eq!(model_state_entry("m", ModelState::Running).1, "Running");
    assert_eq!(model_state_entry("m", ModelState::CrashLoopBackOff).1, "Unknown");
}

#[test]
fn test_extract_model_name_from_container_annotation() {
    let state_machine = StateMachine::new();
    let mut info = container("test_id", &["test_container"], &[]);
    info.annotation.insert("pullpiri.model".to_string(), "my_model".to_string());
    let result = state_machine.extract_model_name_from_container(&info);
    assert_eq!(result, Some("my_model".to_string()));
}

#[test]
fn test_extract_model_name_from_container_name() {
    let state_machine = StateMachine::new();
    let info = container("test_id", &["my_model-worker"], &[]);
    let result = state_machine.extract_model_name_from_container(&info);
    assert_eq!(result, Some("my_model".to_string()));
}

#[test]
fn model_names_come_from_the_configuration_or_the_first_telling_name() {
    let state_machine = StateMachine::new();
    let mut info = container("id", &["pod-a", "container-b", "-c", "d-e", "f"], &[]);
    assert_eq!(
        state_machine.extract_model_name_from_container(&info),
        Some("d".to_string())
    );
    info.config.insert("model".to_string(), "by_config".to_string());
    assert_eq!(
        state_machine.extract_model_name_from_container(&info),
        Some("by_config".to_string())
    );
    let unnamed = container("id", &["pod-a"], &[]);
    assert_eq!(state_machine.extract_model_name_from_container(&unnamed), None);
}

#[test]
fn container_lists_update_models_once() {
    let mut machine = StateMachine::new();
    let containers = || {
        list(vec![
            container("1", &["a-1"], &[("Status", "running")]),
            container("2", &["b-1"], &[("Status", "exited")]),
            container("3", &["a-2"], &[("Status", "dead")]),
            container("4", &["pod"], &[("Status", "dead")]),
            container("5", &["c-1"], &[]),
        ])
    };
    assert!(machine.has_room_for_containers(&containers()));
    let updates = machine.process_container_list_for_models_at(&containers(), 5);
    assert_eq!(
        updates,
        vec![
            ("a".to_string(), ModelState::Failed),
            ("b".to_string(), ModelState::Succeeded),
            ("c".to_string(), ModelState::Running),
        ]
    );
    assert_eq!(machine.process_container_list_for_models(&containers()), vec![]);
    let later = list(vec![container("1", &["a-1"], &[("Status", "paused")])]);
    assert_eq!(
        machine.process_container_list_for_models_at(&later, 6),
        vec![("a".to_string(), ModelState::Unknown)]
    );
    let models = machine
        .list_resources_by_state(Some(ResourceType::Model), ModelState::Unknown.to_i32());
    assert_eq!(models.len(), 1);
    assert_eq!(models[0].resource_name, "a");
    assert_eq!(models[0].transition_count, 2);
    assert_eq!(models[0].last_transition_time, 6);
    assert_eq!(models[0].health_status.status_message, "Model state updated");
}

#[test]
fn models_are_found_by_type_and_name() {
    let mut machine = StateMachine::new();
    let containers = list(vec![container("1", &["m-1"], &[("Status", "running")])]);
    machine.process_container_list_for_models_at(&containers, 5);
    let found = machine.get_resource_state("m", ResourceType::Model).unwrap();
    assert_eq!(found.resource_name, "m");
    assert_eq!(found.current_state, ModelState::Running.to_i32());
    assert_eq!(found.transition_count, 1);
    assert_eq!(found.last_transition_time, 5);
    assert!(machine.get_resource_state("m", ResourceType::Package).is_none());
    assert!(machine.get_resource_state("Model::m", ResourceType::Model).is_none());
}

#[test]
fn containers_and_requests_move_the_same_model() {
    let mut machine = StateMachine::new();
    let containers = list(vec![container("1", &["m-1"], &[("Status", "running")])]);
    machine.process_container_list_for_models_at(&containers, 5);
    let (result, _) = machine
        .process_state_change_at(&change(ResourceType::Model, "m", "pending", "failed", "t1"), 6);
    assert_eq!(result.new_state, ModelState::Running.to_i32());
    let (result, _) = machine.process_state_change_at(
        &change(ResourceType::Model, "m", "pending", "succeeded", "t2"),
        7,
    );
    assert_eq!(result.error_code, ErrorCode::Success);
    assert_eq!(
        machine.process_container_list_for_models_at(&containers, 8),
        vec![("m".to_string(), ModelState::Running)]
    );
    let found = machine.get_resource_state("m", ResourceType::Model).unwrap();
    assert_eq!(found.transition_count, 3);
}

#[test]
fn containers_leave_a_scenario_of_the_same_name_alone() {
    let mut machine = StateMachine::new();
    machine.process_state_change_at(&scenario("m", "idle", "waiting", "t1"), 1);
    let containers = list(vec![container("1", &["m-1"], &[("Status", "dead")])]);
    machine.process_container_list_for_models_at(&containers, 2);
    let found = machine.get_resource_state("m", ResourceType::Scenario).unwrap();
    assert_eq!(found.current_state, ScenarioState::Waiting.to_i32());
    assert_eq!(found.transition_count, 1);
    assert!(machine.get_resource_state("m", ResourceType::Model).is_some());
}

// ── Requests ─────────────────────────────────────────────────────────────────

#[test]
fn a_scenario_runs_through_its_states() {
    let mut machine = StateMachine::new();
    let steps = [
        ("idle", "waiting", ScenarioState::Waiting, "start_condition_evaluation"),
        ("waiting", "allowed", ScenarioState::Allowed, "start_policy_verification"),
        ("allowed", "playing", ScenarioState::Playing, "execute_action_on_target_package"),
    ];
    for (i, (from, to, state, action)) in steps.iter().enumerate() {
        let id = format!("t-{}", i);
        let (result, command) =
            machine.process_state_change_at(&scenario("s1", from, to, &id), i as u128);
        assert_eq!(result.error_code, ErrorCode::Success);
        assert!(result.is_success() && !result.is_failure());
        assert_eq!(result.new_state, state.to_i32());
        assert_eq!(result.message, format!("Successfully transitioned to {}", state.as_str_name()));
        assert_eq!(result.transition_id, id);
        assert_eq!(result.actions_to_execute, vec![action.to_string()]);
        assert_eq!(result.error_details, "");
        let command = command.unwrap();
        assert_eq!(command.action, *action);
        assert_eq!(command.resource_key, "Scenario::s1");
        assert_eq!(command.resource_type, ResourceType::Scenario);
        assert_eq!(command.transition_id, id);
        assert_eq!(command.context.get("to_state").unwrap(), state.as_str_name());
        assert_eq!(command.context.get("resource_name").unwrap(), "s1");
        assert_eq!(command.context.get("source").unwrap(), "apiserver");
        assert_eq!(command.context.get("timestamp_ns").unwrap(), "42");
        assert_eq!(command.context.len(), 6);
    }
    let resource = machine.get_resource_state("s1", ResourceType::Scenario).unwrap();
    assert_eq!(resource.current_state, ScenarioState::Playing.to_i32());
    assert_eq!(resource.desired_state, Some(ScenarioState::Waiting.to_i32()));
    assert_eq!(resource.transition_count, 3);
    assert_eq!(resource.last_transition_time, 2);
    assert_eq!(resource.metadata.get("last_transition_id").unwrap(), "t-2");
    assert_eq!(resource.metadata.get("source").unwrap(), "apiserver");
    assert!(resource.health_status.healthy);
    assert!(machine.get_resource_state("s1", ResourceType::Package).is_none());
    assert!(machine.get_resource_state("s2", ResourceType::Scenario).is_none());
}

#[test]
fn invalid_requests_are_refused() {
    let mut machine = StateMachine::new();
    let mut bad_source = scenario("s", "idle", "waiting", "t");
    bad_source.source = " \t".to_string();
    let cases = [
        (scenario("  ", "idle", "waiting", "t"), "Resource name cannot be empty"),
        (scenario("s", "idle", "waiting", ""), "Transition ID cannot be empty"),
        (scenario("s", "idle", "idle", "t"), "Current and target states cannot be the same"),
        (bad_source, "Source cannot be empty"),
    ];
    for (request, reason) in cases {
        assert_eq!(validate_state_change(&request), Err(reason.to_string()));
        let (result, command) = machine.process_state_change_at(&request, 0);
        assert_eq!(result.error_code, ErrorCode::InvalidRequest);
        assert_eq!(result.message, format!("Invalid state change request: {}", reason));
        assert_eq!(result.error_details, reason);
        assert_eq!(result.new_state, ScenarioState::Idle.to_i32());
        assert!(result.is_failure());
        assert!(result.actions_to_execute.is_empty());
        assert!(command.is_none());
    }
    assert!(machine.list_resources_by_state(None, ScenarioState::Waiting.to_i32()).is_empty());
}

#[test]
fn unknown_resource_types_are_refused() {
    let mut machine = StateMachine::new();
    let mut request = scenario("s", "idle", "waiting", "t");
    request.resource_type = -3;
    let (result, _) = machine.process_state_change_at(&request, 0);
    assert_eq!(result.error_code, ErrorCode::InvalidStateTransition);
    assert_eq!(result.message, "Invalid resource type: -3");
    assert_eq!(result.error_details, "Unsupported resource type ID: -3");
    assert_eq!(result.new_state, 0);
}

#[test]
fn transitions_without_a_row_are_refused() {
    let mut machine = StateMachine::new();
    let (result, _) = machine.process_state_change_at(&scenario("s", "idle", "playing", "t"), 0);
    assert_eq!(result.error_code, ErrorCode::InvalidStateTransition);
    assert_eq!(
        result.message,
        "No valid transition from SCENARIO_STATE_IDLE to SCENARIO_STATE_PLAYING for resource type Scenario"
    );
    assert_eq!(
        result.error_details,
        "Invalid state transition attempted: SCENARIO_STATE_IDLE -> SCENARIO_STATE_PLAYING"
    );
    let volume = change(ResourceType::Volume, "v", "a", "b", "t");
    let (result, _) = machine.process_state_change_at(&volume, 0);
    assert_eq!(result.error_code, ErrorCode::InvalidStateTransition);
    let (result, _) = machine.process_state_change_at(&scenario("s", "idle", "no-such", "t"), 0);
    assert_eq!(
        result.error_details,
        "Invalid state transition attempted: SCENARIO_STATE_IDLE -> UNKNOWN"
    );
}

#[test]
fn conditions_that_do_not_hold_refuse_a_request() {
    let mut machine = StateMachine::new();
    let request = change(ResourceType::Model, "m", "running", "crash-loop-back-off", "t");
    let (result, command) = machine.process_state_change_at(&request, 0);
    assert_eq!(result.error_code, ErrorCode::PreconditionFailed);
    assert_eq!(result.message, "Condition not met: consecutive_restart_failures");
    assert_eq!(
        result.error_details,
        "Failed condition evaluation: consecutive_restart_failures"
    );
    assert_eq!(result.new_state, ModelState::Running.to_i32());
    assert!(command.is_none());
    assert!(machine.get_resource_state("m", ResourceType::Model).is_none());
    assert_eq!(BACKOFF_DURATION_NS, 30_000_000_000);
}

#[test]
fn packages_and_models_transition_by_their_tables() {
    let mut machine = StateMachine::new();
    let request = change(ResourceType::Package, "p", "unspecified", "initializing", "t1");
    let (result, _) = machine.process_state_change_at(&request, 0);
    assert_eq!(result.new_state, PackageState::Initializing.to_i32());
    let request = change(ResourceType::Package, "p", "", " Running ", "t2");
    let (result, command) = machine.process_state_change_at(&request, 0);
    assert_eq!(result.new_state, PackageState::Running.to_i32());
    let context = command.unwrap().context;
    assert_eq!(context.get("event").unwrap(), "initialization_complete");
    assert_eq!(context.get("from_state").unwrap(), "PACKAGE_STATE_INITIALIZING");
    let request = change(ResourceType::Model, "p", "pending", "container-creating", "t3");
    let (result, _) = machine.process_state_change_at(&request, 0);
    assert_eq!(result.new_state, ModelState::ContainerCreating.to_i32());
    let found = machine.list_resources_by_state(None, PackageState::Running.to_i32());
    assert_eq!(found.len(), 2);
    let found = machine
        .list_resources_by_state(Some(ResourceType::Package), PackageState::Running.to_i32());
    assert_eq!(found.len(), 1);
    assert_eq!(found[0].resource_type, ResourceType::Package);
}

#[test]
fn tracked_state_counts_not_the_claimed_one() {
    let mut machine = StateMachine::new();
    machine.process_state_change_at(&scenario("s", "idle", "waiting", "t1"), 0);
    let (result, _) = machine.process_state_change_at(&scenario("s", "idle", "waiting", "t2"), 1);
    assert_eq!(result.error_code, ErrorCode::InvalidStateTransition);
    assert_eq!(result.new_state, ScenarioState::Waiting.to_i32());
    let (result, _) = machine.process_state_change_at(&scenario("s", "playing", "allowed", "t3"), 2);
    assert!(result.is_success());
}

#[test]
fn three_failures_make_unhealthy_and_a_success_heals() {
    let mut machine = StateMachine::new();
    machine.process_state_change_at(&scenario("s", "idle", "waiting", "t"), 0);
    for n in 1..=MAX_CONSECUTIVE_FAILURES {
        let (result, _) =
            machine.process_state_change_at(&scenario("s", "waiting", "idle", "t"), n as u128);
        let health = &machine.get_resource_state("s", ResourceType::Scenario).unwrap().health_status;
        assert_eq!(health.consecutive_failures, n);
        assert_eq!(health.healthy, n < 3);
        assert_eq!(health.status_message, result.message);
        assert_eq!(health.last_check, n as u128);
    }
    machine.process_state_change_at(&scenario("s", "waiting", "allowed", "t"), 9);
    let resource = machine.get_resource_state("s", ResourceType::Scenario).unwrap();
    assert!(resource.health_status.healthy);
    assert_eq!(resource.health_status.consecutive_failures, 0);
    assert_eq!(resource.health_status.status_message, "Healthy");
    assert_eq!(resource.transition_count, 2);
}

#[test]
fn actions_of_granted_requests_reach_the_executor() {
    let mut machine = StateMachine::default();
    let mut receiver = machine.initialize_action_executor();
    assert!(machine.process_state_change(scenario("s", "idle", "waiting", "t1")).is_success());
    assert!(machine.process_state_change(scenario("s", "waiting", "idle", "t2")).is_failure());
    let command = receiver.try_recv().unwrap();
    assert_eq!(command.action, "start_condition_evaluation");
    assert_eq!(command.transition_id, "t1");
    assert!(receiver.try_recv().is_err());
    drop(receiver);
    assert!(machine.process_state_change(scenario("s", "waiting", "allowed", "t3")).is_success());
    let found = machine.get_resource_state("s", ResourceType::Scenario).unwrap();
    assert_eq!(found.current_state, ScenarioState::Allowed.to_i32());
}

#[test]
fn actions_reach_the_executor_that_was_opened_last() {
    let mut machine = StateMachine::new();
    let mut first = machine.initialize_action_executor();
    machine.process_state_change(scenario("s", "idle", "waiting", "t1"));
    let mut second = machine.initialize_action_executor();
    machine.process_state_change(scenario("s", "waiting", "satisfied", "t2"));
    assert_eq!(first.try_recv().unwrap().transition_id, "t1");
    assert!(first.try_recv().is_err());
    let command = second.try_recv().unwrap();
    assert_eq!(command.transition_id, "t2");
    assert_eq!(command.action, "start_policy_verification");
}

#[test]
fn a_satisfied_scenario_is_allowed_or_denied_and_then_completed() {
    for decision in ["allowed", "denied"] {
        let mut machine = StateMachine::new();
        let (result, action) =
            machine.process_state_change_at(&scenario("s", "satisfied", decision, "t1"), 1);
        assert_eq!(result.error_code, ErrorCode::Success);
        let expected = if decision == "allowed" {
            (ScenarioState::Allowed, "execute_action_on_target_package")
        } else {
            (ScenarioState::Denied, "log_denial_generate_alert")
        };
        assert_eq!(result.new_state, expected.0.to_i32());
        assert_eq!(action.unwrap().action, expected.1);
        let (result, action) =
            machine.process_state_change_at(&scenario("s", decision, "completed", "t2"), 2);
        assert_eq!(result.error_code, ErrorCode::Success);
        assert_eq!(result.new_state, ScenarioState::Completed.to_i32());
        assert_eq!(action.unwrap().action, "log_completion_clean_up_resources");
        let (result, _) =
            machine.process_state_change_at(&scenario("s", "completed", "idle", "t3"), 3);
        assert_eq!(result.error_code, ErrorCode::InvalidStateTransition);
        assert_eq!(result.new_state, ScenarioState::Completed.to_i32());
    }
}

#[test]
fn refusals_say_why_and_leave_the_record_alone() {
    let mut machine = StateMachine::new();
    machine.process_state_change_at(&scenario("s", "idle", "waiting", "t1"), 1);
    let (result, action) =
        machine.process_state_change_at(&scenario("s", "waiting", "waiting", "t2"), 2);
    assert_eq!(result.error_code, ErrorCode::InvalidRequest);
    assert_eq!(result.error_details, "Current and target states cannot be the same");
    assert!(action.is_none());
    let found = machine.get_resource_state("s", ResourceType::Scenario).unwrap();
    assert_eq!(found.health_status.consecutive_failures, 0);
    let (result, _) = machine.process_state_change_at(&scenario("s", "waiting", "playing", "t3"), 3);
    assert!(!result.error_details.is_empty());
    let found = machine.get_resource_state("s", ResourceType::Scenario).unwrap();
    assert_eq!(found.health_status.consecutive_failures, 1);
    assert_eq!(found.current_state, ScenarioState::Waiting.to_i32());
    assert_eq!(found.transition_count, 1);
    assert_eq!(found.metadata.get("last_transition_id").unwrap(), "t1");
}

#[test]
fn time_passes_between_requests() {
    let mut machine = StateMachine::new();
    machine.process_state_change(scenario("s", "idle", "waiting", "t1"));
    let first =
        machine.get_resource_state("s", ResourceType::Scenario).unwrap().last_transition_time;
    machine.process_state_change(scenario("s", "waiting", "allowed", "t2"));
    let second =
        machine.get_resource_state("s", ResourceType::Scenario).unwrap().last_transition_time;
    assert!(first <= second);
}

#[test]
fn responses_repeat_the_result() {
    let mut machine = StateMachine::new();
    let result = machine.process_state_change(scenario("s", "idle", "playing", "t1"));
    let response = result.to_state_change_response_at(77);
    assert_eq!(response.message, result.message);
    assert_eq!(response.transition_id, "t1");
    assert_eq!(response.timestamp_ns, 77);
    assert_eq!(response.error_code, ErrorCode::InvalidStateTransition.to_i32());
    assert_eq!(response.error_details, result.error_details);
    assert!(result.to_state_change_response().timestamp_ns > 1_600_000_000_000_000_000);
}

#[test]
fn keys_join_type_and_name() {
    assert_eq!(generate_resource_key(ResourceType::Model, "m"), "Model::m");
    assert_eq!(generate_resource_key(ResourceType::Node, ""), "Node::");
    let machine = StateMachine::new();
    assert!(machine.has_room_for_request(&scenario("s", "idle", "waiting", "t")));
}

#[test]
fn numbers_and_names_of_states_agree() {
    assert_eq!(ModelState::from_str_name("MODEL_STATE_CRASH_LOOP_BACK_OFF"), Some(ModelState::CrashLoopBackOff));
    assert_eq!(ModelState::from_str_name("nonsense"), None);
    for n in 0..8 {
        let state = ModelState::from_i32(n).unwrap();
        assert_eq!(state.to_i32(), n);
        assert_eq!(ModelState::from_str_name(state.as_str_name()), Some(state));
    }
    assert_eq!(ModelState::from_i32(8), None);
    for n in 0..7 {
        assert_eq!(ResourceType::from_i32(n).unwrap().to_i32(), n);
    }
    for n in 0..8 {
        let state = PackageState::from_i32(n).unwrap();
        assert_eq!(PackageState::from_str_name(state.as_str_name()), Some(state));
        let state = ScenarioState::from_i32(n).unwrap();
        assert_eq!(ScenarioState::from_str_name(state.as_str_name()), Some(state));
    }
    assert_eq!(PackageState::from_i32(8), None);
    assert_eq!(ScenarioState::from_i32(8), None);
    for n in 0..5 {
        assert_eq!(ErrorCode::from_i32(n).unwrap().to_i32(), n);
    }
}

// ── Tables ───────────────────────────────────────────────────────────────────

#[test]
fn tables_have_one_row_between_two_states() {
    let tables = [
        (initialize_scenario_transitions(), ResourceType::Scenario, 10),
        (initialize_package_transitions(), ResourceType::Package, 15),
        (initialize_model_transitions(), ResourceType::Model, 13),
    ];
    for (rows, resource_type, count) in tables {
        assert_eq!(rows.len(), count);
        for (i, row) in rows.iter().enumerate() {
            for other in &rows[..i] {
                assert!((row.from_state, row.to_state) != (other.from_state, other.to_state));
            }
            assert_eq!(
                infer_event_from_states(row.from_state, row.to_state, resource_type),
                row.event
            );
        }
    }
}

#[test]
fn pairs_without_a_row_have_a_made_up_event() {
    assert_eq!(infer_event_from_states(1, 4, ResourceType::Scenario), "transition_1_4");
    assert_eq!(infer_event_from_states(-1, 0, ResourceType::Volume), "transition_-1_0");
}

#[test]
fn conditions_are_known_by_name() {
    assert!(evaluate_condition("all_models_normal"));
    assert!(!evaluate_condition("retry_limit_reached"));
    assert!(!evaluate_condition("timeout_or_error"));
    assert!(!evaluate_condition("critical_models_failed"));
    assert!(!evaluate_condition("critical_model_issues"));
    assert!(!evaluate_condition("critical_models_affected"));
    assert!(!evaluate_condition("node_communication_issues"));
    assert!(!evaluate_condition("consecutive_restart_failures"));
    assert!(!evaluate_condition("unexpected_termination"));
    assert!(!evaluate_condition("never heard of"));
    assert!(!evaluate_condition(""));
    assert!(!evaluate_condition("resource_count > > ("));
    assert!(!evaluate_condition("resource_count >"));
    assert!(!evaluate_condition("resource_count  > 0"));
    assert!(!evaluate_condition("all_models_normal "));
    assert!(evaluate_condition("operator_override"));
    assert!(evaluate_condition("resource_count > 0"));
    assert!(evaluate_condition("ready && resource_count >= 2"));
    let holding = [
        "critical_models_normal",
        "non_critical_model_issues",
        "all_models_recovered",
        "depends_on_recovery_level",
        "depends_on_previous_state",
        "depends_on_rollback_settings",
        "sufficient_resources",
        "all_containers_started",
        "one_time_task",
        "restart_successful",
        "depends_on_actual_state",
        "according_to_restart_policy",
    ];
    assert!(holding.iter().all(|condition| evaluate_condition(condition)));
}

#[test]
fn words_for_states_are_read_loosely() {
    let scenario = ResourceType::Scenario.to_i32();
    assert_eq!(state_str_to_enum(" Idle\t", scenario), ScenarioState::Idle.to_i32());
    assert_eq!(state_str_to_enum("satisfied", scenario), ScenarioState::Satisfied.to_i32());
    assert_eq!(state_str_to_enum("content", scenario), 0);
    let model = ResourceType::Model.to_i32();
    assert_eq!(
        state_str_to_enum("crash_LOOP-back-off", model),
        ModelState::CrashLoopBackOff.to_i32()
    );
    assert_eq!(state_str_to_enum("running", 77), 0);
}

#[test]
fn names_are_listed_once_in_their_order() {
    let names = vec![
        Some("b".to_string()),
        None,
        Some("a".to_string()),
        Some("b".to_string()),
    ];
    assert_eq!(distinct_names_of(&names), vec!["b".to_string(), "a".to_string()]);
}

#[test]
fn words_of_containers_make_up_a_state() {
    let of = |words: &[&str]| {
        let words: Vec<String> = words.iter().map(|w| w.to_string()).collect();
        model_state_by_words(&words)
    };
    assert_eq!(of(&["paused", "paused"]), ModelState::Unknown);
    assert_eq!(of(&["exited", "stopped"]), ModelState::Succeeded);
    assert_eq!(of(&["paused", "exited"]), ModelState::Running);
    assert_eq!(of(&["paused", "error"]), ModelState::Failed);
    assert_eq!(of(&["PAUSED"]), ModelState::Running);
    assert_eq!(of(&[]), ModelState::Unknown);
}

#[test]
fn time_stamps_keep_the_low_bits_of_a_reading() {
    assert_eq!(stamp_of(None), 0);
    assert_eq!(stamp_of(Some(0)), 0);
    assert_eq!(stamp_of(Some(1_700_000_000_000_000_000)), 1_700_000_000_000_000_000);
    assert_eq!(stamp_of(Some(i64::MAX as u128 + 1)), i64::MIN);
    assert_eq!(stamp_of(Some(u64::MAX as u128 + 8)), 7);
}
