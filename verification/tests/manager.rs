use pullpiri::messages::{
    ContainerInfo, ContainerList, ErrorCode, ModelState, PackageState, ResourceType, ScenarioState,
    StateChange,
};
use pullpiri::statemanager::actions::execute_action;
use pullpiri::statemanager::aggregation::{
    container_status_by_word, model_state_by_statuses, package_state_entry,
};
use pullpiri::statemanager::manager::{
    entries_of_models, entries_of_packages, handle_transition_failure, StateManagerManager,
};
use pullpiri::statemanager::reconcile::{packages_to_reconcile, PodStatus, ReconcileRequest};
use pullpiri::statemanager::scenario_state::scenario_state_entry;
use pullpiri::statemanager::transitions::state_str_to_enum;
use pullpiri::statemanager::types::{
    ActionCommand, ContainerState, ContainerStateInfo, ModelInfo, TransitionResult,
};
use pullpiri::string_map::StringMap;

fn map(entries: &[(&str, &str)]) -> StringMap<String> {
    let mut result = StringMap::new();
    for (key, value) in entries {
        result.insert(key.to_string(), value.to_string());
    }
    result
}

fn create_test_container(name: &str, state: &str) -> ContainerStateInfo {
    ContainerStateInfo {
        container_id: format!("{}_id", name),
        container_names: vec![name.to_string()],
        image: "test/image:latest".to_string(),
        state: map(&[("status", state)]),
        config: StringMap::new(),
        annotations: map(&[("pullpiri.io/model", "test_model")]),
    }
}

fn model(name: &str, state: ModelState) -> ModelInfo {
    ModelInfo {
        model_name: name.to_string(),
        package_name: "test_package".to_string(),
        containers: Vec::new(),
        current_state: state,
        last_update: 0,
    }
}

#[test]
fn test_determine_model_state_from_containers() {
    let manager = StateManagerManager::new();

    let containers = vec![
        create_test_container("container1", "running"),
        create_test_container("container2", "running"),
    ];
    let state = manager.determine_model_state_from_containers(&containers);
    assert_eq!(state, ModelState::Running);

    let containers = vec![
        create_test_container("container1", "exited"),
        create_test_container("container2", "exited"),
    ];
    let state = manager.determine_model_state_from_containers(&containers);
    assert_eq!(state, ModelState::Succeeded);

    let containers = vec![
        create_test_container("container1", "running"),
        create_test_container("container2", "dead"),
    ];
    let state = manager.determine_model_state_from_containers(&containers);
    assert_eq!(state, ModelState::Failed);

    let containers = vec![
        create_test_container("container1", "created"),
        create_test_container("container2", "created"),
    ];
    let state = manager.determine_model_state_from_containers(&containers);
    assert_eq!(state, ModelState::Pending);
}

#[test]
fn odd_sets_of_containers_have_a_state_too() {
    let manager = StateManagerManager::new();
    assert_eq!(manager.determine_model_state_from_containers(&[]), ModelState::Failed);
    let of = |states: &[&str]| {
        let containers: Vec<ContainerStateInfo> =
            states.iter().map(|s| create_test_container("c", s)).collect();
        manager.determine_model_state_from_containers(&containers)
    };
    assert_eq!(of(&["paused", "Paused"]), ModelState::Unknown);
    assert_eq!(of(&["paused", "dead"]), ModelState::Failed);
    assert_eq!(of(&["STOPPED", "exited"]), ModelState::Succeeded);
    assert_eq!(of(&["running", "created"]), ModelState::Running);
    assert_eq!(of(&["created", "exited"]), ModelState::Running);
    assert_eq!(of(&["created", "paused"]), ModelState::Running);
    assert_eq!(of(&["paused", "exited"]), ModelState::Running);
    assert_eq!(of(&["running", "removing"]), ModelState::Failed);
    assert_eq!(of(&["running", "whatever"]), ModelState::Failed);
    let mut silent = create_test_container("c", "running");
    silent.state = StringMap::new();
    assert_eq!(manager.determine_model_state_from_containers(&[silent]), ModelState::Failed);
}

#[test]
fn test_extract_model_name_from_container() {
    let manager = StateManagerManager::new();

    let container = create_test_container("test", "running");
    let model_name = manager.extract_model_name_from_container(&container);
    assert_eq!(model_name, Some("test_model".to_string()));

    let mut container = create_test_container("my-model-instance-123", "running");
    container.annotations = StringMap::new();
    let model_name = manager.extract_model_name_from_container(&container);
    assert_eq!(model_name, Some("my".to_string()));

    let mut container = create_test_container("single_name", "running");
    container.annotations = StringMap::new();
    container.image = "my-registry/my-model:v1.0".to_string();
    let model_name = manager.extract_model_name_from_container(&container);
    assert_eq!(model_name, Some("single_name".to_string()));
}

#[test]
fn model_names_fall_back_to_the_image() {
    let manager = StateManagerManager::new();
    let mut container = create_test_container("x", "running");
    container.annotations = StringMap::new();
    container.container_names = vec![];
    container.image = "my-registry/my-model:v1.0".to_string();
    assert_eq!(
        manager.extract_model_name_from_container(&container),
        Some("my-model".to_string())
    );
    container.image = "plain".to_string();
    assert_eq!(
        manager.extract_model_name_from_container(&container),
        Some("plain".to_string())
    );
    container.image = "".to_string();
    assert_eq!(manager.extract_model_name_from_container(&container), None);
    assert_eq!(manager.extract_package_name_from_model("pkg_model_1"), Some("pkg".to_string()));
    assert_eq!(manager.extract_package_name_from_model("model"), Some("model".to_string()));
}

#[test]
fn test_determine_package_state_from_models() {
    let manager = StateManagerManager::new();
    let model1 = model("model1", ModelState::Running);
    let model2 = model("model2", ModelState::Running);
    let model3 = model("model3", ModelState::Failed);

    let models = vec![&model1, &model2];
    let state = manager.determine_package_state_from_models(&models);
    assert_eq!(state, PackageState::Running);

    let models = vec![&model1, &model3];
    let state = manager.determine_package_state_from_models(&models);
    assert_eq!(state, PackageState::Degraded);

    let models = vec![&model3];
    let state = manager.determine_package_state_from_models(&models);
    assert_eq!(state, PackageState::Error);
}

#[test]
fn odd_sets_of_models_have_a_state_too() {
    let manager = StateManagerManager::new();
    let done = model("a", ModelState::Succeeded);
    let pending = model("b", ModelState::Pending);
    let creating = model("c", ModelState::ContainerCreating);
    let unknown = model("d", ModelState::Unknown);
    let running = model("e", ModelState::Running);
    assert_eq!(manager.determine_package_state_from_models(&[]), PackageState::Error);
    assert_eq!(manager.determine_package_state_from_models(&[&done, &done]), PackageState::Exited);
    assert_eq!(
        manager.determine_package_state_from_models(&[&done, &pending]),
        PackageState::Running
    );
    assert_eq!(
        manager.determine_package_state_from_models(&[&creating]),
        PackageState::Running
    );
    assert_eq!(
        manager.determine_package_state_from_models(&[&unknown, &unknown]),
        PackageState::Paused
    );
    assert_eq!(
        manager.determine_package_state_from_models(&[&unknown, &done]),
        PackageState::Running
    );
    assert_eq!(
        manager.determine_package_state_from_models(&[&pending, &running]),
        PackageState::Running
    );
}

fn reported(id: &str, model: &str, status: &str) -> ContainerInfo {
    ContainerInfo {
        id: id.to_string(),
        names: vec![],
        image: "".to_string(),
        state: map(&[("status", status)]),
        config: StringMap::new(),
        annotation: map(&[("pullpiri.io/model", model)]),
        stats: StringMap::new(),
    }
}

fn list(containers: Vec<ContainerInfo>) -> ContainerList {
    ContainerList { node_name: "node".to_string(), containers }
}

fn held() -> StringMap<String> {
    map(&[("p", "drive"), ("q", "park")])
}

#[test]
fn container_reports_move_models_and_then_packages() {
    let mut manager = StateManagerManager::new();
    let first = || {
        list(vec![
            reported("1", "p_a", "running"),
            reported("2", "p_b", "dead"),
            reported("3", "q", "created"),
        ])
    };
    let report = manager.process_container_list_at(&first(), &held(), 1);
    assert_eq!(
        report.models,
        vec![
            ("p_a".to_string(), ModelState::Running),
            ("p_b".to_string(), ModelState::Failed),
            ("q".to_string(), ModelState::Pending),
        ]
    );
    assert_eq!(
        report.packages,
        vec![
            ("p".to_string(), PackageState::Degraded),
            ("q".to_string(), PackageState::Running),
        ]
    );
    let stored: Vec<(&str, &str)> =
        report.stored.iter().map(|(key, value)| (key.as_str(), value.as_str())).collect();
    assert_eq!(
        stored,
        vec![
            ("/model/p_a/state", "Running"),
            ("/model/p_b/state", "Dead"),
            ("/model/q/state", "Created"),
            ("/package/p/state", "degraded"),
            ("/package/q/state", "running"),
        ]
    );
    let report = manager.process_container_list(&first(), &held());
    assert_eq!(report.models, vec![]);
    assert_eq!(report.packages, vec![]);
    let report = manager.process_container_list_at(&list(vec![reported("1", "p_a", "dead")]), &held(), 2);
    assert_eq!(report.models, vec![("p_a".to_string(), ModelState::Failed)]);
    assert_eq!(report.packages, vec![("p".to_string(), PackageState::Error)]);
    assert_eq!(
        report.reconcile,
        vec![ReconcileRequest {
            scenario_name: "drive".to_string(),
            current: PodStatus::Failed,
            desired: PodStatus::Running,
        }]
    );
    let report = manager.process_container_list_at(&list(vec![reported("1", "p_a", "dead")]), &held(), 2);
    assert_eq!(report.reconcile, vec![]);
    assert_eq!(report.stored, vec![]);
    let report = manager.process_container_list_at(
        &list(vec![reported("1", "p_a", "running"), reported("2", "p_b", "running")]),
        &held(),
        3,
    );
    assert_eq!(report.packages, vec![("p".to_string(), PackageState::Running)]);
    assert_eq!(
        package_state_entry("p", PackageState::Running),
        ("/package/p/state".to_string(), "running".to_string())
    );
    assert_eq!(package_state_entry("p", PackageState::Initializing).1, "idle");
    assert_eq!(package_state_entry("p", PackageState::Degraded).1, "degraded");
    assert_eq!(package_state_entry("p", PackageState::Error).1, "error");
    assert_eq!(package_state_entry("p", PackageState::Paused).1, "paused");
    assert_eq!(package_state_entry("p", PackageState::Exited).1, "exited");
    assert_eq!(package_state_entry("p", PackageState::Updating).1, "updating");
}

#[test]
fn packages_are_paused_and_exit_with_their_models() {
    let mut manager = StateManagerManager::new();
    let both = |status: &str| {
        list(vec![reported("1", "p_a", status), reported("2", "p_b", status)])
    };
    let report = manager.process_container_list_at(&both("paused"), &held(), 1);
    assert_eq!(
        report.models,
        vec![("p_a".to_string(), ModelState::Unknown), ("p_b".to_string(), ModelState::Unknown)]
    );
    assert_eq!(report.packages, vec![("p".to_string(), PackageState::Paused)]);
    let report = manager.process_container_list_at(&both("exited"), &held(), 2);
    assert_eq!(report.packages, vec![("p".to_string(), PackageState::Exited)]);
    assert_eq!(report.reconcile, vec![]);
}

#[test]
fn a_model_is_reported_once_whatever_the_number_of_its_containers() {
    let mut manager = StateManagerManager::new();
    let report = manager.process_container_list_at(
        &list(vec![
            reported("1", "p_a", "running"),
            reported("2", "q_b", "running"),
            reported("3", "p_a", "running"),
        ]),
        &held(),
        1,
    );
    assert_eq!(
        report.models,
        vec![("p_a".to_string(), ModelState::Running), ("q_b".to_string(), ModelState::Running)]
    );
    assert_eq!(
        report.packages,
        vec![("p".to_string(), PackageState::Running), ("q".to_string(), PackageState::Running)]
    );
}

#[test]
fn packages_that_went_into_error_are_reconciled() {
    let changes = vec![
        ("a".to_string(), PackageState::Degraded),
        ("b".to_string(), PackageState::Error),
        ("c".to_string(), PackageState::Running),
        ("d".to_string(), PackageState::Error),
        ("e".to_string(), PackageState::Error),
    ];
    let scenarios = map(&[("a", "s1"), ("b", "s2"), ("c", "s3"), ("d", "s2")]);
    let requests = packages_to_reconcile(&changes, &scenarios);
    let names: Vec<&str> = requests.iter().map(|r| r.scenario_name.as_str()).collect();
    assert_eq!(names, vec!["s2", "s2"]);
    assert!(requests.iter().all(|r| r.current == PodStatus::Failed));
    assert!(requests.iter().all(|r| r.desired == PodStatus::Running));
    assert_eq!(packages_to_reconcile(&vec![], &scenarios), vec![]);
    assert_eq!(packages_to_reconcile(&changes, &StringMap::new()), vec![]);
}

#[test]
fn changed_models_have_entries_to_be_stored() {
    let entries = entries_of_models(&vec![
        ("m".to_string(), ModelState::Unknown),
        ("n".to_string(), ModelState::Succeeded),
    ]);
    assert_eq!(
        entries,
        vec![
            ("/model/m/state".to_string(), "Paused".to_string()),
            ("/model/n/state".to_string(), "Exited".to_string()),
        ]
    );
    assert_eq!(
        entries_of_packages(&vec![("p".to_string(), PackageState::Paused)]),
        vec![("/package/p/state".to_string(), "paused".to_string())]
    );
}

#[test]
fn granted_scenario_states_are_to_be_stored() {
    let mut manager = StateManagerManager::new();
    let scenario = ResourceType::Scenario.to_i32();
    let report = manager.process_state_change(request(scenario, "idle", "waiting")).unwrap();
    assert_eq!(
        report.stored,
        Some(("/scenario/s/state".to_string(), "waiting".to_string()))
    );
    let report = manager.process_state_change(request(scenario, "waiting", "satisfied")).unwrap();
    assert_eq!(
        report.stored,
        Some(("/scenario/s/state".to_string(), "satisfied".to_string()))
    );
    let report = manager.process_state_change(request(scenario, "satisfied", "idle")).unwrap();
    assert_eq!(report.result.error_code, ErrorCode::InvalidStateTransition);
    assert_eq!(report.stored, None);
    let package = ResourceType::Package.to_i32();
    let report =
        manager.process_state_change(request(package, "unspecified", "initializing")).unwrap();
    assert_eq!(report.result.error_code, ErrorCode::Success);
    assert_eq!(report.stored, None);
}

#[test]
fn stored_words_of_scenarios_name_their_states() {
    let words = [
        "unspecified",
        "idle",
        "waiting",
        "allowed",
        "playing",
        "denied",
        "satisfied",
        "completed",
    ];
    for (number, word) in words.iter().enumerate() {
        let state = ScenarioState::from_i32(number as i32).unwrap();
        let (key, value) = scenario_state_entry("night drive", state);
        assert_eq!(key, "/scenario/night drive/state");
        assert_eq!(value, *word);
        assert_eq!(state_str_to_enum(word, ResourceType::Scenario.to_i32()), number as i32);
    }
}

fn request(resource_type: i32, from: &str, to: &str) -> StateChange {
    StateChange {
        resource_type,
        resource_name: "s".to_string(),
        current_state: from.to_string(),
        target_state: to.to_string(),
        transition_id: "t".to_string(),
        timestamp_ns: 1,
        source: "apiserver".to_string(),
    }
}

#[test]
fn requests_are_reported_with_their_state_and_advice() {
    let mut manager = StateManagerManager::new();
    let mut receiver = manager.initialize();
    assert!(manager.process_state_change(request(99, "idle", "waiting")).is_none());
    let scenario = ResourceType::Scenario.to_i32();
    assert!(manager.has_room_for_request(&request(scenario, "idle", "waiting")));
    let report = manager.process_state_change(request(scenario, "idle", "waiting")).unwrap();
    assert_eq!(report.result.error_code, ErrorCode::Success);
    assert_eq!(report.state_name, "SCENARIO_STATE_WAITING");
    assert_eq!(report.failure_note, None);
    assert_eq!(receiver.try_recv().unwrap().action, "start_condition_evaluation");
    let report = manager.process_state_change(request(scenario, "waiting", "idle")).unwrap();
    assert_eq!(report.state_name, "SCENARIO_STATE_WAITING");
    assert_eq!(
        report.failure_note,
        Some("Invalid state transition - checking state machine rules".to_string())
    );
    let report = manager.process_state_change(request(scenario, "idle", "idle")).unwrap();
    assert_eq!(report.result.error_code, ErrorCode::InvalidRequest);
    assert_eq!(
        report.failure_note,
        Some("General error - applying default error handling".to_string())
    );
}

#[test]
fn each_kind_of_refusal_has_its_advice() {
    let note = |error_code: ErrorCode| {
        handle_transition_failure(&TransitionResult {
            new_state: 0,
            error_code,
            message: String::new(),
            actions_to_execute: vec![],
            transition_id: String::new(),
            error_details: String::new(),
        })
    };
    assert_eq!(
        note(ErrorCode::PreconditionFailed),
        "Preconditions not met - evaluating retry strategy"
    );
    assert_eq!(
        note(ErrorCode::ResourceNotFound),
        "Resource not found - may need initialization"
    );
}

#[test]
fn actions_are_reported_by_what_they_do() {
    let command = |action: &str| ActionCommand {
        action: action.to_string(),
        resource_key: "Scenario::s".to_string(),
        resource_type: ResourceType::Scenario,
        transition_id: "t".to_string(),
        context: StringMap::new(),
    };
    assert_eq!(
        execute_action(&command("start_condition_evaluation")),
        " Starting condition evaluation for scenario: Scenario::s"
    );
    assert_eq!(
        execute_action(&command("start_model_recreation")),
        " Starting model recreation for: Scenario::s"
    );
    assert_eq!(
        execute_action(&command("dance")),
        " Unknown action: dance for resource: Scenario::s"
    );
}

#[test]
fn string_maps_keep_one_value_per_key() {
    let mut entries = map(&[("a", "1"), ("b", "2"), ("a", "3")]);
    assert_eq!(entries.len(), 2);
    assert_eq!(entries.get("a").unwrap(), "3");
    assert_eq!(entries.key_at(0), "a");
    assert!(entries.contains_key("b"));
    assert_eq!(entries.remove("a"), Some("3".to_string()));
    assert_eq!(entries.remove("a"), None);
    assert_eq!(entries.value_at(0), "2");
    let copy = entries.clone();
    assert_eq!(copy.get("b").unwrap(), "2");
    assert!(!copy.is_empty());
}

#[test]
fn status_words_name_container_states() {
    assert_eq!(container_status_by_word("running"), ContainerState::Running);
    assert_eq!(container_status_by_word("created"), ContainerState::Created);
    assert_eq!(container_status_by_word("exited"), ContainerState::Exited);
    assert_eq!(container_status_by_word("stopped"), ContainerState::Exited);
    assert_eq!(container_status_by_word("paused"), ContainerState::Paused);
    assert_eq!(container_status_by_word("removing"), ContainerState::Dead);
    assert_eq!(container_status_by_word("Running"), ContainerState::Dead);
    assert_eq!(
        model_state_by_statuses(&vec![ContainerState::Running, ContainerState::Unknown]),
        ModelState::Running
    );
    assert_eq!(
        model_state_by_statuses(&vec![ContainerState::Stopped]),
        ModelState::Running
    );
    assert_eq!(model_state_by_statuses(&vec![ContainerState::Paused]), ModelState::Unknown);
}
