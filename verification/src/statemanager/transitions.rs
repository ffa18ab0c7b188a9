//! The transition tables of scenarios, packages and models, and the names of their
//! states.

use crate::messages::{ModelState, PackageState, ResourceType, ScenarioState};
use crate::statemanager::types::{StateTransition, TransitionView};
use crate::text::{
    ascii_upper, ascii_upper_char, chars_of, concat, concat4, decimal, decimal_of, str_eq, trim,
    trim_str,
};
use vstd::prelude::*;

verus! {

// ---------------------------------------------------------------------------
// Names
// ---------------------------------------------------------------------------

/// The name of a resource type, as it stands in keys and messages.
pub open spec fn type_label(resource_type: ResourceType) -> Seq<char> {
    match resource_type {
        ResourceType::Unspecified => "Unspecified"@,
        ResourceType::Scenario => "Scenario"@,
        ResourceType::Package => "Package"@,
        ResourceType::Model => "Model"@,
        ResourceType::Volume => "Volume"@,
        ResourceType::Network => "Network"@,
        ResourceType::Node => "Node"@,
    }
}

/// The name of a resource type.
pub fn type_label_of(resource_type: ResourceType) -> (name: &'static str)
    ensures
        name@ == type_label(resource_type),
{
    match resource_type {
        ResourceType::Unspecified => "Unspecified",
        ResourceType::Scenario => "Scenario",
        ResourceType::Package => "Package",
        ResourceType::Model => "Model",
        ResourceType::Volume => "Volume",
        ResourceType::Network => "Network",
        ResourceType::Node => "Node",
    }
}

/// How a character of a state is spelt in the state's full name.
pub open spec fn state_char(c: char) -> char {
    if c == '-' {
        '_'
    } else {
        ascii_upper(c)
    }
}

/// How a state is spelt in its full name: without white space around it, in upper case,
/// and with underscores for hyphens.
pub open spec fn state_word(state: Seq<char>) -> Seq<char> {
    trim(state).map_values(|c: char| state_char(c))
}

/// The scenario state that a request means.
pub open spec fn scenario_state(state: Seq<char>) -> Option<ScenarioState> {
    ScenarioState::named("SCENARIO_STATE_"@ + state_word(state))
}

/// The package state that a request means.
pub open spec fn package_state(state: Seq<char>) -> Option<PackageState> {
    PackageState::named("PACKAGE_STATE_"@ + state_word(state))
}

/// The model state that a request means.
pub open spec fn model_state(state: Seq<char>) -> Option<ModelState> {
    ModelState::named("MODEL_STATE_"@ + state_word(state))
}

/// The number of the state that a request means, for a resource type given by number:
/// zero where the type has no state of that name.
pub open spec fn state_number(state: Seq<char>, resource_type: i32) -> i32 {
    match ResourceType::numbered(resource_type) {
        Some(ResourceType::Scenario) => match scenario_state(state) {
            Some(s) => s.number(),
            None => 0,
        },
        Some(ResourceType::Package) => match package_state(state) {
            Some(s) => s.number(),
            None => 0,
        },
        Some(ResourceType::Model) => match model_state(state) {
            Some(s) => s.number(),
            None => 0,
        },
        _ => 0,
    }
}

/// The full name of the state with this number, or `UNKNOWN`.
pub open spec fn state_name(resource_type: ResourceType, number: i32) -> Seq<char> {
    match resource_type {
        ResourceType::Scenario => match ScenarioState::numbered(number) {
            Some(s) => s.name(),
            None => "UNKNOWN"@,
        },
        ResourceType::Package => match PackageState::numbered(number) {
            Some(s) => s.name(),
            None => "UNKNOWN"@,
        },
        ResourceType::Model => match ModelState::numbered(number) {
            Some(s) => s.name(),
            None => "UNKNOWN"@,
        },
        _ => "UNKNOWN"@,
    }
}

/// The full name of the state that a request means, or `UNKNOWN`.
pub open spec fn requested_state_name(resource_type: ResourceType, state: Seq<char>) -> Seq<char> {
    match resource_type {
        ResourceType::Scenario => match scenario_state(state) {
            Some(s) => s.name(),
            None => "UNKNOWN"@,
        },
        ResourceType::Package => match package_state(state) {
            Some(s) => s.name(),
            None => "UNKNOWN"@,
        },
        ResourceType::Model => match model_state(state) {
            Some(s) => s.name(),
            None => "UNKNOWN"@,
        },
        _ => "UNKNOWN"@,
    }
}

/// How a state is spelt in its full name.
pub fn state_word_of(state: &str) -> (word: String)
    ensures
        word@ == state_word(state@),
{
    let chars = chars_of(trim_str(state).as_str());
    let mut word = String::new();
    let mut i: usize = 0;
    while i < chars.len()
        invariant
            i <= chars@.len(),
            word@ == chars@.take(i as int).map_values(|c: char| state_char(c)),
        decreases chars@.len() - i,
    {
        let c = chars[i];
        let spelt = if c == '-' {
            '_'
        } else {
            ascii_upper_char(c)
        };
        word.push(spelt);
        assert(word@ =~= chars@.take(i + 1).map_values(|c: char| state_char(c)));
        i += 1;
    }
    assert(chars@.take(i as int) =~= chars@);
    word
}

/// The scenario state that a request means.
pub fn scenario_state_of(state: &str) -> (value: Option<ScenarioState>)
    ensures
        value == scenario_state(state@),
{
    ScenarioState::from_str_name(concat("SCENARIO_STATE_", state_word_of(state).as_str()).as_str())
}

/// The package state that a request means.
pub fn package_state_of(state: &str) -> (value: Option<PackageState>)
    ensures
        value == package_state(state@),
{
    PackageState::from_str_name(concat("PACKAGE_STATE_", state_word_of(state).as_str()).as_str())
}

/// The model state that a request means.
pub fn model_state_of(state: &str) -> (value: Option<ModelState>)
    ensures
        value == model_state(state@),
{
    ModelState::from_str_name(concat("MODEL_STATE_", state_word_of(state).as_str()).as_str())
}

/// The number of the state that a request means.
pub fn state_str_to_enum(state: &str, resource_type: i32) -> (number: i32)
    ensures
        number == state_number(state@, resource_type),
{
    match ResourceType::from_i32(resource_type) {
        Some(ResourceType::Scenario) => match scenario_state_of(state) {
            Some(s) => s.to_i32(),
            None => ScenarioState::Unspecified.to_i32(),
        },
        Some(ResourceType::Package) => match package_state_of(state) {
            Some(s) => s.to_i32(),
            None => PackageState::Unspecified.to_i32(),
        },
        Some(ResourceType::Model) => match model_state_of(state) {
            Some(s) => s.to_i32(),
            None => ModelState::Unspecified.to_i32(),
        },
        _ => 0,
    }
}

/// The full name of the state with this number.
pub fn state_name_of(resource_type: ResourceType, number: i32) -> (name: &'static str)
    ensures
        name@ == state_name(resource_type, number),
{
    match resource_type {
        ResourceType::Scenario => match ScenarioState::from_i32(number) {
            Some(s) => s.as_str_name(),
            None => "UNKNOWN",
        },
        ResourceType::Package => match PackageState::from_i32(number) {
            Some(s) => s.as_str_name(),
            None => "UNKNOWN",
        },
        ResourceType::Model => match ModelState::from_i32(number) {
            Some(s) => s.as_str_name(),
            None => "UNKNOWN",
        },
        _ => "UNKNOWN",
    }
}

/// The full name of the state that a request means.
pub fn requested_state_name_of(resource_type: ResourceType, state: &str) -> (name: &'static str)
    ensures
        name@ == requested_state_name(resource_type, state@),
{
    match resource_type {
        ResourceType::Scenario => match scenario_state_of(state) {
            Some(s) => s.as_str_name(),
            None => "UNKNOWN",
        },
        ResourceType::Package => match package_state_of(state) {
            Some(s) => s.as_str_name(),
            None => "UNKNOWN",
        },
        ResourceType::Model => match model_state_of(state) {
            Some(s) => s.as_str_name(),
            None => "UNKNOWN",
        },
        _ => "UNKNOWN",
    }
}

// ---------------------------------------------------------------------------
// Tables
// ---------------------------------------------------------------------------

/// A row of a table.
pub open spec fn row(
    from_state: i32,
    event: Seq<char>,
    to_state: i32,
    condition: Option<Seq<char>>,
    action: Seq<char>,
) -> TransitionView {
    TransitionView { from_state, event, to_state, condition, action }
}

/// The transitions of a scenario.
pub open spec fn scenario_table() -> Seq<TransitionView> {
    seq![
        row(
            ScenarioState::Idle.number(),
            "scenario_activation"@,
            ScenarioState::Waiting.number(),
            None,
            "start_condition_evaluation"@,
        ),
        row(
            ScenarioState::Waiting.number(),
            "condition_met"@,
            ScenarioState::Allowed.number(),
            None,
            "start_policy_verification"@,
        ),
        row(
            ScenarioState::Allowed.number(),
            "policy_verification_success"@,
            ScenarioState::Playing.number(),
            None,
            "execute_action_on_target_package"@,
        ),
        row(
            ScenarioState::Allowed.number(),
            "policy_verification_failure"@,
            ScenarioState::Denied.number(),
            None,
            "log_denial_generate_alert"@,
        ),
        row(
            ScenarioState::Waiting.number(),
            "condition_met"@,
            ScenarioState::Satisfied.number(),
            None,
            "start_policy_verification"@,
        ),
        row(
            ScenarioState::Satisfied.number(),
            "policy_verification_success"@,
            ScenarioState::Allowed.number(),
            None,
            "execute_action_on_target_package"@,
        ),
        row(
            ScenarioState::Satisfied.number(),
            "policy_verification_failure"@,
            ScenarioState::Denied.number(),
            None,
            "log_denial_generate_alert"@,
        ),
        row(
            ScenarioState::Allowed.number(),
            "scenario_complete"@,
            ScenarioState::Completed.number(),
            None,
            "log_completion_clean_up_resources"@,
        ),
        row(
            ScenarioState::Playing.number(),
            "scenario_complete"@,
            ScenarioState::Completed.number(),
            None,
            "log_completion_clean_up_resources"@,
        ),
        row(
            ScenarioState::Denied.number(),
            "scenario_complete"@,
            ScenarioState::Completed.number(),
            None,
            "log_completion_clean_up_resources"@,
        ),
    ]
}

/// The transitions of a package.
pub open spec fn package_table() -> Seq<TransitionView> {
    seq![
        row(
            PackageState::Unspecified.number(),
            "launch_request"@,
            PackageState::Initializing.number(),
            None,
            "start_model_creation_allocate_resources"@,
        ),
        row(
            PackageState::Initializing.number(),
            "initialization_complete"@,
            PackageState::Running.number(),
            Some("all_models_normal"@),
            "update_state_announce_availability"@,
        ),
        row(
            PackageState::Initializing.number(),
            "partial_initialization_failure"@,
            PackageState::Degraded.number(),
            Some("critical_models_normal"@),
            "log_warning_activate_partial_functionality"@,
        ),
        row(
            PackageState::Initializing.number(),
            "critical_initialization_failure"@,
            PackageState::Error.number(),
            Some("critical_models_failed"@),
            "log_error_attempt_recovery"@,
        ),
        row(
            PackageState::Running.number(),
            "model_issue_detected"@,
            PackageState::Degraded.number(),
            Some("non_critical_model_issues"@),
            "log_warning_maintain_partial_functionality"@,
        ),
        row(
            PackageState::Running.number(),
            "critical_issue_detected"@,
            PackageState::Error.number(),
            Some("critical_model_issues"@),
            "log_error_attempt_recovery"@,
        ),
        row(
            PackageState::Running.number(),
            "pause_request"@,
            PackageState::Paused.number(),
            None,
            "pause_models_preserve_state"@,
        ),
        row(
            PackageState::Degraded.number(),
            "model_recovery"@,
            PackageState::Running.number(),
            Some("all_models_recovered"@),
            "update_state_restore_full_functionality"@,
        ),
        row(
            PackageState::Degraded.number(),
            "additional_model_issues"@,
            PackageState::Error.number(),
            Some("critical_models_affected"@),
            "log_error_attempt_recovery"@,
        ),
        row(
            PackageState::Degraded.number(),
            "pause_request"@,
            PackageState::Paused.number(),
            None,
            "pause_models_preserve_state"@,
        ),
        row(
            PackageState::Error.number(),
            "recovery_successful"@,
            PackageState::Running.number(),
            Some("depends_on_recovery_level"@),
            "update_state_announce_functionality_restoration"@,
        ),
        row(
            PackageState::Paused.number(),
            "resume_request"@,
            PackageState::Running.number(),
            Some("depends_on_previous_state"@),
            "resume_models_restore_state"@,
        ),
        row(
            PackageState::Running.number(),
            "update_request"@,
            PackageState::Updating.number(),
            None,
            "start_update_process"@,
        ),
        row(
            PackageState::Updating.number(),
            "update_successful"@,
            PackageState::Running.number(),
            None,
            "activate_new_version_update_state"@,
        ),
        row(
            PackageState::Updating.number(),
            "update_failed"@,
            PackageState::Error.number(),
            Some("depends_on_rollback_settings"@),
            "rollback_or_error_handling"@,
        ),
    ]
}

/// The transitions of a model.
pub open spec fn model_table() -> Seq<TransitionView> {
    seq![
        row(
            ModelState::Unspecified.number(),
            "creation_request"@,
            ModelState::Pending.number(),
            None,
            "start_node_selection_and_allocation"@,
        ),
        row(
            ModelState::Pending.number(),
            "node_allocation_complete"@,
            ModelState::ContainerCreating.number(),
            Some("sufficient_resources"@),
            "pull_container_images_mount_volumes"@,
        ),
        row(
            ModelState::Pending.number(),
            "node_allocation_failed"@,
            ModelState::Failed.number(),
            Some("timeout_or_error"@),
            "log_error_retry_or_reschedule"@,
        ),
        row(
            ModelState::ContainerCreating.number(),
            "container_creation_complete"@,
            ModelState::Running.number(),
            Some("all_containers_started"@),
            "update_state_start_readiness_checks"@,
        ),
        row(
            ModelState::ContainerCreating.number(),
            "container_creation_failed"@,
            ModelState::Failed.number(),
            None,
            "log_error_retry_or_reschedule"@,
        ),
        row(
            ModelState::Running.number(),
            "temporary_task_complete"@,
            ModelState::Succeeded.number(),
            Some("one_time_task"@),
            "log_completion_clean_up_resources"@,
        ),
        row(
            ModelState::Running.number(),
            "container_termination"@,
            ModelState::Failed.number(),
            Some("unexpected_termination"@),
            "log_error_evaluate_automatic_restart"@,
        ),
        row(
            ModelState::Running.number(),
            "repeated_crash_detection"@,
            ModelState::CrashLoopBackOff.number(),
            Some("consecutive_restart_failures"@),
            "set_backoff_timer_collect_logs"@,
        ),
        row(
            ModelState::Running.number(),
            "monitoring_failure"@,
            ModelState::Unknown.number(),
            Some("node_communication_issues"@),
            "attempt_diagnostics_restore_communication"@,
        ),
        row(
            ModelState::CrashLoopBackOff.number(),
            "backoff_time_elapsed"@,
            ModelState::Running.number(),
            Some("restart_successful"@),
            "resume_monitoring_reset_counter"@,
        ),
        row(
            ModelState::CrashLoopBackOff.number(),
            "maximum_retries_exceeded"@,
            ModelState::Failed.number(),
            Some("retry_limit_reached"@),
            "log_error_notify_for_manual_intervention"@,
        ),
        row(
            ModelState::Unknown.number(),
            "state_check_recovered"@,
            ModelState::Running.number(),
            Some("depends_on_actual_state"@),
            "synchronize_state_recover_if_needed"@,
        ),
        row(
            ModelState::Failed.number(),
            "manual_automatic_recovery"@,
            ModelState::Pending.number(),
            Some("according_to_restart_policy"@),
            "start_model_recreation"@,
        ),
    ]
}

/// The transitions of a resource type.
pub open spec fn table(resource_type: ResourceType) -> Seq<TransitionView> {
    match resource_type {
        ResourceType::Scenario => scenario_table(),
        ResourceType::Package => package_table(),
        ResourceType::Model => model_table(),
        _ => Seq::empty(),
    }
}

/// The contents of a list of rows.
pub open spec fn rows(transitions: Seq<StateTransition>) -> Seq<TransitionView> {
    transitions.map_values(|t: StateTransition| t@)
}

fn transition(
    from_state: i32,
    event: &str,
    to_state: i32,
    condition: Option<&str>,
    action: &str,
) -> (made: StateTransition)
    ensures
        made@ == row(
            from_state,
            event@,
            to_state,
            match condition {
                Some(text) => Some(text@),
                None => None,
            },
            action@,
        ),
{
    StateTransition {
        from_state,
        event: event.to_owned(),
        to_state,
        condition: match condition {
            Some(text) => Some(text.to_owned()),
            None => None,
        },
        action: action.to_owned(),
    }
}

/// The transitions of a scenario.
pub fn initialize_scenario_transitions() -> (transitions: Vec<StateTransition>)
    ensures
        rows(transitions@) == scenario_table(),
{
    let mut transitions: Vec<StateTransition> = Vec::new();
    transitions.push(
        transition(
            ScenarioState::Idle.to_i32(),
            "scenario_activation",
            ScenarioState::Waiting.to_i32(),
            None,
            "start_condition_evaluation",
        ),
    );
    transitions.push(
        transition(
            ScenarioState::Waiting.to_i32(),
            "condition_met",
            ScenarioState::Allowed.to_i32(),
            None,
            "start_policy_verification",
        ),
    );
    transitions.push(
        transition(
            ScenarioState::Allowed.to_i32(),
            "policy_verification_success",
            ScenarioState::Playing.to_i32(),
            None,
            "execute_action_on_target_package",
        ),
    );
    transitions.push(
        transition(
            ScenarioState::Allowed.to_i32(),
            "policy_verification_failure",
            ScenarioState::Denied.to_i32(),
            None,
            "log_denial_generate_alert",
        ),
    );
    transitions.push(
        transition(
            ScenarioState::Waiting.to_i32(),
            "condition_met",
            ScenarioState::Satisfied.to_i32(),
            None,
            "start_policy_verification",
        ),
    );
    transitions.push(
        transition(
            ScenarioState::Satisfied.to_i32(),
            "policy_verification_success",
            ScenarioState::Allowed.to_i32(),
            None,
            "execute_action_on_target_package",
        ),
    );
    transitions.push(
        transition(
            ScenarioState::Satisfied.to_i32(),
            "policy_verification_failure",
            ScenarioState::Denied.to_i32(),
            None,
            "log_denial_generate_alert",
        ),
    );
    transitions.push(
        transition(
            ScenarioState::Allowed.to_i32(),
            "scenario_complete",
            ScenarioState::Completed.to_i32(),
            None,
            "log_completion_clean_up_resources",
        ),
    );
    transitions.push(
        transition(
            ScenarioState::Playing.to_i32(),
            "scenario_complete",
            ScenarioState::Completed.to_i32(),
            None,
            "log_completion_clean_up_resources",
        ),
    );
    transitions.push(
        transition(
            ScenarioState::Denied.to_i32(),
            "scenario_complete",
            ScenarioState::Completed.to_i32(),
            None,
            "log_completion_clean_up_resources",
        ),
    );
    assert(rows(transitions@) =~= scenario_table());
    transitions
}

/// The transitions of a package.
pub fn initialize_package_transitions() -> (transitions: Vec<StateTransition>)
    ensures
        rows(transitions@) == package_table(),
{
    let mut transitions: Vec<StateTransition> = Vec::new();
    transitions.push(
        transition(
            PackageState::Unspecified.to_i32(),
            "launch_request",
            PackageState::Initializing.to_i32(),
            None,
            "start_model_creation_allocate_resources",
        ),
    );
    transitions.push(
        transition(
            PackageState::Initializing.to_i32(),
            "initialization_complete",
            PackageState::Running.to_i32(),
            Some("all_models_normal"),
            "update_state_announce_availability",
        ),
    );
    transitions.push(
        transition(
            PackageState::Initializing.to_i32(),
            "partial_initialization_failure",
            PackageState::Degraded.to_i32(),
            Some("critical_models_normal"),
            "log_warning_activate_partial_functionality",
        ),
    );
    transitions.push(
        transition(
            PackageState::Initializing.to_i32(),
            "critical_initialization_failure",
            PackageState::Error.to_i32(),
            Some("critical_models_failed"),
            "log_error_attempt_recovery",
        ),
    );
    transitions.push(
        transition(
            PackageState::Running.to_i32(),
            "model_issue_detected",
            PackageState::Degraded.to_i32(),
            Some("non_critical_model_issues"),
            "log_warning_maintain_partial_functionality",
        ),
    );
    transitions.push(
        transition(
            PackageState::Running.to_i32(),
            "critical_issue_detected",
            PackageState::Error.to_i32(),
            Some("critical_model_issues"),
            "log_error_attempt_recovery",
        ),
    );
    transitions.push(
        transition(
            PackageState::Running.to_i32(),
            "pause_request",
            PackageState::Paused.to_i32(),
            None,
            "pause_models_preserve_state",
        ),
    );
    transitions.push(
        transition(
            PackageState::Degraded.to_i32(),
            "model_recovery",
            PackageState::Running.to_i32(),
            Some("all_models_recovered"),
            "update_state_restore_full_functionality",
        ),
    );
    transitions.push(
        transition(
            PackageState::Degraded.to_i32(),
            "additional_model_issues",
            PackageState::Error.to_i32(),
            Some("critical_models_affected"),
            "log_error_attempt_recovery",
        ),
    );
    transitions.push(
        transition(
            PackageState::Degraded.to_i32(),
            "pause_request",
            PackageState::Paused.to_i32(),
            None,
            "pause_models_preserve_state",
        ),
    );
    transitions.push(
        transition(
            PackageState::Error.to_i32(),
            "recovery_successful",
            PackageState::Running.to_i32(),
            Some("depends_on_recovery_level"),
            "update_state_announce_functionality_restoration",
        ),
    );
    transitions.push(
        transition(
            PackageState::Paused.to_i32(),
            "resume_request",
            PackageState::Running.to_i32(),
            Some("depends_on_previous_state"),
            "resume_models_restore_state",
        ),
    );
    transitions.push(
        transition(
            PackageState::Running.to_i32(),
            "update_request",
            PackageState::Updating.to_i32(),
            None,
            "start_update_process",
        ),
    );
    transitions.push(
        transition(
            PackageState::Updating.to_i32(),
            "update_successful",
            PackageState::Running.to_i32(),
            None,
            "activate_new_version_update_state",
        ),
    );
    transitions.push(
        transition(
            PackageState::Updating.to_i32(),
            "update_failed",
            PackageState::Error.to_i32(),
            Some("depends_on_rollback_settings"),
            "rollback_or_error_handling",
        ),
    );
    assert(rows(transitions@) =~= package_table());
    transitions
}

/// The transitions of a model.
pub fn initialize_model_transitions() -> (transitions: Vec<StateTransition>)
    ensures
        rows(transitions@) == model_table(),
{
    let mut transitions: Vec<StateTransition> = Vec::new();
    transitions.push(
        transition(
            ModelState::Unspecified.to_i32(),
            "creation_request",
            ModelState::Pending.to_i32(),
            None,
            "start_node_selection_and_allocation",
        ),
    );
    transitions.push(
        transition(
            ModelState::Pending.to_i32(),
            "node_allocation_complete",
            ModelState::ContainerCreating.to_i32(),
            Some("sufficient_resources"),
            "pull_container_images_mount_volumes",
        ),
    );
    transitions.push(
        transition(
            ModelState::Pending.to_i32(),
            "node_allocation_failed",
            ModelState::Failed.to_i32(),
            Some("timeout_or_error"),
            "log_error_retry_or_reschedule",
        ),
    );
    transitions.push(
        transition(
            ModelState::ContainerCreating.to_i32(),
            "container_creation_complete",
            ModelState::Running.to_i32(),
            Some("all_containers_started"),
            "update_state_start_readiness_checks",
        ),
    );
    transitions.push(
        transition(
            ModelState::ContainerCreating.to_i32(),
            "container_creation_failed",
            ModelState::Failed.to_i32(),
            None,
            "log_error_retry_or_reschedule",
        ),
    );
    transitions.push(
        transition(
            ModelState::Running.to_i32(),
            "temporary_task_complete",
            ModelState::Succeeded.to_i32(),
            Some("one_time_task"),
            "log_completion_clean_up_resources",
        ),
    );
    transitions.push(
        transition(
            ModelState::Running.to_i32(),
            "container_termination",
            ModelState::Failed.to_i32(),
            Some("unexpected_termination"),
            "log_error_evaluate_automatic_restart",
        ),
    );
    transitions.push(
        transition(
            ModelState::Running.to_i32(),
            "repeated_crash_detection",
            ModelState::CrashLoopBackOff.to_i32(),
            Some("consecutive_restart_failures"),
            "set_backoff_timer_collect_logs",
        ),
    );
    transitions.push(
        transition(
            ModelState::Running.to_i32(),
            "monitoring_failure",
            ModelState::Unknown.to_i32(),
            Some("node_communication_issues"),
            "attempt_diagnostics_restore_communication",
        ),
    );
    transitions.push(
        transition(
            ModelState::CrashLoopBackOff.to_i32(),
            "backoff_time_elapsed",
            ModelState::Running.to_i32(),
            Some("restart_successful"),
            "resume_monitoring_reset_counter",
        ),
    );
    transitions.push(
        transition(
            ModelState::CrashLoopBackOff.to_i32(),
            "maximum_retries_exceeded",
            ModelState::Failed.to_i32(),
            Some("retry_limit_reached"),
            "log_error_notify_for_manual_intervention",
        ),
    );
    transitions.push(
        transition(
            ModelState::Unknown.to_i32(),
            "state_check_recovered",
            ModelState::Running.to_i32(),
            Some("depends_on_actual_state"),
            "synchronize_state_recover_if_needed",
        ),
    );
    transitions.push(
        transition(
            ModelState::Failed.to_i32(),
            "manual_automatic_recovery",
            ModelState::Pending.to_i32(),
            Some("according_to_restart_policy"),
            "start_model_recreation",
        ),
    );
    assert(rows(transitions@) =~= model_table());
    transitions
}

// ---------------------------------------------------------------------------
// Finding a transition
// ---------------------------------------------------------------------------

/// The first row of a table that leads from one state to the other.
pub open spec fn row_between(
    table: Seq<TransitionView>,
    from_state: i32,
    to_state: i32,
) -> Option<TransitionView>
    decreases table.len(),
{
    if table.len() == 0 {
        None
    } else if table[0].from_state == from_state && table[0].to_state == to_state {
        Some(table[0])
    } else {
        row_between(table.drop_first(), from_state, to_state)
    }
}

/// The first row of a table that leads from one state to the other on this event.
pub open spec fn row_on_event(
    table: Seq<TransitionView>,
    from_state: i32,
    event: Seq<char>,
    to_state: i32,
) -> Option<TransitionView>
    decreases table.len(),
{
    if table.len() == 0 {
        None
    } else if table[0].from_state == from_state && table[0].event == event && table[0].to_state
        == to_state {
        Some(table[0])
    } else {
        row_on_event(table.drop_first(), from_state, event, to_state)
    }
}

/// The event that brings a resource from one state to another: that of the row between
/// them, or where there is none, one made of the two numbers.
pub open spec fn inferred_event(
    current_state: i32,
    target_state: i32,
    resource_type: ResourceType,
) -> Seq<char> {
    match row_between(table(resource_type), current_state, target_state) {
        Some(found) => found.event,
        None => "transition_"@ + decimal(current_state as int) + "_"@ + decimal(
            target_state as int,
        ),
    }
}

/// Looking for the inferred event finds the row between the two states.
pub proof fn law_inferred_event_finds_row(
    from_state: i32,
    to_state: i32,
    resource_type: ResourceType,
)
    ensures
        row_on_event(
            table(resource_type),
            from_state,
            inferred_event(from_state, to_state, resource_type),
            to_state,
        ) == row_between(table(resource_type), from_state, to_state),
{
    lemma_row_on_event(
        table(resource_type),
        from_state,
        inferred_event(from_state, to_state, resource_type),
        to_state,
    );
}

proof fn lemma_row_on_event(
    rows: Seq<TransitionView>,
    from_state: i32,
    event: Seq<char>,
    to_state: i32,
)
    requires
        row_between(rows, from_state, to_state) matches Some(found) ==> found.event == event,
    ensures
        row_on_event(rows, from_state, event, to_state) == row_between(rows, from_state, to_state),
    decreases rows.len(),
{
    if rows.len() > 0 && !(rows[0].from_state == from_state && rows[0].to_state == to_state) {
        lemma_row_on_event(rows.drop_first(), from_state, event, to_state);
    }
}

proof fn lemma_no_row(rows: Seq<TransitionView>, from_state: i32, to_state: i32)
    requires
        forall|i: int|
            0 <= i < rows.len() ==> !((#[trigger] rows[i]).from_state == from_state
                && rows[i].to_state == to_state),
    ensures
        row_between(rows, from_state, to_state) is None,
    decreases rows.len(),
{
    if rows.len() > 0 {
        assert forall|i: int| 0 <= i < rows.len() - 1 implies !((
        #[trigger] rows.drop_first()[i]).from_state == from_state && rows.drop_first()[i].to_state
            == to_state) by {
            assert(rows.drop_first()[i] == rows[i + 1]);
        }
        lemma_no_row(rows.drop_first(), from_state, to_state);
    }
}

proof fn lemma_row_at(rows: Seq<TransitionView>, at: int)
    requires
        0 <= at < rows.len(),
        forall|i: int|
            0 <= i < at ==> !((#[trigger] rows[i]).from_state == rows[at].from_state
                && rows[i].to_state == rows[at].to_state),
    ensures
        row_between(rows, rows[at].from_state, rows[at].to_state) == Some(rows[at]),
    decreases rows.len(),
{
    if at > 0 {
        let rest = rows.drop_first();
        assert forall|i: int| 0 <= i < at - 1 implies !((#[trigger] rest[i]).from_state
            == rest[at - 1].from_state && rest[i].to_state == rest[at - 1].to_state) by {
            assert(rest[i] == rows[i + 1]);
        }
        lemma_row_at(rest, at - 1);
    }
}

/// The event that brings a resource from one state to another.
pub fn infer_event_from_states(
    current_state: i32,
    target_state: i32,
    resource_type: ResourceType,
) -> (event: String)
    ensures
        event@ == inferred_event(current_state, target_state, resource_type),
{
    let known: Option<&'static str> = match resource_type {
        ResourceType::Scenario => scenario_event(current_state, target_state),
        ResourceType::Package => package_event(current_state, target_state),
        ResourceType::Model => model_event(current_state, target_state),
        _ => None,
    };
    match known {
        Some(event) => event.to_owned(),
        None => concat4(
            "transition_",
            decimal_of(current_state as i64).as_str(),
            "_",
            decimal_of(target_state as i64).as_str(),
        ),
    }
}

fn scenario_event(current_state: i32, target_state: i32) -> (event: Option<&'static str>)
    ensures
        match event {
            Some(name) => row_between(scenario_table(), current_state, target_state) matches Some(found)
                && found.event == name@,
            None => row_between(scenario_table(), current_state, target_state) is None,
        },
{
    let ghost rows = scenario_table();
    match (ScenarioState::from_i32(current_state), ScenarioState::from_i32(target_state)) {
        (Some(ScenarioState::Idle), Some(ScenarioState::Waiting)) => {
            proof {
                lemma_row_at(rows, 0);
            }
            Some("scenario_activation")
        },
        (Some(ScenarioState::Waiting), Some(ScenarioState::Allowed)) => {
            proof {
                lemma_row_at(rows, 1);
            }
            Some("condition_met")
        },
        (Some(ScenarioState::Allowed), Some(ScenarioState::Playing)) => {
            proof {
                lemma_row_at(rows, 2);
            }
            Some("policy_verification_success")
        },
        (Some(ScenarioState::Allowed), Some(ScenarioState::Denied)) => {
            proof {
                lemma_row_at(rows, 3);
            }
            Some("policy_verification_failure")
        },
        (Some(ScenarioState::Waiting), Some(ScenarioState::Satisfied)) => {
            proof {
                lemma_row_at(rows, 4);
            }
            Some("condition_met")
        },
        (Some(ScenarioState::Satisfied), Some(ScenarioState::Allowed)) => {
            proof {
                lemma_row_at(rows, 5);
            }
            Some("policy_verification_success")
        },
        (Some(ScenarioState::Satisfied), Some(ScenarioState::Denied)) => {
            proof {
                lemma_row_at(rows, 6);
            }
            Some("policy_verification_failure")
        },
        (Some(ScenarioState::Allowed), Some(ScenarioState::Completed)) => {
            proof {
                lemma_row_at(rows, 7);
            }
            Some("scenario_complete")
        },
        (Some(ScenarioState::Playing), Some(ScenarioState::Completed)) => {
            proof {
                lemma_row_at(rows, 8);
            }
            Some("scenario_complete")
        },
        (Some(ScenarioState::Denied), Some(ScenarioState::Completed)) => {
            proof {
                lemma_row_at(rows, 9);
            }
            Some("scenario_complete")
        },
        _ => {
            proof {
                lemma_no_row(rows, current_state, target_state);
            }
            None
        },
    }
}

fn package_event(current_state: i32, target_state: i32) -> (event: Option<&'static str>)
    ensures
        match event {
            Some(name) => row_between(package_table(), current_state, target_state) matches Some(found)
                && found.event == name@,
            None => row_between(package_table(), current_state, target_state) is None,
        },
{
    let ghost rows = package_table();
    match (PackageState::from_i32(current_state), PackageState::from_i32(target_state)) {
        (Some(PackageState::Unspecified), Some(PackageState::Initializing)) => {
            proof {
                lemma_row_at(rows, 0);
            }
            Some("launch_request")
        },
        (Some(PackageState::Initializing), Some(PackageState::Running)) => {
            proof {
                lemma_row_at(rows, 1);
            }
            Some("initialization_complete")
        },
        (Some(PackageState::Initializing), Some(PackageState::Degraded)) => {
            proof {
                lemma_row_at(rows, 2);
            }
            Some("partial_initialization_failure")
        },
        (Some(PackageState::Initializing), Some(PackageState::Error)) => {
            proof {
                lemma_row_at(rows, 3);
            }
            Some("critical_initialization_failure")
        },
        (Some(PackageState::Running), Some(PackageState::Degraded)) => {
            proof {
                lemma_row_at(rows, 4);
            }
            Some("model_issue_detected")
        },
        (Some(PackageState::Running), Some(PackageState::Error)) => {
            proof {
                lemma_row_at(rows, 5);
            }
            Some("critical_issue_detected")
        },
        (Some(PackageState::Running), Some(PackageState::Paused)) => {
            proof {
                lemma_row_at(rows, 6);
            }
            Some("pause_request")
        },
        (Some(PackageState::Running), Some(PackageState::Updating)) => {
            proof {
                lemma_row_at(rows, 12);
            }
            Some("update_request")
        },
        (Some(PackageState::Degraded), Some(PackageState::Running)) => {
            proof {
                lemma_row_at(rows, 7);
            }
            Some("model_recovery")
        },
        (Some(PackageState::Degraded), Some(PackageState::Error)) => {
            proof {
                lemma_row_at(rows, 8);
            }
            Some("additional_model_issues")
        },
        (Some(PackageState::Degraded), Some(PackageState::Paused)) => {
            proof {
                lemma_row_at(rows, 9);
            }
            Some("pause_request")
        },
        (Some(PackageState::Error), Some(PackageState::Running)) => {
            proof {
                lemma_row_at(rows, 10);
            }
            Some("recovery_successful")
        },
        (Some(PackageState::Paused), Some(PackageState::Running)) => {
            proof {
                lemma_row_at(rows, 11);
            }
            Some("resume_request")
        },
        (Some(PackageState::Updating), Some(PackageState::Running)) => {
            proof {
                lemma_row_at(rows, 13);
            }
            Some("update_successful")
        },
        (Some(PackageState::Updating), Some(PackageState::Error)) => {
            proof {
                lemma_row_at(rows, 14);
            }
            Some("update_failed")
        },
        _ => {
            proof {
                lemma_no_row(rows, current_state, target_state);
            }
            None
        },
    }
}

fn model_event(current_state: i32, target_state: i32) -> (event: Option<&'static str>)
    ensures
        match event {
            Some(name) => row_between(model_table(), current_state, target_state) matches Some(found)
                && found.event == name@,
            None => row_between(model_table(), current_state, target_state) is None,
        },
{
    let ghost rows = model_table();
    match (ModelState::from_i32(current_state), ModelState::from_i32(target_state)) {
        (Some(ModelState::Unspecified), Some(ModelState::Pending)) => {
            proof {
                lemma_row_at(rows, 0);
            }
            Some("creation_request")
        },
        (Some(ModelState::Pending), Some(ModelState::ContainerCreating)) => {
            proof {
                lemma_row_at(rows, 1);
            }
            Some("node_allocation_complete")
        },
        (Some(ModelState::Pending), Some(ModelState::Failed)) => {
            proof {
                lemma_row_at(rows, 2);
            }
            Some("node_allocation_failed")
        },
        (Some(ModelState::ContainerCreating), Some(ModelState::Running)) => {
            proof {
                lemma_row_at(rows, 3);
            }
            Some("container_creation_complete")
        },
        (Some(ModelState::ContainerCreating), Some(ModelState::Failed)) => {
            proof {
                lemma_row_at(rows, 4);
            }
            Some("container_creation_failed")
        },
        (Some(ModelState::Running), Some(ModelState::Succeeded)) => {
            proof {
                lemma_row_at(rows, 5);
            }
            Some("temporary_task_complete")
        },
        (Some(ModelState::Running), Some(ModelState::Failed)) => {
            proof {
                lemma_row_at(rows, 6);
            }
            Some("container_termination")
        },
        (Some(ModelState::Running), Some(ModelState::CrashLoopBackOff)) => {
            proof {
                lemma_row_at(rows, 7);
            }
            Some("repeated_crash_detection")
        },
        (Some(ModelState::Running), Some(ModelState::Unknown)) => {
            proof {
                lemma_row_at(rows, 8);
            }
            Some("monitoring_failure")
        },
        (Some(ModelState::CrashLoopBackOff), Some(ModelState::Running)) => {
            proof {
                lemma_row_at(rows, 9);
            }
            Some("backoff_time_elapsed")
        },
        (Some(ModelState::CrashLoopBackOff), Some(ModelState::Failed)) => {
            proof {
                lemma_row_at(rows, 10);
            }
            Some("maximum_retries_exceeded")
        },
        (Some(ModelState::Unknown), Some(ModelState::Running)) => {
            proof {
                lemma_row_at(rows, 11);
            }
            Some("state_check_recovered")
        },
        (Some(ModelState::Failed), Some(ModelState::Pending)) => {
            proof {
                lemma_row_at(rows, 12);
            }
            Some("manual_automatic_recovery")
        },
        _ => {
            proof {
                lemma_no_row(rows, current_state, target_state);
            }
            None
        },
    }
}

/// The first row of the table that matches on state, event and target.
pub fn find_row<'a>(
    transitions: &'a Vec<StateTransition>,
    from_state: i32,
    event: &str,
    to_state: i32,
) -> (found: Option<&'a StateTransition>)
    ensures
        match found {
            Some(t) => row_on_event(rows(transitions@), from_state, event@, to_state) == Some(t@),
            None => row_on_event(rows(transitions@), from_state, event@, to_state) is None,
        },
{
    let ghost all = rows(transitions@);
    let mut i: usize = 0;
    assert(all.skip(0) =~= all);
    while i < transitions.len()
        invariant
            all == rows(transitions@),
            i <= transitions@.len(),
            row_on_event(all, from_state, event@, to_state) == row_on_event(
                all.skip(i as int),
                from_state,
                event@,
                to_state,
            ),
        decreases transitions@.len() - i,
    {
        let t = &transitions[i];
        assert(all.skip(i as int)[0] == t@);
        assert(all.skip(i as int).drop_first() =~= all.skip(i + 1));
        if t.from_state == from_state && str_eq(t.event.as_str(), event) && t.to_state == to_state {
            return Some(t);
        }
        i += 1;
    }
    None
}

} // verus!
