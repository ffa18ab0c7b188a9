//! The actions that granted requests ask for.

use crate::messages::ResourceType;
use crate::statemanager::types::{ActionCommand, ActionCommandView};
use crate::text::{concat, concat4, str_eq};
use vstd::prelude::*;

verus! {

/// What is done for a known action; the key of the resource follows.
pub open spec fn action_phrase(action: Seq<char>) -> Option<Seq<char>> {
    if action == "start_condition_evaluation"@ {
        Some(" Starting condition evaluation for scenario: "@)
    } else if action == "start_policy_verification"@ {
        Some(" Starting policy verification for scenario: "@)
    } else if action == "execute_action_on_target_package"@ {
        Some(" Executing action on target package for scenario: "@)
    } else if action == "log_denial_generate_alert"@ {
        Some(" Logging denial and generating alert for scenario: "@)
    } else if action == "start_model_creation_allocate_resources"@ {
        Some(" Starting model creation and resource allocation for package: "@)
    } else if action == "update_state_announce_availability"@ {
        Some(" Updating state and announcing availability for: "@)
    } else if action == "log_warning_activate_partial_functionality"@ {
        Some(" Logging warning and activating partial functionality for: "@)
    } else if action == "log_error_attempt_recovery"@ {
        Some(" Logging error and attempting recovery for: "@)
    } else if action == "pause_models_preserve_state"@ {
        Some(" Pausing models and preserving state for: "@)
    } else if action == "resume_models_restore_state"@ {
        Some(" Resuming models and restoring state for: "@)
    } else if action == "start_node_selection_and_allocation"@ {
        Some(" Starting node selection and allocation for model: "@)
    } else if action == "pull_container_images_mount_volumes"@ {
        Some(" Pulling container images and mounting volumes for model: "@)
    } else if action == "update_state_start_readiness_checks"@ {
        Some(" Updating state and starting readiness checks for model: "@)
    } else if action == "log_completion_clean_up_resources"@ {
        Some(" Logging completion and cleaning up resources for model: "@)
    } else if action == "set_backoff_timer_collect_logs"@ {
        Some(" Setting backoff timer and collecting logs for model: "@)
    } else if action == "attempt_diagnostics_restore_communication"@ {
        Some(" Attempting diagnostics and restoring communication for model: "@)
    } else if action == "resume_monitoring_reset_counter"@ {
        Some(" Resuming monitoring and resetting counter for model: "@)
    } else if action == "log_error_notify_for_manual_intervention"@ {
        Some(" Logging error and notifying for manual intervention for model: "@)
    } else if action == "synchronize_state_recover_if_needed"@ {
        Some(" Synchronizing state and recovering if needed for model: "@)
    } else if action == "start_model_recreation"@ {
        Some(" Starting model recreation for: "@)
    } else {
        None
    }
}

/// What is reported of an action when it is carried out.
pub open spec fn action_message(command: ActionCommandView) -> Seq<char> {
    match action_phrase(command.action) {
        Some(phrase) => phrase + command.resource_key,
        None => " Unknown action: "@ + command.action + " for resource: "@ + command.resource_key,
    }
}

fn phrase_for(action: &str) -> (phrase: Option<&'static str>)
    ensures
        match phrase {
            Some(text) => action_phrase(action@) == Some(text@),
            None => action_phrase(action@) is None,
        },
{
    if str_eq(action, "start_condition_evaluation") {
        Some(" Starting condition evaluation for scenario: ")
    } else if str_eq(action, "start_policy_verification") {
        Some(" Starting policy verification for scenario: ")
    } else if str_eq(action, "execute_action_on_target_package") {
        Some(" Executing action on target package for scenario: ")
    } else if str_eq(action, "log_denial_generate_alert") {
        Some(" Logging denial and generating alert for scenario: ")
    } else if str_eq(action, "start_model_creation_allocate_resources") {
        Some(" Starting model creation and resource allocation for package: ")
    } else if str_eq(action, "update_state_announce_availability") {
        Some(" Updating state and announcing availability for: ")
    } else if str_eq(action, "log_warning_activate_partial_functionality") {
        Some(" Logging warning and activating partial functionality for: ")
    } else if str_eq(action, "log_error_attempt_recovery") {
        Some(" Logging error and attempting recovery for: ")
    } else if str_eq(action, "pause_models_preserve_state") {
        Some(" Pausing models and preserving state for: ")
    } else if str_eq(action, "resume_models_restore_state") {
        Some(" Resuming models and restoring state for: ")
    } else if str_eq(action, "start_node_selection_and_allocation") {
        Some(" Starting node selection and allocation for model: ")
    } else if str_eq(action, "pull_container_images_mount_volumes") {
        Some(" Pulling container images and mounting volumes for model: ")
    } else if str_eq(action, "update_state_start_readiness_checks") {
        Some(" Updating state and starting readiness checks for model: ")
    } else if str_eq(action, "log_completion_clean_up_resources") {
        Some(" Logging completion and cleaning up resources for model: ")
    } else if str_eq(action, "set_backoff_timer_collect_logs") {
        Some(" Setting backoff timer and collecting logs for model: ")
    } else if str_eq(action, "attempt_diagnostics_restore_communication") {
        Some(" Attempting diagnostics and restoring communication for model: ")
    } else if str_eq(action, "resume_monitoring_reset_counter") {
        Some(" Resuming monitoring and resetting counter for model: ")
    } else if str_eq(action, "log_error_notify_for_manual_intervention") {
        Some(" Logging error and notifying for manual intervention for model: ")
    } else if str_eq(action, "synchronize_state_recover_if_needed") {
        Some(" Synchronizing state and recovering if needed for model: ")
    } else if str_eq(action, "start_model_recreation") {
        Some(" Starting model recreation for: ")
    } else {
        None
    }
}

/// Carries out an action, and gives what there is to report of it.
pub fn execute_action(command: &ActionCommand) -> (message: String)
    ensures
        message@ == action_message(command@),
{
    match phrase_for(command.action.as_str()) {
        Some(phrase) => concat(phrase, command.resource_key.as_str()),
        None => concat4(
            " Unknown action: ",
            command.action.as_str(),
            " for resource: ",
            command.resource_key.as_str(),
        ),
    }
}

/// What is reported of each action that is known: what is done, and to which resource.
pub proof fn law_known_actions(resource_key: Seq<char>)
    ensures
        message_for("start_condition_evaluation"@, resource_key)
            == " Starting condition evaluation for scenario: "@ + resource_key,
        message_for("start_policy_verification"@, resource_key)
            == " Starting policy verification for scenario: "@ + resource_key,
        message_for("execute_action_on_target_package"@, resource_key)
            == " Executing action on target package for scenario: "@ + resource_key,
        message_for("log_denial_generate_alert"@, resource_key)
            == " Logging denial and generating alert for scenario: "@ + resource_key,
        message_for("start_model_creation_allocate_resources"@, resource_key)
            == " Starting model creation and resource allocation for package: "@ + resource_key,
        message_for("update_state_announce_availability"@, resource_key)
            == " Updating state and announcing availability for: "@ + resource_key,
        message_for("log_warning_activate_partial_functionality"@, resource_key)
            == " Logging warning and activating partial functionality for: "@ + resource_key,
        message_for("log_error_attempt_recovery"@, resource_key)
            == " Logging error and attempting recovery for: "@ + resource_key,
        message_for("pause_models_preserve_state"@, resource_key)
            == " Pausing models and preserving state for: "@ + resource_key,
        message_for("resume_models_restore_state"@, resource_key)
            == " Resuming models and restoring state for: "@ + resource_key,
        message_for("start_node_selection_and_allocation"@, resource_key)
            == " Starting node selection and allocation for model: "@ + resource_key,
        message_for("pull_container_images_mount_volumes"@, resource_key)
            == " Pulling container images and mounting volumes for model: "@ + resource_key,
        message_for("update_state_start_readiness_checks"@, resource_key)
            == " Updating state and starting readiness checks for model: "@ + resource_key,
        message_for("log_completion_clean_up_resources"@, resource_key)
            == " Logging completion and cleaning up resources for model: "@ + resource_key,
        message_for("set_backoff_timer_collect_logs"@, resource_key)
            == " Setting backoff timer and collecting logs for model: "@ + resource_key,
        message_for("attempt_diagnostics_restore_communication"@, resource_key)
            == " Attempting diagnostics and restoring communication for model: "@ + resource_key,
        message_for("resume_monitoring_reset_counter"@, resource_key)
            == " Resuming monitoring and resetting counter for model: "@ + resource_key,
        message_for("log_error_notify_for_manual_intervention"@, resource_key)
            == " Logging error and notifying for manual intervention for model: "@ + resource_key,
        message_for("synchronize_state_recover_if_needed"@, resource_key)
            == " Synchronizing state and recovering if needed for model: "@ + resource_key,
        message_for("start_model_recreation"@, resource_key)
            == " Starting model recreation for: "@ + resource_key,
{
    lemma_action_names_differ();
}

/// What is reported of an action on a resource.
pub open spec fn message_for(action: Seq<char>, resource_key: Seq<char>) -> Seq<char> {
    action_message(
        ActionCommandView {
            action,
            resource_key,
            resource_type: ResourceType::Unspecified,
            transition_id: Seq::empty(),
            context: Map::empty(),
        },
    )
}

/// What is reported of an action depends on its name and on the resource alone. Of one that is not
/// known, both are named.
pub proof fn law_action_reports(a: ActionCommandView, b: ActionCommandView)
    ensures
        a.action == b.action && a.resource_key == b.resource_key ==> action_message(a)
            == action_message(b),
        action_phrase(a.action) is None ==> action_message(a) == " Unknown action: "@ + a.action
            + " for resource: "@ + a.resource_key,
{
}

proof fn lemma_action_names_differ()
    ensures
        "start_policy_verification"@ != "start_condition_evaluation"@,
        "execute_action_on_target_package"@ != "start_condition_evaluation"@,
        "execute_action_on_target_package"@ != "start_policy_verification"@,
        "log_denial_generate_alert"@ != "start_condition_evaluation"@,
        "log_denial_generate_alert"@ != "start_policy_verification"@,
        "log_denial_generate_alert"@ != "execute_action_on_target_package"@,
        "start_model_creation_allocate_resources"@ != "start_condition_evaluation"@,
        "start_model_creation_allocate_resources"@ != "start_policy_verification"@,
        "start_model_creation_allocate_resources"@ != "execute_action_on_target_package"@,
        "start_model_creation_allocate_resources"@ != "log_denial_generate_alert"@,
        "update_state_announce_availability"@ != "start_condition_evaluation"@,
        "update_state_announce_availability"@ != "start_policy_verification"@,
        "update_state_announce_availability"@ != "execute_action_on_target_package"@,
        "update_state_announce_availability"@ != "log_denial_generate_alert"@,
        "update_state_announce_availability"@ != "start_model_creation_allocate_resources"@,
        "log_warning_activate_partial_functionality"@ != "start_condition_evaluation"@,
        "log_warning_activate_partial_functionality"@ != "start_policy_verification"@,
        "log_warning_activate_partial_functionality"@ != "execute_action_on_target_package"@,
        "log_warning_activate_partial_functionality"@ != "log_denial_generate_alert"@,
        "log_warning_activate_partial_functionality"@ != "start_model_creation_allocate_resources"@,
        "log_warning_activate_partial_functionality"@ != "update_state_announce_availability"@,
        "log_error_attempt_recovery"@ != "start_condition_evaluation"@,
        "log_error_attempt_recovery"@ != "start_policy_verification"@,
        "log_error_attempt_recovery"@ != "execute_action_on_target_package"@,
        "log_error_attempt_recovery"@ != "log_denial_generate_alert"@,
        "log_error_attempt_recovery"@ != "start_model_creation_allocate_resources"@,
        "log_error_attempt_recovery"@ != "update_state_announce_availability"@,
        "log_error_attempt_recovery"@ != "log_warning_activate_partial_functionality"@,
        "pause_models_preserve_state"@ != "start_condition_evaluation"@,
        "pause_models_preserve_state"@ != "start_policy_verification"@,
        "pause_models_preserve_state"@ != "execute_action_on_target_package"@,
        "pause_models_preserve_state"@ != "log_denial_generate_alert"@,
        "pause_models_preserve_state"@ != "start_model_creation_allocate_resources"@,
        "pause_models_preserve_state"@ != "update_state_announce_availability"@,
        "pause_models_preserve_state"@ != "log_warning_activate_partial_functionality"@,
        "pause_models_preserve_state"@ != "log_error_attempt_recovery"@,
        "resume_models_restore_state"@ != "start_condition_evaluation"@,
        "resume_models_restore_state"@ != "start_policy_verification"@,
        "resume_models_restore_state"@ != "execute_action_on_target_package"@,
        "resume_models_restore_state"@ != "log_denial_generate_alert"@,
        "resume_models_restore_state"@ != "start_model_creation_allocate_resources"@,
        "resume_models_restore_state"@ != "update_state_announce_availability"@,
        "resume_models_restore_state"@ != "log_warning_activate_partial_functionality"@,
        "resume_models_restore_state"@ != "log_error_attempt_recovery"@,
        "resume_models_restore_state"@ != "pause_models_preserve_state"@,
        "start_node_selection_and_allocation"@ != "start_condition_evaluation"@,
        "start_node_selection_and_allocation"@ != "start_policy_verification"@,
        "start_node_selection_and_allocation"@ != "execute_action_on_target_package"@,
        "start_node_selection_and_allocation"@ != "log_denial_generate_alert"@,
        "start_node_selection_and_allocation"@ != "start_model_creation_allocate_resources"@,
        "start_node_selection_and_allocation"@ != "update_state_announce_availability"@,
        "start_node_selection_and_allocation"@ != "log_warning_activate_partial_functionality"@,
        "start_node_selection_and_allocation"@ != "log_error_attempt_recovery"@,
        "start_node_selection_and_allocation"@ != "pause_models_preserve_state"@,
        "start_node_selection_and_allocation"@ != "resume_models_restore_state"@,
        "pull_container_images_mount_volumes"@ != "start_condition_evaluation"@,
        "pull_container_images_mount_volumes"@ != "start_policy_verification"@,
        "pull_container_images_mount_volumes"@ != "execute_action_on_target_package"@,
        "pull_container_images_mount_volumes"@ != "log_denial_generate_alert"@,
        "pull_container_images_mount_volumes"@ != "start_model_creation_allocate_resources"@,
        "pull_container_images_mount_volumes"@ != "update_state_announce_availability"@,
        "pull_container_images_mount_volumes"@ != "log_warning_activate_partial_functionality"@,
        "pull_container_images_mount_volumes"@ != "log_error_attempt_recovery"@,
        "pull_container_images_mount_volumes"@ != "pause_models_preserve_state"@,
        "pull_container_images_mount_volumes"@ != "resume_models_restore_state"@,
        "pull_container_images_mount_volumes"@ != "start_node_selection_and_allocation"@,
        "update_state_start_readiness_checks"@ != "start_condition_evaluation"@,
        "update_state_start_readiness_checks"@ != "start_policy_verification"@,
        "update_state_start_readiness_checks"@ != "execute_action_on_target_package"@,
        "update_state_start_readiness_checks"@ != "log_denial_generate_alert"@,
        "update_state_start_readiness_checks"@ != "start_model_creation_allocate_resources"@,
        "update_state_start_readiness_checks"@ != "update_state_announce_availability"@,
        "update_state_start_readiness_checks"@ != "log_warning_activate_partial_functionality"@,
        "update_state_start_readiness_checks"@ != "log_error_attempt_recovery"@,
        "update_state_start_readiness_checks"@ != "pause_models_preserve_state"@,
        "update_state_start_readiness_checks"@ != "resume_models_restore_state"@,
        "update_state_start_readiness_checks"@ != "start_node_selection_and_allocation"@,
        "update_state_start_readiness_checks"@ != "pull_container_images_mount_volumes"@,
        "log_completion_clean_up_resources"@ != "start_condition_evaluation"@,
        "log_completion_clean_up_resources"@ != "start_policy_verification"@,
        "log_completion_clean_up_resources"@ != "execute_action_on_target_package"@,
        "log_completion_clean_up_resources"@ != "log_denial_generate_alert"@,
        "log_completion_clean_up_resources"@ != "start_model_creation_allocate_resources"@,
        "log_completion_clean_up_resources"@ != "update_state_announce_availability"@,
        "log_completion_clean_up_resources"@ != "log_warning_activate_partial_functionality"@,
        "log_completion_clean_up_resources"@ != "log_error_attempt_recovery"@,
        "log_completion_clean_up_resources"@ != "pause_models_preserve_state"@,
        "log_completion_clean_up_resources"@ != "resume_models_restore_state"@,
        "log_completion_clean_up_resources"@ != "start_node_selection_and_allocation"@,
        "log_completion_clean_up_resources"@ != "pull_container_images_mount_volumes"@,
        "log_completion_clean_up_resources"@ != "update_state_start_readiness_checks"@,
        "set_backoff_timer_collect_logs"@ != "start_condition_evaluation"@,
        "set_backoff_timer_collect_logs"@ != "start_policy_verification"@,
        "set_backoff_timer_collect_logs"@ != "execute_action_on_target_package"@,
        "set_backoff_timer_collect_logs"@ != "log_denial_generate_alert"@,
        "set_backoff_timer_collect_logs"@ != "start_model_creation_allocate_resources"@,
        "set_backoff_timer_collect_logs"@ != "update_state_announce_availability"@,
        "set_backoff_timer_collect_logs"@ != "log_warning_activate_partial_functionality"@,
        "set_backoff_timer_collect_logs"@ != "log_error_attempt_recovery"@,
        "set_backoff_timer_collect_logs"@ != "pause_models_preserve_state"@,
        "set_backoff_timer_collect_logs"@ != "resume_models_restore_state"@,
        "set_backoff_timer_collect_logs"@ != "start_node_selection_and_allocation"@,
        "set_backoff_timer_collect_logs"@ != "pull_container_images_mount_volumes"@,
        "set_backoff_timer_collect_logs"@ != "update_state_start_readiness_checks"@,
        "set_backoff_timer_collect_logs"@ != "log_completion_clean_up_resources"@,
        "attempt_diagnostics_restore_communication"@ != "start_condition_evaluation"@,
        "attempt_diagnostics_restore_communication"@ != "start_policy_verification"@,
        "attempt_diagnostics_restore_communication"@ != "execute_action_on_target_package"@,
        "attempt_diagnostics_restore_communication"@ != "log_denial_generate_alert"@,
        "attempt_diagnostics_restore_communication"@ != "start_model_creation_allocate_resources"@,
        "attempt_diagnostics_restore_communication"@ != "update_state_announce_availability"@,
        "attempt_diagnostics_restore_communication"@
            != "log_warning_activate_partial_functionality"@,
        "attempt_diagnostics_restore_communication"@ != "log_error_attempt_recovery"@,
        "attempt_diagnostics_restore_communication"@ != "pause_models_preserve_state"@,
        "attempt_diagnostics_restore_communication"@ != "resume_models_restore_state"@,
        "attempt_diagnostics_restore_communication"@ != "start_node_selection_and_allocation"@,
        "attempt_diagnostics_restore_communication"@ != "pull_container_images_mount_volumes"@,
        "attempt_diagnostics_restore_communication"@ != "update_state_start_readiness_checks"@,
        "attempt_diagnostics_restore_communication"@ != "log_completion_clean_up_resources"@,
        "attempt_diagnostics_restore_communication"@ != "set_backoff_timer_collect_logs"@,
        "resume_monitoring_reset_counter"@ != "start_condition_evaluation"@,
        "resume_monitoring_reset_counter"@ != "start_policy_verification"@,
        "resume_monitoring_reset_counter"@ != "execute_action_on_target_package"@,
        "resume_monitoring_reset_counter"@ != "log_denial_generate_alert"@,
        "resume_monitoring_reset_counter"@ != "start_model_creation_allocate_resources"@,
        "resume_monitoring_reset_counter"@ != "update_state_announce_availability"@,
        "resume_monitoring_reset_counter"@ != "log_warning_activate_partial_functionality"@,
        "resume_monitoring_reset_counter"@ != "log_error_attempt_recovery"@,
        "resume_monitoring_reset_counter"@ != "pause_models_preserve_state"@,
        "resume_monitoring_reset_counter"@ != "resume_models_restore_state"@,
        "resume_monitoring_reset_counter"@ != "start_node_selection_and_allocation"@,
        "resume_monitoring_reset_counter"@ != "pull_container_images_mount_volumes"@,
        "resume_monitoring_reset_counter"@ != "update_state_start_readiness_checks"@,
        "resume_monitoring_reset_counter"@ != "log_completion_clean_up_resources"@,
        "resume_monitoring_reset_counter"@ != "set_backoff_timer_collect_logs"@,
        "resume_monitoring_reset_counter"@ != "attempt_diagnostics_restore_communication"@,
        "log_error_notify_for_manual_intervention"@ != "start_condition_evaluation"@,
        "log_error_notify_for_manual_intervention"@ != "start_policy_verification"@,
        "log_error_notify_for_manual_intervention"@ != "execute_action_on_target_package"@,
        "log_error_notify_for_manual_intervention"@ != "log_denial_generate_alert"@,
        "log_error_notify_for_manual_intervention"@ != "start_model_creation_allocate_resources"@,
        "log_error_notify_for_manual_intervention"@ != "update_state_announce_availability"@,
        "log_error_notify_for_manual_intervention"@
            != "log_warning_activate_partial_functionality"@,
        "log_error_notify_for_manual_intervention"@ != "log_error_attempt_recovery"@,
        "log_error_notify_for_manual_intervention"@ != "pause_models_preserve_state"@,
        "log_error_notify_for_manual_intervention"@ != "resume_models_restore_state"@,
        "log_error_notify_for_manual_intervention"@ != "start_node_selection_and_allocation"@,
        "log_error_notify_for_manual_intervention"@ != "pull_container_images_mount_volumes"@,
        "log_error_notify_for_manual_intervention"@ != "update_state_start_readiness_checks"@,
        "log_error_notify_for_manual_intervention"@ != "log_completion_clean_up_resources"@,
        "log_error_notify_for_manual_intervention"@ != "set_backoff_timer_collect_logs"@,
        "log_error_notify_for_manual_intervention"@ != "attempt_diagnostics_restore_communication"@,
        "log_error_notify_for_manual_intervention"@ != "resume_monitoring_reset_counter"@,
        "synchronize_state_recover_if_needed"@ != "start_condition_evaluation"@,
        "synchronize_state_recover_if_needed"@ != "start_policy_verification"@,
        "synchronize_state_recover_if_needed"@ != "execute_action_on_target_package"@,
        "synchronize_state_recover_if_needed"@ != "log_denial_generate_alert"@,
        "synchronize_state_recover_if_needed"@ != "start_model_creation_allocate_resources"@,
        "synchronize_state_recover_if_needed"@ != "update_state_announce_availability"@,
        "synchronize_state_recover_if_needed"@ != "log_warning_activate_partial_functionality"@,
        "synchronize_state_recover_if_needed"@ != "log_error_attempt_recovery"@,
        "synchronize_state_recover_if_needed"@ != "pause_models_preserve_state"@,
        "synchronize_state_recover_if_needed"@ != "resume_models_restore_state"@,
        "synchronize_state_recover_if_needed"@ != "start_node_selection_and_allocation"@,
        "synchronize_state_recover_if_needed"@ != "pull_container_images_mount_volumes"@,
        "synchronize_state_recover_if_needed"@ != "update_state_start_readiness_checks"@,
        "synchronize_state_recover_if_needed"@ != "log_completion_clean_up_resources"@,
        "synchronize_state_recover_if_needed"@ != "set_backoff_timer_collect_logs"@,
        "synchronize_state_recover_if_needed"@ != "attempt_diagnostics_restore_communication"@,
        "synchronize_state_recover_if_needed"@ != "resume_monitoring_reset_counter"@,
        "synchronize_state_recover_if_needed"@ != "log_error_notify_for_manual_intervention"@,
        "start_model_recreation"@ != "start_condition_evaluation"@,
        "start_model_recreation"@ != "start_policy_verification"@,
        "start_model_recreation"@ != "execute_action_on_target_package"@,
        "start_model_recreation"@ != "log_denial_generate_alert"@,
        "start_model_recreation"@ != "start_model_creation_allocate_resources"@,
        "start_model_recreation"@ != "update_state_announce_availability"@,
        "start_model_recreation"@ != "log_warning_activate_partial_functionality"@,
        "start_model_recreation"@ != "log_error_attempt_recovery"@,
        "start_model_recreation"@ != "pause_models_preserve_state"@,
        "start_model_recreation"@ != "resume_models_restore_state"@,
        "start_model_recreation"@ != "start_node_selection_and_allocation"@,
        "start_model_recreation"@ != "pull_container_images_mount_volumes"@,
        "start_model_recreation"@ != "update_state_start_readiness_checks"@,
        "start_model_recreation"@ != "log_completion_clean_up_resources"@,
        "start_model_recreation"@ != "set_backoff_timer_collect_logs"@,
        "start_model_recreation"@ != "attempt_diagnostics_restore_communication"@,
        "start_model_recreation"@ != "resume_monitoring_reset_counter"@,
        "start_model_recreation"@ != "log_error_notify_for_manual_intervention"@,
        "start_model_recreation"@ != "synchronize_state_recover_if_needed"@,
{
    reveal_strlit("start_condition_evaluation");
    reveal_strlit("start_policy_verification");
    reveal_strlit("execute_action_on_target_package");
    reveal_strlit("log_denial_generate_alert");
    reveal_strlit("start_model_creation_allocate_resources");
    reveal_strlit("update_state_announce_availability");
    reveal_strlit("log_warning_activate_partial_functionality");
    reveal_strlit("log_error_attempt_recovery");
    reveal_strlit("pause_models_preserve_state");
    reveal_strlit("resume_models_restore_state");
    reveal_strlit("start_node_selection_and_allocation");
    reveal_strlit("pull_container_images_mount_volumes");
    reveal_strlit("update_state_start_readiness_checks");
    reveal_strlit("log_completion_clean_up_resources");
    reveal_strlit("set_backoff_timer_collect_logs");
    reveal_strlit("attempt_diagnostics_restore_communication");
    reveal_strlit("resume_monitoring_reset_counter");
    reveal_strlit("log_error_notify_for_manual_intervention");
    reveal_strlit("synchronize_state_recover_if_needed");
    reveal_strlit("start_model_recreation");
    assert("start_condition_evaluation"@.len() == 26);
    assert("start_policy_verification"@.len() == 25);
    assert("execute_action_on_target_package"@.len() == 32);
    assert("log_denial_generate_alert"@.len() == 25);
    assert("start_model_creation_allocate_resources"@.len() == 39);
    assert("update_state_announce_availability"@.len() == 34);
    assert("log_warning_activate_partial_functionality"@.len() == 42);
    assert("log_error_attempt_recovery"@.len() == 26);
    assert("pause_models_preserve_state"@.len() == 27);
    assert("resume_models_restore_state"@.len() == 27);
    assert("start_node_selection_and_allocation"@.len() == 35);
    assert("pull_container_images_mount_volumes"@.len() == 35);
    assert("update_state_start_readiness_checks"@.len() == 35);
    assert("log_completion_clean_up_resources"@.len() == 33);
    assert("set_backoff_timer_collect_logs"@.len() == 30);
    assert("attempt_diagnostics_restore_communication"@.len() == 41);
    assert("resume_monitoring_reset_counter"@.len() == 31);
    assert("log_error_notify_for_manual_intervention"@.len() == 40);
    assert("synchronize_state_recover_if_needed"@.len() == 35);
    assert("start_model_recreation"@.len() == 22);
    assert("log_denial_generate_alert"@[0] == 'l');
    assert("start_policy_verification"@[0] == 's');
    assert("log_error_attempt_recovery"@[0] == 'l');
    assert("start_condition_evaluation"@[0] == 's');
    assert("resume_models_restore_state"@[0] == 'r');
    assert("pause_models_preserve_state"@[0] == 'p');
    assert("pull_container_images_mount_volumes"@[0] == 'p');
    assert("start_node_selection_and_allocation"@[0] == 's');
    assert("update_state_start_readiness_checks"@[0] == 'u');
    assert("synchronize_state_recover_if_needed"@[1] == 'y');
    assert("start_node_selection_and_allocation"@[1] == 't');
    assert("synchronize_state_recover_if_needed"@[0] == 's');
}

} // verus!
