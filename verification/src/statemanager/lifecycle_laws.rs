//! Which requests are followed, state by state.

use crate::messages::{
    ErrorCode, ModelState, PackageState, ResourceType, ScenarioState, StateChangeView,
};
use crate::statemanager::conditions::law_known_conditions;
use crate::statemanager::laws::{law_one_row_between_states, lemma_row_between};
use crate::statemanager::state_machine::{
    health_after, resource_key, response_to, state_before, step, MachineView,
};
use crate::statemanager::transitions::{
    inferred_event, model_table, package_table, requested_state_name, row_between, scenario_table,
    state_name, state_number, table, type_label,
};
use crate::statemanager::types::{HealthView, ResultView};
use crate::text::{decimal, is_blank};
use vstd::prelude::*;

verus! {

/// A request says what it is for, who asks and under which identifier, and asks for a change.
pub open spec fn is_valid_request(change: StateChangeView) -> bool {
    &&& !is_blank(change.resource_name)
    &&& !is_blank(change.transition_id)
    &&& !is_blank(change.source)
    &&& change.current_state != change.target_state
}

/// A request is turned away as not valid exactly when it does not say what it must.
pub proof fn law_invalid_requests(machine: MachineView, change: StateChangeView, now: u128)
    ensures
        step(machine, change, now).result.error_code == ErrorCode::InvalidRequest
            <==> !is_valid_request(change),
{
}

/// A valid request asks for a resource of this type to go from one state to another: from the
/// state that is on record, or where there is none, from the one that the request names. No
/// backoff timer runs for the resource, or it has run for thirty seconds.
pub open spec fn asks_for(
    machine: MachineView,
    change: StateChangeView,
    now: u128,
    resource_type: ResourceType,
    from: i32,
    to: i32,
) -> bool {
    let key = resource_key(resource_type, change.resource_name);
    &&& is_valid_request(change)
    &&& change.resource_type == resource_type.number()
    &&& if machine.resources.contains_key(key) {
        machine.resources[key].current_state == from
    } else {
        state_number(change.current_state, change.resource_type) == from
    }
    &&& state_number(change.target_state, change.resource_type) == to
    &&& machine.backoff_timers.contains_key(key) ==> now >= machine.backoff_timers[key]
        + 30_000_000_000
}

/// A request is granted, and asks for this action, on this event: the resource is in the state
/// that was asked for, and the answer says so.
pub open spec fn is_granted(
    machine: MachineView,
    change: StateChangeView,
    now: u128,
    event: Seq<char>,
    action: Seq<char>,
) -> bool {
    let done = step(machine, change, now);
    let to = state_number(change.target_state, change.resource_type);
    &&& done.result.error_code == ErrorCode::Success
    &&& done.result.new_state == to
    &&& done.result.actions_to_execute == seq![action]
    &&& match done.action {
        Some(command) => {
            &&& command.action == action
            &&& command.context.contains_key("event"@)
            &&& command.context["event"@] == event
            &&& done.machine.resources.contains_key(command.resource_key)
            &&& done.machine.resources[command.resource_key].current_state == to
            &&& command.resource_key == resource_key(command.resource_type, change.resource_name)
            &&& command.resource_type.number() == change.resource_type
        },
        None => false,
    }
}

/// There is a way to the state that was asked for, but its condition is not met: nothing
/// happens.
pub open spec fn is_blocked(machine: MachineView, change: StateChangeView, now: u128) -> bool {
    let done = step(machine, change, now);
    &&& done.result.error_code == ErrorCode::PreconditionFailed
    &&& done.action is None
    &&& done.machine == machine
}

/// There is no way to the state that was asked for.
pub open spec fn is_refused(machine: MachineView, change: StateChangeView, now: u128) -> bool {
    let done = step(machine, change, now);
    &&& done.result.error_code == ErrorCode::InvalidStateTransition
    &&& done.action is None
}

proof fn lemma_row_is(resource_type: ResourceType, at: int)
    requires
        0 <= at < table(resource_type).len(),
    ensures
        row_between(
            table(resource_type),
            table(resource_type)[at].from_state,
            table(resource_type)[at].to_state,
        ) == Some(table(resource_type)[at]),
{
    let rows = table(resource_type);
    lemma_row_between(rows, rows[at].from_state, rows[at].to_state);
    if let Some(found) = row_between(rows, rows[at].from_state, rows[at].to_state) {
        let place = choose|i: int| 0 <= i < rows.len() && rows[i] == found;
        if place < at {
            law_one_row_between_states(resource_type, place, at);
        }
        if at < place {
            law_one_row_between_states(resource_type, at, place);
        }
    }
}

proof fn lemma_event_key()
    ensures
        "event"@ != "resource_name"@,
        "event"@ != "source"@,
        "event"@ != "timestamp_ns"@,
{
    reveal_strlit("event");
    reveal_strlit("resource_name");
    reveal_strlit("source");
    reveal_strlit("timestamp_ns");
    assert("event"@.len() == 5);
    assert("resource_name"@.len() == 13);
    assert("source"@.len() == 6);
    assert("timestamp_ns"@.len() == 12);
}

/// Which requests a scenario follows, by the state that it is in and the state that is asked
/// for, with the event and the action of each. It follows no other.
pub proof fn law_scenario_lifecycle(
    machine: MachineView,
    change: StateChangeView,
    now: u128,
    from: ScenarioState,
    to: ScenarioState,
)
    requires
        asks_for(machine, change, now, ResourceType::Scenario, from.number(), to.number()),
    ensures
        match (from, to) {
            (ScenarioState::Idle, ScenarioState::Waiting) => is_granted(
                machine,
                change,
                now,
                "scenario_activation"@,
                "start_condition_evaluation"@,
            ),
            (ScenarioState::Waiting, ScenarioState::Allowed) => is_granted(
                machine,
                change,
                now,
                "condition_met"@,
                "start_policy_verification"@,
            ),
            (ScenarioState::Allowed, ScenarioState::Playing) => is_granted(
                machine,
                change,
                now,
                "policy_verification_success"@,
                "execute_action_on_target_package"@,
            ),
            (ScenarioState::Allowed, ScenarioState::Denied) => is_granted(
                machine,
                change,
                now,
                "policy_verification_failure"@,
                "log_denial_generate_alert"@,
            ),
            (ScenarioState::Waiting, ScenarioState::Satisfied) => is_granted(
                machine,
                change,
                now,
                "condition_met"@,
                "start_policy_verification"@,
            ),
            (ScenarioState::Satisfied, ScenarioState::Allowed) => is_granted(
                machine,
                change,
                now,
                "policy_verification_success"@,
                "execute_action_on_target_package"@,
            ),
            (ScenarioState::Satisfied, ScenarioState::Denied) => is_granted(
                machine,
                change,
                now,
                "policy_verification_failure"@,
                "log_denial_generate_alert"@,
            ),
            (ScenarioState::Allowed, ScenarioState::Completed) => is_granted(
                machine,
                change,
                now,
                "scenario_complete"@,
                "log_completion_clean_up_resources"@,
            ),
            (ScenarioState::Playing, ScenarioState::Completed) => is_granted(
                machine,
                change,
                now,
                "scenario_complete"@,
                "log_completion_clean_up_resources"@,
            ),
            (ScenarioState::Denied, ScenarioState::Completed) => is_granted(
                machine,
                change,
                now,
                "scenario_complete"@,
                "log_completion_clean_up_resources"@,
            ),
            _ => is_refused(machine, change, now),
        },
{
    law_known_conditions();
    lemma_event_key();
    match (from, to) {
        (ScenarioState::Idle, ScenarioState::Waiting) => {
            lemma_row_is(ResourceType::Scenario, 0);
        },
        (ScenarioState::Waiting, ScenarioState::Allowed) => {
            lemma_row_is(ResourceType::Scenario, 1);
        },
        (ScenarioState::Allowed, ScenarioState::Playing) => {
            lemma_row_is(ResourceType::Scenario, 2);
        },
        (ScenarioState::Allowed, ScenarioState::Denied) => {
            lemma_row_is(ResourceType::Scenario, 3);
        },
        (ScenarioState::Waiting, ScenarioState::Satisfied) => {
            lemma_row_is(ResourceType::Scenario, 4);
        },
        (ScenarioState::Satisfied, ScenarioState::Allowed) => {
            lemma_row_is(ResourceType::Scenario, 5);
        },
        (ScenarioState::Satisfied, ScenarioState::Denied) => {
            lemma_row_is(ResourceType::Scenario, 6);
        },
        (ScenarioState::Allowed, ScenarioState::Completed) => {
            lemma_row_is(ResourceType::Scenario, 7);
        },
        (ScenarioState::Playing, ScenarioState::Completed) => {
            lemma_row_is(ResourceType::Scenario, 8);
        },
        (ScenarioState::Denied, ScenarioState::Completed) => {
            lemma_row_is(ResourceType::Scenario, 9);
        },
            _ => {
                lemma_row_between(scenario_table(), from.number(), to.number());
                assert(scenario_table().len() == 10);
            },
    }
}

/// Which requests a package follows, by the state that it is in and the state that is asked
/// for, with the event and the action of each. Into `Error` it goes only from an update that
/// failed; what would take models to fail is blocked. It follows no other request.
pub proof fn law_package_lifecycle(
    machine: MachineView,
    change: StateChangeView,
    now: u128,
    from: PackageState,
    to: PackageState,
)
    requires
        asks_for(machine, change, now, ResourceType::Package, from.number(), to.number()),
    ensures
        match (from, to) {
            (PackageState::Unspecified, PackageState::Initializing) => is_granted(
                machine,
                change,
                now,
                "launch_request"@,
                "start_model_creation_allocate_resources"@,
            ),
            (PackageState::Initializing, PackageState::Running) => is_granted(
                machine,
                change,
                now,
                "initialization_complete"@,
                "update_state_announce_availability"@,
            ),
            (PackageState::Initializing, PackageState::Degraded) => is_granted(
                machine,
                change,
                now,
                "partial_initialization_failure"@,
                "log_warning_activate_partial_functionality"@,
            ),
            (PackageState::Initializing, PackageState::Error) => is_blocked(machine, change, now),
            (PackageState::Running, PackageState::Degraded) => is_granted(
                machine,
                change,
                now,
                "model_issue_detected"@,
                "log_warning_maintain_partial_functionality"@,
            ),
            (PackageState::Running, PackageState::Error) => is_blocked(machine, change, now),
            (PackageState::Running, PackageState::Paused) => is_granted(
                machine,
                change,
                now,
                "pause_request"@,
                "pause_models_preserve_state"@,
            ),
            (PackageState::Degraded, PackageState::Running) => is_granted(
                machine,
                change,
                now,
                "model_recovery"@,
                "update_state_restore_full_functionality"@,
            ),
            (PackageState::Degraded, PackageState::Error) => is_blocked(machine, change, now),
            (PackageState::Degraded, PackageState::Paused) => is_granted(
                machine,
                change,
                now,
                "pause_request"@,
                "pause_models_preserve_state"@,
            ),
            (PackageState::Error, PackageState::Running) => is_granted(
                machine,
                change,
                now,
                "recovery_successful"@,
                "update_state_announce_functionality_restoration"@,
            ),
            (PackageState::Paused, PackageState::Running) => is_granted(
                machine,
                change,
                now,
                "resume_request"@,
                "resume_models_restore_state"@,
            ),
            (PackageState::Running, PackageState::Updating) => is_granted(
                machine,
                change,
                now,
                "update_request"@,
                "start_update_process"@,
            ),
            (PackageState::Updating, PackageState::Running) => is_granted(
                machine,
                change,
                now,
                "update_successful"@,
                "activate_new_version_update_state"@,
            ),
            (PackageState::Updating, PackageState::Error) => is_granted(
                machine,
                change,
                now,
                "update_failed"@,
                "rollback_or_error_handling"@,
            ),
            _ => is_refused(machine, change, now),
        },
{
    law_known_conditions();
    lemma_event_key();
    match (from, to) {
        (PackageState::Unspecified, PackageState::Initializing) => {
            lemma_row_is(ResourceType::Package, 0);
        },
        (PackageState::Initializing, PackageState::Running) => {
            lemma_row_is(ResourceType::Package, 1);
        },
        (PackageState::Initializing, PackageState::Degraded) => {
            lemma_row_is(ResourceType::Package, 2);
        },
        (PackageState::Initializing, PackageState::Error) => {
            lemma_row_is(ResourceType::Package, 3);
        },
        (PackageState::Running, PackageState::Degraded) => {
            lemma_row_is(ResourceType::Package, 4);
        },
        (PackageState::Running, PackageState::Error) => {
            lemma_row_is(ResourceType::Package, 5);
        },
        (PackageState::Running, PackageState::Paused) => {
            lemma_row_is(ResourceType::Package, 6);
        },
        (PackageState::Degraded, PackageState::Running) => {
            lemma_row_is(ResourceType::Package, 7);
        },
        (PackageState::Degraded, PackageState::Error) => {
            lemma_row_is(ResourceType::Package, 8);
        },
        (PackageState::Degraded, PackageState::Paused) => {
            lemma_row_is(ResourceType::Package, 9);
        },
        (PackageState::Error, PackageState::Running) => {
            lemma_row_is(ResourceType::Package, 10);
        },
        (PackageState::Paused, PackageState::Running) => {
            lemma_row_is(ResourceType::Package, 11);
        },
        (PackageState::Running, PackageState::Updating) => {
            lemma_row_is(ResourceType::Package, 12);
        },
        (PackageState::Updating, PackageState::Running) => {
            lemma_row_is(ResourceType::Package, 13);
        },
        (PackageState::Updating, PackageState::Error) => {
            lemma_row_is(ResourceType::Package, 14);
        },
            _ => {
                lemma_row_between(package_table(), from.number(), to.number());
                assert(package_table().len() == 15);
            },
    }
}

/// Which requests a model follows, by the state that it is in and the state that is asked for,
/// with the event and the action of each. What would take something to go wrong is blocked. It
/// follows no other request.
pub proof fn law_model_lifecycle(
    machine: MachineView,
    change: StateChangeView,
    now: u128,
    from: ModelState,
    to: ModelState,
)
    requires
        asks_for(machine, change, now, ResourceType::Model, from.number(), to.number()),
    ensures
        match (from, to) {
            (ModelState::Unspecified, ModelState::Pending) => is_granted(
                machine,
                change,
                now,
                "creation_request"@,
                "start_node_selection_and_allocation"@,
            ),
            (ModelState::Pending, ModelState::ContainerCreating) => is_granted(
                machine,
                change,
                now,
                "node_allocation_complete"@,
                "pull_container_images_mount_volumes"@,
            ),
            (ModelState::Pending, ModelState::Failed) => is_blocked(machine, change, now),
            (ModelState::ContainerCreating, ModelState::Running) => is_granted(
                machine,
                change,
                now,
                "container_creation_complete"@,
                "update_state_start_readiness_checks"@,
            ),
            (ModelState::ContainerCreating, ModelState::Failed) => is_granted(
                machine,
                change,
                now,
                "container_creation_failed"@,
                "log_error_retry_or_reschedule"@,
            ),
            (ModelState::Running, ModelState::Succeeded) => is_granted(
                machine,
                change,
                now,
                "temporary_task_complete"@,
                "log_completion_clean_up_resources"@,
            ),
            (ModelState::Running, ModelState::Failed) => is_blocked(machine, change, now),
            (ModelState::Running, ModelState::CrashLoopBackOff) => is_blocked(machine, change, now),
            (ModelState::Running, ModelState::Unknown) => is_blocked(machine, change, now),
            (ModelState::CrashLoopBackOff, ModelState::Running) => is_granted(
                machine,
                change,
                now,
                "backoff_time_elapsed"@,
                "resume_monitoring_reset_counter"@,
            ),
            (ModelState::CrashLoopBackOff, ModelState::Failed) => is_blocked(machine, change, now),
            (ModelState::Unknown, ModelState::Running) => is_granted(
                machine,
                change,
                now,
                "state_check_recovered"@,
                "synchronize_state_recover_if_needed"@,
            ),
            (ModelState::Failed, ModelState::Pending) => is_granted(
                machine,
                change,
                now,
                "manual_automatic_recovery"@,
                "start_model_recreation"@,
            ),
            _ => is_refused(machine, change, now),
        },
{
    law_known_conditions();
    lemma_event_key();
    match (from, to) {
        (ModelState::Unspecified, ModelState::Pending) => {
            lemma_row_is(ResourceType::Model, 0);
        },
        (ModelState::Pending, ModelState::ContainerCreating) => {
            lemma_row_is(ResourceType::Model, 1);
        },
        (ModelState::Pending, ModelState::Failed) => {
            lemma_row_is(ResourceType::Model, 2);
        },
        (ModelState::ContainerCreating, ModelState::Running) => {
            lemma_row_is(ResourceType::Model, 3);
        },
        (ModelState::ContainerCreating, ModelState::Failed) => {
            lemma_row_is(ResourceType::Model, 4);
        },
        (ModelState::Running, ModelState::Succeeded) => {
            lemma_row_is(ResourceType::Model, 5);
        },
        (ModelState::Running, ModelState::Failed) => {
            lemma_row_is(ResourceType::Model, 6);
        },
        (ModelState::Running, ModelState::CrashLoopBackOff) => {
            lemma_row_is(ResourceType::Model, 7);
        },
        (ModelState::Running, ModelState::Unknown) => {
            lemma_row_is(ResourceType::Model, 8);
        },
        (ModelState::CrashLoopBackOff, ModelState::Running) => {
            lemma_row_is(ResourceType::Model, 9);
        },
        (ModelState::CrashLoopBackOff, ModelState::Failed) => {
            lemma_row_is(ResourceType::Model, 10);
        },
        (ModelState::Unknown, ModelState::Running) => {
            lemma_row_is(ResourceType::Model, 11);
        },
        (ModelState::Failed, ModelState::Pending) => {
            lemma_row_is(ResourceType::Model, 12);
        },
            _ => {
                lemma_row_between(model_table(), from.number(), to.number());
                assert(model_table().len() == 13);
            },
    }
}

/// A request for a resource of a type that has no states is refused.
pub proof fn law_other_types_are_refused(
    machine: MachineView,
    change: StateChangeView,
    now: u128,
    resource_type: ResourceType,
)
    requires
        is_valid_request(change),
        change.resource_type == resource_type.number(),
        resource_type != ResourceType::Scenario,
        resource_type != ResourceType::Package,
        resource_type != ResourceType::Model,
        !machine.backoff_timers.contains_key(resource_key(resource_type, change.resource_name)),
    ensures
        is_refused(machine, change, now),
{
}

/// A model that has crashed again and again stays as it is for thirty seconds: whatever is asked
/// for, the request fails and nothing changes.
pub proof fn law_backoff_takes_thirty_seconds(
    machine: MachineView,
    change: StateChangeView,
    now: u128,
)
    requires
        is_valid_request(change),
        change.resource_type == ResourceType::Model.number(),
        ({
            let key = resource_key(ResourceType::Model, change.resource_name);
            &&& machine.resources.contains_key(key)
            &&& machine.resources[key].current_state == ModelState::CrashLoopBackOff.number()
            &&& machine.backoff_timers.contains_key(key)
            &&& now < machine.backoff_timers[key] + 30_000_000_000
        }),
    ensures
        is_blocked(machine, change, now),
{
}

/// After a granted request no backoff timer runs for the resource.
pub proof fn law_grant_ends_backoff(
    machine: MachineView,
    change: StateChangeView,
    now: u128,
    resource_type: ResourceType,
)
    requires
        change.resource_type == resource_type.number(),
        step(machine, change, now).result.error_code == ErrorCode::Success,
    ensures
        !step(machine, change, now).machine.backoff_timers.contains_key(
            resource_key(resource_type, change.resource_name),
        ),
{
    let from = state_before(machine, change, resource_type);
    let to = state_number(change.target_state, change.resource_type);
    law_known_conditions();
    lemma_row_between(table(resource_type), from, to);
    assert(model_table().len() == 13);
}

/// The event that brings a resource from one state to another is the one with which a request
/// for it is granted.
pub proof fn law_inferred_event_is_that_of_the_request(
    machine: MachineView,
    change: StateChangeView,
    now: u128,
    resource_type: ResourceType,
    from: i32,
    to: i32,
)
    requires
        asks_for(machine, change, now, resource_type, from, to),
        step(machine, change, now).action is Some,
    ensures
        step(machine, change, now).action->0.context["event"@] == inferred_event(
            from,
            to,
            resource_type,
        ),
{
    lemma_event_key();
}

// ---------------------------------------------------------------------------
// What is put down, and what is said
// ---------------------------------------------------------------------------

/// A failure adds one to the failures in a row, is the status from then on, and makes a resource
/// unhealthy when it is the third or a later one; an unhealthy resource stays so. A success sets all
/// that right. Either is put down with its time.
pub proof fn law_health_is_noted(health: HealthView, result: ResultView, now: u128)
    ensures
        ({
            let after = health_after(health, result, now);
            &&& after.last_check == now
            &&& result.error_code == ErrorCode::Success ==> {
                &&& after.healthy
                &&& after.consecutive_failures == 0
                &&& after.status_message == "Healthy"@
            }
            &&& result.error_code != ErrorCode::Success ==> {
                &&& after.consecutive_failures == health.consecutive_failures + 1
                &&& after.status_message == result.message
                &&& after.healthy <==> health.healthy && health.consecutive_failures < 2
            }
        }),
{
}

/// A resource that is granted its first request is put down with the state that was asked for as the
/// one that is wished for. One that was known keeps its wish, and its other notes.
pub proof fn law_granted_record_in_full(
    machine: MachineView,
    change: StateChangeView,
    resource_type: ResourceType,
    now: u128,
)
    requires
        change.resource_type == resource_type.number(),
        step(machine, change, now).result.error_code == ErrorCode::Success,
    ensures
        ({
            let key = resource_key(resource_type, change.resource_name);
            let after = step(machine, change, now).machine.resources[key];
            let known = machine.resources.contains_key(key);
            &&& after.desired_state == if known {
                machine.resources[key].desired_state
            } else {
                Some(state_number(change.target_state, change.resource_type))
            }
            &&& after.resource_name == if known {
                machine.resources[key].resource_name
            } else {
                change.resource_name
            }
            &&& after.resource_type == if known {
                machine.resources[key].resource_type
            } else {
                resource_type
            }
            &&& after.health_status.last_check == now
            &&& after.health_status.status_message == "Healthy"@
            &&& forall|note: Seq<char>|
                note != "last_transition_id"@ && note != "source"@ ==> (
                #[trigger] after.metadata.contains_key(note) <==> known
                    && machine.resources[key].metadata.contains_key(note))
            &&& forall|note: Seq<char>|
                note != "last_transition_id"@ && note != "source"@
                    && #[trigger] after.metadata.contains_key(note) ==> after.metadata[note]
                    == machine.resources[key].metadata[note]
            &&& after.metadata.contains_key("last_transition_id"@)
            &&& after.metadata.contains_key("source"@)
        }),
{
}

/// A granted request is answered with the name of the new state, without a reason for a refusal.
pub proof fn law_what_a_grant_says(
    machine: MachineView,
    change: StateChangeView,
    resource_type: ResourceType,
    now: u128,
)
    requires
        change.resource_type == resource_type.number(),
        step(machine, change, now).result.error_code == ErrorCode::Success,
    ensures
        ({
            let result = step(machine, change, now).result;
            &&& result.message == "Successfully transitioned to "@ + state_name(
                resource_type,
                result.new_state,
            )
            &&& result.error_details.len() == 0
        }),
{
}

/// The action of a granted request is told from which state to which the resource goes, its name, and
/// the time stamp and source of the request.
pub proof fn law_what_an_action_is_told(
    machine: MachineView,
    change: StateChangeView,
    now: u128,
    resource_type: ResourceType,
    from: i32,
    to: i32,
)
    requires
        asks_for(machine, change, now, resource_type, from, to),
        step(machine, change, now).action is Some,
    ensures
        ({
            let context = step(machine, change, now).action->0.context;
            &&& context.contains_key("from_state"@)
            &&& context["from_state"@] == state_name(resource_type, from)
            &&& context.contains_key("to_state"@)
            &&& context["to_state"@] == state_name(resource_type, to)
            &&& context.contains_key("resource_name"@)
            &&& context["resource_name"@] == change.resource_name
            &&& context.contains_key("source"@)
            &&& context["source"@] == change.source
            &&& context.contains_key("timestamp_ns"@)
            &&& context["timestamp_ns"@] == decimal(change.timestamp_ns as int)
        }),
{
    reveal_strlit("from_state");
    reveal_strlit("to_state");
    reveal_strlit("event");
    reveal_strlit("resource_name");
    reveal_strlit("source");
    reveal_strlit("timestamp_ns");
    assert("from_state"@.len() == 10);
    assert("to_state"@.len() == 8);
    assert("event"@.len() == 5);
    assert("resource_name"@.len() == 13);
    assert("source"@.len() == 6);
    assert("timestamp_ns"@.len() == 12);
    lemma_row_between(table(resource_type), from, to);
}

/// A request that is not valid is told the first thing that is wrong with it.
pub proof fn law_what_is_said_of_invalid_requests(
    machine: MachineView,
    change: StateChangeView,
    now: u128,
)
    requires
        !is_valid_request(change),
    ensures
        ({
            let result = step(machine, change, now).result;
            &&& result.error_details == if is_blank(change.resource_name) {
                "Resource name cannot be empty"@
            } else if is_blank(change.transition_id) {
                "Transition ID cannot be empty"@
            } else if change.current_state == change.target_state {
                "Current and target states cannot be the same"@
            } else {
                "Source cannot be empty"@
            }
            &&& result.message == "Invalid state change request: "@ + result.error_details
            &&& result.new_state == state_number(change.current_state, change.resource_type)
            &&& step(machine, change, now).machine == machine
        }),
{
}

/// A request for which there is no way is told from which state to which there is none.
pub proof fn law_what_is_said_of_refused_requests(
    machine: MachineView,
    change: StateChangeView,
    now: u128,
    resource_type: ResourceType,
    from: i32,
    to: i32,
)
    requires
        asks_for(machine, change, now, resource_type, from, to),
        is_refused(machine, change, now),
    ensures
        ({
            let result = step(machine, change, now).result;
            let a = state_name(resource_type, from);
            let b = requested_state_name(resource_type, change.target_state);
            &&& result.message == "No valid transition from "@ + a + " to "@ + b
                + " for resource type "@ + type_label(resource_type)
            &&& result.error_details == "Invalid state transition attempted: "@ + a + " -> "@ + b
            &&& result.new_state == from
        }),
{
}

/// A response repeats what a request was answered, with the time that it is given at.
pub proof fn law_response_repeats_answer(result: ResultView, timestamp_ns: i64)
    ensures
        ({
            let response = response_to(result, timestamp_ns);
            &&& response.message == result.message
            &&& response.transition_id == result.transition_id
            &&& response.error_details == result.error_details
            &&& response.timestamp_ns == timestamp_ns
            &&& ErrorCode::numbered(response.error_code) == Some(result.error_code)
        }),
{
}

} // verus!
