//! What holds of the state machine whatever it is asked to do.

use crate::grouping::{law_distinct_names, lemma_contains_push, lemma_no_duplicates_push};
use crate::messages::{
    ContainerView, ErrorCode, ModelState, PackageState, ResourceType, ScenarioState,
    StateChangeView,
};
use crate::statemanager::conditions::condition_holds;
use crate::statemanager::model_state::{
    container_state, is_dead, model_of_container, models_of_containers, overall_state,
    states_of_model,
};
use crate::statemanager::state_machine::{
    current_model_state, health_after, in_backoff, invalid_reason, lemma_step_models_frame,
    models_named, resource_key, response_to, state_before, step, step_containers, step_models,
    MachineView, MAX_CONSECUTIVE_FAILURES,
};
use crate::statemanager::transitions::{
    model_table, package_table, row_between, scenario_table, state_number, table, type_label,
};
use crate::statemanager::types::{HealthView, ResourceView, ResultView, TransitionView};
use vstd::prelude::*;

verus! {

// ---------------------------------------------------------------------------
// Which requests are granted
// ---------------------------------------------------------------------------

/// A row leads from the state that the resource is in to the state that a request asks for.
pub open spec fn row_is_asked_for(
    machine: MachineView,
    change: StateChangeView,
    resource_type: ResourceType,
    row: TransitionView,
) -> bool {
    &&& row.from_state == state_before(machine, change, resource_type)
    &&& row.to_state == state_number(change.target_state, change.resource_type)
}

/// A row has no condition, or its condition holds.
pub open spec fn row_is_open(row: TransitionView) -> bool {
    match row.condition {
        Some(condition) => condition_holds(condition),
        None => true,
    }
}

/// A request is granted exactly when it is valid, its resource is of a known type and not
/// backing off, and some row of the table leads where it asks to go and has no condition, or
/// one that holds.
pub proof fn law_granted_iff(machine: MachineView, change: StateChangeView, now: u128)
    ensures
        step(machine, change, now).result.error_code == ErrorCode::Success <==> {
            &&& invalid_reason(change) is None
            &&& match ResourceType::numbered(change.resource_type) {
                Some(resource_type) => {
                    &&& !in_backoff(
                        machine,
                        resource_key(resource_type, change.resource_name),
                        state_before(machine, change, resource_type),
                        now,
                    )
                    &&& exists|i: int|
                        0 <= i < table(resource_type).len() && row_is_asked_for(
                            machine,
                            change,
                            resource_type,
                            #[trigger] table(resource_type)[i],
                        ) && row_is_open(table(resource_type)[i])
                },
                None => false,
            }
        },
{
    if let Some(resource_type) = ResourceType::numbered(change.resource_type) {
        let rows = table(resource_type);
        let from = state_before(machine, change, resource_type);
        let to = state_number(change.target_state, change.resource_type);
        lemma_row_between(rows, from, to);
        if let Some(row) = row_between(rows, from, to) {
            let place = choose|i: int| 0 <= i < rows.len() && rows[i] == row;
            assert(rows[place] == row);
            assert forall|i: int|
                0 <= i < rows.len() && row_is_asked_for(
                    machine,
                    change,
                    resource_type,
                    #[trigger] rows[i],
                ) implies rows[i] == row by {
                if i < place {
                    law_one_row_between_states(resource_type, i, place);
                }
                if place < i {
                    law_one_row_between_states(resource_type, place, i);
                }
            }
        }
    }
}

/// Every answer carries the identifier of its request.
pub proof fn law_answer_names_request(machine: MachineView, change: StateChangeView, now: u128)
    ensures
        step(machine, change, now).result.transition_id == change.transition_id,
{
}

/// A granted request asks for one action, the one that the answer lists, on its resource and
/// with its identifier and source; a refused one asks for none.
pub proof fn law_action_iff_granted(machine: MachineView, change: StateChangeView, now: u128)
    ensures
        match step(machine, change, now).action {
            Some(command) => {
                &&& step(machine, change, now).result.error_code == ErrorCode::Success
                &&& step(machine, change, now).result.actions_to_execute == seq![command.action]
                &&& ResourceType::numbered(change.resource_type) == Some(command.resource_type)
                &&& command.resource_key == resource_key(
                    command.resource_type,
                    change.resource_name,
                )
                &&& command.transition_id == change.transition_id
                &&& command.context.contains_key("source"@)
                &&& command.context["source"@] == change.source
            },
            None => {
                &&& step(machine, change, now).result.error_code != ErrorCode::Success
                &&& step(machine, change, now).result.actions_to_execute.len() == 0
            },
        },
{
    reveal_strlit("source");
    reveal_strlit("timestamp_ns");
    assert("source"@.len() != "timestamp_ns"@.len());
}

/// No reason for a refusal begins with nothing.
proof fn lemma_details_say_something()
    ensures
        "Resource name cannot be empty"@.len() > 0,
        "Transition ID cannot be empty"@.len() > 0,
        "Current and target states cannot be the same"@.len() > 0,
        "Source cannot be empty"@.len() > 0,
        "Backoff timer has not elapsed yet"@.len() > 0,
        "Failed condition evaluation: "@.len() > 0,
        "Invalid state transition attempted: "@.len() > 0,
        "Unsupported resource type ID: "@.len() > 0,
{
    reveal_strlit("Resource name cannot be empty");
    reveal_strlit("Transition ID cannot be empty");
    reveal_strlit("Current and target states cannot be the same");
    reveal_strlit("Source cannot be empty");
    reveal_strlit("Backoff timer has not elapsed yet");
    reveal_strlit("Failed condition evaluation: ");
    reveal_strlit("Invalid state transition attempted: ");
    reveal_strlit("Unsupported resource type ID: ");
}

/// Two records of a resource differ in its health at most.
pub open spec fn same_but_for_health(a: ResourceView, b: ResourceView) -> bool {
    (ResourceView { health_status: b.health_status, ..a }) == b
}

/// A refused request leaves every resource in its state: none comes or goes, and nothing of
/// one changes but its health. No backoff timer starts or ends. The answer asks for no action,
/// says in words why the request was refused, and names the state that the resource is in,
/// unless the request was not valid.
pub proof fn law_refused_leaves_states(machine: MachineView, change: StateChangeView, now: u128)
    requires
        step(machine, change, now).result.error_code != ErrorCode::Success,
    ensures
        step(machine, change, now).machine.resources.dom() == machine.resources.dom(),
        forall|key: Seq<char>| #[trigger]
            machine.resources.contains_key(key) ==> same_but_for_health(
                machine.resources[key],
                step(machine, change, now).machine.resources[key],
            ),
        step(machine, change, now).machine.backoff_timers == machine.backoff_timers,
        step(machine, change, now).result.actions_to_execute.len() == 0,
        step(machine, change, now).result.transition_id == change.transition_id,
        step(machine, change, now).result.error_details.len() > 0,
        step(machine, change, now).result.error_code != ErrorCode::InvalidRequest ==> step(
            machine,
            change,
            now,
        ).result.new_state == match ResourceType::numbered(change.resource_type) {
            Some(resource_type) => state_before(machine, change, resource_type),
            None => state_number(change.current_state, change.resource_type),
        },
{
    assert(step(machine, change, now).machine.resources.dom() =~= machine.resources.dom());
    lemma_details_say_something();
}

/// A refused request changes the health of a resource only where it asks for a transition
/// that the resource cannot take, and then only that of the resource it is for.
pub proof fn law_refused_counts_against_its_resource(
    machine: MachineView,
    change: StateChangeView,
    now: u128,
    key: Seq<char>,
)
    requires
        step(machine, change, now).result.error_code != ErrorCode::Success,
        machine.resources.contains_key(key),
    ensures
        step(machine, change, now).machine.resources[key].health_status
            == if invalid_reason(change) is None && step(machine, change, now).result.error_code
            == ErrorCode::InvalidStateTransition && (match ResourceType::numbered(
            change.resource_type,
        ) {
            Some(resource_type) => key == resource_key(resource_type, change.resource_name),
            None => false,
        }) {
            health_after(
                machine.resources[key].health_status,
                step(machine, change, now).result,
                now,
            )
        } else {
            machine.resources[key].health_status
        },
{
}

/// A request that is not valid, or whose precondition fails, changes nothing at all.
pub proof fn law_rejected_changes_nothing(machine: MachineView, change: StateChangeView, now: u128)
    requires
        ({
            let code = step(machine, change, now).result.error_code;
            code == ErrorCode::InvalidRequest || code == ErrorCode::PreconditionFailed
        }),
    ensures
        step(machine, change, now).machine == machine,
{
}

/// The answer to a valid request that is refused names the state that the resource is in, and
/// stays in.
pub proof fn law_refusal_names_state(
    machine: MachineView,
    change: StateChangeView,
    resource_type: ResourceType,
    now: u128,
)
    requires
        invalid_reason(change) is None,
        ResourceType::numbered(change.resource_type) == Some(resource_type),
        step(machine, change, now).result.error_code != ErrorCode::Success,
    ensures
        step(machine, change, now).result.new_state == state_before(machine, change, resource_type),
        state_before(step(machine, change, now).machine, change, resource_type) == state_before(
            machine,
            change,
            resource_type,
        ),
{
}

/// A response says by the number zero, and by no other, that its request was granted.
pub proof fn law_response_tells_success(result: ResultView, timestamp_ns: i64)
    ensures
        response_to(result, timestamp_ns).error_code == 0 <==> result.error_code
            == ErrorCode::Success,
        response_to(result, timestamp_ns).transition_id == result.transition_id,
{
}

/// A request changes nothing of any resource but its own.
pub proof fn law_other_resources_untouched(
    machine: MachineView,
    change: StateChangeView,
    now: u128,
    key: Seq<char>,
)
    requires
        match ResourceType::numbered(change.resource_type) {
            Some(resource_type) => key != resource_key(resource_type, change.resource_name),
            None => true,
        },
    ensures
        step(machine, change, now).machine.resources.contains_key(key)
            == machine.resources.contains_key(key),
        machine.resources.contains_key(key) ==> step(machine, change, now).machine.resources[key]
            == machine.resources[key],
        step(machine, change, now).machine.backoff_timers.contains_key(key)
            == machine.backoff_timers.contains_key(key),
        machine.backoff_timers.contains_key(key) ==> step(
            machine,
            change,
            now,
        ).machine.backoff_timers[key] == machine.backoff_timers[key],
{
}

/// After a granted request the resource is found under its type and name, in the state that
/// was asked for, which the answer names; it is on record who asked, under which identifier, and when; and its transitions
/// are counted. Every other resource is as it was.
pub proof fn law_granted_is_recorded(
    machine: MachineView,
    change: StateChangeView,
    resource_type: ResourceType,
    now: u128,
)
    requires
        is_sound(machine),
        step(machine, change, now).result.error_code == ErrorCode::Success,
        ResourceType::numbered(change.resource_type) == Some(resource_type),
    ensures
        ({
            let key = resource_key(resource_type, change.resource_name);
            let after = step(machine, change, now);
            let resource = after.machine.resources[key];
            &&& after.machine.resources.contains_key(key)
            &&& resource.resource_type == resource_type
            &&& resource.resource_name == change.resource_name
            &&& after.result.transition_id == change.transition_id
            &&& resource.current_state == state_number(change.target_state, change.resource_type)
            &&& resource.current_state == after.result.new_state
            &&& resource.last_transition_time == now
            &&& resource.metadata["last_transition_id"@] == change.transition_id
            &&& resource.metadata["source"@] == change.source
            &&& resource.transition_count == if machine.resources.contains_key(key) {
                machine.resources[key].transition_count + 1
            } else {
                1
            }
            &&& resource.health_status.healthy
            &&& resource.health_status.consecutive_failures == 0
            &&& forall|other: Seq<char>|
                other != key ==> after.machine.resources.contains_key(other)
                    == #[trigger] machine.resources.contains_key(other)
            &&& forall|other: Seq<char>|
                other != key && #[trigger] machine.resources.contains_key(other)
                    ==> after.machine.resources[other] == machine.resources[other]
        }),
{
    lemma_row_between(
        table(resource_type),
        state_before(machine, change, resource_type),
        state_number(change.target_state, change.resource_type),
    );
    law_requests_keep_invariants(machine, change, now);
    law_resource_under_its_key(
        step(machine, change, now).machine,
        resource_type,
        change.resource_name,
    );
    reveal_strlit("last_transition_id");
    reveal_strlit("source");
    assert("last_transition_id"@.len() != "source"@.len());
}

/// A request starts from where the last granted one for its resource ended, whatever state
/// it claims to start from.
pub proof fn law_requests_chain(
    machine: MachineView,
    first: StateChangeView,
    second: StateChangeView,
    resource_type: ResourceType,
    now: u128,
)
    requires
        step(machine, first, now).result.error_code == ErrorCode::Success,
        ResourceType::numbered(first.resource_type) == Some(resource_type),
        second.resource_name == first.resource_name,
    ensures
        state_before(step(machine, first, now).machine, second, resource_type) == step(
            machine,
            first,
            now,
        ).result.new_state,
{
}

/// A resource that backs off stays as it is until the time is over.
pub proof fn law_backoff_holds(
    machine: MachineView,
    change: StateChangeView,
    resource_type: ResourceType,
    now: u128,
)
    requires
        invalid_reason(change) is None,
        ResourceType::numbered(change.resource_type) == Some(resource_type),
        in_backoff(
            machine,
            resource_key(resource_type, change.resource_name),
            state_before(machine, change, resource_type),
            now,
        ),
    ensures
        step(machine, change, now).result.error_code == ErrorCode::PreconditionFailed,
        step(machine, change, now).machine == machine,
{
}

/// What `row_between` finds is a row of the table with these two states; where it finds none,
/// there is none.
pub proof fn lemma_row_between(rows: Seq<TransitionView>, from_state: i32, to_state: i32)
    ensures
        match row_between(rows, from_state, to_state) {
            Some(row) => {
                &&& rows.contains(row)
                &&& row.from_state == from_state
                &&& row.to_state == to_state
            },
            None => forall|i: int|
                0 <= i < rows.len() ==> (#[trigger] rows[i]).from_state != from_state
                    || rows[i].to_state != to_state,
        },
    decreases rows.len(),
{
    if rows.len() > 0 {
        if rows[0].from_state == from_state && rows[0].to_state == to_state {
            assert(rows.contains(rows[0]));
        } else {
            let rest = rows.drop_first();
            lemma_row_between(rest, from_state, to_state);
            assert forall|i: int|
                row_between(rest, from_state, to_state) is None && 0 <= i
                    < rows.len() implies (#[trigger] rows[i]).from_state != from_state
                || rows[i].to_state != to_state by {
                if i > 0 {
                    assert(rest[i - 1] == rows[i]);
                }
            }
            if let Some(row) = row_between(rest, from_state, to_state) {
                let i = choose|i: int| 0 <= i < rest.len() && rest[i] == row;
                assert(rows[i + 1] == row);
            }
        }
    }
}

/// No table has two rows between the same two states.
pub proof fn law_one_row_between_states(resource_type: ResourceType, i: int, j: int)
    requires
        0 <= i < j < table(resource_type).len(),
    ensures
        table(resource_type)[i].from_state != table(resource_type)[j].from_state || table(
            resource_type,
        )[i].to_state != table(resource_type)[j].to_state,
{
    assert(scenario_table().len() == 10);
    assert(package_table().len() == 15);
    assert(model_table().len() == 13);
}

// ---------------------------------------------------------------------------
// What stays true
// ---------------------------------------------------------------------------

/// Every resource counts as healthy as long as fewer than three requests in a row failed.
pub open spec fn health_is_counted(machine: MachineView) -> bool {
    forall|key: Seq<char>| #[trigger]
        machine.resources.contains_key(key) ==> machine.resources[key].health_status.healthy == (
        machine.resources[key].health_status.consecutive_failures < MAX_CONSECUTIVE_FAILURES)
}

/// No request makes health and the number of failures disagree.
pub proof fn law_health_is_counted(machine: MachineView, change: StateChangeView, now: u128)
    requires
        health_is_counted(machine),
    ensures
        health_is_counted(step(machine, change, now).machine),
{
}

/// Three failures in a row make a resource unhealthy, however it fared before.
pub proof fn law_three_failures_make_unhealthy(
    health: HealthView,
    first: ResultView,
    second: ResultView,
    third: ResultView,
    times: (u128, u128, u128),
)
    requires
        first.error_code != ErrorCode::Success,
        second.error_code != ErrorCode::Success,
        third.error_code != ErrorCode::Success,
    ensures
        !health_after(
            health_after(health_after(health, first, times.0), second, times.1),
            third,
            times.2,
        ).healthy,
{
}

/// A granted request makes a resource healthy, however it fared before.
pub proof fn law_success_makes_healthy(health: HealthView, result: ResultView, now: u128)
    requires
        result.error_code == ErrorCode::Success,
    ensures
        health_after(health, result, now).healthy,
        health_after(health, result, now).consecutive_failures == 0,
{
}

/// A number stands for a state of a resource of this type.
pub open spec fn is_state_of(resource_type: ResourceType, state: i32) -> bool {
    match resource_type {
        ResourceType::Scenario => ScenarioState::numbered(state) is Some,
        ResourceType::Package => PackageState::numbered(state) is Some,
        ResourceType::Model => ModelState::numbered(state) is Some,
        _ => false,
    }
}

/// Every resource is in a state that its type has.
pub open spec fn states_fit_types(machine: MachineView) -> bool {
    forall|key: Seq<char>| #[trigger]
        machine.resources.contains_key(key) ==> is_state_of(
            machine.resources[key].resource_type,
            machine.resources[key].current_state,
        )
}

/// Every resource is kept under the key of its type and name.
pub open spec fn keys_fit_resources(machine: MachineView) -> bool {
    forall|key: Seq<char>| #[trigger]
        machine.resources.contains_key(key) ==> key == resource_key(
            machine.resources[key].resource_type,
            machine.resources[key].resource_name,
        )
}

/// What holds of everything that a state machine tracks.
pub open spec fn is_sound(machine: MachineView) -> bool {
    &&& health_is_counted(machine)
    &&& states_fit_types(machine)
    &&& keys_fit_resources(machine)
}

/// What is kept under the key of a type and a name is the resource of that type and name.
pub proof fn law_resource_under_its_key(
    machine: MachineView,
    resource_type: ResourceType,
    name: Seq<char>,
)
    requires
        keys_fit_resources(machine),
        machine.resources.contains_key(resource_key(resource_type, name)),
    ensures
        machine.resources[resource_key(resource_type, name)].resource_type == resource_type,
        machine.resources[resource_key(resource_type, name)].resource_name == name,
{
    let resource = machine.resources[resource_key(resource_type, name)];
    law_resource_keys_differ(
        resource_type,
        name,
        resource.resource_type,
        resource.resource_name,
    );
}

/// Two resources have the same key only if they have the same type and the same name.
pub proof fn law_resource_keys_differ(
    type_a: ResourceType,
    name_a: Seq<char>,
    type_b: ResourceType,
    name_b: Seq<char>,
)
    requires
        resource_key(type_a, name_a) == resource_key(type_b, name_b),
    ensures
        type_a == type_b,
        name_a == name_b,
{
    let a = resource_key(type_a, name_a);
    let b = resource_key(type_b, name_b);
    let la = type_label(type_a);
    let lb = type_label(type_b);
    lemma_type_label(type_a);
    lemma_type_label(type_b);
    reveal_strlit("::");
    assert(a[la.len() as int] == ':');
    assert(b[lb.len() as int] == ':');
    if la.len() < lb.len() {
        assert(b[la.len() as int] == lb[la.len() as int]);
    }
    if lb.len() < la.len() {
        assert(a[lb.len() as int] == la[lb.len() as int]);
    }
    assert(la =~= a.take(la.len() as int));
    assert(lb =~= b.take(lb.len() as int));
    lemma_type_labels_differ(type_a, type_b);
    assert(name_a =~= a.skip(la.len() as int + 2));
    assert(name_b =~= b.skip(lb.len() as int + 2));
}

/// No label of a type holds a colon.
proof fn lemma_type_label(resource_type: ResourceType)
    ensures
        forall|i: int|
            0 <= i < type_label(resource_type).len() ==> #[trigger] type_label(resource_type)[i]
                != ':',
{
    reveal_strlit("Unspecified");
    reveal_strlit("Scenario");
    reveal_strlit("Package");
    reveal_strlit("Model");
    reveal_strlit("Volume");
    reveal_strlit("Network");
    reveal_strlit("Node");
}

/// Different types have different labels.
proof fn lemma_type_labels_differ(a: ResourceType, b: ResourceType)
    requires
        type_label(a) == type_label(b),
    ensures
        a == b,
{
    reveal_strlit("Unspecified");
    reveal_strlit("Scenario");
    reveal_strlit("Package");
    reveal_strlit("Model");
    reveal_strlit("Volume");
    reveal_strlit("Network");
    reveal_strlit("Node");
    assert("Unspecified"@.len() == 11);
    assert("Scenario"@.len() == 8);
    assert("Package"@.len() == 7);
    assert("Model"@.len() == 5);
    assert("Volume"@.len() == 6);
    assert("Network"@.len() == 7);
    assert("Node"@.len() == 4);
    assert("Package"@[0] == 'P');
    assert("Network"@[0] == 'N');
}

/// A state machine that tracks nothing yet is sound, and nothing in it backs off.
pub proof fn law_empty_machine(machine: MachineView)
    requires
        machine == (MachineView { resources: Map::empty(), backoff_timers: Map::empty() }),
    ensures
        is_sound(machine),
        nothing_backs_off(machine),
{
    assert(machine.backoff_timers.dom() =~= Set::<Seq<char>>::empty());
}

/// A request leaves every resource in a state that its type has, under the key of its type
/// and name, and with a health that agrees with the number of failures.
pub proof fn law_requests_keep_invariants(machine: MachineView, change: StateChangeView, now: u128)
    requires
        is_sound(machine),
    ensures
        is_sound(step(machine, change, now).machine),
{
    if let Some(resource_type) = ResourceType::numbered(change.resource_type) {
        let from = state_before(machine, change, resource_type);
        let to = state_number(change.target_state, change.resource_type);
        lemma_row_between(table(resource_type), from, to);
        if let Some(row) = row_between(table(resource_type), from, to) {
            assert(scenario_table().len() == 10);
            assert(package_table().len() == 15);
            assert(model_table().len() == 13);
            assert(is_state_of(resource_type, row.to_state));
        }
        let key = resource_key(resource_type, change.resource_name);
        if machine.resources.contains_key(key) {
            law_resource_under_its_key(machine, resource_type, change.resource_name);
        }
    }
}

/// No model is in `CrashLoopBackOff`, and no backoff timer runs.
pub open spec fn nothing_backs_off(machine: MachineView) -> bool {
    &&& machine.backoff_timers.dom() == Set::<Seq<char>>::empty()
    &&& forall|key: Seq<char>| #[trigger]
        machine.resources.contains_key(key) && machine.resources[key].resource_type
            == ResourceType::Model ==> machine.resources[key].current_state
            != ModelState::CrashLoopBackOff.number()
}

/// The condition for `CrashLoopBackOff` never holds, so that no request leads there.
pub proof fn law_nothing_backs_off(machine: MachineView, change: StateChangeView, now: u128)
    requires
        is_sound(machine),
        nothing_backs_off(machine),
    ensures
        nothing_backs_off(step(machine, change, now).machine),
{
    let after = step(machine, change, now).machine;
    if let Some(resource_type) = ResourceType::numbered(change.resource_type) {
        let from = state_before(machine, change, resource_type);
        let to = state_number(change.target_state, change.resource_type);
        lemma_row_between(table(resource_type), from, to);
        if let Some(row) = row_between(table(resource_type), from, to) {
            assert(model_table().len() == 13);
            if resource_type == ResourceType::Model && row.to_state
                == ModelState::CrashLoopBackOff.number() {
                assert(row.condition == Some("consecutive_restart_failures"@));
            }
        }
        let key = resource_key(resource_type, change.resource_name);
        if machine.resources.contains_key(key) {
            law_resource_under_its_key(machine, resource_type, change.resource_name);
        }
    }
    assert(after.backoff_timers.dom() =~= Set::<Seq<char>>::empty());
}

// ---------------------------------------------------------------------------
// Models and their containers
// ---------------------------------------------------------------------------

/// The state that a list of containers brings a model into.
pub open spec fn state_by_containers(
    containers: Seq<ContainerView>,
    model_name: Seq<char>,
) -> ModelState {
    overall_state(states_of_model(containers, model_name))
}

/// What a walk over some of the models does to each model.
proof fn lemma_step_models(
    machine: MachineView,
    containers: Seq<ContainerView>,
    names: Seq<Seq<char>>,
    now: u128,
    name: Seq<char>,
    state: ModelState,
)
    requires
        names.no_duplicates(),
    ensures
        names.contains(name) ==> current_model_state(
            step_models(machine, containers, names, now).0,
            name,
        ) == state_by_containers(containers, name),
        !names.contains(name) ==> current_model_state(
            step_models(machine, containers, names, now).0,
            name,
        ) == current_model_state(machine, name),
        step_models(machine, containers, names, now).1.contains((name, state)) <==> {
            &&& names.contains(name)
            &&& state == state_by_containers(containers, name)
            &&& state != current_model_state(machine, name)
        },
        step_models(machine, containers, names, now).0.backoff_timers == machine.backoff_timers,
    decreases names.len(),
{
    if names.len() > 0 {
        let rest = names.drop_last();
        let last = names.last();
        lemma_no_duplicates_push(names);
        lemma_step_models(machine, containers, rest, now, name, state);
        lemma_step_models(machine, containers, rest, now, last, state);
        lemma_contains_push(rest, last, name);
        let before = step_models(machine, containers, rest, now);
        let last_state = state_by_containers(containers, last);
        lemma_contains_push(before.1, (last, last_state), (name, state));
        if resource_key(ResourceType::Model, name) == resource_key(ResourceType::Model, last) {
            law_resource_keys_differ(ResourceType::Model, name, ResourceType::Model, last);
        }
    }
}

/// A list of containers brings every model that they belong to into the state that they make
/// up, and lists exactly those models that were in another state before. No backoff timer
/// starts or ends.
pub proof fn law_containers_decide_models(
    machine: MachineView,
    containers: Seq<ContainerView>,
    now: u128,
    name: Seq<char>,
    state: ModelState,
)
    ensures
        models_named(containers).contains(name) ==> current_model_state(
            step_containers(machine, containers, now).0,
            name,
        ) == state_by_containers(containers, name),
        step_containers(machine, containers, now).1.contains((name, state)) <==> {
            &&& models_named(containers).contains(name)
            &&& state == state_by_containers(containers, name)
            &&& state != current_model_state(machine, name)
        },
        step_containers(machine, containers, now).0.backoff_timers == machine.backoff_timers,
{
    law_distinct_names(models_of_containers(containers));
    lemma_step_models(machine, containers, models_named(containers), now, name, state);
}

/// A list of containers touches nothing but the models that they belong to: what is kept
/// under any other key stays, and nothing comes.
pub proof fn law_containers_touch_their_models(
    machine: MachineView,
    containers: Seq<ContainerView>,
    now: u128,
    key: Seq<char>,
)
    requires
        forall|name: Seq<char>| #[trigger]
            models_named(containers).contains(name) ==> key != resource_key(
                ResourceType::Model,
                name,
            ),
    ensures
        step_containers(machine, containers, now).0.resources.contains_key(key)
            == machine.resources.contains_key(key),
        machine.resources.contains_key(key) ==> step_containers(
            machine,
            containers,
            now,
        ).0.resources[key] == machine.resources[key],
{
    lemma_step_models_frame(machine, containers, models_named(containers), now, key);
}

/// A model that a list of containers brings into another state is found afterwards under its
/// type and name, in that state, with one more transition on record.
pub proof fn law_changed_model_is_recorded(
    machine: MachineView,
    containers: Seq<ContainerView>,
    now: u128,
    name: Seq<char>,
)
    requires
        is_sound(machine),
        models_named(containers).contains(name),
        current_model_state(machine, name) != state_by_containers(containers, name),
    ensures
        ({
            let key = resource_key(ResourceType::Model, name);
            let after = step_containers(machine, containers, now).0;
            let resource = after.resources[key];
            &&& after.resources.contains_key(key)
            &&& resource.resource_type == ResourceType::Model
            &&& resource.resource_name == name
            &&& resource.current_state == state_by_containers(containers, name).number()
            &&& resource.last_transition_time == now
            &&& resource.transition_count == if machine.resources.contains_key(key) {
                machine.resources[key].transition_count + 1
            } else {
                1
            }
        }),
{
    law_distinct_names(models_of_containers(containers));
    lemma_changed_model(machine, containers, models_named(containers), now, name);
    law_containers_keep_invariants(machine, containers, now);
    law_resource_under_its_key(
        step_containers(machine, containers, now).0,
        ResourceType::Model,
        name,
    );
}

proof fn lemma_changed_model(
    machine: MachineView,
    containers: Seq<ContainerView>,
    names: Seq<Seq<char>>,
    now: u128,
    name: Seq<char>,
)
    requires
        names.no_duplicates(),
        names.contains(name),
        current_model_state(machine, name) != state_by_containers(containers, name),
    ensures
        ({
            let key = resource_key(ResourceType::Model, name);
            let after = step_models(machine, containers, names, now).0;
            let resource = after.resources[key];
            &&& after.resources.contains_key(key)
            &&& resource.current_state == state_by_containers(containers, name).number()
            &&& resource.last_transition_time == now
            &&& resource.transition_count == if machine.resources.contains_key(key) {
                machine.resources[key].transition_count + 1
            } else {
                1
            }
        }),
    decreases names.len(),
{
    let rest = names.drop_last();
    let last = names.last();
    let key = resource_key(ResourceType::Model, name);
    lemma_no_duplicates_push(names);
    lemma_contains_push(rest, last, name);
    if last == name {
        assert forall|other: Seq<char>| #[trigger] rest.contains(other) implies key != resource_key(
            ResourceType::Model,
            other,
        ) by {
            if resource_key(ResourceType::Model, other) == key {
                law_resource_keys_differ(ResourceType::Model, other, ResourceType::Model, name);
            }
        }
        lemma_step_models_frame(machine, containers, rest, now, key);
    } else {
        lemma_changed_model(machine, containers, rest, now, name);
        if resource_key(ResourceType::Model, last) == key {
            law_resource_keys_differ(ResourceType::Model, last, ResourceType::Model, name);
        }
    }
}

/// No model is listed twice among those that a list of containers changed.
pub proof fn law_no_model_changes_twice(
    machine: MachineView,
    containers: Seq<ContainerView>,
    now: u128,
    i: int,
    j: int,
)
    requires
        0 <= i < j < step_containers(machine, containers, now).1.len(),
    ensures
        step_containers(machine, containers, now).1[i].0 != step_containers(
            machine,
            containers,
            now,
        ).1[j].0,
{
    law_distinct_names(models_of_containers(containers));
    lemma_updates_differ(machine, containers, models_named(containers), now, i, j);
}

proof fn lemma_updates_differ(
    machine: MachineView,
    containers: Seq<ContainerView>,
    names: Seq<Seq<char>>,
    now: u128,
    i: int,
    j: int,
)
    requires
        names.no_duplicates(),
        0 <= i < j < step_models(machine, containers, names, now).1.len(),
    ensures
        step_models(machine, containers, names, now).1[i].0 != step_models(
            machine,
            containers,
            names,
            now,
        ).1[j].0,
    decreases names.len(),
{
    if names.len() > 0 {
        let rest = names.drop_last();
        let before = step_models(machine, containers, rest, now).1;
        lemma_no_duplicates_push(names);
        if j < before.len() {
            lemma_updates_differ(machine, containers, rest, now, i, j);
        } else {
            let earlier = before[i];
            assert(before.contains(earlier));
            lemma_step_models(machine, containers, rest, now, earlier.0, earlier.1);
        }
    }
}

/// A list of containers that comes a second time changes nothing.
pub proof fn law_same_containers_change_nothing(
    machine: MachineView,
    containers: Seq<ContainerView>,
    now: u128,
    later: u128,
)
    ensures
        ({
            let after = step_containers(machine, containers, now).0;
            &&& step_containers(after, containers, later).0 == after
            &&& step_containers(after, containers, later).1.len() == 0
        }),
{
    let after = step_containers(machine, containers, now).0;
    let names = models_named(containers);
    assert forall|name: Seq<char>| names.contains(name) implies #[trigger] current_model_state(
        after,
        name,
    ) == state_by_containers(containers, name) by {
        law_containers_decide_models(machine, containers, now, name, ModelState::Running);
    }
    lemma_nothing_to_do(after, containers, names, later);
}

proof fn lemma_nothing_to_do(
    machine: MachineView,
    containers: Seq<ContainerView>,
    names: Seq<Seq<char>>,
    now: u128,
)
    requires
        forall|name: Seq<char>|
            names.contains(name) ==> #[trigger] current_model_state(machine, name)
                == state_by_containers(containers, name),
    ensures
        step_models(machine, containers, names, now).0 == machine,
        step_models(machine, containers, names, now).1.len() == 0,
    decreases names.len(),
{
    if names.len() > 0 {
        let rest = names.drop_last();
        assert forall|name: Seq<char>| rest.contains(name) implies #[trigger] current_model_state(
            machine,
            name,
        ) == state_by_containers(containers, name) by {
            let i = choose|i: int| 0 <= i < rest.len() && rest[i] == name;
            assert(names[i] == name);
        }
        lemma_nothing_to_do(machine, containers, rest, now);
        assert(names.contains(names.last()));
    }
}

/// One dead container makes its model fail, in whatever states its other containers are.
/// Where two containers of the model have the same identifier, the last one counts.
pub proof fn law_dead_container_fails_model(
    containers: Seq<ContainerView>,
    model_name: Seq<char>,
    i: int,
)
    requires
        0 <= i < containers.len(),
        model_of_container(containers[i]) == Some(model_name),
        is_dead(container_state(containers[i])),
        forall|j: int|
            i < j < containers.len() && model_of_container(#[trigger] containers[j]) == Some(
                model_name,
            ) ==> containers[j].id != containers[i].id,
    ensures
        state_by_containers(containers, model_name) == ModelState::Failed,
{
    lemma_last_state_counts(containers, model_name, i);
    let states = states_of_model(containers, model_name);
    assert(states.contains_key(containers[i].id) && is_dead(states[containers[i].id]));
}

proof fn lemma_last_state_counts(containers: Seq<ContainerView>, model_name: Seq<char>, i: int)
    requires
        0 <= i < containers.len(),
        model_of_container(containers[i]) == Some(model_name),
        forall|j: int|
            i < j < containers.len() && model_of_container(#[trigger] containers[j]) == Some(
                model_name,
            ) ==> containers[j].id != containers[i].id,
    ensures
        states_of_model(containers, model_name).contains_key(containers[i].id),
        states_of_model(containers, model_name)[containers[i].id] == container_state(containers[i]),
    decreases containers.len(),
{
    let rest = containers.drop_last();
    if i < rest.len() {
        assert(rest[i] == containers[i]);
        assert forall|j: int|
            i < j < rest.len() && model_of_container(#[trigger] rest[j]) == Some(
                model_name,
            ) implies rest[j].id != rest[i].id by {
            assert(rest[j] == containers[j]);
        }
        lemma_last_state_counts(rest, model_name, i);
        assert(containers.last() == containers[containers.len() - 1]);
    }
}

/// A list of containers keeps what requests keep.
pub proof fn law_containers_keep_invariants(
    machine: MachineView,
    containers: Seq<ContainerView>,
    now: u128,
)
    requires
        is_sound(machine),
    ensures
        is_sound(step_containers(machine, containers, now).0),
        nothing_backs_off(machine) ==> nothing_backs_off(
            step_containers(machine, containers, now).0,
        ),
{
    lemma_step_models_keeps(machine, containers, models_named(containers), now);
}

proof fn lemma_step_models_keeps(
    machine: MachineView,
    containers: Seq<ContainerView>,
    names: Seq<Seq<char>>,
    now: u128,
)
    requires
        is_sound(machine),
    ensures
        is_sound(step_models(machine, containers, names, now).0),
        nothing_backs_off(machine) ==> nothing_backs_off(
            step_models(machine, containers, names, now).0,
        ),
    decreases names.len(),
{
    if names.len() > 0 {
        let rest = names.drop_last();
        let last = names.last();
        lemma_step_models_keeps(machine, containers, rest, now);
        let before = step_models(machine, containers, rest, now).0;
        if before.resources.contains_key(resource_key(ResourceType::Model, last)) {
            law_resource_under_its_key(before, ResourceType::Model, last);
        }
    }
}

} // verus!
