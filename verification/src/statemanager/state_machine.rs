//! The state machine: it decides which state changes happen, and keeps the state of every
//! resource.

use crate::messages::{
    reported, ContainerInfo, ContainerList, ContainerView, ErrorCode, ModelState, ResourceType,
    StateChange, StateChangeResponse, StateChangeResponseView, StateChangeView,
};
use crate::grouping::{distinct_names, distinct_names_of, law_distinct_names};
use crate::statemanager::action_queue::{
    accepted_actions, joined, open_action_queue, queue_action, receiver_closed,
};
use crate::statemanager::clock::{unix_time_ns, Clock};
use crate::statemanager::conditions::{condition_holds, evaluate_condition};
use crate::statemanager::laws::{
    is_sound, law_containers_keep_invariants, law_empty_machine, law_requests_keep_invariants,
    law_resource_keys_differ, law_resource_under_its_key,
};
use crate::statemanager::model_state::{
    evaluated_state, evaluated_state_of, model_name_of_container, model_names_of_containers,
    model_of_container, models_of_containers, overall_state, overall_state_of, states_of_model,
    states_of_model_in,
};
use crate::statemanager::transitions::{
    find_row, infer_event_from_states,
    initialize_model_transitions, initialize_package_transitions, initialize_scenario_transitions,
    law_inferred_event_finds_row, model_table, package_table, requested_state_name,
    requested_state_name_of, row_between, row_on_event, rows, scenario_table, state_name,
    state_name_of, state_number, state_str_to_enum, table, type_label, type_label_of,
};
use crate::statemanager::types::{
    ActionCommand, ActionCommandView, HealthStatus, HealthView, ResourceState, ResourceView,
    ResultView, StateTransition, TransitionResult, TransitionView,
};
use crate::string_map::{entries_map, keys_distinct, StringMap};
use crate::text::{
    concat, concat3, concat4, decimal, decimal_of, is_blank, is_blank_str, optional, str_eq, texts,
};
use tokio::sync::mpsc::{UnboundedReceiver, UnboundedSender};
use vstd::prelude::*;

verus! {

/// How long a model stays in `CrashLoopBackOff`, in nanoseconds.
pub const BACKOFF_DURATION_NS: u128 = 30_000_000_000;

/// From this many failures in a row on, a resource counts as unhealthy.
pub const MAX_CONSECUTIVE_FAILURES: u32 = 3;

// ---------------------------------------------------------------------------
// What the state machine does
// ---------------------------------------------------------------------------

/// What the state machine keeps.
#[verifier::ext_equal]
pub struct MachineView {
    /// The tracked resources, by key.
    pub resources: Map<Seq<char>, ResourceView>,
    /// When each resource entered `CrashLoopBackOff`, by key.
    pub backoff_timers: Map<Seq<char>, u128>,
}

/// What a request does: what the state machine keeps after it, the answer, and the action
/// to carry out.
#[verifier::ext_equal]
pub struct StepView {
    pub machine: MachineView,
    pub result: ResultView,
    pub action: Option<ActionCommandView>,
}

/// The key of a resource.
pub open spec fn resource_key(resource_type: ResourceType, resource_name: Seq<char>) -> Seq<char> {
    type_label(resource_type) + "::"@ + resource_name
}

/// Why a request is not valid.
pub open spec fn invalid_reason(change: StateChangeView) -> Option<Seq<char>> {
    if is_blank(change.resource_name) {
        Some("Resource name cannot be empty"@)
    } else if is_blank(change.transition_id) {
        Some("Transition ID cannot be empty"@)
    } else if change.current_state == change.target_state {
        Some("Current and target states cannot be the same"@)
    } else if is_blank(change.source) {
        Some("Source cannot be empty"@)
    } else {
        None
    }
}

/// A request that is refused.
pub open spec fn refusal(
    change: StateChangeView,
    state: i32,
    error_code: ErrorCode,
    message: Seq<char>,
    error_details: Seq<char>,
) -> ResultView {
    ResultView {
        new_state: state,
        error_code,
        message,
        actions_to_execute: Seq::empty(),
        transition_id: change.transition_id,
        error_details,
    }
}

/// The state that a resource is in: the tracked one, or where it is not tracked yet, the
/// one that the request names.
pub open spec fn state_before(
    machine: MachineView,
    change: StateChangeView,
    resource_type: ResourceType,
) -> i32 {
    let key = resource_key(resource_type, change.resource_name);
    if machine.resources.contains_key(key) {
        machine.resources[key].current_state
    } else {
        state_number(change.current_state, change.resource_type)
    }
}

/// The resource entered `CrashLoopBackOff`, and has not been there long enough.
pub open spec fn in_backoff(machine: MachineView, key: Seq<char>, state: i32, now: u128) -> bool {
    &&& state == ModelState::CrashLoopBackOff.number()
    &&& machine.backoff_timers.contains_key(key)
    &&& now - machine.backoff_timers[key] < BACKOFF_DURATION_NS
}

/// The context of the action that a transition asks for.
pub open spec fn action_context(
    change: StateChangeView,
    resource_type: ResourceType,
    found: TransitionView,
) -> Map<Seq<char>, Seq<char>> {
    Map::<Seq<char>, Seq<char>>::empty().insert(
        "from_state"@,
        state_name(resource_type, found.from_state),
    ).insert("to_state"@, state_name(resource_type, found.to_state)).insert(
        "event"@,
        found.event,
    ).insert("resource_name"@, change.resource_name).insert("source"@, change.source).insert(
        "timestamp_ns"@,
        decimal(change.timestamp_ns as int),
    )
}

/// The action that a transition asks for.
pub open spec fn action_command(
    change: StateChangeView,
    resource_type: ResourceType,
    found: TransitionView,
) -> ActionCommandView {
    ActionCommandView {
        action: found.action,
        resource_key: resource_key(resource_type, change.resource_name),
        resource_type,
        transition_id: change.transition_id,
        context: action_context(change, resource_type, found),
    }
}

/// A resource before its first transition.
pub open spec fn new_resource(
    change: StateChangeView,
    resource_type: ResourceType,
    now: u128,
) -> ResourceView {
    ResourceView {
        resource_type,
        resource_name: change.resource_name,
        current_state: state_number(change.current_state, change.resource_type),
        desired_state: Some(state_number(change.target_state, change.resource_type)),
        last_transition_time: now,
        transition_count: 0,
        metadata: Map::empty(),
        health_status: HealthView {
            healthy: true,
            status_message: "Healthy"@,
            last_check: now,
            consecutive_failures: 0,
        },
    }
}

/// A resource after a transition, before its health is looked at.
pub open spec fn transitioned(
    resource: ResourceView,
    change: StateChangeView,
    state: i32,
    now: u128,
) -> ResourceView {
    ResourceView {
        current_state: state,
        last_transition_time: now,
        transition_count: resource.transition_count + 1,
        metadata: resource.metadata.insert("last_transition_id"@, change.transition_id).insert(
            "source"@,
            change.source,
        ),
        ..resource
    }
}

/// The health of a resource after a request that was answered like this.
pub open spec fn health_after(health: HealthView, result: ResultView, now: u128) -> HealthView {
    if result.error_code == ErrorCode::Success {
        HealthView {
            healthy: true,
            status_message: "Healthy"@,
            last_check: now,
            consecutive_failures: 0,
        }
    } else {
        HealthView {
            healthy: health.healthy && health.consecutive_failures + 1 < MAX_CONSECUTIVE_FAILURES,
            status_message: result.message,
            last_check: now,
            consecutive_failures: health.consecutive_failures + 1,
        }
    }
}

/// What the state machine keeps after it looked at a resource's health: resources that it
/// does not track have none.
pub open spec fn with_health(
    machine: MachineView,
    key: Seq<char>,
    result: ResultView,
    now: u128,
) -> MachineView {
    if machine.resources.contains_key(key) {
        let resource = machine.resources[key];
        MachineView {
            resources: machine.resources.insert(
                key,
                ResourceView {
                    health_status: health_after(resource.health_status, result, now),
                    ..resource
                },
            ),
            ..machine
        }
    } else {
        machine
    }
}

/// What the state machine keeps after a transition, before the resource's health is looked
/// at: the resource has its new state, and no backoff timer runs for it.
pub open spec fn with_transition(
    machine: MachineView,
    change: StateChangeView,
    resource_type: ResourceType,
    state: i32,
    now: u128,
) -> MachineView {
    let key = resource_key(resource_type, change.resource_name);
    let before = if machine.resources.contains_key(key) {
        machine.resources[key]
    } else {
        new_resource(change, resource_type, now)
    };
    MachineView {
        resources: machine.resources.insert(key, transitioned(before, change, state, now)),
        backoff_timers: machine.backoff_timers.remove(key),
    }
}

/// The answer to a request that is granted.
pub open spec fn success(
    change: StateChangeView,
    resource_type: ResourceType,
    found: TransitionView,
) -> ResultView {
    ResultView {
        new_state: found.to_state,
        error_code: ErrorCode::Success,
        message: "Successfully transitioned to "@ + state_name(resource_type, found.to_state),
        actions_to_execute: seq![found.action],
        transition_id: change.transition_id,
        error_details: Seq::empty(),
    }
}

/// The response to a request that was answered like this.
pub open spec fn response_to(result: ResultView, timestamp_ns: i64) -> StateChangeResponseView {
    StateChangeResponseView {
        message: result.message,
        transition_id: result.transition_id,
        timestamp_ns,
        error_code: result.error_code.number(),
        error_details: result.error_details,
    }
}

/// What granting a request does.
pub open spec fn granted(
    machine: MachineView,
    change: StateChangeView,
    resource_type: ResourceType,
    found: TransitionView,
    now: u128,
) -> StepView {
    let key = resource_key(resource_type, change.resource_name);
    let result = success(change, resource_type, found);
    let moved = with_health(
        with_transition(machine, change, resource_type, found.to_state, now),
        key,
        result,
        now,
    );
    StepView {
        machine: if resource_type == ResourceType::Model && found.to_state
            == ModelState::CrashLoopBackOff.number() {
            MachineView { backoff_timers: moved.backoff_timers.insert(key, now), ..moved }
        } else {
            moved
        },
        result,
        action: Some(action_command(change, resource_type, found)),
    }
}

/// The answer to a request for which the table has no row.
pub open spec fn no_transition(
    change: StateChangeView,
    resource_type: ResourceType,
    state: i32,
) -> ResultView {
    let from = state_name(resource_type, state);
    let to = requested_state_name(resource_type, change.target_state);
    refusal(
        change,
        state,
        ErrorCode::InvalidStateTransition,
        "No valid transition from "@ + from + " to "@ + to + " for resource type "@ + type_label(
            resource_type,
        ),
        "Invalid state transition attempted: "@ + from + " -> "@ + to,
    )
}

/// What a valid request for a resource of a known type does.
pub open spec fn step_typed(
    machine: MachineView,
    change: StateChangeView,
    resource_type: ResourceType,
    now: u128,
) -> StepView {
    let key = resource_key(resource_type, change.resource_name);
    let state = state_before(machine, change, resource_type);
    let target = state_number(change.target_state, change.resource_type);
    if in_backoff(machine, key, state, now) {
        StepView {
            machine,
            result: refusal(
                change,
                state,
                ErrorCode::PreconditionFailed,
                "Resource is in backoff period"@,
                "Backoff timer has not elapsed yet"@,
            ),
            action: None,
        }
    } else {
        match row_between(table(resource_type), state, target) {
            Some(found) => match found.condition {
                Some(condition) if !condition_holds(condition) => StepView {
                    machine,
                    result: refusal(
                        change,
                        state,
                        ErrorCode::PreconditionFailed,
                        "Condition not met: "@ + condition,
                        "Failed condition evaluation: "@ + condition,
                    ),
                    action: None,
                },
                _ => granted(machine, change, resource_type, found, now),
            },
            None => {
                let result = no_transition(change, resource_type, state);
                StepView { machine: with_health(machine, key, result, now), result, action: None }
            },
        }
    }
}

/// What a request does.
pub open spec fn step(machine: MachineView, change: StateChangeView, now: u128) -> StepView {
    match invalid_reason(change) {
        Some(reason) => StepView {
            machine,
            result: refusal(
                change,
                state_number(change.current_state, change.resource_type),
                ErrorCode::InvalidRequest,
                "Invalid state change request: "@ + reason,
                reason,
            ),
            action: None,
        },
        None => match ResourceType::numbered(change.resource_type) {
            None => StepView {
                machine,
                result: refusal(
                    change,
                    state_number(change.current_state, change.resource_type),
                    ErrorCode::InvalidStateTransition,
                    "Invalid resource type: "@ + decimal(change.resource_type as int),
                    "Unsupported resource type ID: "@ + decimal(change.resource_type as int),
                ),
                action: None,
            },
            Some(resource_type) => step_typed(machine, change, resource_type, now),
        },
    }
}

/// The counters of the resource with this key, where it is tracked, are not at their end.
pub open spec fn counters_have_room(machine: MachineView, key: Seq<char>) -> bool {
    machine.resources.contains_key(key) ==> {
        &&& machine.resources[key].transition_count < u64::MAX
        &&& machine.resources[key].health_status.consecutive_failures < u32::MAX
    }
}

/// The counters of the resource that a request is for are not at their end.
pub open spec fn room_for_request(machine: MachineView, change: StateChangeView) -> bool {
    match ResourceType::numbered(change.resource_type) {
        Some(resource_type) => counters_have_room(
            machine,
            resource_key(resource_type, change.resource_name),
        ),
        None => true,
    }
}

/// The state of a model. One that is not tracked is `Pending`, and so is one in a state that
/// containers do not bring about.
pub open spec fn current_model_state(machine: MachineView, model_name: Seq<char>) -> ModelState {
    let key = resource_key(ResourceType::Model, model_name);
    if machine.resources.contains_key(key) {
        match ModelState::numbered(machine.resources[key].current_state) {
            Some(ModelState::Unknown) => ModelState::Unknown,
            Some(ModelState::Succeeded) => ModelState::Succeeded,
            Some(ModelState::Failed) => ModelState::Failed,
            Some(ModelState::Running) => ModelState::Running,
            _ => ModelState::Pending,
        }
    } else {
        ModelState::Pending
    }
}

/// A model before its containers brought about a state.
pub open spec fn new_model(model_name: Seq<char>, now: u128) -> ResourceView {
    ResourceView {
        resource_type: ResourceType::Model,
        resource_name: model_name,
        current_state: ModelState::Pending.number(),
        desired_state: None,
        last_transition_time: now,
        transition_count: 0,
        metadata: Map::empty(),
        health_status: HealthView {
            healthy: true,
            status_message: "Model state updated"@,
            last_check: now,
            consecutive_failures: 0,
        },
    }
}

/// What the state machine keeps after its containers brought a model into a state.
pub open spec fn with_model_state(
    machine: MachineView,
    model_name: Seq<char>,
    state: ModelState,
    now: u128,
) -> MachineView {
    let key = resource_key(ResourceType::Model, model_name);
    let before = if machine.resources.contains_key(key) {
        machine.resources[key]
    } else {
        new_model(model_name, now)
    };
    MachineView {
        resources: machine.resources.insert(
            key,
            ResourceView {
                current_state: state.number(),
                last_transition_time: now,
                transition_count: before.transition_count + 1,
                ..before
            },
        ),
        ..machine
    }
}

/// What the states of the containers of these models do, model by model: what the state
/// machine keeps after it, and the models whose state changed.
pub open spec fn step_models(
    machine: MachineView,
    containers: Seq<ContainerView>,
    names: Seq<Seq<char>>,
    now: u128,
) -> (MachineView, Seq<(Seq<char>, ModelState)>)
    decreases names.len(),
{
    if names.len() == 0 {
        (machine, Seq::empty())
    } else {
        let (before, updates) = step_models(machine, containers, names.drop_last(), now);
        let name = names.last();
        let state = overall_state(states_of_model(containers, name));
        if current_model_state(before, name) == state {
            (before, updates)
        } else {
            (with_model_state(before, name, state, now), updates.push((name, state)))
        }
    }
}

/// The models that containers belong to, each once.
pub open spec fn models_named(containers: Seq<ContainerView>) -> Seq<Seq<char>> {
    distinct_names(models_of_containers(containers))
}

/// What a list of containers does.
pub open spec fn step_containers(
    machine: MachineView,
    containers: Seq<ContainerView>,
    now: u128,
) -> (MachineView, Seq<(Seq<char>, ModelState)>) {
    step_models(machine, containers, models_named(containers), now)
}

/// The transition counter of a model, where it is tracked, is not at its end.
pub open spec fn model_has_room(machine: MachineView, model_name: Seq<char>) -> bool {
    let key = resource_key(ResourceType::Model, model_name);
    machine.resources.contains_key(key) ==> machine.resources[key].transition_count < u64::MAX
}

/// The transition counters of the models that containers belong to are not at their end.
pub open spec fn room_for_containers(
    machine: MachineView,
    containers: Seq<ContainerView>,
) -> bool {
    forall|name: Seq<char>| #[trigger]
        models_named(containers).contains(name) ==> model_has_room(machine, name)
}

/// The contents of a list of updates.
pub open spec fn updates_view(updates: Seq<(String, ModelState)>) -> Seq<(Seq<char>, ModelState)> {
    updates.map_values(|update: (String, ModelState)| (update.0@, update.1))
}

/// A resource is of this type, where one is given, and in this state.
pub open spec fn is_in_state(
    resource: ResourceView,
    resource_type: Option<ResourceType>,
    state: i32,
) -> bool {
    resource.current_state == state && (resource_type is None || resource_type == Some(
        resource.resource_type,
    ))
}

/// The resources that are in a state, in the order of the entries.
pub open spec fn resources_in_state(
    entries: Seq<(Seq<char>, ResourceView)>,
    resource_type: Option<ResourceType>,
    state: i32,
) -> Seq<ResourceView>
    decreases entries.len(),
{
    if entries.len() == 0 {
        Seq::empty()
    } else {
        let before = resources_in_state(entries.drop_last(), resource_type, state);
        if is_in_state(entries.last().1, resource_type, state) {
            before.push(entries.last().1)
        } else {
            before
        }
    }
}

// ---------------------------------------------------------------------------
// The state machine
// ---------------------------------------------------------------------------

/// The state machine.
pub struct StateMachine {
    scenario_transitions: Vec<StateTransition>,
    package_transitions: Vec<StateTransition>,
    model_transitions: Vec<StateTransition>,
    resource_states: StringMap<ResourceState>,
    backoff_timers: StringMap<u128>,
    action_sender: Option<UnboundedSender<ActionCommand>>,
    clock: Clock,
}

impl View for StateMachine {
    type V = MachineView;

    closed spec fn view(&self) -> MachineView {
        MachineView { resources: self.resource_states@, backoff_timers: self.backoff_timers@ }
    }
}

/// The commands that an executor has been handed, where there is one.
pub open spec fn handed_over(sender: Option<UnboundedSender<ActionCommand>>) -> Option<
    Seq<ActionCommandView>,
> {
    match sender {
        Some(half) => Some(accepted_actions(half)),
        None => None,
    }
}

impl StateMachine {
    /// The state machine has its transition tables, and what it tracks is sound.
    pub open spec fn wf(&self) -> bool {
        &&& self.has_tables()
        &&& is_sound(self@)
    }

    /// The state machine has its transition tables.
    pub closed spec fn has_tables(&self) -> bool {
        &&& rows(self.scenario_transitions@) == scenario_table()
        &&& rows(self.package_transitions@) == package_table()
        &&& rows(self.model_transitions@) == model_table()
    }

    /// The tracked resources with their keys, in the order in which they were first seen.
    pub closed spec fn resource_entries(&self) -> Seq<(Seq<char>, ResourceView)> {
        self.resource_states.entries()
    }

    /// The sending half of the channel to the action executor, where there is one.
    pub closed spec fn executor(&self) -> Option<UnboundedSender<ActionCommand>> {
        self.action_sender
    }

    /// The commands that the action executor has been handed, where there is one.
    pub open spec fn executor_actions(&self) -> Option<Seq<ActionCommandView>> {
        handed_over(self.executor())
    }

    /// There is an action executor, and it no longer takes commands.
    pub open spec fn executor_gone(&self) -> bool {
        self.executor() matches Some(sender) && receiver_closed(sender)
    }

    /// What the action executor is handed comes out of this receiving half.
    pub open spec fn executor_is(&self, receiver: UnboundedReceiver<ActionCommand>) -> bool {
        self.executor() matches Some(sender) && joined(sender, receiver)
    }

    /// A state machine that tracks nothing yet, and has no action executor.
    pub fn new() -> (machine: StateMachine)
        ensures
            machine.wf(),
            machine@ == (MachineView { resources: Map::empty(), backoff_timers: Map::empty() }),
            machine.resource_entries() == Seq::<(Seq<char>, ResourceView)>::empty(),
            machine.executor() is None,
    {
        let machine = StateMachine {
            scenario_transitions: initialize_scenario_transitions(),
            package_transitions: initialize_package_transitions(),
            model_transitions: initialize_model_transitions(),
            resource_states: StringMap::new(),
            backoff_timers: StringMap::new(),
            action_sender: None,
            clock: Clock::start(),
        };
        proof {
            law_empty_machine(machine@);
        }
        machine
    }

    /// Opens a channel for the actions, and gives out its receiving half. From now on the
    /// actions of granted requests are sent on it.
    pub fn initialize_action_executor(&mut self) -> (receiver: UnboundedReceiver<ActionCommand>)
        requires
            old(self).wf(),
        ensures
            final(self).wf(),
            final(self)@ == old(self)@,
            final(self).resource_entries() == old(self).resource_entries(),
            final(self).executor_actions() == Some(Seq::<ActionCommandView>::empty()),
            final(self).executor_is(receiver),
    {
        let (sender, receiver) = open_action_queue();
        self.action_sender = Some(sender);
        receiver
    }

    /// Handles a request: decides on it now, and hands the action of a granted request to
    /// the executor, where there is one. An executor that has gone is passed over.
    pub fn process_state_change(&mut self, state_change: StateChange) -> (result: TransitionResult)
        requires
            old(self).wf(),
            room_for_request(old(self)@, state_change@),
        ensures
            final(self).wf(),
            exists|now: u128|
                {
                    let done = #[trigger] step(old(self)@, state_change@, now);
                    &&& final(self)@ == done.machine
                    &&& result@ == done.result
                    &&& match (done.action, old(self).executor_actions()) {
                        (Some(command), Some(handed)) => {
                            ||| final(self).executor_actions() == Some(handed.push(command))
                            ||| final(self).executor_actions() == Some(handed)
                                && final(self).executor_gone()
                        },
                        _ => final(self).executor() == old(self).executor(),
                    }
                },
            forall|receiver: UnboundedReceiver<ActionCommand>| #[trigger]
                final(self).executor_is(receiver) == old(self).executor_is(receiver),
    {
        let now = self.clock.now();
        let (result, action) = self.process_state_change_at(&state_change, now);
        if let Some(command) = action {
            if let Some(sender) = &mut self.action_sender {
                let refused = queue_action(sender, command);
            }
        }
        assert(result@ == step(old(self)@, state_change@, now).result);
        result
    }

    /// Handles a request at the time `now`: gives the answer, and the action that a granted
    /// request asks for.
    pub fn process_state_change_at(&mut self, state_change: &StateChange, now: u128) -> (outcome: (
        TransitionResult,
        Option<ActionCommand>,
    ))
        requires
            old(self).wf(),
            room_for_request(old(self)@, state_change@),
        ensures
            final(self).wf(),
            final(self)@ == step(old(self)@, state_change@, now).machine,
            outcome.0@ == step(old(self)@, state_change@, now).result,
            match outcome.1 {
                Some(command) => step(old(self)@, state_change@, now).action == Some(command@),
                None => step(old(self)@, state_change@, now).action is None,
            },
            final(self).executor() == old(self).executor(),
    {
        proof {
            law_requests_keep_invariants(self@, state_change@, now);
        }
        if let Err(reason) = validate_state_change(state_change) {
            let message = concat("Invalid state change request: ", reason.as_str());
            let state = state_str_to_enum(
                state_change.current_state.as_str(),
                state_change.resource_type,
            );
            return (refuse(state_change, state, ErrorCode::InvalidRequest, message, reason), None);
        }
        let resource_type = match ResourceType::from_i32(state_change.resource_type) {
            Some(resource_type) => resource_type,
            None => {
                let number = decimal_of(state_change.resource_type as i64);
                let message = concat("Invalid resource type: ", number.as_str());
                let details = concat("Unsupported resource type ID: ", number.as_str());
                let state = state_str_to_enum(
                    state_change.current_state.as_str(),
                    state_change.resource_type,
                );
                return (
                    refuse(state_change, state, ErrorCode::InvalidStateTransition, message, details),
                    None,
                );
            },
        };
        let key = generate_resource_key(resource_type, state_change.resource_name.as_str());
        let current_state = match self.resource_states.get(key.as_str()) {
            Some(known) => known.current_state,
            None => state_str_to_enum(
                state_change.current_state.as_str(),
                state_change.resource_type,
            ),
        };
        let target_state = state_str_to_enum(
            state_change.target_state.as_str(),
            state_change.resource_type,
        );
        if current_state == ModelState::CrashLoopBackOff.to_i32() {
            if let Some(entered) = self.backoff_timers.get(key.as_str()) {
                if now < *entered || now - *entered < BACKOFF_DURATION_NS {
                    return (
                        refuse(
                            state_change,
                            current_state,
                            ErrorCode::PreconditionFailed,
                            "Resource is in backoff period".to_owned(),
                            "Backoff timer has not elapsed yet".to_owned(),
                        ),
                        None,
                    );
                }
            }
        }
        let event = infer_event_from_states(current_state, target_state, resource_type);
        proof {
            law_inferred_event_finds_row(current_state, target_state, resource_type);
        }
        let found = match self.find_valid_transition(
            resource_type,
            current_state,
            event.as_str(),
            target_state,
        ) {
            Some(found) => found,
            None => {
                let from = state_name_of(resource_type, current_state);
                let to = requested_state_name_of(resource_type, state_change.target_state.as_str());
                let message = concat3(
                    concat4("No valid transition from ", from, " to ", to).as_str(),
                    " for resource type ",
                    type_label_of(resource_type),
                );
                let details = concat4("Invalid state transition attempted: ", from, " -> ", to);
                let result = refuse(
                    state_change,
                    current_state,
                    ErrorCode::InvalidStateTransition,
                    message,
                    details,
                );
                self.update_health_status(key.as_str(), &result, now);
                return (result, None);
            },
        };
        if let Some(condition) = &found.condition {
            if !evaluate_condition(condition.as_str()) {
                let message = concat("Condition not met: ", condition.as_str());
                let details = concat("Failed condition evaluation: ", condition.as_str());
                return (
                    refuse(
                        state_change,
                        current_state,
                        ErrorCode::PreconditionFailed,
                        message,
                        details,
                    ),
                    None,
                );
            }
        }
        let to_state = found.to_state;
        let command = ActionCommand {
            action: found.action.clone(),
            resource_key: key.clone(),
            resource_type,
            transition_id: state_change.transition_id.clone(),
            context: build_action_context(state_change, resource_type, found),
        };
        let mut actions: Vec<String> = Vec::new();
        actions.push(found.action.clone());
        let result = TransitionResult {
            new_state: to_state,
            error_code: ErrorCode::Success,
            message: concat("Successfully transitioned to ", state_name_of(resource_type, to_state)),
            actions_to_execute: actions,
            transition_id: state_change.transition_id.clone(),
            error_details: String::new(),
        };
        assert(result@ == success(state_change@, resource_type, found@));
        self.update_resource_state(state_change, to_state, resource_type, now);
        self.update_health_status(key.as_str(), &result, now);
        if resource_type == ResourceType::Model && to_state
            == ModelState::CrashLoopBackOff.to_i32() {
            self.backoff_timers.insert(key, now);
        }
        (result, Some(command))
    }

    /// The row of the resource type's table that matches on state, event and target.
    fn find_valid_transition(
        &self,
        resource_type: ResourceType,
        from_state: i32,
        event: &str,
        to_state: i32,
    ) -> (found: Option<&StateTransition>)
        requires
            self.has_tables(),
        ensures
            match found {
                Some(t) => row_on_event(table(resource_type), from_state, event@, to_state) == Some(
                    t@,
                ),
                None => row_on_event(table(resource_type), from_state, event@, to_state) is None,
            },
    {
        match resource_type {
            ResourceType::Scenario => find_row(
                &self.scenario_transitions,
                from_state,
                event,
                to_state,
            ),
            ResourceType::Package => find_row(
                &self.package_transitions,
                from_state,
                event,
                to_state,
            ),
            ResourceType::Model => find_row(&self.model_transitions, from_state, event, to_state),
            _ => None,
        }
    }

    /// Brings a resource into a new state, and begins to track it where it was not tracked.
    /// A backoff timer that ran for it is cleared.
    fn update_resource_state(
        &mut self,
        state_change: &StateChange,
        new_state: i32,
        resource_type: ResourceType,
        now: u128,
    )
        requires
            old(self).has_tables(),
            counters_have_room(
                old(self)@,
                resource_key(resource_type, state_change@.resource_name),
            ),
        ensures
            final(self).has_tables(),
            final(self)@ == with_transition(
                old(self)@,
                state_change@,
                resource_type,
                new_state,
                now,
            ),
            final(self).executor() == old(self).executor(),
    {
        let key = generate_resource_key(resource_type, state_change.resource_name.as_str());
        let mut updated = match self.resource_states.get(key.as_str()) {
            Some(known) => duplicate_resource(known),
            None => ResourceState {
                resource_type,
                resource_name: state_change.resource_name.clone(),
                current_state: state_str_to_enum(
                    state_change.current_state.as_str(),
                    state_change.resource_type,
                ),
                desired_state: Some(
                    state_str_to_enum(
                        state_change.target_state.as_str(),
                        state_change.resource_type,
                    ),
                ),
                last_transition_time: now,
                transition_count: 0,
                metadata: StringMap::new(),
                health_status: HealthStatus {
                    healthy: true,
                    status_message: "Healthy".to_owned(),
                    last_check: now,
                    consecutive_failures: 0,
                },
            },
        };
        updated.current_state = new_state;
        updated.last_transition_time = now;
        updated.transition_count = updated.transition_count + 1;
        updated.metadata.insert(
            "last_transition_id".to_owned(),
            state_change.transition_id.clone(),
        );
        updated.metadata.insert("source".to_owned(), state_change.source.clone());
        let stopped = self.backoff_timers.remove(key.as_str());
        self.resource_states.insert(key, updated);
    }

    /// Notes in a resource's health how a request for it was answered.
    fn update_health_status(&mut self, key: &str, result: &TransitionResult, now: u128)
        requires
            old(self).has_tables(),
            old(self)@.resources.contains_key(key@)
                ==> old(self)@.resources[key@].health_status.consecutive_failures < u32::MAX,
        ensures
            final(self).has_tables(),
            final(self)@ == with_health(old(self)@, key@, result@, now),
            final(self).executor() == old(self).executor(),
    {
        if let Some(known) = self.resource_states.get(key) {
            let mut updated = duplicate_resource(known);
            updated.health_status.last_check = now;
            if result.is_success() {
                updated.health_status.healthy = true;
                updated.health_status.consecutive_failures = 0;
                updated.health_status.status_message = "Healthy".to_owned();
            } else {
                updated.health_status.consecutive_failures =
                updated.health_status.consecutive_failures + 1;
                updated.health_status.status_message = result.message.clone();
                if updated.health_status.consecutive_failures >= MAX_CONSECUTIVE_FAILURES {
                    updated.health_status.healthy = false;
                }
            }
            self.resource_states.insert(key.to_owned(), updated);
        }
    }
}

// ---------------------------------------------------------------------------
// Models and their containers
// ---------------------------------------------------------------------------

impl StateMachine {
    /// The state of a model, by the states of containers of which some are the model's.
    pub fn evaluate_model_state_from_containers(
        &self,
        model_name: &str,
        container_states: &StringMap<String>,
    ) -> (state: ModelState)
        ensures
            state == evaluated_state(model_name@, container_states@),
    {
        evaluated_state_of(model_name, container_states)
    }

    /// The model that a container belongs to.
    pub fn extract_model_name_from_container(&self, container: &ContainerInfo) -> (model_name:
        Option<String>)
        ensures
            optional(model_name) == model_of_container(container@),
    {
        model_name_of_container(container)
    }

    /// Works out which models have changed their state, by a list of containers. Gives those
    /// models with their new states.
    pub fn process_container_list_for_models(&mut self, container_list: &ContainerList) -> (updates:
        Vec<(String, ModelState)>)
        requires
            old(self).wf(),
            room_for_containers(old(self)@, reported(container_list.containers@)),
        ensures
            final(self).wf(),
            exists|now: u128|
                {
                    let done = #[trigger] step_containers(
                        old(self)@,
                        reported(container_list.containers@),
                        now,
                    );
                    &&& final(self)@ == done.0
                    &&& updates_view(updates@) == done.1
                },
            final(self).executor() == old(self).executor(),
    {
        let now = self.clock.now();
        self.process_container_list_for_models_at(container_list, now)
    }

    /// Works out at the time `now` which models have changed their state, by a list of
    /// containers. Gives those models with their new states.
    pub fn process_container_list_for_models_at(
        &mut self,
        container_list: &ContainerList,
        now: u128,
    ) -> (updates: Vec<(String, ModelState)>)
        requires
            old(self).wf(),
            room_for_containers(old(self)@, reported(container_list.containers@)),
        ensures
            final(self).wf(),
            final(self)@ == step_containers(
                old(self)@,
                reported(container_list.containers@),
                now,
            ).0,
            updates_view(updates@) == step_containers(
                old(self)@,
                reported(container_list.containers@),
                now,
            ).1,
            final(self).executor() == old(self).executor(),
    {
        let names = distinct_names_of(&model_names_of_containers(&container_list.containers));
        let ghost machine = self@;
        let ghost containers = reported(container_list.containers@);
        let ghost all = models_named(containers);
        proof {
            law_distinct_names(models_of_containers(containers));
        }
        let mut updates: Vec<(String, ModelState)> = Vec::new();
        let mut i: usize = 0;
        assert(updates_view(updates@) =~= Seq::<(Seq<char>, ModelState)>::empty());
        while i < names.len()
            invariant
                i <= names@.len(),
                self.has_tables(),
                all == texts(names@),
                all.no_duplicates(),
                all == models_named(containers),
                containers == reported(container_list.containers@),
                room_for_containers(machine, containers),
                self@ == step_models(machine, containers, all.take(i as int), now).0,
                updates_view(updates@) == step_models(
                    machine,
                    containers,
                    all.take(i as int),
                    now,
                ).1,
                self.executor() == old(self).executor(),
            decreases names@.len() - i,
        {
            let name = names[i].as_str();
            let ghost before = updates@;
            proof {
                assert(all.take(i + 1).drop_last() =~= all.take(i as int));
                assert(all[i as int] == name@);
                assert(all.contains(name@));
                let key = resource_key(ResourceType::Model, name@);
                assert forall|other: Seq<char>| #[trigger]
                    all.take(i as int).contains(other) implies key != resource_key(
                    ResourceType::Model,
                    other,
                ) by {
                    let j = choose|j: int| 0 <= j < i && all.take(i as int)[j] == other;
                    assert(all[j] == other);
                    if resource_key(ResourceType::Model, other) == key {
                        law_resource_keys_differ(
                            ResourceType::Model,
                            other,
                            ResourceType::Model,
                            name@,
                        );
                    }
                }
                lemma_step_models_frame(machine, containers, all.take(i as int), now, key);
            }
            let states = states_of_model_in(&container_list.containers, name);
            let new_state = overall_state_of(&states);
            if self.get_current_model_state(name) != new_state {
                updates.push((name.to_owned(), new_state));
                assert(updates_view(updates@) =~= updates_view(before).push((name@, new_state)));
                self.update_model_state(name, new_state, now);
            }
            i += 1;
        }
        proof {
            assert(all.take(names@.len() as int) =~= all);
            law_containers_keep_invariants(machine, containers, now);
        }
        updates
    }

    /// The state of a model.
    fn get_current_model_state(&self, model_name: &str) -> (state: ModelState)
        ensures
            state == current_model_state(self@, model_name@),
    {
        let key = generate_resource_key(ResourceType::Model, model_name);
        match self.resource_states.get(key.as_str()) {
            Some(known) => match ModelState::from_i32(known.current_state) {
                Some(ModelState::Unknown) => ModelState::Unknown,
                Some(ModelState::Succeeded) => ModelState::Succeeded,
                Some(ModelState::Failed) => ModelState::Failed,
                Some(ModelState::Running) => ModelState::Running,
                _ => ModelState::Pending,
            },
            None => ModelState::Pending,
        }
    }

    /// Brings a model into the state that its containers brought about.
    fn update_model_state(&mut self, model_name: &str, new_state: ModelState, now: u128)
        requires
            old(self).has_tables(),
            model_has_room(old(self)@, model_name@),
        ensures
            final(self).has_tables(),
            final(self)@ == with_model_state(old(self)@, model_name@, new_state, now),
            final(self).executor() == old(self).executor(),
    {
        let key = generate_resource_key(ResourceType::Model, model_name);
        let mut updated = match self.resource_states.get(key.as_str()) {
            Some(known) => duplicate_resource(known),
            None => ResourceState {
                resource_type: ResourceType::Model,
                resource_name: model_name.to_owned(),
                current_state: ModelState::Pending.to_i32(),
                desired_state: None,
                last_transition_time: now,
                transition_count: 0,
                metadata: StringMap::new(),
                health_status: HealthStatus {
                    healthy: true,
                    status_message: "Model state updated".to_owned(),
                    last_check: now,
                    consecutive_failures: 0,
                },
            },
        };
        updated.current_state = new_state.to_i32();
        updated.last_transition_time = now;
        updated.transition_count = updated.transition_count + 1;
        self.resource_states.insert(key, updated);
    }
}

/// What is not a model among the names is left as it is.
pub proof fn lemma_step_models_frame(
    machine: MachineView,
    containers: Seq<ContainerView>,
    names: Seq<Seq<char>>,
    now: u128,
    key: Seq<char>,
)
    requires
        forall|name: Seq<char>| #[trigger]
            names.contains(name) ==> key != resource_key(ResourceType::Model, name),
    ensures
        step_models(machine, containers, names, now).0.resources.contains_key(key)
            == machine.resources.contains_key(key),
        machine.resources.contains_key(key) ==> step_models(
            machine,
            containers,
            names,
            now,
        ).0.resources[key] == machine.resources[key],
    decreases names.len(),
{
    if names.len() > 0 {
        let rest = names.drop_last();
        assert(names.contains(names[names.len() - 1]));
        assert forall|name: Seq<char>| #[trigger] rest.contains(name) implies key != resource_key(
            ResourceType::Model,
            name,
        ) by {
            let i = choose|i: int| 0 <= i < rest.len() && rest[i] == name;
            assert(names[i] == name);
            assert(names.contains(name));
        }
        lemma_step_models_frame(machine, containers, rest, now, key);
    }
}

// ---------------------------------------------------------------------------
// Questions to the state machine
// ---------------------------------------------------------------------------

impl StateMachine {
    /// What is known of a resource, where it is tracked under this name and type.
    pub fn get_resource_state(&self, resource_name: &str, resource_type: ResourceType) -> (found:
        Option<&ResourceState>)
        ensures
            match found {
                Some(resource) => {
                    let key = resource_key(resource_type, resource_name@);
                    &&& self@.resources.contains_key(key)
                    &&& resource@ == self@.resources[key]
                    &&& resource@.resource_type == resource_type
                },
                None => {
                    let key = resource_key(resource_type, resource_name@);
                    self@.resources.contains_key(key) ==> self@.resources[key].resource_type
                        != resource_type
                },
            },
            is_sound(self@) ==> (found is Some <==> self@.resources.contains_key(
                resource_key(resource_type, resource_name@),
            )),
    {
        proof {
            if is_sound(self@) && self@.resources.contains_key(
                resource_key(resource_type, resource_name@),
            ) {
                law_resource_under_its_key(self@, resource_type, resource_name@);
            }
        }
        let key = generate_resource_key(resource_type, resource_name);
        match self.resource_states.get(key.as_str()) {
            Some(resource) => if resource.resource_type == resource_type {
                Some(resource)
            } else {
                None
            },
            None => None,
        }
    }

    /// The resources that are in a state; where a type is given, those of that type.
    pub fn list_resources_by_state(&self, resource_type: Option<ResourceType>, state: i32) -> (found:
        Vec<&ResourceState>)
        ensures
            found@.map_values(|resource: &ResourceState| resource@) == resources_in_state(
                self.resource_entries(),
                resource_type,
                state,
            ),
            entries_map(self.resource_entries()) == self@.resources,
            keys_distinct(self.resource_entries()),
    {
        let ghost entries = self.resource_states.entries();
        let count: usize = self.resource_states.len();
        let mut found: Vec<&ResourceState> = Vec::new();
        let mut i: usize = 0;
        assert(found@.map_values(|resource: &ResourceState| resource@) =~= resources_in_state(
            entries.take(0),
            resource_type,
            state,
        ));
        while i < count
            invariant
                i <= count == entries.len(),
                entries == self.resource_states.entries(),
                found@.map_values(|resource: &ResourceState| resource@) == resources_in_state(
                    entries.take(i as int),
                    resource_type,
                    state,
                ),
            decreases count - i,
        {
            let resource = self.resource_states.value_at(i);
            let ghost before = found@;
            assert(entries.take(i + 1).drop_last() =~= entries.take(i as int));
            let type_fits = match resource_type {
                Some(wanted) => wanted == resource.resource_type,
                None => true,
            };
            if resource.current_state == state && type_fits {
                found.push(resource);
                assert(found@.map_values(|resource: &ResourceState| resource@)
                    =~= before.map_values(|resource: &ResourceState| resource@).push(resource@));
            }
            i += 1;
        }
        assert(entries.take(count as int) =~= entries);
        found
    }

    /// Whether the counters of the resource that a request is for can still count on.
    pub fn has_room_for_request(&self, state_change: &StateChange) -> (room: bool)
        ensures
            room == room_for_request(self@, state_change@),
    {
        match ResourceType::from_i32(state_change.resource_type) {
            Some(resource_type) => {
                let key = generate_resource_key(resource_type, state_change.resource_name.as_str());
                match self.resource_states.get(key.as_str()) {
                    Some(known) => known.transition_count < u64::MAX
                        && known.health_status.consecutive_failures < u32::MAX,
                    None => true,
                }
            },
            None => true,
        }
    }

    /// Whether the counters of the models that containers belong to can still count on.
    pub fn has_room_for_containers(&self, container_list: &ContainerList) -> (room: bool)
        ensures
            room == room_for_containers(self@, reported(container_list.containers@)),
    {
        let names = distinct_names_of(&model_names_of_containers(&container_list.containers));
        let ghost all = models_named(reported(container_list.containers@));
        let mut i: usize = 0;
        while i < names.len()
            invariant
                i <= names@.len(),
                all == texts(names@),
                all == models_named(reported(container_list.containers@)),
                forall|j: int| 0 <= j < i ==> model_has_room(self@, #[trigger] all[j]),
            decreases names@.len() - i,
        {
            assert(all[i as int] == names@[i as int]@);
            let key = generate_resource_key(ResourceType::Model, names[i].as_str());
            if let Some(known) = self.resource_states.get(key.as_str()) {
                if known.transition_count == u64::MAX {
                    assert(all.contains(all[i as int]));
                    assert(!model_has_room(self@, all[i as int]));
                    return false;
                }
            }
            i += 1;
        }
        true
    }
}

impl Default for StateMachine {
    fn default() -> (machine: StateMachine)
        ensures
            machine.wf(),
            machine@ == (MachineView { resources: Map::empty(), backoff_timers: Map::empty() }),
            machine.resource_entries() == Seq::<(Seq<char>, ResourceView)>::empty(),
            machine.executor() is None,
    {
        StateMachine::new()
    }
}

impl TransitionResult {
    /// Whether the request was granted.
    pub fn is_success(&self) -> (granted: bool)
        ensures
            granted == (self.error_code == ErrorCode::Success),
    {
        matches!(self.error_code, ErrorCode::Success)
    }

    /// Whether the request was refused.
    pub fn is_failure(&self) -> (refused: bool)
        ensures
            refused == (self.error_code != ErrorCode::Success),
    {
        !self.is_success()
    }

    /// The response to the request, stamped with the present time.
    pub fn to_state_change_response(&self) -> (response: StateChangeResponse)
        ensures
            response@ == response_to(self@, response.timestamp_ns),
    {
        self.to_state_change_response_at(unix_time_ns())
    }

    /// The response to the request, stamped with this time.
    pub fn to_state_change_response_at(&self, timestamp_ns: i64) -> (response: StateChangeResponse)
        ensures
            response@ == response_to(self@, timestamp_ns),
    {
        StateChangeResponse {
            message: self.message.clone(),
            transition_id: self.transition_id.clone(),
            timestamp_ns,
            error_code: self.error_code.to_i32(),
            error_details: self.error_details.clone(),
        }
    }
}

fn refuse(
    state_change: &StateChange,
    state: i32,
    error_code: ErrorCode,
    message: String,
    error_details: String,
) -> (result: TransitionResult)
    ensures
        result@ == refusal(state_change@, state, error_code, message@, error_details@),
{
    let result = TransitionResult {
        new_state: state,
        error_code,
        message,
        actions_to_execute: Vec::new(),
        transition_id: state_change.transition_id.clone(),
        error_details,
    };
    assert(result@.actions_to_execute =~= Seq::<Seq<char>>::empty());
    result
}

/// Checks that a request is valid, or says why it is not.
pub fn validate_state_change(state_change: &StateChange) -> (checked: Result<(), String>)
    ensures
        match checked {
            Ok(_) => invalid_reason(state_change@) is None,
            Err(reason) => invalid_reason(state_change@) == Some(reason@),
        },
{
    if is_blank_str(state_change.resource_name.as_str()) {
        Err("Resource name cannot be empty".to_owned())
    } else if is_blank_str(state_change.transition_id.as_str()) {
        Err("Transition ID cannot be empty".to_owned())
    } else if str_eq(state_change.current_state.as_str(), state_change.target_state.as_str()) {
        Err("Current and target states cannot be the same".to_owned())
    } else if is_blank_str(state_change.source.as_str()) {
        Err("Source cannot be empty".to_owned())
    } else {
        Ok(())
    }
}

/// The key of a resource.
pub fn generate_resource_key(resource_type: ResourceType, resource_name: &str) -> (key: String)
    ensures
        key@ == resource_key(resource_type, resource_name@),
{
    concat3(type_label_of(resource_type), "::", resource_name)
}

fn build_action_context(
    state_change: &StateChange,
    resource_type: ResourceType,
    found: &StateTransition,
) -> (context: StringMap<String>)
    ensures
        context@ == action_context(state_change@, resource_type, found@),
{
    let mut context: StringMap<String> = StringMap::new();
    context.insert(
        "from_state".to_owned(),
        state_name_of(resource_type, found.from_state).to_owned(),
    );
    context.insert("to_state".to_owned(), state_name_of(resource_type, found.to_state).to_owned());
    context.insert("event".to_owned(), found.event.clone());
    context.insert("resource_name".to_owned(), state_change.resource_name.clone());
    context.insert("source".to_owned(), state_change.source.clone());
    context.insert("timestamp_ns".to_owned(), decimal_of(state_change.timestamp_ns));
    context
}

fn duplicate_resource(resource: &ResourceState) -> (copy: ResourceState)
    ensures
        copy@ == resource@,
{
    ResourceState {
        resource_type: resource.resource_type,
        resource_name: resource.resource_name.clone(),
        current_state: resource.current_state,
        desired_state: resource.desired_state,
        last_transition_time: resource.last_transition_time,
        transition_count: resource.transition_count,
        metadata: resource.metadata.duplicate(),
        health_status: HealthStatus {
            healthy: resource.health_status.healthy,
            status_message: resource.health_status.status_message.clone(),
            last_check: resource.health_status.last_check,
            consecutive_failures: resource.health_status.consecutive_failures,
        },
    }
}

} // verus!
