//! The manager: it hands requests to the state machine, and works out the states of models
//! and packages from what the nodes report of their containers.

use crate::messages::{
    reported, ContainerInfo, ContainerList, ContainerView, ErrorCode, ModelState, PackageState,
    ResourceType, ScenarioState, StateChange,
};
use crate::statemanager::aggregation::{
    determined_model_state, determined_package_state, model_name_of, model_of,
    model_state_by_containers, package_of, package_state_by_models, package_state_entry,
    package_state_key, package_state_label,
};
use crate::grouping::{distinct_names, distinct_names_of, optionals};
use crate::statemanager::action_queue::{joined, receiver_closed};
use crate::statemanager::clock::Clock;
use crate::statemanager::laws::is_sound;
use crate::statemanager::model_state::{model_state_entry, model_state_key, model_state_label};
use crate::statemanager::reconcile::{
    packages_to_reconcile, reconcile_views, reconciled, ReconcileRequest,
};
use crate::statemanager::scenario_state::{
    law_granted_scenario_is_stored, scenario_state_entry, stored_by,
};
use crate::statemanager::state_machine::{
    handed_over, room_for_request, step, updates_view, MachineView, StateMachine,
};
use crate::statemanager::transitions::{state_name, state_name_of};
use crate::statemanager::types::{
    container_views, ActionCommand, ActionCommandView, ContainerStateInfo, ContainerStateView,
    ModelInfo, ModelView, PackageInfo, PackageView, TransitionResult,
};
use crate::string_map::{entries_insert, entries_map, keys_distinct, StringMap};
use crate::text::{before_first_str, duplicate_texts, optional, str_eq, texts};
use tokio::sync::mpsc::{UnboundedReceiver, UnboundedSender};
use vstd::prelude::*;

verus! {

// ---------------------------------------------------------------------------
// What the manager does
// ---------------------------------------------------------------------------

/// What the manager keeps. The models have an order: that in which they were first seen.
#[verifier::ext_equal]
pub struct ManagerView {
    pub machine: MachineView,
    pub models: Seq<(Seq<char>, ModelView)>,
    pub packages: Map<Seq<char>, PackageView>,
    pub container_to_model: Map<Seq<char>, Seq<char>>,
}

/// What is kept of a container that a node reports.
pub open spec fn info_of(container: ContainerView) -> ContainerStateView {
    ContainerStateView {
        container_id: container.id,
        container_names: container.names,
        image: container.image,
        state: entries_map(container.state),
        config: container.config,
        annotations: container.annotation,
    }
}

/// What is kept of the containers that a node reports.
pub open spec fn infos_of(containers: Seq<ContainerView>) -> Seq<ContainerStateView> {
    containers.map_values(|container: ContainerView| info_of(container))
}

/// The containers of a model.
pub open spec fn containers_of_model(
    containers: Seq<ContainerStateView>,
    model_name: Seq<char>,
) -> Seq<ContainerStateView>
    decreases containers.len(),
{
    if containers.len() == 0 {
        Seq::empty()
    } else {
        let before = containers_of_model(containers.drop_last(), model_name);
        if model_of(containers.last()) == Some(model_name) {
            before.push(containers.last())
        } else {
            before
        }
    }
}

/// The models that containers belong to, container by container.
pub open spec fn models_of(containers: Seq<ContainerStateView>) -> Seq<Option<Seq<char>>> {
    containers.map_values(|container: ContainerStateView| model_of(container))
}

/// Which model each container belongs to, after these containers were reported.
pub open spec fn with_containers(
    container_to_model: Map<Seq<char>, Seq<char>>,
    containers: Seq<ContainerStateView>,
) -> Map<Seq<char>, Seq<char>>
    decreases containers.len(),
{
    if containers.len() == 0 {
        container_to_model
    } else {
        let before = with_containers(container_to_model, containers.drop_last());
        match model_of(containers.last()) {
            Some(model_name) => before.insert(containers.last().container_id, model_name),
            None => before,
        }
    }
}

/// The state in which the manager has a model; `Unspecified` where it does not know it.
pub open spec fn known_model_state(
    models: Seq<(Seq<char>, ModelView)>,
    model_name: Seq<char>,
) -> ModelState {
    if entries_map(models).contains_key(model_name) {
        entries_map(models)[model_name].current_state
    } else {
        ModelState::Unspecified
    }
}

/// A model in its new state. Where it was not known before, its name tells its package.
pub open spec fn changed_model(
    models: Seq<(Seq<char>, ModelView)>,
    model_name: Seq<char>,
    containers: Seq<ContainerStateView>,
    now: u128,
) -> ModelView {
    let known = entries_map(models).contains_key(model_name);
    ModelView {
        model_name: if known {
            entries_map(models)[model_name].model_name
        } else {
            model_name
        },
        package_name: if known {
            entries_map(models)[model_name].package_name
        } else {
            package_of(model_name)
        },
        containers,
        current_state: determined_model_state(containers),
        last_update: now,
    }
}

/// What these models make of what their containers report, model by model: the models after
/// it, and those whose state changed.
pub open spec fn update_models(
    models: Seq<(Seq<char>, ModelView)>,
    containers: Seq<ContainerStateView>,
    names: Seq<Seq<char>>,
    now: u128,
) -> (Seq<(Seq<char>, ModelView)>, Seq<(Seq<char>, ModelState)>)
    decreases names.len(),
{
    if names.len() == 0 {
        (models, Seq::empty())
    } else {
        let (before, changes) = update_models(models, containers, names.drop_last(), now);
        let name = names.last();
        let own = containers_of_model(containers, name);
        if known_model_state(before, name) == determined_model_state(own) {
            (before, changes)
        } else {
            (
                entries_insert(before, name, changed_model(before, name, own, now)),
                changes.push((name, determined_model_state(own))),
            )
        }
    }
}

/// The packages that models belong to, model by model.
pub open spec fn packages_of(models: Seq<(Seq<char>, ModelView)>) -> Seq<Option<Seq<char>>> {
    models.map_values(|model: (Seq<char>, ModelView)| Some(model.1.package_name))
}

/// The states of the models of a package.
pub open spec fn states_in_package(
    models: Seq<(Seq<char>, ModelView)>,
    package_name: Seq<char>,
) -> Seq<ModelState>
    decreases models.len(),
{
    if models.len() == 0 {
        Seq::empty()
    } else {
        let before = states_in_package(models.drop_last(), package_name);
        if models.last().1.package_name == package_name {
            before.push(models.last().1.current_state)
        } else {
            before
        }
    }
}

/// The state in which the manager has a package; `Unspecified` where it does not know it.
pub open spec fn known_package_state(
    packages: Map<Seq<char>, PackageView>,
    package_name: Seq<char>,
) -> PackageState {
    if packages.contains_key(package_name) {
        packages[package_name].current_state
    } else {
        PackageState::Unspecified
    }
}

/// A package in a new state.
pub open spec fn changed_package(
    packages: Map<Seq<char>, PackageView>,
    package_name: Seq<char>,
    state: PackageState,
    now: u128,
) -> PackageView {
    if packages.contains_key(package_name) {
        PackageView { current_state: state, last_update: now, ..packages[package_name] }
    } else {
        PackageView { package_name, models: Map::empty(), current_state: state, last_update: now }
    }
}

/// What these packages make of the states of their models, package by package: the packages
/// after it, and those whose state changed.
pub open spec fn update_packages(
    packages: Map<Seq<char>, PackageView>,
    models: Seq<(Seq<char>, ModelView)>,
    names: Seq<Seq<char>>,
    now: u128,
) -> (Map<Seq<char>, PackageView>, Seq<(Seq<char>, PackageState)>)
    decreases names.len(),
{
    if names.len() == 0 {
        (packages, Seq::empty())
    } else {
        let (before, changes) = update_packages(packages, models, names.drop_last(), now);
        let name = names.last();
        let state = determined_package_state(states_in_package(models, name));
        if known_package_state(before, name) == state {
            (before, changes)
        } else {
            (
                before.insert(name, changed_package(before, name, state, now)),
                changes.push((name, state)),
            )
        }
    }
}

/// What the manager keeps after containers were reported, and the models whose state changed.
pub open spec fn after_containers(
    manager: ManagerView,
    containers: Seq<ContainerStateView>,
    now: u128,
) -> (ManagerView, Seq<(Seq<char>, ModelState)>) {
    let (models, changes) = update_models(
        manager.models,
        containers,
        distinct_names(models_of(containers)),
        now,
    );
    (
        ManagerView {
            models,
            container_to_model: with_containers(manager.container_to_model, containers),
            ..manager
        },
        changes,
    )
}

/// What the manager keeps after it looked at the models of all packages, and the packages
/// whose state changed.
pub open spec fn after_models(manager: ManagerView, now: u128) -> (
    ManagerView,
    Seq<(Seq<char>, PackageState)>,
) {
    let (packages, changes) = update_packages(
        manager.packages,
        manager.models,
        distinct_names(packages_of(manager.models)),
        now,
    );
    (ManagerView { packages, ..manager }, changes)
}

/// What is to be done about a request that was refused.
pub open spec fn failure_note(error_code: ErrorCode) -> Seq<char> {
    match error_code {
        ErrorCode::InvalidStateTransition =>
            "Invalid state transition - checking state machine rules"@,
        ErrorCode::PreconditionFailed => "Preconditions not met - evaluating retry strategy"@,
        ErrorCode::ResourceNotFound => "Resource not found - may need initialization"@,
        _ => "General error - applying default error handling"@,
    }
}

/// The contents of a list of changed packages.
pub open spec fn package_changes_view(changes: Seq<(String, PackageState)>) -> Seq<
    (Seq<char>, PackageState),
> {
    changes.map_values(|change: (String, PackageState)| (change.0@, change.1))
}

/// What is to be stored of models that changed their states.
pub open spec fn model_entries(changes: Seq<(Seq<char>, ModelState)>) -> Seq<
    (Seq<char>, Seq<char>),
> {
    changes.map_values(
        |change: (Seq<char>, ModelState)| (model_state_key(change.0), model_state_label(change.1)),
    )
}

/// What is to be stored of packages that changed their states.
pub open spec fn package_entries(changes: Seq<(Seq<char>, PackageState)>) -> Seq<
    (Seq<char>, Seq<char>),
> {
    changes.map_values(
        |change: (Seq<char>, PackageState)|
            (package_state_key(change.0), package_state_label(change.1)),
    )
}

/// The contents of a list of entries that are to be stored.
pub open spec fn entries_view(entries: Seq<(String, String)>) -> Seq<(Seq<char>, Seq<char>)> {
    entries.map_values(|entry: (String, String)| (entry.0@, entry.1@))
}

/// How a request was dealt with.
#[derive(Clone, Debug)]
pub struct StateChangeReport {
    /// The answer of the state machine.
    pub result: TransitionResult,
    /// The full name of the state that the resource is in.
    pub state_name: String,
    /// What is to be done about a refusal.
    pub failure_note: Option<String>,
    /// The key and the value to be stored.
    pub stored: Option<(String, String)>,
}

/// The contents of an entry that is to be stored.
pub open spec fn entry_view(entry: Option<(String, String)>) -> Option<(Seq<char>, Seq<char>)> {
    match entry {
        Some(pair) => Some((pair.0@, pair.1@)),
        None => None,
    }
}

/// What a report of a node's containers led to.
#[derive(Clone, Debug)]
pub struct ContainerReport {
    /// The models whose state changed, with their new states.
    pub models: Vec<(String, ModelState)>,
    /// The packages whose state changed, with their new states.
    pub packages: Vec<(String, PackageState)>,
    /// The scenarios that are to be brought back to work.
    pub reconcile: Vec<ReconcileRequest>,
    /// The keys and values to be stored.
    pub stored: Vec<(String, String)>,
}

/// What a look at the models led to.
#[derive(Clone, Debug)]
pub struct PackageReport {
    /// The packages whose state changed, with their new states.
    pub packages: Vec<(String, PackageState)>,
    /// The scenarios that are to be brought back to work.
    pub reconcile: Vec<ReconcileRequest>,
    /// The keys and values to be stored.
    pub stored: Vec<(String, String)>,
}

// ---------------------------------------------------------------------------
// The manager
// ---------------------------------------------------------------------------

/// The state manager.
pub struct StateManagerManager {
    state_machine: StateMachine,
    models: StringMap<ModelInfo>,
    packages: StringMap<PackageInfo>,
    container_to_model: StringMap<String>,
    clock: Clock,
}

impl View for StateManagerManager {
    type V = ManagerView;

    closed spec fn view(&self) -> ManagerView {
        ManagerView {
            machine: self.state_machine@,
            models: self.models.entries(),
            packages: self.packages@,
            container_to_model: self.container_to_model@,
        }
    }
}

impl StateManagerManager {
    /// The state machine has its transition tables, what it tracks is sound, and no model is
    /// kept twice.
    pub open spec fn wf(&self) -> bool {
        &&& self.has_tables()
        &&& is_sound(self@.machine)
        &&& keys_distinct(self@.models)
    }

    /// The state machine has its transition tables.
    pub closed spec fn has_tables(&self) -> bool {
        self.state_machine.has_tables()
    }

    /// The sending half of the channel to the action executor, where there is one.
    pub closed spec fn executor(&self) -> Option<UnboundedSender<ActionCommand>> {
        self.state_machine.executor()
    }

    /// The commands that the action executor has been handed, where there is one.
    pub open spec fn executor_actions(&self) -> Option<Seq<ActionCommandView>> {
        handed_over(self.executor())
    }

    /// There is an action executor, and it no longer takes commands.
    pub open spec fn executor_gone(&self) -> bool {
        self.executor() matches Some(sender) && receiver_closed(sender)
    }

    /// What the action executor is handed comes out of this receiving half.
    pub open spec fn executor_is(&self, receiver: UnboundedReceiver<ActionCommand>) -> bool {
        self.executor() matches Some(sender) && joined(sender, receiver)
    }

    /// A manager that knows of no resource yet.
    pub fn new() -> (manager: StateManagerManager)
        ensures
            manager.wf(),
            manager@ == (ManagerView {
                machine: MachineView { resources: Map::empty(), backoff_timers: Map::empty() },
                models: Seq::empty(),
                packages: Map::empty(),
                container_to_model: Map::empty(),
            }),
            manager.executor() is None,
    {
        StateManagerManager {
            state_machine: StateMachine::new(),
            models: StringMap::new(),
            packages: StringMap::new(),
            container_to_model: StringMap::new(),
            clock: Clock::start(),
        }
    }

    /// Opens the channel to the action executor, and gives out its receiving half.
    pub fn initialize(&mut self) -> (receiver: UnboundedReceiver<ActionCommand>)
        requires
            old(self).wf(),
        ensures
            final(self).wf(),
            final(self)@ == old(self)@,
            final(self).executor_actions() == Some(Seq::<ActionCommandView>::empty()),
            final(self).executor_is(receiver),
    {
        self.state_machine.initialize_action_executor()
    }

    /// Whether the counters of the resource that a request is for can still count on.
    pub fn has_room_for_request(&self, state_change: &StateChange) -> (room: bool)
        ensures
            room == room_for_request(self@.machine, state_change@),
    {
        self.state_machine.has_room_for_request(state_change)
    }

    /// Deals with a request. One for a resource of an unknown type is left alone.
    pub fn process_state_change(&mut self, state_change: StateChange) -> (report: Option<
        StateChangeReport,
    >)
        requires
            old(self).wf(),
            room_for_request(old(self)@.machine, state_change@),
        ensures
            final(self).wf(),
            match ResourceType::numbered(state_change.resource_type) {
                None => {
                    &&& report is None
                    &&& final(self)@ == old(self)@
                    &&& final(self).executor() == old(self).executor()
                },
                Some(resource_type) => {
                    &&& report is Some
                    &&& exists|now: u128|
                        {
                            let done = #[trigger] step(old(self)@.machine, state_change@, now);
                            &&& final(self)@ == (ManagerView { machine: done.machine, ..old(self)@ })
                            &&& report->0.result@ == done.result
                            &&& match (done.action, old(self).executor_actions()) {
                                (Some(command), Some(handed)) => {
                                    ||| final(self).executor_actions() == Some(handed.push(command))
                                    ||| final(self).executor_actions() == Some(handed)
                                        && final(self).executor_gone()
                                },
                                _ => final(self).executor() == old(self).executor(),
                            }
                        }
                    &&& report->0.state_name@ == state_name(
                        resource_type,
                        report->0.result.new_state,
                    )
                    &&& optional(report->0.failure_note) == if report->0.result.error_code
                        == ErrorCode::Success {
                        None
                    } else {
                        Some(failure_note(report->0.result.error_code))
                    }
                    &&& entry_view(report->0.stored) == stored_by(
                        resource_type,
                        state_change@.resource_name,
                        report->0.result@,
                    )
                    &&& report->0.stored is Some <==> resource_type == ResourceType::Scenario
                        && report->0.result.error_code == ErrorCode::Success
                },
            },
            forall|receiver: UnboundedReceiver<ActionCommand>| #[trigger]
                final(self).executor_is(receiver) == old(self).executor_is(receiver),
    {
        let resource_type = match ResourceType::from_i32(state_change.resource_type) {
            Some(resource_type) => resource_type,
            None => {
                return None;
            },
        };
        let resource_name = state_change.resource_name.clone();
        let ghost machine = self.state_machine@;
        let ghost change = state_change@;
        let result = self.state_machine.process_state_change(state_change);
        proof {
            let now = choose|now: u128|
                {
                    let done = #[trigger] step(machine, change, now);
                    &&& self.state_machine@ == done.machine
                    &&& result@ == done.result
                };
            law_granted_scenario_is_stored(machine, change, resource_type, now);
        }
        let state_name = state_name_of(resource_type, result.new_state).to_owned();
        let failure_note = if result.is_success() {
            None
        } else {
            Some(handle_transition_failure(&result).to_owned())
        };
        assert forall|receiver: UnboundedReceiver<ActionCommand>| #[trigger]
            self.executor_is(receiver) == old(self).executor_is(receiver) by {
            assert(self.state_machine.executor_is(receiver) == old(
                self,
            ).state_machine.executor_is(receiver));
        }
        let stored = if resource_type == ResourceType::Scenario && result.is_success() {
            match ScenarioState::from_i32(result.new_state) {
                Some(state) => Some(scenario_state_entry(resource_name.as_str(), state)),
                None => None,
            }
        } else {
            None
        };
        Some(StateChangeReport { result, state_name, failure_note, stored })
    }

    /// Deals with what a node reports of its containers. Which scenario holds a package is
    /// told by `scenarios`.
    pub fn process_container_list(
        &mut self,
        container_list: &ContainerList,
        scenarios: &StringMap<String>,
    ) -> (report: ContainerReport)
        requires
            old(self).wf(),
        ensures
            final(self).wf(),
            exists|now: u128|
                {
                    let by_containers = #[trigger] after_containers(
                        old(self)@,
                        infos_of(reported(container_list.containers@)),
                        now,
                    );
                    let by_models = after_models(by_containers.0, now);
                    &&& final(self)@ == by_models.0
                    &&& updates_view(report.models@) == by_containers.1
                    &&& package_changes_view(report.packages@) == by_models.1
                    &&& reconcile_views(report.reconcile@) == reconciled(by_models.1, scenarios@)
                    &&& entries_view(report.stored@) == model_entries(by_containers.1)
                        + package_entries(by_models.1)
                },
            final(self).executor() == old(self).executor(),
    {
        let now = self.clock.now();
        self.process_container_list_at(container_list, scenarios, now)
    }

    /// Deals at the time `now` with what a node reports of its containers: first works out
    /// the states of the models, then those of the packages.
    pub fn process_container_list_at(
        &mut self,
        container_list: &ContainerList,
        scenarios: &StringMap<String>,
        now: u128,
    ) -> (report: ContainerReport)
        requires
            old(self).wf(),
        ensures
            final(self).wf(),
            ({
                let by_containers = after_containers(
                    old(self)@,
                    infos_of(reported(container_list.containers@)),
                    now,
                );
                let by_models = after_models(by_containers.0, now);
                &&& final(self)@ == by_models.0
                &&& updates_view(report.models@) == by_containers.1
                &&& package_changes_view(report.packages@) == by_models.1
                &&& reconcile_views(report.reconcile@) == reconciled(by_models.1, scenarios@)
                &&& entries_view(report.stored@) == model_entries(by_containers.1)
                    + package_entries(by_models.1)
            }),
            final(self).executor() == old(self).executor(),
    {
        let infos = container_infos(&container_list.containers);
        let models = self.process_containers_for_model_states(&infos, now);
        let report = self.process_models_for_package_states(scenarios, now);
        let mut stored = entries_of_models(&models);
        let mut entries = report.stored;
        let ghost before = stored@;
        let ghost added = entries@;
        stored.append(&mut entries);
        assert(entries_view(stored@) =~= entries_view(before) + entries_view(added));
        ContainerReport { models, packages: report.packages, reconcile: report.reconcile, stored }
    }

    /// Works out the states of the models that containers belong to. Gives the models whose
    /// state changed.
    pub fn process_containers_for_model_states(
        &mut self,
        container_infos: &Vec<ContainerStateInfo>,
        now: u128,
    ) -> (changes: Vec<(String, ModelState)>)
        requires
            old(self).wf(),
        ensures
            final(self).wf(),
            final(self)@ == after_containers(old(self)@, container_views(container_infos@), now).0,
            updates_view(changes@) == after_containers(
                old(self)@,
                container_views(container_infos@),
                now,
            ).1,
            final(self).executor() == old(self).executor(),
    {
        let ghost containers = container_views(container_infos@);
        let ghost manager = self@;
        let mut names: Vec<Option<String>> = Vec::new();
        let mut i: usize = 0;
        while i < container_infos.len()
            invariant
                i <= container_infos@.len(),
                self.wf(),
                containers == container_views(container_infos@),
                self@ == (ManagerView {
                    container_to_model: with_containers(
                        manager.container_to_model,
                        containers.take(i as int),
                    ),
                    ..manager
                }),
                names@.len() == i,
                forall|j: int|
                    0 <= j < i ==> optional(#[trigger] names@[j]) == model_of(containers[j]),
                self.executor() == old(self).executor(),
            decreases container_infos@.len() - i,
        {
            let container = &container_infos[i];
            assert(containers.take(i + 1).drop_last() =~= containers.take(i as int));
            assert(containers.take(i + 1).last() == container@);
            let model_name = self.extract_model_name_from_container(container);
            if let Some(name) = &model_name {
                self.container_to_model.insert(container.container_id.clone(), name.clone());
            }
            names.push(model_name);
            i += 1;
        }
        assert(containers.take(container_infos@.len() as int) =~= containers);
        assert(optionals(names@) =~= models_of(containers));
        let distinct = distinct_names_of(&names);
        let ghost all = distinct_names(models_of(containers));
        let ghost noted = self@.container_to_model;
        let mut changes: Vec<(String, ModelState)> = Vec::new();
        let mut i: usize = 0;
        assert(updates_view(changes@) =~= Seq::<(Seq<char>, ModelState)>::empty());
        while i < distinct.len()
            invariant
                i <= distinct@.len(),
                self.wf(),
                all == texts(distinct@),
                containers == container_views(container_infos@),
                self@ == (ManagerView {
                    models: update_models(
                        manager.models,
                        containers,
                        all.take(i as int),
                        now,
                    ).0,
                    container_to_model: noted,
                    ..manager
                }),
                updates_view(changes@) == update_models(
                    manager.models,
                    containers,
                    all.take(i as int),
                    now,
                ).1,
                self.executor() == old(self).executor(),
            decreases distinct@.len() - i,
        {
            let name = distinct[i].as_str();
            let ghost before = changes@;
            assert(all.take(i + 1).drop_last() =~= all.take(i as int));
            assert(all[i as int] == name@);
            let own = own_containers(container_infos, name);
            let new_state = self.determine_model_state_from_containers(own.as_slice());
            let (old_state, model_name, package_name) = match self.models.get(name) {
                Some(known) => (
                    known.current_state,
                    known.model_name.clone(),
                    known.package_name.clone(),
                ),
                None => (
                    ModelState::Unspecified,
                    name.to_owned(),
                    before_first_str(name, '_'),
                ),
            };
            if old_state != new_state {
                self.models.insert(
                    name.to_owned(),
                    ModelInfo {
                        model_name,
                        package_name,
                        containers: own,
                        current_state: new_state,
                        last_update: now,
                    },
                );
                changes.push((name.to_owned(), new_state));
                assert(updates_view(changes@) =~= updates_view(before).push((name@, new_state)));
            }
            i += 1;
        }
        assert(all.take(distinct@.len() as int) =~= all);
        changes
    }

    /// Works out the states of all packages from those of their models. Gives the packages
    /// whose state changed, and asks for the scenarios of those that are in error now to be
    /// brought back to work. Which scenario holds a package is told by `scenarios`.
    pub fn process_models_for_package_states(
        &mut self,
        scenarios: &StringMap<String>,
        now: u128,
    ) -> (report: PackageReport)
        requires
            old(self).wf(),
        ensures
            final(self).wf(),
            final(self)@ == after_models(old(self)@, now).0,
            package_changes_view(report.packages@) == after_models(old(self)@, now).1,
            reconcile_views(report.reconcile@) == reconciled(
                after_models(old(self)@, now).1,
                scenarios@,
            ),
            entries_view(report.stored@) == package_entries(after_models(old(self)@, now).1),
            final(self).executor() == old(self).executor(),
    {
        let ghost manager = self@;
        let ghost models = self.models.entries();
        let count: usize = self.models.len();
        let mut names: Vec<Option<String>> = Vec::new();
        let mut i: usize = 0;
        while i < count
            invariant
                i <= count == models.len(),
                models == self.models.entries(),
                names@.len() == i,
                forall|j: int|
                    0 <= j < i ==> optional(#[trigger] names@[j]) == Some(models[j].1.package_name),
            decreases count - i,
        {
            names.push(Some(self.models.value_at(i).package_name.clone()));
            i += 1;
        }
        assert(optionals(names@) =~= packages_of(models));
        let distinct = distinct_names_of(&names);
        let ghost all = distinct_names(packages_of(models));
        let mut changes: Vec<(String, PackageState)> = Vec::new();
        let mut i: usize = 0;
        assert(package_changes_view(changes@) =~= Seq::<(Seq<char>, PackageState)>::empty());
        while i < distinct.len()
            invariant
                i <= distinct@.len(),
                self.wf(),
                all == texts(distinct@),
                models == manager.models,
                self@ == (ManagerView {
                    packages: update_packages(
                        manager.packages,
                        models,
                        all.take(i as int),
                        now,
                    ).0,
                    ..manager
                }),
                package_changes_view(changes@) == update_packages(
                    manager.packages,
                    models,
                    all.take(i as int),
                    now,
                ).1,
                self.executor() == old(self).executor(),
            decreases distinct@.len() - i,
        {
            let name = distinct[i].as_str();
            let ghost before = changes@;
            assert(all.take(i + 1).drop_last() =~= all.take(i as int));
            assert(all[i as int] == name@);
            let states = self.model_states_in_package(name);
            let new_state = package_state_by_models(&states);
            let old_state = match self.packages.get(name) {
                Some(known) => known.current_state,
                None => PackageState::Unspecified,
            };
            if old_state != new_state {
                let ghost packages = self.packages@;
                let updated = match self.packages.remove(name) {
                    Some(known) => PackageInfo {
                        package_name: known.package_name,
                        models: known.models,
                        current_state: new_state,
                        last_update: now,
                    },
                    None => PackageInfo {
                        package_name: name.to_owned(),
                        models: StringMap::new(),
                        current_state: new_state,
                        last_update: now,
                    },
                };
                let ghost view = updated@;
                self.packages.insert(name.to_owned(), updated);
                assert(self.packages@ =~= packages.insert(name@, view));
                changes.push((name.to_owned(), new_state));
                assert(package_changes_view(changes@) =~= package_changes_view(before).push(
                    (name@, new_state),
                ));
            }
            i += 1;
        }
        assert(all.take(distinct@.len() as int) =~= all);
        let reconcile = packages_to_reconcile(&changes, scenarios);
        let stored = entries_of_packages(&changes);
        PackageReport { packages: changes, reconcile, stored }
    }

    fn model_states_in_package(&self, package_name: &str) -> (states: Vec<ModelState>)
        ensures
            states@ == states_in_package(self@.models, package_name@),
    {
        let ghost models = self.models.entries();
        let count: usize = self.models.len();
        let mut states: Vec<ModelState> = Vec::new();
        let mut i: usize = 0;
        while i < count
            invariant
                i <= count == models.len(),
                models == self.models.entries(),
                states@ == states_in_package(models.take(i as int), package_name@),
            decreases count - i,
        {
            let model = self.models.value_at(i);
            assert(models.take(i + 1).drop_last() =~= models.take(i as int));
            if str_eq(model.package_name.as_str(), package_name) {
                states.push(model.current_state);
            }
            i += 1;
        }
        assert(models.take(count as int) =~= models);
        states
    }

    /// The model that a container belongs to.
    pub fn extract_model_name_from_container(&self, container: &ContainerStateInfo) -> (model_name:
        Option<String>)
        ensures
            optional(model_name) == model_of(container@),
    {
        model_name_of(container)
    }

    /// The package that a model belongs to.
    pub fn extract_package_name_from_model(&self, model_name: &str) -> (package_name: Option<
        String,
    >)
        ensures
            optional(package_name) == Some(package_of(model_name@)),
    {
        Some(before_first_str(model_name, '_'))
    }

    /// The state of a model with these containers.
    pub fn determine_model_state_from_containers(&self, containers: &[ContainerStateInfo]) -> (state:
        ModelState)
        ensures
            state == determined_model_state(container_views(containers@)),
    {
        model_state_by_containers(containers)
    }

    /// The state of a package with these models.
    pub fn determine_package_state_from_models(&self, models: &[&ModelInfo]) -> (state: PackageState)
        ensures
            state == determined_package_state(
                models@.map_values(|model: &ModelInfo| model.current_state),
            ),
    {
        let ghost all = models@.map_values(|model: &ModelInfo| model.current_state);
        let mut states: Vec<ModelState> = Vec::new();
        let mut i: usize = 0;
        while i < models.len()
            invariant
                i <= models@.len(),
                all == models@.map_values(|model: &ModelInfo| model.current_state),
                states@ == all.take(i as int),
            decreases models@.len() - i,
        {
            states.push(models[i].current_state);
            assert(states@ =~= all.take(i + 1));
            i += 1;
        }
        assert(all.take(models@.len() as int) =~= all);
        package_state_by_models(&states)
    }
}

/// What is to be done about a request that was refused.
pub fn handle_transition_failure(result: &TransitionResult) -> (note: &'static str)
    ensures
        note@ == failure_note(result.error_code),
{
    match result.error_code {
        ErrorCode::InvalidStateTransition =>
            "Invalid state transition - checking state machine rules",
        ErrorCode::PreconditionFailed => "Preconditions not met - evaluating retry strategy",
        ErrorCode::ResourceNotFound => "Resource not found - may need initialization",
        _ => "General error - applying default error handling",
    }
}

/// What is to be stored of models that changed their states.
pub fn entries_of_models(changes: &Vec<(String, ModelState)>) -> (entries: Vec<(String, String)>)
    ensures
        entries_view(entries@) == model_entries(updates_view(changes@)),
{
    let ghost all = model_entries(updates_view(changes@));
    let mut entries: Vec<(String, String)> = Vec::new();
    let mut i: usize = 0;
    while i < changes.len()
        invariant
            i <= changes@.len(),
            all == model_entries(updates_view(changes@)),
            entries@.len() == i,
            forall|j: int|
                0 <= j < i ==> ((#[trigger] entries@[j]).0@, entries@[j].1@) == all[j],
        decreases changes@.len() - i,
    {
        entries.push(model_state_entry(changes[i].0.as_str(), changes[i].1));
        i += 1;
    }
    assert(entries_view(entries@) =~= all);
    entries
}

/// What is to be stored of packages that changed their states.
pub fn entries_of_packages(changes: &Vec<(String, PackageState)>) -> (entries: Vec<(String, String)>)
    ensures
        entries_view(entries@) == package_entries(package_changes_view(changes@)),
{
    let ghost all = package_entries(package_changes_view(changes@));
    let mut entries: Vec<(String, String)> = Vec::new();
    let mut i: usize = 0;
    while i < changes.len()
        invariant
            i <= changes@.len(),
            all == package_entries(package_changes_view(changes@)),
            entries@.len() == i,
            forall|j: int|
                0 <= j < i ==> ((#[trigger] entries@[j]).0@, entries@[j].1@) == all[j],
        decreases changes@.len() - i,
    {
        entries.push(package_state_entry(changes[i].0.as_str(), changes[i].1));
        i += 1;
    }
    assert(entries_view(entries@) =~= all);
    entries
}

/// What is kept of the containers that a node reports.
pub fn container_infos(containers: &Vec<ContainerInfo>) -> (infos: Vec<ContainerStateInfo>)
    ensures
        container_views(infos@) == infos_of(reported(containers@)),
{
    let ghost all = infos_of(reported(containers@));
    let mut infos: Vec<ContainerStateInfo> = Vec::new();
    let mut i: usize = 0;
    while i < containers.len()
        invariant
            i <= containers@.len(),
            all == infos_of(reported(containers@)),
            infos@.len() == i,
            forall|j: int| 0 <= j < i ==> (#[trigger] infos@[j])@ == all[j],
        decreases containers@.len() - i,
    {
        let container = &containers[i];
        infos.push(
            ContainerStateInfo {
                container_id: container.id.clone(),
                container_names: duplicate_texts(&container.names),
                image: container.image.clone(),
                state: container.state.duplicate(),
                config: container.config.duplicate(),
                annotations: container.annotation.duplicate(),
            },
        );
        i += 1;
    }
    assert(container_views(infos@) =~= all);
    infos
}

fn own_containers(containers: &Vec<ContainerStateInfo>, model_name: &str) -> (own: Vec<
    ContainerStateInfo,
>)
    ensures
        container_views(own@) == containers_of_model(container_views(containers@), model_name@),
{
    let ghost all = container_views(containers@);
    let mut own: Vec<ContainerStateInfo> = Vec::new();
    let mut i: usize = 0;
    assert(container_views(own@) =~= containers_of_model(all.take(0), model_name@));
    while i < containers.len()
        invariant
            i <= containers@.len(),
            all == container_views(containers@),
            container_views(own@) == containers_of_model(all.take(i as int), model_name@),
        decreases containers@.len() - i,
    {
        let container = &containers[i];
        let ghost before = own@;
        assert(all.take(i + 1).drop_last() =~= all.take(i as int));
        assert(all.take(i + 1).last() == container@);
        if let Some(name) = model_name_of(container) {
            if str_eq(name.as_str(), model_name) {
                own.push(container.duplicate());
                assert(container_views(own@) =~= container_views(before).push(container@));
            }
        }
        i += 1;
    }
    assert(all.take(containers@.len() as int) =~= all);
    own
}

} // verus!
