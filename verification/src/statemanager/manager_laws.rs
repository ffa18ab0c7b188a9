//! What holds of the manager whatever the nodes report.

use crate::grouping::{
    distinct_names, law_distinct_names, lemma_contains_push, lemma_no_duplicates_push,
};
use crate::messages::{ErrorCode, ModelState, PackageState};
use crate::statemanager::aggregation::{
    determined_model_state, determined_package_state, law_model_state_is_specified, model_of,
};
use crate::statemanager::manager::{
    after_containers, after_models, changed_model, containers_of_model, failure_note,
    known_model_state,
    known_package_state, models_of, packages_of, states_in_package, update_models, update_packages,
    with_containers, ManagerView,
};
use crate::statemanager::reconcile::{
    law_failed_packages_are_reconciled, packages_in_error,
};
use crate::statemanager::types::{ContainerStateView, ModelView, PackageView};
use crate::string_map::{entries_map, keys_distinct, lemma_entries_insert};
use vstd::prelude::*;

verus! {

// ---------------------------------------------------------------------------
// Models
// ---------------------------------------------------------------------------

/// The state that a report of containers brings a model into.
pub open spec fn reported_model_state(
    containers: Seq<ContainerStateView>,
    model_name: Seq<char>,
) -> ModelState {
    determined_model_state(containers_of_model(containers, model_name))
}

/// The models that containers belong to, each once.
pub open spec fn reported_models(containers: Seq<ContainerStateView>) -> Seq<Seq<char>> {
    distinct_names(models_of(containers))
}

proof fn lemma_update_models(
    models: Seq<(Seq<char>, ModelView)>,
    containers: Seq<ContainerStateView>,
    names: Seq<Seq<char>>,
    now: u128,
    name: Seq<char>,
    state: ModelState,
)
    requires
        keys_distinct(models),
        names.no_duplicates(),
    ensures
        ({
            let after = update_models(models, containers, names, now);
            let known = entries_map(models);
            let map = entries_map(after.0);
            &&& keys_distinct(after.0)
            &&& names.contains(name) ==> map.contains_key(name) && map[name].current_state
                == reported_model_state(containers, name)
            &&& !names.contains(name) ==> map.contains_key(name) == known.contains_key(name)
            &&& !names.contains(name) && known.contains_key(name) ==> map[name] == known[name]
            &&& known.contains_key(name) ==> map[name].package_name == known[name].package_name
            &&& after.1.contains((name, state)) <==> {
                &&& names.contains(name)
                &&& state == reported_model_state(containers, name)
                &&& state != known_model_state(models, name)
            }
        }),
    decreases names.len(),
{
    if names.len() > 0 {
        let rest = names.drop_last();
        let last = names.last();
        lemma_no_duplicates_push(names);
        lemma_update_models(models, containers, rest, now, name, state);
        lemma_update_models(models, containers, rest, now, last, state);
        lemma_contains_push(rest, last, name);
        let (before, changes) = update_models(models, containers, rest, now);
        let own = containers_of_model(containers, last);
        law_model_state_is_specified(own);
        lemma_entries_insert(before, last, changed_model(before, last, own, now));
        lemma_contains_push(changes, (last, determined_model_state(own)), (name, state));
    }
}

/// A report of containers brings every model that they belong to into the state that they
/// make up, and lists exactly the models that were in another state before. No other model is
/// touched, and none changes its package.
pub proof fn law_report_decides_models(
    manager: ManagerView,
    containers: Seq<ContainerStateView>,
    now: u128,
    name: Seq<char>,
    state: ModelState,
)
    requires
        keys_distinct(manager.models),
    ensures
        ({
            let after = after_containers(manager, containers, now);
            let known = entries_map(manager.models);
            let map = entries_map(after.0.models);
            let told = reported_models(containers).contains(name);
            &&& keys_distinct(after.0.models)
            &&& told ==> known_model_state(after.0.models, name) == reported_model_state(
                containers,
                name,
            )
            &&& !told ==> map.contains_key(name) == known.contains_key(name)
            &&& !told && known.contains_key(name) ==> map[name] == known[name]
            &&& known.contains_key(name) ==> map[name].package_name == known[name].package_name
            &&& after.1.contains((name, state)) <==> {
                &&& told
                &&& state == reported_model_state(containers, name)
                &&& state != known_model_state(manager.models, name)
            }
        }),
{
    law_distinct_names(models_of(containers));
    lemma_update_models(
        manager.models,
        containers,
        reported_models(containers),
        now,
        name,
        state,
    );
}

/// No model is listed twice among those that a report of containers changed.
pub proof fn law_no_model_is_listed_twice(
    manager: ManagerView,
    containers: Seq<ContainerStateView>,
    now: u128,
    i: int,
    j: int,
)
    requires
        keys_distinct(manager.models),
        0 <= i < j < after_containers(manager, containers, now).1.len(),
    ensures
        after_containers(manager, containers, now).1[i].0 != after_containers(
            manager,
            containers,
            now,
        ).1[j].0,
{
    law_distinct_names(models_of(containers));
    lemma_model_changes_differ(manager.models, containers, reported_models(containers), now, i, j);
}

proof fn lemma_model_changes_differ(
    models: Seq<(Seq<char>, ModelView)>,
    containers: Seq<ContainerStateView>,
    names: Seq<Seq<char>>,
    now: u128,
    i: int,
    j: int,
)
    requires
        keys_distinct(models),
        names.no_duplicates(),
        0 <= i < j < update_models(models, containers, names, now).1.len(),
    ensures
        update_models(models, containers, names, now).1[i].0 != update_models(
            models,
            containers,
            names,
            now,
        ).1[j].0,
    decreases names.len(),
{
    if names.len() > 0 {
        let rest = names.drop_last();
        let before = update_models(models, containers, rest, now).1;
        lemma_no_duplicates_push(names);
        if j < before.len() {
            lemma_model_changes_differ(models, containers, rest, now, i, j);
        } else {
            let earlier = before[i];
            assert(before.contains(earlier));
            lemma_update_models(models, containers, rest, now, earlier.0, earlier.1);
        }
    }
}

/// A container is put down for the model that it was last reported to belong to.
pub proof fn law_container_is_mapped(
    manager: ManagerView,
    containers: Seq<ContainerStateView>,
    now: u128,
    i: int,
)
    requires
        0 <= i < containers.len(),
        model_of(containers[i]) is Some,
        forall|j: int|
            i < j < containers.len() && model_of(#[trigger] containers[j]) is Some
                ==> containers[j].container_id != containers[i].container_id,
    ensures
        ({
            let map = after_containers(manager, containers, now).0.container_to_model;
            &&& map.contains_key(containers[i].container_id)
            &&& Some(map[containers[i].container_id]) == model_of(containers[i])
        }),
{
    lemma_mapped(manager.container_to_model, containers, i);
}

proof fn lemma_mapped(
    map: Map<Seq<char>, Seq<char>>,
    containers: Seq<ContainerStateView>,
    i: int,
)
    requires
        0 <= i < containers.len(),
        model_of(containers[i]) is Some,
        forall|j: int|
            i < j < containers.len() && model_of(#[trigger] containers[j]) is Some
                ==> containers[j].container_id != containers[i].container_id,
    ensures
        with_containers(map, containers).contains_key(containers[i].container_id),
        Some(with_containers(map, containers)[containers[i].container_id]) == model_of(
            containers[i],
        ),
    decreases containers.len(),
{
    let rest = containers.drop_last();
    if i < rest.len() {
        assert(rest[i] == containers[i]);
        assert forall|j: int|
            i < j < rest.len() && model_of(#[trigger] rest[j]) is Some implies rest[j].container_id
            != rest[i].container_id by {
            assert(rest[j] == containers[j]);
        }
        lemma_mapped(map, rest, i);
        assert(containers.last() == containers[containers.len() - 1]);
    }
}

// ---------------------------------------------------------------------------
// Packages
// ---------------------------------------------------------------------------

/// The packages that models belong to, each once.
pub open spec fn packages_with_models(models: Seq<(Seq<char>, ModelView)>) -> Seq<Seq<char>> {
    distinct_names(packages_of(models))
}

/// The state that its models bring a package into.
pub open spec fn package_state_of(
    models: Seq<(Seq<char>, ModelView)>,
    package_name: Seq<char>,
) -> PackageState {
    determined_package_state(states_in_package(models, package_name))
}

proof fn lemma_update_packages(
    packages: Map<Seq<char>, PackageView>,
    models: Seq<(Seq<char>, ModelView)>,
    names: Seq<Seq<char>>,
    now: u128,
    name: Seq<char>,
    state: PackageState,
)
    requires
        names.no_duplicates(),
    ensures
        ({
            let after = update_packages(packages, models, names, now);
            &&& names.contains(name) ==> after.0.contains_key(name)
                && after.0[name].current_state == package_state_of(models, name)
            &&& !names.contains(name) ==> after.0.contains_key(name) == packages.contains_key(name)
            &&& !names.contains(name) && packages.contains_key(name) ==> after.0[name]
                == packages[name]
            &&& after.1.contains((name, state)) <==> {
                &&& names.contains(name)
                &&& state == package_state_of(models, name)
                &&& state != known_package_state(packages, name)
            }
        }),
    decreases names.len(),
{
    if names.len() > 0 {
        let rest = names.drop_last();
        let last = names.last();
        lemma_no_duplicates_push(names);
        lemma_update_packages(packages, models, rest, now, name, state);
        lemma_update_packages(packages, models, rest, now, last, state);
        lemma_contains_push(rest, last, name);
        let (before, changes) = update_packages(packages, models, rest, now);
        lemma_contains_push(changes, (last, package_state_of(models, last)), (name, state));
    }
}

/// After a look at the models every package that has models is in the state that they make
/// up, and the packages that were in another state before are listed, and no others. A
/// package without models is not touched, and neither is any model.
pub proof fn law_models_decide_packages(
    manager: ManagerView,
    now: u128,
    name: Seq<char>,
    state: PackageState,
)
    ensures
        ({
            let after = after_models(manager, now);
            let told = packages_with_models(manager.models).contains(name);
            &&& after.0.models == manager.models
            &&& after.0.machine == manager.machine
            &&& told ==> known_package_state(after.0.packages, name) == package_state_of(
                manager.models,
                name,
            )
            &&& !told ==> after.0.packages.contains_key(name) == manager.packages.contains_key(name)
            &&& !told && manager.packages.contains_key(name) ==> after.0.packages[name]
                == manager.packages[name]
            &&& after.1.contains((name, state)) <==> {
                &&& told
                &&& state == package_state_of(manager.models, name)
                &&& state != known_package_state(manager.packages, name)
            }
        }),
{
    law_distinct_names(packages_of(manager.models));
    lemma_update_packages(
        manager.packages,
        manager.models,
        packages_with_models(manager.models),
        now,
        name,
        state,
    );
}

/// No package is listed twice among those whose state changed.
pub proof fn law_no_package_is_listed_twice(manager: ManagerView, now: u128, i: int, j: int)
    requires
        0 <= i < j < after_models(manager, now).1.len(),
    ensures
        after_models(manager, now).1[i].0 != after_models(manager, now).1[j].0,
{
    law_distinct_names(packages_of(manager.models));
    lemma_package_changes_differ(
        manager.packages,
        manager.models,
        packages_with_models(manager.models),
        now,
        i,
        j,
    );
}

proof fn lemma_package_changes_differ(
    packages: Map<Seq<char>, PackageView>,
    models: Seq<(Seq<char>, ModelView)>,
    names: Seq<Seq<char>>,
    now: u128,
    i: int,
    j: int,
)
    requires
        names.no_duplicates(),
        0 <= i < j < update_packages(packages, models, names, now).1.len(),
    ensures
        update_packages(packages, models, names, now).1[i].0 != update_packages(
            packages,
            models,
            names,
            now,
        ).1[j].0,
    decreases names.len(),
{
    if names.len() > 0 {
        let rest = names.drop_last();
        let before = update_packages(packages, models, rest, now).1;
        lemma_no_duplicates_push(names);
        if j < before.len() {
            lemma_package_changes_differ(packages, models, rest, now, i, j);
        } else {
            let earlier = before[i];
            assert(before.contains(earlier));
            lemma_update_packages(packages, models, rest, now, earlier.0, earlier.1);
        }
    }
}

/// A package leads to a request to bring its scenario back to work when its models put it
/// into error and it was not in error before, and at no other time. It leads to one request.
pub proof fn law_package_in_error_is_reconciled(
    manager: ManagerView,
    scenarios: Map<Seq<char>, Seq<char>>,
    now: u128,
    name: Seq<char>,
)
    ensures
        packages_in_error(after_models(manager, now).1, scenarios).contains(name) <==> {
            &&& packages_with_models(manager.models).contains(name)
            &&& package_state_of(manager.models, name) == PackageState::Error
            &&& known_package_state(manager.packages, name) != PackageState::Error
            &&& scenarios.contains_key(name)
        },
        packages_in_error(after_models(manager, now).1, scenarios).no_duplicates(),
{
    let changes = after_models(manager, now).1;
    law_models_decide_packages(manager, now, name, PackageState::Error);
    law_failed_packages_are_reconciled(changes, scenarios, name);
    assert forall|k: int, l: int| 0 <= k < l < changes.len() implies (#[trigger] changes[k]).0 != (
    #[trigger] changes[l]).0 by {
        law_no_package_is_listed_twice(manager, now, k, l);
    }
    lemma_packages_differ(changes, scenarios);
}

proof fn lemma_packages_differ(
    changes: Seq<(Seq<char>, PackageState)>,
    scenarios: Map<Seq<char>, Seq<char>>,
)
    requires
        forall|k: int, l: int|
            0 <= k < l < changes.len() ==> (#[trigger] changes[k]).0 != (#[trigger] changes[l]).0,
    ensures
        packages_in_error(changes, scenarios).no_duplicates(),
    decreases changes.len(),
{
    if changes.len() > 0 {
        let rest = changes.drop_last();
        let before = packages_in_error(rest, scenarios);
        let last = changes.last().0;
        lemma_packages_differ(rest, scenarios);
        law_failed_packages_are_reconciled(rest, scenarios, last);
        if before.contains(last) {
            let place = choose|k: int|
                0 <= k < rest.len() && rest[k] == (last, PackageState::Error);
            assert(changes[place] == rest[place]);
            assert(changes[place].0 != changes[changes.len() - 1].0);
        }
        assert(forall|i: int| 0 <= i < before.len() ==> before.contains(#[trigger] before[i]));
    }
}

/// Every package that has models is in the state that they make up.
pub open spec fn packages_follow_models(manager: ManagerView) -> bool {
    forall|name: Seq<char>| #[trigger]
        packages_with_models(manager.models).contains(name) ==> known_package_state(
            manager.packages,
            name,
        ) == package_state_of(manager.models, name)
}

/// After every report of containers the packages follow the models.
pub proof fn law_packages_follow_models(
    manager: ManagerView,
    containers: Seq<ContainerStateView>,
    now: u128,
)
    ensures
        packages_follow_models(after_models(after_containers(manager, containers, now).0, now).0),
{
    let between = after_containers(manager, containers, now).0;
    assert forall|name: Seq<char>| #[trigger]
        packages_with_models(between.models).contains(name) implies known_package_state(
        after_models(between, now).0.packages,
        name,
    ) == package_state_of(between.models, name) by {
        law_models_decide_packages(between, now, name, PackageState::Unspecified);
    }
}

/// A report of containers that comes a second time changes no model and no package.
pub proof fn law_same_report_changes_nothing(
    manager: ManagerView,
    containers: Seq<ContainerStateView>,
    now: u128,
    later: u128,
)
    requires
        keys_distinct(manager.models),
    ensures
        ({
            let once = after_models(after_containers(manager, containers, now).0, now).0;
            let again = after_containers(once, containers, later);
            let twice = after_models(again.0, later);
            &&& twice.0.models == once.models
            &&& twice.0.packages == once.packages
            &&& again.1.len() == 0
            &&& twice.1.len() == 0
        }),
{
    let between = after_containers(manager, containers, now).0;
    let once = after_models(between, now).0;
    let names = reported_models(containers);
    assert forall|name: Seq<char>| names.contains(name) implies #[trigger] known_model_state(
        once.models,
        name,
    ) == reported_model_state(containers, name) by {
        law_report_decides_models(manager, containers, now, name, ModelState::Running);
    }
    lemma_no_model_changes(once.models, containers, names, later);
    let again = after_containers(once, containers, later).0;
    law_packages_follow_models(manager, containers, now);
    lemma_no_package_changes(again.packages, again.models, packages_with_models(again.models), later);
}

proof fn lemma_no_model_changes(
    models: Seq<(Seq<char>, ModelView)>,
    containers: Seq<ContainerStateView>,
    names: Seq<Seq<char>>,
    now: u128,
)
    requires
        forall|name: Seq<char>|
            names.contains(name) ==> #[trigger] known_model_state(models, name)
                == reported_model_state(containers, name),
    ensures
        update_models(models, containers, names, now).0 == models,
        update_models(models, containers, names, now).1.len() == 0,
    decreases names.len(),
{
    if names.len() > 0 {
        let rest = names.drop_last();
        assert forall|name: Seq<char>| rest.contains(name) implies #[trigger] known_model_state(
            models,
            name,
        ) == reported_model_state(containers, name) by {
            let i = choose|i: int| 0 <= i < rest.len() && rest[i] == name;
            assert(names[i] == name);
        }
        lemma_no_model_changes(models, containers, rest, now);
        assert(names.contains(names.last()));
    }
}

proof fn lemma_no_package_changes(
    packages: Map<Seq<char>, PackageView>,
    models: Seq<(Seq<char>, ModelView)>,
    names: Seq<Seq<char>>,
    now: u128,
)
    requires
        forall|name: Seq<char>| #[trigger]
            names.contains(name) ==> known_package_state(packages, name) == package_state_of(
                models,
                name,
            ),
    ensures
        update_packages(packages, models, names, now).0 == packages,
        update_packages(packages, models, names, now).1.len() == 0,
    decreases names.len(),
{
    if names.len() > 0 {
        let rest = names.drop_last();
        assert forall|name: Seq<char>| #[trigger] rest.contains(name) implies known_package_state(
            packages,
            name,
        ) == package_state_of(models, name) by {
            let i = choose|i: int| 0 <= i < rest.len() && rest[i] == name;
            assert(names[i] == name);
            assert(names.contains(name));
        }
        lemma_no_package_changes(packages, models, rest, now);
        assert(names.contains(names.last()));
    }
}

/// What is to be done about a refusal depends on what went wrong.
pub proof fn law_failure_notes(error_code: ErrorCode)
    ensures
        failure_note(ErrorCode::InvalidStateTransition)
            == "Invalid state transition - checking state machine rules"@,
        failure_note(ErrorCode::PreconditionFailed)
            == "Preconditions not met - evaluating retry strategy"@,
        failure_note(ErrorCode::ResourceNotFound) == "Resource not found - may need initialization"@,
        error_code != ErrorCode::InvalidStateTransition && error_code
            != ErrorCode::PreconditionFailed && error_code != ErrorCode::ResourceNotFound
            ==> failure_note(error_code) == "General error - applying default error handling"@,
{
}

} // verus!
