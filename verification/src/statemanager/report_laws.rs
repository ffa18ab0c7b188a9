//! What a report of containers makes of models and packages, told by what is in the report.

use crate::grouping::{law_distinct_names, lemma_contains_push, lemma_no_duplicates_push};
use crate::messages::{
    reported, ContainerInfo, ContainerView, ModelState, PackageState, ResourceType, StateChange,
};
use crate::statemanager::aggregation::{
    determined_model_state, determined_package_state, model_of, package_of, package_state_key,
    package_state_label, status_of, statuses_of,
};
use crate::statemanager::manager::{
    after_containers, after_models, changed_model, containers_of_model, entries_view, infos_of,
    known_model_state, known_package_state, model_entries, models_of, package_changes_view,
    package_entries, packages_of,
    states_in_package, update_models, update_packages, with_containers, ManagerView,
};
use crate::statemanager::manager_laws::{
    law_models_decide_packages, law_report_decides_models, packages_with_models, reported_models,
};
use crate::statemanager::model_state::{model_state_key, model_state_label};
use crate::statemanager::reconcile::{reconcile_views, ReconcileRequest};
use crate::statemanager::scenario_state::scenario_state_key;
use crate::statemanager::state_machine::{resources_in_state, updates_view};
use crate::statemanager::types::{
    container_views, ContainerState, ContainerStateInfo, ContainerStateView, ModelView, PackageView,
    ResourceView,
};
use crate::string_map::{entries_map, keys_distinct, lemma_entries_insert};
use crate::text::{after_last, before_first, lowercase};
use crate::text_laws::{law_after_last, law_before_first};
use vstd::prelude::*;

verus! {

// ---------------------------------------------------------------------------
// What is in a report
// ---------------------------------------------------------------------------

/// Every container that a node reports is looked at, with all that is reported of it.
pub proof fn law_report_is_taken_whole(containers: Seq<ContainerView>, i: int)
    requires
        0 <= i < containers.len(),
    ensures
        infos_of(containers).len() == containers.len(),
        ({
            let info = infos_of(containers)[i];
            &&& info.container_id == containers[i].id
            &&& info.container_names == containers[i].names
            &&& info.image == containers[i].image
            &&& info.config == containers[i].config
            &&& info.annotations == containers[i].annotation
            &&& info.state == entries_map(containers[i].state)
        }),
{
}

/// A container belongs to the model that its annotation names.
pub proof fn law_annotation_names_model(container: ContainerStateView)
    requires
        container.annotations.contains_key("pullpiri.io/model"@),
    ensures
        model_of(container) == Some(container.annotations["pullpiri.io/model"@]),
{
}

/// Without an annotation, a container belongs to the model that its first name begins with, up
/// to the first dash.
pub proof fn law_first_name_names_model(container: ContainerStateView)
    requires
        !container.annotations.contains_key("pullpiri.io/model"@),
        container.container_names.len() > 0,
    ensures
        ({
            let name = container.container_names[0];
            match model_of(container) {
                Some(model_name) => {
                    &&& !model_name.contains('-')
                    &&& model_name.len() <= name.len()
                    &&& name.take(model_name.len() as int) == model_name
                    &&& model_name.len() < name.len() ==> name[model_name.len() as int] == '-'
                },
                None => false,
            }
        }),
{
    law_before_first(container.container_names[0], '-');
}

/// Without an annotation and without a name, a container belongs to the model that its image is
/// called by, without what stands before the last slash and after the first colon. Without an
/// image it belongs to none.
pub proof fn law_image_names_model(container: ContainerStateView)
    requires
        !container.annotations.contains_key("pullpiri.io/model"@),
        container.container_names.len() == 0,
    ensures
        container.image.len() == 0 <==> model_of(container) is None,
        model_of(container) is Some ==> exists|before: Seq<char>, after: Seq<char>|
            {
                &&& container.image == #[trigger] (before + model_of(container)->0 + after)
                &&& !model_of(container)->0.contains('/')
                &&& !model_of(container)->0.contains(':')
                &&& !before.contains(':')
                &&& before.len() > 0 ==> before.last() == '/'
                &&& after.len() > 0 ==> after[0] == ':'
            },
{
    if container.image.len() > 0 {
        let image = container.image;
        let untagged = before_first(image, ':');
        let part = after_last(untagged, '/');
        law_before_first(image, ':');
        law_after_last(untagged, '/');
        let before = untagged.take(untagged.len() - part.len());
        let after = image.skip(untagged.len() as int);
        assert(untagged =~= before + part);
        assert(image =~= before + part + after);
        assert(!part.contains(':')) by {
            if part.contains(':') {
                let i = choose|i: int| 0 <= i < part.len() && part[i] == ':';
                assert(untagged[untagged.len() - part.len() + i] == ':');
                assert(untagged.contains(':'));
            }
        }
        assert(!before.contains(':')) by {
            if before.contains(':') {
                let i = choose|i: int| 0 <= i < before.len() && before[i] == ':';
                assert(untagged[i] == ':');
                assert(untagged.contains(':'));
            }
        }
        if before.len() > 0 {
            assert(before.last() == untagged[untagged.len() - part.len() - 1]);
        }
        if after.len() > 0 {
            assert(after[0] == image[untagged.len() as int]);
        }
        assert(model_of(container) == Some(part));
        assert(container.image == before + model_of(container)->0 + after);
    }
}

/// A model belongs to the package that its name begins with, up to the first underscore.
pub proof fn law_model_name_names_package(model_name: Seq<char>)
    ensures
        !package_of(model_name).contains('_'),
        package_of(model_name).len() <= model_name.len(),
        model_name.take(package_of(model_name).len() as int) == package_of(model_name),
        package_of(model_name).len() < model_name.len()
            ==> model_name[package_of(model_name).len() as int] == '_',
{
    law_before_first(model_name, '_');
}

/// The containers from which the state of a model is made up are all those of the report that
/// belong to it, each as often as it is reported, and no others.
pub proof fn law_containers_of_model(
    containers: Seq<ContainerStateView>,
    model_name: Seq<char>,
)
    ensures
        containers_of_model(containers, model_name) == containers.filter(
            |container: ContainerStateView| model_of(container) == Some(model_name),
        ),
        forall|container: ContainerStateView| #[trigger]
            containers_of_model(containers, model_name).contains(container) <==> {
                &&& containers.contains(container)
                &&& model_of(container) == Some(model_name)
            },
    decreases containers.len(),
{
    reveal(Seq::filter);
    if containers.len() > 0 {
        let rest = containers.drop_last();
        let last = containers.last();
        law_containers_of_model(rest, model_name);
        assert(containers =~= rest.push(last));
        assert forall|container: ContainerStateView| #[trigger]
            containers_of_model(containers, model_name).contains(container) <==> {
                &&& containers.contains(container)
                &&& model_of(container) == Some(model_name)
            } by {
            lemma_contains_push(rest, last, container);
            lemma_contains_push(containers_of_model(rest, model_name), last, container);
            assert(containers_of_model(rest, model_name).contains(container) <==> rest.contains(
                container,
            ) && model_of(container) == Some(model_name));
        }
    }
}

/// How many containers of a report belong to a model.
pub open spec fn number_belonging(
    containers: Seq<ContainerStateView>,
    model_name: Seq<char>,
) -> nat {
    Set::new(
        |i: int| 0 <= i < containers.len() && model_of(containers[i]) == Some(model_name),
    ).len()
}

/// As many containers make up the state of a model as belong to it.
pub proof fn law_number_of_containers(containers: Seq<ContainerStateView>, model_name: Seq<char>)
    ensures
        containers_of_model(containers, model_name).len() == number_belonging(
            containers,
            model_name,
        ),
        Set::new(
            |i: int| 0 <= i < containers.len() && model_of(containers[i]) == Some(model_name),
        ).finite(),
    decreases containers.len(),
{
    let places = Set::new(
        |i: int| 0 <= i < containers.len() && model_of(containers[i]) == Some(model_name),
    );
    if containers.len() == 0 {
        assert(places =~= Set::<int>::empty());
    } else {
        let rest = containers.drop_last();
        let last = containers.len() - 1;
        let before = Set::new(
            |i: int| 0 <= i < rest.len() && model_of(rest[i]) == Some(model_name),
        );
        law_number_of_containers(rest, model_name);
        assert(containers.last() == containers[last]);
        assert forall|i: int| 0 <= i < last implies rest[i] == containers[i] by {}
        if model_of(containers[last]) == Some(model_name) {
            assert(places =~= before.insert(last));
            assert(!before.contains(last));
        } else {
            assert(places =~= before);
        }
    }
}

// ---------------------------------------------------------------------------
// Models
// ---------------------------------------------------------------------------

/// A container reports this word as its status, in upper or lower case.
pub open spec fn reports(container: ContainerStateView, word: Seq<char>) -> bool {
    container.state.contains_key("status"@) && lowercase(container.state["status"@]) == word
}

/// A container has ended.
pub open spec fn reports_end(container: ContainerStateView) -> bool {
    reports(container, "exited"@) || reports(container, "stopped"@)
}

/// A container is dead: it reports no status, or none of those that stand for another state.
pub open spec fn is_lost(container: ContainerStateView) -> bool {
    &&& !reports(container, "running"@)
    &&& !reports(container, "created"@)
    &&& !reports(container, "paused"@)
    &&& !reports_end(container)
}

proof fn lemma_status(container: ContainerStateView)
    ensures
        status_of(container) == ContainerState::Running <==> reports(container, "running"@),
        status_of(container) == ContainerState::Created <==> reports(container, "created"@),
        status_of(container) == ContainerState::Paused <==> reports(container, "paused"@),
        status_of(container) == ContainerState::Exited <==> reports_end(container),
        status_of(container) == ContainerState::Dead <==> is_lost(container),
{
    reveal_strlit("running");
    reveal_strlit("created");
    reveal_strlit("paused");
    reveal_strlit("exited");
    reveal_strlit("stopped");
    assert("running"@[0] == 'r');
    assert("created"@[0] == 'c');
    assert("paused"@[0] == 'p');
    assert("exited"@[0] == 'e');
    assert("stopped"@[0] == 's');
}

/// A container that reports that it is dead, or is being removed, or reports no status, is dead.
pub proof fn law_dead_words(container: ContainerStateView)
    ensures
        reports(container, "dead"@) ==> is_lost(container),
        reports(container, "removing"@) ==> is_lost(container),
        !container.state.contains_key("status"@) ==> is_lost(container),
{
    reveal_strlit("running");
    reveal_strlit("created");
    reveal_strlit("paused");
    reveal_strlit("exited");
    reveal_strlit("stopped");
    reveal_strlit("dead");
    reveal_strlit("removing");
    assert("dead"@.len() == 4);
    assert("removing"@.len() == 8);
    assert("running"@.len() == 7);
    assert("created"@.len() == 7);
    assert("paused"@.len() == 6);
    assert("exited"@.len() == 6);
    assert("stopped"@.len() == 7);
}

/// A model with containers has failed exactly when one of them is dead; it is paused, has ended,
/// or is yet to start exactly when that holds of all of them; otherwise it runs. A model without
/// containers has failed.
pub proof fn law_containers_make_up_model(containers: Seq<ContainerStateView>)
    ensures
        containers.len() == 0 ==> determined_model_state(containers) == ModelState::Failed,
        containers.len() > 0 ==> {
            let state = determined_model_state(containers);
            &&& state == ModelState::Failed <==> exists|i: int|
                0 <= i < containers.len() && is_lost(#[trigger] containers[i])
            &&& state == ModelState::Unknown <==> forall|i: int|
                0 <= i < containers.len() ==> reports(#[trigger] containers[i], "paused"@)
            &&& state == ModelState::Succeeded <==> forall|i: int|
                0 <= i < containers.len() ==> reports_end(#[trigger] containers[i])
            &&& state == ModelState::Pending <==> forall|i: int|
                0 <= i < containers.len() ==> reports(#[trigger] containers[i], "created"@)
            &&& state == ModelState::Failed || state == ModelState::Unknown || state
                == ModelState::Succeeded || state == ModelState::Pending || state
                == ModelState::Running
        },
{
    let statuses = statuses_of(containers);
    assert forall|i: int| 0 <= i < containers.len() implies {
        &&& (#[trigger] statuses[i] == ContainerState::Dead) == is_lost(containers[i])
        &&& (statuses[i] == ContainerState::Paused) == reports(containers[i], "paused"@)
        &&& (statuses[i] == ContainerState::Created) == reports(containers[i], "created"@)
        &&& (statuses[i] == ContainerState::Exited) == reports_end(containers[i])
    } by {
        lemma_status(containers[i]);
    }
    if containers.len() > 0 {
        let first = statuses[0];
        assert(statuses.len() == containers.len());
        if statuses.contains(ContainerState::Dead) {
            let i = choose|i: int| 0 <= i < statuses.len() && statuses[i] == ContainerState::Dead;
            assert(is_lost(containers[i]));
        }
        if exists|i: int| 0 <= i < containers.len() && is_lost(#[trigger] containers[i]) {
            let i = choose|i: int| 0 <= i < containers.len() && is_lost(#[trigger] containers[i]);
            assert(statuses[i] == ContainerState::Dead);
            assert(statuses.contains(ContainerState::Dead));
        }
        let all_paused = forall|i: int|
            0 <= i < containers.len() ==> reports(#[trigger] containers[i], "paused"@);
        let all_ended = forall|i: int|
            0 <= i < containers.len() ==> reports_end(#[trigger] containers[i]);
        let all_created = forall|i: int|
            0 <= i < containers.len() ==> reports(#[trigger] containers[i], "created"@);
        assert(all_paused == (forall|i: int|
            0 <= i < statuses.len() ==> #[trigger] statuses[i] == ContainerState::Paused)) by {
            if all_paused {
                assert forall|i: int| 0 <= i < statuses.len() implies #[trigger] statuses[i]
                    == ContainerState::Paused by {
                    assert(reports(containers[i], "paused"@));
                }
            } else {
                let i = choose|i: int|
                    0 <= i < containers.len() && !reports(#[trigger] containers[i], "paused"@);
                assert(statuses[i] != ContainerState::Paused);
            }
        }
        assert(all_ended == (forall|i: int|
            0 <= i < statuses.len() ==> #[trigger] statuses[i] == ContainerState::Exited)) by {
            if all_ended {
                assert forall|i: int| 0 <= i < statuses.len() implies #[trigger] statuses[i]
                    == ContainerState::Exited by {
                    assert(reports_end(containers[i]));
                }
            } else {
                let i = choose|i: int|
                    0 <= i < containers.len() && !reports_end(#[trigger] containers[i]);
                assert(statuses[i] != ContainerState::Exited);
            }
        }
        assert(all_created == (forall|i: int|
            0 <= i < statuses.len() ==> #[trigger] statuses[i] == ContainerState::Created)) by {
            if all_created {
                assert forall|i: int| 0 <= i < statuses.len() implies #[trigger] statuses[i]
                    == ContainerState::Created by {
                    assert(reports(containers[i], "created"@));
                }
            } else {
                let i = choose|i: int|
                    0 <= i < containers.len() && !reports(#[trigger] containers[i], "created"@);
                assert(statuses[i] != ContainerState::Created);
            }
        }
        assert(first == statuses[0]);
    }
}

/// A container of the report belongs to the model.
pub open spec fn belongs(
    containers: Seq<ContainerStateView>,
    model_name: Seq<char>,
    i: int,
) -> bool {
    0 <= i < containers.len() && model_of(containers[i]) == Some(model_name)
}

/// After a report every model that some container of it belongs to is in the state that all its
/// containers in the report make up: failed exactly when one of them is dead; paused, ended, or
/// yet to start exactly when that holds of all of them; and running otherwise.
pub proof fn law_report_makes_up_model(
    manager: ManagerView,
    containers: Seq<ContainerStateView>,
    now: u128,
    model_name: Seq<char>,
)
    requires
        keys_distinct(manager.models),
        exists|i: int| belongs(containers, model_name, i),
    ensures
        ({
            let after = after_containers(manager, containers, now).0;
            let state = known_model_state(after.models, model_name);
            &&& state == ModelState::Failed <==> exists|i: int| #[trigger]
                belongs(containers, model_name, i) && is_lost(containers[i])
            &&& state == ModelState::Unknown <==> forall|i: int| #[trigger]
                belongs(containers, model_name, i) ==> reports(containers[i], "paused"@)
            &&& state == ModelState::Succeeded <==> forall|i: int| #[trigger]
                belongs(containers, model_name, i) ==> reports_end(containers[i])
            &&& state == ModelState::Pending <==> forall|i: int| #[trigger]
                belongs(containers, model_name, i) ==> reports(containers[i], "created"@)
            &&& state == ModelState::Failed || state == ModelState::Unknown || state
                == ModelState::Succeeded || state == ModelState::Pending || state
                == ModelState::Running
        }),
{
    let own = containers_of_model(containers, model_name);
    lemma_told(containers, model_name);
    law_report_decides_models(manager, containers, now, model_name, ModelState::Running);
    law_containers_of_model(containers, model_name);
    law_containers_make_up_model(own);
    assert forall|i: int| #[trigger] belongs(containers, model_name, i) implies exists|j: int|
        0 <= j < own.len() && #[trigger] own[j] == containers[i] by {
        assert(containers.contains(containers[i]));
        assert(own.contains(containers[i]));
    }
    assert forall|j: int| 0 <= j < own.len() implies exists|i: int| #[trigger]
        belongs(containers, model_name, i) && containers[i] == #[trigger] own[j] by {
        assert(own.contains(own[j]));
        assert(containers.contains(own[j]));
        let i = choose|i: int| 0 <= i < containers.len() && containers[i] == own[j];
        assert(belongs(containers, model_name, i));
    }
    let some = choose|i: int| belongs(containers, model_name, i);
    assert(belongs(containers, model_name, some));
    assert(own.len() > 0);
}

/// The models that a report tells of are those that some container of it belongs to.
proof fn lemma_told(containers: Seq<ContainerStateView>, model_name: Seq<char>)
    ensures
        reported_models(containers).contains(model_name) <==> exists|i: int|
            belongs(containers, model_name, i),
{
    let models = models_of(containers);
    law_distinct_names(models);
    if models.contains(Some(model_name)) {
        let i = choose|i: int| 0 <= i < models.len() && models[i] == Some(model_name);
        assert(belongs(containers, model_name, i));
    }
    if exists|i: int| belongs(containers, model_name, i) {
        let i = choose|i: int| belongs(containers, model_name, i);
        assert(models[i] == Some(model_name));
    }
}

/// A model that no container of a report belongs to is not touched by it. One that a report
/// leaves in its state is not touched either. One that changes its state is put down with all
/// its containers of the report and the time; where it was not known, also with its name and the
/// package that its name begins with.
pub proof fn law_what_is_kept_of_a_model(
    manager: ManagerView,
    containers: Seq<ContainerStateView>,
    now: u128,
    model_name: Seq<char>,
)
    requires
        keys_distinct(manager.models),
    ensures
        ({
            let (after, changes) = after_containers(manager, containers, now);
            let known = entries_map(manager.models);
            let map = entries_map(after.models);
            let told = exists|i: int| belongs(containers, model_name, i);
            let changed = told && known_model_state(after.models, model_name) != known_model_state(
                manager.models,
                model_name,
            );
            &&& !changed ==> map.contains_key(model_name) == known.contains_key(model_name)
            &&& !changed && known.contains_key(model_name) ==> map[model_name] == known[model_name]
            &&& changed ==> {
                let model = map[model_name];
                &&& map.contains_key(model_name)
                &&& model.containers == containers.filter(
                    |container: ContainerStateView| model_of(container) == Some(model_name),
                )
                &&& model.last_update == now
                &&& model.model_name == if known.contains_key(model_name) {
                    known[model_name].model_name
                } else {
                    model_name
                }
                &&& model.package_name == if known.contains_key(model_name) {
                    known[model_name].package_name
                } else {
                    package_of(model_name)
                }
            }
            &&& changed <==> exists|state: ModelState| changes.contains((model_name, state))
            &&& forall|state: ModelState| #[trigger]
                changes.contains((model_name, state)) ==> state == known_model_state(
                    after.models,
                    model_name,
                )
            &&& after.machine == manager.machine
            &&& after.packages == manager.packages
        }),
{
    let (after, changes) = after_containers(manager, containers, now);
    let state = known_model_state(after.models, model_name);
    lemma_told(containers, model_name);
    law_containers_of_model(containers, model_name);
    law_report_decides_models(manager, containers, now, model_name, state);
    law_distinct_names(models_of(containers));
    lemma_kept(manager.models, containers, reported_models(containers), now, model_name);
    assert forall|other: ModelState| #[trigger] changes.contains((model_name, other)) implies other
        == state by {
        law_report_decides_models(manager, containers, now, model_name, other);
    }
    let told = exists|i: int| belongs(containers, model_name, i);
    if told && state != known_model_state(manager.models, model_name) {
        assert(changes.contains((model_name, state)));
    }
}

proof fn lemma_kept(
    models: Seq<(Seq<char>, ModelView)>,
    containers: Seq<ContainerStateView>,
    names: Seq<Seq<char>>,
    now: u128,
    model_name: Seq<char>,
)
    requires
        keys_distinct(models),
        names.no_duplicates(),
    ensures
        ({
            let after = update_models(models, containers, names, now).0;
            let known = entries_map(models);
            let map = entries_map(after);
            let own = containers_of_model(containers, model_name);
            let changed = names.contains(model_name) && known_model_state(models, model_name)
                != determined_model_state(own);
            &&& keys_distinct(after)
            &&& if changed {
                &&& map.contains_key(model_name)
                &&& map[model_name] == changed_model(models, model_name, own, now)
            } else {
                &&& map.contains_key(model_name) == known.contains_key(model_name)
                &&& known.contains_key(model_name) ==> map[model_name] == known[model_name]
            }
        }),
    decreases names.len(),
{
    if names.len() > 0 {
        let rest = names.drop_last();
        let last = names.last();
        lemma_no_duplicates_push(names);
        lemma_kept(models, containers, rest, now, model_name);
        lemma_contains_push(rest, last, model_name);
        let before = update_models(models, containers, rest, now).0;
        let own = containers_of_model(containers, last);
        lemma_entries_insert(before, last, changed_model(before, last, own, now));
    }
}

// ---------------------------------------------------------------------------
// Packages
// ---------------------------------------------------------------------------

/// A package with models is in error exactly when all of them have failed, degraded exactly when
/// some have and some have not, paused exactly when all are, and has exited exactly when all
/// have; otherwise it runs. A package without models is in error.
pub proof fn law_models_make_up_package(models: Seq<ModelState>)
    ensures
        models.len() == 0 ==> determined_package_state(models) == PackageState::Error,
        models.len() > 0 ==> {
            let state = determined_package_state(models);
            &&& state == PackageState::Error <==> forall|i: int|
                0 <= i < models.len() ==> #[trigger] models[i] == ModelState::Failed
            &&& state == PackageState::Degraded <==> {
                &&& exists|i: int| 0 <= i < models.len() && #[trigger] models[i]
                    == ModelState::Failed
                &&& exists|i: int| 0 <= i < models.len() && #[trigger] models[i]
                    != ModelState::Failed
            }
            &&& state == PackageState::Paused <==> forall|i: int|
                0 <= i < models.len() ==> #[trigger] models[i] == ModelState::Unknown
            &&& state == PackageState::Exited <==> forall|i: int|
                0 <= i < models.len() ==> #[trigger] models[i] == ModelState::Succeeded
            &&& state == PackageState::Error || state == PackageState::Degraded || state
                == PackageState::Paused || state == PackageState::Exited || state
                == PackageState::Running
        },
{
    if models.len() > 0 {
        let first = models[0];
        assert(first == models[0]);
    }
}

/// The model at this place belongs to the package.
pub open spec fn is_model_of(
    models: Seq<(Seq<char>, ModelView)>,
    package_name: Seq<char>,
    i: int,
) -> bool {
    0 <= i < models.len() && models[i].1.package_name == package_name
}

/// After a look at the models, a package with models is in the state that all its models make up:
/// in error exactly when all of them have failed, degraded exactly when some have and some have
/// not, paused and exited exactly when that holds of all, and running otherwise.
pub proof fn law_models_of_package_make_it_up(
    manager: ManagerView,
    now: u128,
    package_name: Seq<char>,
)
    requires
        exists|i: int| is_model_of(manager.models, package_name, i),
    ensures
        ({
            let models = manager.models;
            let state = known_package_state(after_models(manager, now).0.packages, package_name);
            &&& state == PackageState::Error <==> forall|i: int| #[trigger]
                is_model_of(models, package_name, i) ==> models[i].1.current_state
                    == ModelState::Failed
            &&& state == PackageState::Degraded <==> {
                &&& exists|i: int| #[trigger]
                    is_model_of(models, package_name, i) && models[i].1.current_state
                        == ModelState::Failed
                &&& exists|i: int| #[trigger]
                    is_model_of(models, package_name, i) && models[i].1.current_state
                        != ModelState::Failed
            }
            &&& state == PackageState::Paused <==> forall|i: int| #[trigger]
                is_model_of(models, package_name, i) ==> models[i].1.current_state
                    == ModelState::Unknown
            &&& state == PackageState::Exited <==> forall|i: int| #[trigger]
                is_model_of(models, package_name, i) ==> models[i].1.current_state
                    == ModelState::Succeeded
            &&& state == PackageState::Error || state == PackageState::Degraded || state
                == PackageState::Paused || state == PackageState::Exited || state
                == PackageState::Running
        }),
{
    let models = manager.models;
    let states = states_in_package(models, package_name);
    lemma_package_told(models, package_name);
    law_models_decide_packages(manager, now, package_name, PackageState::Running);
    lemma_states_in_package(models, package_name);
    law_models_make_up_package(states);
    let some = choose|i: int| is_model_of(models, package_name, i);
    assert(is_model_of(models, package_name, some));
    assert(states.contains(models[some].1.current_state));
    assert(states.len() > 0);
    assert forall|i: int| #[trigger] is_model_of(models, package_name, i) implies exists|j: int|
        0 <= j < states.len() && #[trigger] states[j] == models[i].1.current_state by {
        assert(states.contains(models[i].1.current_state));
    }
    assert forall|j: int| 0 <= j < states.len() implies exists|i: int| #[trigger]
        is_model_of(models, package_name, i) && models[i].1.current_state == #[trigger] states[j] by {
        assert(states.contains(states[j]));
    }
}

/// The packages that there are to look at are those that some model belongs to.
proof fn lemma_package_told(models: Seq<(Seq<char>, ModelView)>, package_name: Seq<char>)
    ensures
        packages_with_models(models).contains(package_name) <==> exists|i: int|
            is_model_of(models, package_name, i),
{
    let packages = packages_of(models);
    law_distinct_names(packages);
    if packages.contains(Some(package_name)) {
        let i = choose|i: int| 0 <= i < packages.len() && packages[i] == Some(package_name);
        assert(is_model_of(models, package_name, i));
    }
    if exists|i: int| is_model_of(models, package_name, i) {
        let i = choose|i: int| is_model_of(models, package_name, i);
        assert(packages[i] == Some(package_name));
    }
}

proof fn lemma_states_in_package(models: Seq<(Seq<char>, ModelView)>, package_name: Seq<char>)
    ensures
        forall|state: ModelState| #[trigger]
            states_in_package(models, package_name).contains(state) <==> exists|i: int| #[trigger]
                is_model_of(models, package_name, i) && models[i].1.current_state == state,
    decreases models.len(),
{
    if models.len() > 0 {
        let rest = models.drop_last();
        let last = models.len() - 1;
        lemma_states_in_package(rest, package_name);
        assert(models.last() == models[last]);
        assert forall|state: ModelState| #[trigger]
            states_in_package(models, package_name).contains(state) <==> exists|i: int| #[trigger]
                is_model_of(models, package_name, i) && models[i].1.current_state == state by {
            lemma_contains_push(
                states_in_package(rest, package_name),
                models[last].1.current_state,
                state,
            );
            if states_in_package(rest, package_name).contains(state) {
                let i = choose|i: int| #[trigger]
                    is_model_of(rest, package_name, i) && rest[i].1.current_state == state;
                assert(rest[i] == models[i]);
                assert(is_model_of(models, package_name, i));
            }
            if is_model_of(models, package_name, last) && models[last].1.current_state == state {
                assert(states_in_package(models, package_name).contains(state));
            }
            if exists|i: int| #[trigger]
                is_model_of(models, package_name, i) && models[i].1.current_state == state {
                let i = choose|i: int| #[trigger]
                    is_model_of(models, package_name, i) && models[i].1.current_state == state;
                if i < last {
                    assert(rest[i] == models[i]);
                    assert(is_model_of(rest, package_name, i));
                }
            }
        }
    }
}

/// A package that no model belongs to is not touched, nor one that stays in its state. One that
/// changes its state is put down with the time, and keeps the rest; where it was not known, it is
/// put down with its name.
pub proof fn law_what_is_kept_of_a_package(
    manager: ManagerView,
    now: u128,
    package_name: Seq<char>,
)
    ensures
        ({
            let (after, changes) = after_models(manager, now);
            let known = manager.packages;
            let told = exists|i: int| is_model_of(manager.models, package_name, i);
            let changed = told && known_package_state(after.packages, package_name)
                != known_package_state(known, package_name);
            &&& !changed ==> after.packages.contains_key(package_name) == known.contains_key(
                package_name,
            )
            &&& !changed && known.contains_key(package_name) ==> after.packages[package_name]
                == known[package_name]
            &&& changed ==> {
                let package = after.packages[package_name];
                &&& after.packages.contains_key(package_name)
                &&& package.last_update == now
                &&& known.contains_key(package_name) ==> package.package_name
                    == known[package_name].package_name && package.models
                    == known[package_name].models
                &&& !known.contains_key(package_name) ==> package.package_name == package_name
            }
            &&& changed <==> exists|state: PackageState| changes.contains((package_name, state))
            &&& forall|state: PackageState| #[trigger]
                changes.contains((package_name, state)) ==> state == known_package_state(
                    after.packages,
                    package_name,
                )
            &&& after.models == manager.models
            &&& after.container_to_model == manager.container_to_model
        }),
{
    let (after, changes) = after_models(manager, now);
    let state = known_package_state(after.packages, package_name);
    lemma_package_told(manager.models, package_name);
    law_models_decide_packages(manager, now, package_name, state);
    law_distinct_names(packages_of(manager.models));
    lemma_package_kept(
        manager.packages,
        manager.models,
        packages_with_models(manager.models),
        now,
        package_name,
    );
    assert forall|other: PackageState| #[trigger]
        changes.contains((package_name, other)) implies other == state by {
        law_models_decide_packages(manager, now, package_name, other);
    }
    let told = exists|i: int| is_model_of(manager.models, package_name, i);
    if told && state != known_package_state(manager.packages, package_name) {
        assert(changes.contains((package_name, state)));
    }
}

proof fn lemma_package_kept(
    packages: Map<Seq<char>, PackageView>,
    models: Seq<(Seq<char>, ModelView)>,
    names: Seq<Seq<char>>,
    now: u128,
    package_name: Seq<char>,
)
    requires
        names.no_duplicates(),
    ensures
        ({
            let after = update_packages(packages, models, names, now).0;
            let state = determined_package_state(states_in_package(models, package_name));
            if names.contains(package_name) && known_package_state(packages, package_name) != state {
                let package = after[package_name];
                &&& after.contains_key(package_name)
                &&& package.last_update == now
                &&& packages.contains_key(package_name) ==> package.package_name
                    == packages[package_name].package_name && package.models
                    == packages[package_name].models
                &&& !packages.contains_key(package_name) ==> package.package_name == package_name
            } else {
                &&& after.contains_key(package_name) == packages.contains_key(package_name)
                &&& packages.contains_key(package_name) ==> after[package_name]
                    == packages[package_name]
            }
        }),
    decreases names.len(),
{
    if names.len() > 0 {
        let rest = names.drop_last();
        lemma_no_duplicates_push(names);
        lemma_package_kept(packages, models, rest, now, package_name);
        lemma_contains_push(rest, names.last(), package_name);
    }
}

// ---------------------------------------------------------------------------
// What is stored
// ---------------------------------------------------------------------------

/// Each change of a model is stored, in the order of the changes, under the key of the model and
/// by the word for its state; and likewise each change of a package.
pub proof fn law_every_change_is_stored(
    models: Seq<(Seq<char>, ModelState)>,
    packages: Seq<(Seq<char>, PackageState)>,
    i: int,
)
    ensures
        model_entries(models).len() == models.len(),
        package_entries(packages).len() == packages.len(),
        0 <= i < models.len() ==> model_entries(models)[i].0 == "/model/"@ + models[i].0
            + "/state"@ && model_entries(models)[i].1 == model_state_label(models[i].1),
        0 <= i < packages.len() ==> package_entries(packages)[i].0 == "/package/"@ + packages[i].0
            + "/state"@ && package_entries(packages)[i].1 == package_state_label(packages[i].1),
{
}

/// The state of a package is stored by a word of its own for each state.
pub proof fn law_stored_packages(a: Seq<char>, b: Seq<char>)
    ensures
        package_state_key(a) == package_state_key(b) ==> a == b,
        package_state_label(PackageState::Initializing) == "idle"@,
        package_state_label(PackageState::Running) == "running"@,
        package_state_label(PackageState::Degraded) == "degraded"@,
        package_state_label(PackageState::Error) == "error"@,
        package_state_label(PackageState::Paused) == "paused"@,
        package_state_label(PackageState::Exited) == "exited"@,
{
    reveal_strlit("/package/");
    reveal_strlit("/state");
    if package_state_key(a) == package_state_key(b) {
        assert(a =~= package_state_key(a).subrange(9, package_state_key(a).len() - 6));
        assert(b =~= package_state_key(b).subrange(9, package_state_key(b).len() - 6));
    }
}

/// Models, packages and scenarios are stored under different keys, whatever their names.
pub proof fn law_stored_keys_differ(model: Seq<char>, package: Seq<char>, scenario: Seq<char>)
    ensures
        model_state_key(model) != package_state_key(package),
        model_state_key(model) != scenario_state_key(scenario),
        package_state_key(package) != scenario_state_key(scenario),
{
    reveal_strlit("/model/");
    reveal_strlit("/package/");
    reveal_strlit("/scenario/");
    assert(model_state_key(model)[1] == 'm');
    assert(package_state_key(package)[1] == 'p');
    assert(scenario_state_key(scenario)[1] == 's');
}

// ---------------------------------------------------------------------------
// Resources in a state
// ---------------------------------------------------------------------------

/// The resources that are listed for a state are all those that are in it, and where a type is
/// given, of that type; and no others.
pub proof fn law_resources_in_state(
    entries: Seq<(Seq<char>, ResourceView)>,
    resource_type: Option<ResourceType>,
    state: i32,
    resource: ResourceView,
)
    ensures
        resources_in_state(entries, resource_type, state).contains(resource) <==> {
            &&& exists|i: int| 0 <= i < entries.len() && (#[trigger] entries[i]).1 == resource
            &&& resource.current_state == state
            &&& match resource_type {
                Some(wanted) => resource.resource_type == wanted,
                None => true,
            }
        },
        resources_in_state(entries, resource_type, state) == entries.filter(
            |entry: (Seq<char>, ResourceView)|
                entry.1.current_state == state && match resource_type {
                    Some(wanted) => entry.1.resource_type == wanted,
                    None => true,
                },
        ).map_values(|entry: (Seq<char>, ResourceView)| entry.1),
    decreases entries.len(),
{
    reveal(Seq::filter);
    let pred = |entry: (Seq<char>, ResourceView)|
        entry.1.current_state == state && match resource_type {
            Some(wanted) => entry.1.resource_type == wanted,
            None => true,
        };
    let pick = |entry: (Seq<char>, ResourceView)| entry.1;
    if entries.len() > 0 {
        let rest = entries.drop_last();
        let last = entries.len() - 1;
        law_resources_in_state(rest, resource_type, state, resource);
        assert(entries.last() == entries[last]);
        lemma_contains_push(
            resources_in_state(rest, resource_type, state),
            entries[last].1,
            resource,
        );
        if exists|i: int| 0 <= i < rest.len() && (#[trigger] rest[i]).1 == resource {
            let i = choose|i: int| 0 <= i < rest.len() && (#[trigger] rest[i]).1 == resource;
            assert(entries[i].1 == resource);
        }
        if exists|i: int| 0 <= i < entries.len() && (#[trigger] entries[i]).1 == resource {
            let i = choose|i: int| 0 <= i < entries.len() && (#[trigger] entries[i]).1 == resource;
            if i < last {
                assert(rest[i].1 == resource);
            }
        }
        assert(rest.filter(pred).push(entries[last]).map_values(pick) =~= rest.filter(
            pred,
        ).map_values(pick).push(entries[last].1));
    } else {
        assert(entries.filter(pred).map_values(pick) =~= Seq::<ResourceView>::empty());
    }
}

// ---------------------------------------------------------------------------
// What was not known before
// ---------------------------------------------------------------------------

/// A model that was not known before a report that tells of it is known after it, and listed.
pub proof fn law_new_models_are_listed(
    manager: ManagerView,
    containers: Seq<ContainerStateView>,
    now: u128,
    model_name: Seq<char>,
)
    requires
        keys_distinct(manager.models),
        !entries_map(manager.models).contains_key(model_name),
        exists|i: int| belongs(containers, model_name, i),
    ensures
        ({
            let (after, changes) = after_containers(manager, containers, now);
            &&& entries_map(after.models).contains_key(model_name)
            &&& changes.contains(
                (model_name, entries_map(after.models)[model_name].current_state),
            )
        }),
{
    let state = known_model_state(after_containers(manager, containers, now).0.models, model_name);
    lemma_told(containers, model_name);
    law_report_makes_up_model(manager, containers, now, model_name);
    law_what_is_kept_of_a_model(manager, containers, now, model_name);
    law_report_decides_models(manager, containers, now, model_name, state);
}

/// A model that was known is listed exactly when its state is another one after the report.
pub proof fn law_known_models_are_listed_when_changed(
    manager: ManagerView,
    containers: Seq<ContainerStateView>,
    now: u128,
    model_name: Seq<char>,
)
    requires
        keys_distinct(manager.models),
        entries_map(manager.models).contains_key(model_name),
    ensures
        ({
            let (after, changes) = after_containers(manager, containers, now);
            let before = entries_map(manager.models)[model_name].current_state;
            let state = entries_map(after.models)[model_name].current_state;
            &&& entries_map(after.models).contains_key(model_name)
            &&& changes.contains((model_name, state)) <==> state != before
            &&& (exists|i: int| belongs(containers, model_name, i)) || state == before
        }),
{
    let after = after_containers(manager, containers, now).0;
    law_what_is_kept_of_a_model(manager, containers, now, model_name);
    lemma_told(containers, model_name);
    law_report_decides_models(
        manager,
        containers,
        now,
        model_name,
        known_model_state(after.models, model_name),
    );
}

/// A package that was not known before, and that some model belongs to, is known and listed after a
/// look at the models.
pub proof fn law_new_packages_are_listed(manager: ManagerView, now: u128, package_name: Seq<char>)
    requires
        !manager.packages.contains_key(package_name),
        exists|i: int| is_model_of(manager.models, package_name, i),
    ensures
        ({
            let (after, changes) = after_models(manager, now);
            &&& after.packages.contains_key(package_name)
            &&& changes.contains((package_name, after.packages[package_name].current_state))
        }),
{
    let state = known_package_state(after_models(manager, now).0.packages, package_name);
    lemma_package_told(manager.models, package_name);
    law_models_of_package_make_it_up(manager, now, package_name);
    law_what_is_kept_of_a_package(manager, now, package_name);
    law_models_decide_packages(manager, now, package_name, state);
}

/// A package that was known is listed exactly when its state is another one afterwards.
pub proof fn law_known_packages_are_listed_when_changed(
    manager: ManagerView,
    now: u128,
    package_name: Seq<char>,
)
    requires
        manager.packages.contains_key(package_name),
    ensures
        ({
            let (after, changes) = after_models(manager, now);
            let before = manager.packages[package_name].current_state;
            let state = after.packages[package_name].current_state;
            &&& after.packages.contains_key(package_name)
            &&& changes.contains((package_name, state)) <==> state != before
            &&& (exists|i: int| is_model_of(manager.models, package_name, i)) || state == before
        }),
{
    let after = after_models(manager, now).0;
    law_what_is_kept_of_a_package(manager, now, package_name);
    lemma_package_told(manager.models, package_name);
    law_models_decide_packages(
        manager,
        now,
        package_name,
        known_package_state(after.packages, package_name),
    );
}

/// A container that a report does not tell of stays put down for its model, and so does one of which
/// the report does not tell a model.
pub proof fn law_other_containers_stay_mapped(
    map: Map<Seq<char>, Seq<char>>,
    containers: Seq<ContainerStateView>,
    id: Seq<char>,
)
    requires
        forall|i: int|
            0 <= i < containers.len() && model_of(#[trigger] containers[i]) is Some
                ==> containers[i].container_id != id,
    ensures
        with_containers(map, containers).contains_key(id) == map.contains_key(id),
        map.contains_key(id) ==> with_containers(map, containers)[id] == map[id],
    decreases containers.len(),
{
    if containers.len() > 0 {
        let rest = containers.drop_last();
        assert(containers.last() == containers[containers.len() - 1]);
        assert forall|i: int|
            0 <= i < rest.len() && model_of(#[trigger] rest[i]) is Some implies rest[i].container_id
            != id by {
            assert(rest[i] == containers[i]);
        }
        law_other_containers_stay_mapped(map, rest, id);
    }
}

// ---------------------------------------------------------------------------
// Lists
// ---------------------------------------------------------------------------

/// A report is told container by container, and an answer change by change: none is left out, and
/// none is added.
pub proof fn law_lists_are_told_whole(
    containers: Seq<ContainerInfo>,
    infos: Seq<ContainerStateInfo>,
    models: Seq<(String, ModelState)>,
    packages: Seq<(String, PackageState)>,
    entries: Seq<(String, String)>,
    requests: Seq<ReconcileRequest>,
    i: int,
)
    ensures
        reported(containers).len() == containers.len(),
        0 <= i < containers.len() ==> {
            &&& reported(containers)[i].id == containers[i].id@
            &&& reported(containers)[i].image == containers[i].image@
            &&& reported(containers)[i].names.len() == containers[i].names@.len()
            &&& reported(containers)[i].state == containers[i].state.entries()
            &&& reported(containers)[i].config == containers[i].config@
            &&& reported(containers)[i].annotation == containers[i].annotation@
        },
        container_views(infos).len() == infos.len(),
        0 <= i < infos.len() ==> {
            &&& container_views(infos)[i].container_id == infos[i].container_id@
            &&& container_views(infos)[i].image == infos[i].image@
            &&& container_views(infos)[i].state == infos[i].state@
            &&& container_views(infos)[i].annotations == infos[i].annotations@
        },
        updates_view(models).len() == models.len(),
        0 <= i < models.len() ==> updates_view(models)[i].0 == models[i].0@ && updates_view(
            models,
        )[i].1 == models[i].1,
        package_changes_view(packages).len() == packages.len(),
        0 <= i < packages.len() ==> package_changes_view(packages)[i].0 == packages[i].0@
            && package_changes_view(packages)[i].1 == packages[i].1,
        entries_view(entries).len() == entries.len(),
        0 <= i < entries.len() ==> entries_view(entries)[i].0 == entries[i].0@ && entries_view(
            entries,
        )[i].1 == entries[i].1@,
        reconcile_views(requests).len() == requests.len(),
        0 <= i < requests.len() ==> {
            &&& reconcile_views(requests)[i].scenario_name == requests[i].scenario_name@
            &&& reconcile_views(requests)[i].current == requests[i].current
            &&& reconcile_views(requests)[i].desired == requests[i].desired
        },
{
}

/// A request is told field by field.
pub proof fn law_requests_are_told_whole(change: StateChange)
    ensures
        change@.resource_type == change.resource_type,
        change@.resource_name == change.resource_name@,
        change@.current_state == change.current_state@,
        change@.target_state == change.target_state@,
        change@.transition_id == change.transition_id@,
        change@.timestamp_ns == change.timestamp_ns,
        change@.source == change.source@,
{
}

} // verus!
