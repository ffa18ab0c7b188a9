//! How the manager makes the state of a model out of those of its containers, and the state
//! of a package out of those of its models.

use crate::grouping::lemma_contains_push;
use crate::messages::{ModelState, PackageState};
use crate::statemanager::types::{
    container_views, ContainerState, ContainerStateInfo, ContainerStateView,
};
use crate::text::{
    after_last, after_last_str, before_first, before_first_str, concat3, is_empty_str, lowercase,
    lowercase_str, optional, str_eq,
};
use vstd::prelude::*;

verus! {

// ---------------------------------------------------------------------------
// Names
// ---------------------------------------------------------------------------

/// The model that a container belongs to: its annotation names it; or the first of the
/// container's names, up to its first dash; or the image, without registry and tag.
pub open spec fn model_of(container: ContainerStateView) -> Option<Seq<char>> {
    if container.annotations.contains_key("pullpiri.io/model"@) {
        Some(container.annotations["pullpiri.io/model"@])
    } else if container.container_names.len() > 0 {
        Some(before_first(container.container_names[0], '-'))
    } else if container.image.len() > 0 {
        Some(after_last(before_first(container.image, ':'), '/'))
    } else {
        None
    }
}

/// The package that a model belongs to: the model's name up to its first underscore.
pub open spec fn package_of(model_name: Seq<char>) -> Seq<char> {
    before_first(model_name, '_')
}

/// The model that a container belongs to.
pub fn model_name_of(container: &ContainerStateInfo) -> (model_name: Option<String>)
    ensures
        optional(model_name) == model_of(container@),
{
    if let Some(model_name) = container.annotations.get("pullpiri.io/model") {
        return Some(model_name.clone());
    }
    if container.container_names.len() > 0 {
        assert(container@.container_names[0] == container.container_names@[0]@);
        return Some(before_first_str(container.container_names[0].as_str(), '-'));
    }
    if !is_empty_str(container.image.as_str()) {
        let untagged = before_first_str(container.image.as_str(), ':');
        return Some(after_last_str(untagged.as_str(), '/'));
    }
    None
}

// ---------------------------------------------------------------------------
// Models
// ---------------------------------------------------------------------------

/// The state of a container, by the word, in lower case, that it reports as its status. A
/// word that is not known stands for a dead container.
pub open spec fn status_by_word(word: Seq<char>) -> ContainerState {
    if word == "running"@ {
        ContainerState::Running
    } else if word == "created"@ {
        ContainerState::Created
    } else if word == "exited"@ || word == "stopped"@ {
        ContainerState::Exited
    } else if word == "paused"@ {
        ContainerState::Paused
    } else {
        ContainerState::Dead
    }
}

/// The state of a container, by what it reports as its status. One that reports none counts
/// as dead.
pub open spec fn status_of(container: ContainerStateView) -> ContainerState {
    if container.state.contains_key("status"@) {
        status_by_word(lowercase(container.state["status"@]))
    } else {
        ContainerState::Dead
    }
}

/// The states of containers.
pub open spec fn statuses_of(containers: Seq<ContainerStateView>) -> Seq<ContainerState> {
    containers.map_values(|container: ContainerStateView| status_of(container))
}

/// All containers are in this state.
pub open spec fn all_in(statuses: Seq<ContainerState>, state: ContainerState) -> bool {
    forall|i: int| 0 <= i < statuses.len() ==> #[trigger] statuses[i] == state
}

/// The state of a model whose containers are in these states: "dead" (which `Failed` stands
/// for) when one of them is dead, or there is none; "paused" (which `Unknown` stands for) when
/// all are paused; "exited" (which `Succeeded` stands for) when all have ended; "created"
/// (which `Pending` stands for) when all were made and none was started; running otherwise.
pub open spec fn determined_by(statuses: Seq<ContainerState>) -> ModelState {
    if statuses.len() == 0 {
        ModelState::Failed
    } else if statuses.contains(ContainerState::Dead) {
        ModelState::Failed
    } else if all_in(statuses, ContainerState::Paused) {
        ModelState::Unknown
    } else if all_in(statuses, ContainerState::Exited) {
        ModelState::Succeeded
    } else if all_in(statuses, ContainerState::Created) {
        ModelState::Pending
    } else {
        ModelState::Running
    }
}

/// The state of a model with these containers.
pub open spec fn determined_model_state(containers: Seq<ContainerStateView>) -> ModelState {
    determined_by(statuses_of(containers))
}

/// The state of a container, by the word, in lower case, that it reports as its status.
pub fn container_status_by_word(word: &str) -> (state: ContainerState)
    ensures
        state == status_by_word(word@),
{
    if str_eq(word, "running") {
        ContainerState::Running
    } else if str_eq(word, "created") {
        ContainerState::Created
    } else if str_eq(word, "exited") || str_eq(word, "stopped") {
        ContainerState::Exited
    } else if str_eq(word, "paused") {
        ContainerState::Paused
    } else {
        ContainerState::Dead
    }
}

fn container_status(container: &ContainerStateInfo) -> (state: ContainerState)
    ensures
        state == status_of(container@),
{
    match container.state.get("status") {
        Some(status) => {
            let word = lowercase_str(status.as_str());
            container_status_by_word(word.as_str())
        },
        None => ContainerState::Dead,
    }
}

/// The state of a model whose containers are in these states.
pub fn model_state_by_statuses(statuses: &Vec<ContainerState>) -> (state: ModelState)
    ensures
        state == determined_by(statuses@),
{
    let mut created: usize = 0;
    let mut exited: usize = 0;
    let mut dead: usize = 0;
    let mut paused: usize = 0;
    let mut i: usize = 0;
    while i < statuses.len()
        invariant
            i <= statuses@.len(),
            counted(statuses@.take(i as int), ContainerState::Created) == created <= i,
            counted(statuses@.take(i as int), ContainerState::Exited) == exited <= i,
            counted(statuses@.take(i as int), ContainerState::Dead) == dead <= i,
            counted(statuses@.take(i as int), ContainerState::Paused) == paused <= i,
        decreases statuses@.len() - i,
    {
        assert(statuses@.take(i + 1).drop_last() =~= statuses@.take(i as int));
        match statuses[i] {
            ContainerState::Created => created += 1,
            ContainerState::Exited => exited += 1,
            ContainerState::Paused => paused += 1,
            ContainerState::Dead => dead += 1,
            _ => {},
        }
        i += 1;
    }
    proof {
        assert(statuses@.take(statuses@.len() as int) =~= statuses@);
        lemma_counted(statuses@, ContainerState::Created);
        lemma_counted(statuses@, ContainerState::Exited);
        lemma_counted(statuses@, ContainerState::Dead);
        lemma_counted(statuses@, ContainerState::Paused);
    }
    let total: usize = statuses.len();
    if total == 0 {
        ModelState::Failed
    } else if dead > 0 {
        ModelState::Failed
    } else if paused == total {
        ModelState::Unknown
    } else if exited == total {
        ModelState::Succeeded
    } else if created == total {
        ModelState::Pending
    } else {
        ModelState::Running
    }
}

/// The state of a model with these containers.
pub fn model_state_by_containers(containers: &[ContainerStateInfo]) -> (state: ModelState)
    ensures
        state == determined_model_state(container_views(containers@)),
{
    let ghost views = container_views(containers@);
    let mut statuses: Vec<ContainerState> = Vec::new();
    let mut i: usize = 0;
    while i < containers.len()
        invariant
            i <= containers@.len(),
            views == container_views(containers@),
            statuses@ == statuses_of(views).take(i as int),
        decreases containers@.len() - i,
    {
        statuses.push(container_status(&containers[i]));
        assert(statuses@ =~= statuses_of(views).take(i + 1));
        i += 1;
    }
    assert(statuses_of(views).take(containers@.len() as int) =~= statuses_of(views));
    model_state_by_statuses(&statuses)
}

/// How many containers are in this state.
spec fn counted(statuses: Seq<ContainerState>, state: ContainerState) -> nat
    decreases statuses.len(),
{
    if statuses.len() == 0 {
        0
    } else {
        counted(statuses.drop_last(), state) + if statuses.last() == state {
            1nat
        } else {
            0nat
        }
    }
}

proof fn lemma_counted(statuses: Seq<ContainerState>, state: ContainerState)
    ensures
        counted(statuses, state) <= statuses.len(),
        counted(statuses, state) > 0 <==> statuses.contains(state),
        counted(statuses, state) == statuses.len() <==> all_in(statuses, state),
    decreases statuses.len(),
{
    if statuses.len() > 0 {
        let rest = statuses.drop_last();
        let last = statuses.last();
        lemma_counted(rest, state);
        assert(statuses =~= rest.push(last));
        lemma_contains_push(rest, last, state);
        if all_in(statuses, state) {
            assert forall|i: int| 0 <= i < rest.len() implies #[trigger] rest[i] == state by {
                assert(statuses[i] == rest[i]);
            }
            assert(statuses[statuses.len() - 1] == state);
        }
        if all_in(rest, state) && last == state {
            assert forall|i: int| 0 <= i < statuses.len() implies #[trigger] statuses[i]
                == state by {
                if i < rest.len() {
                    assert(statuses[i] == rest[i]);
                }
            }
        }
    }
}

// ---------------------------------------------------------------------------
// Packages
// ---------------------------------------------------------------------------

/// All models are in this state.
pub open spec fn all_models_in(models: Seq<ModelState>, state: ModelState) -> bool {
    forall|i: int| 0 <= i < models.len() ==> #[trigger] models[i] == state
}

/// The state of a package whose models are in these states: in error when all of them failed,
/// or there is none; degraded when some failed; paused when all are paused (which `Unknown`
/// stands for); exited when all have ended; running otherwise.
pub open spec fn determined_package_state(models: Seq<ModelState>) -> PackageState {
    if models.len() == 0 {
        PackageState::Error
    } else if all_models_in(models, ModelState::Failed) {
        PackageState::Error
    } else if models.contains(ModelState::Failed) {
        PackageState::Degraded
    } else if all_models_in(models, ModelState::Unknown) {
        PackageState::Paused
    } else if all_models_in(models, ModelState::Succeeded) {
        PackageState::Exited
    } else {
        PackageState::Running
    }
}

/// The state of a package whose models are in these states.
pub fn package_state_by_models(models: &Vec<ModelState>) -> (state: PackageState)
    ensures
        state == determined_package_state(models@),
{
    let mut all_failed = true;
    let mut some_failed = false;
    let mut all_paused = true;
    let mut all_succeeded = true;
    let mut i: usize = 0;
    while i < models.len()
        invariant
            i <= models@.len(),
            all_failed == all_models_in(models@.take(i as int), ModelState::Failed),
            some_failed == models@.take(i as int).contains(ModelState::Failed),
            all_paused == all_models_in(models@.take(i as int), ModelState::Unknown),
            all_succeeded == all_models_in(models@.take(i as int), ModelState::Succeeded),
        decreases models@.len() - i,
    {
        proof {
            lemma_next_model(models@, i as int, ModelState::Failed);
            lemma_next_model(models@, i as int, ModelState::Unknown);
            lemma_next_model(models@, i as int, ModelState::Succeeded);
        }
        let state = models[i];
        if state == ModelState::Failed {
            some_failed = true;
        } else {
            all_failed = false;
        }
        if state != ModelState::Unknown {
            all_paused = false;
        }
        if state != ModelState::Succeeded {
            all_succeeded = false;
        }
        i += 1;
    }
    assert(models@.take(models@.len() as int) =~= models@);
    if models.len() == 0 {
        PackageState::Error
    } else if all_failed {
        PackageState::Error
    } else if some_failed {
        PackageState::Degraded
    } else if all_paused {
        PackageState::Paused
    } else if all_succeeded {
        PackageState::Exited
    } else {
        PackageState::Running
    }
}

proof fn lemma_next_model(models: Seq<ModelState>, i: int, state: ModelState)
    requires
        0 <= i < models.len(),
    ensures
        all_models_in(models.take(i + 1), state) <==> all_models_in(models.take(i), state)
            && models[i] == state,
        models.take(i + 1).contains(state) <==> models.take(i).contains(state) || models[i]
            == state,
{
    let before = models.take(i);
    let after = models.take(i + 1);
    assert(after[i] == models[i]);
    assert forall|j: int| 0 <= j < i implies #[trigger] after[j] == before[j] by {}
    if before.contains(state) {
        let j = choose|j: int| 0 <= j < before.len() && before[j] == state;
        assert(after[j] == state);
    }
    if all_models_in(after, state) {
        assert forall|j: int| 0 <= j < before.len() implies #[trigger] before[j] == state by {
            assert(after[j] == before[j]);
        }
    }
    if after.contains(state) {
        let j = choose|j: int| 0 <= j < after.len() && after[j] == state;
        if j < i {
            assert(before[j] == state);
        }
    }
}

// ---------------------------------------------------------------------------
// What is stored
// ---------------------------------------------------------------------------

/// The word under which the state of a package is stored. One that is still being set up is
/// "idle".
pub open spec fn package_state_label(state: PackageState) -> Seq<char> {
    match state {
        PackageState::Unspecified => "unspecified"@,
        PackageState::Initializing => "idle"@,
        PackageState::Running => "running"@,
        PackageState::Degraded => "degraded"@,
        PackageState::Error => "error"@,
        PackageState::Paused => "paused"@,
        PackageState::Updating => "updating"@,
        PackageState::Exited => "exited"@,
    }
}

/// The key under which the state of a package is stored.
pub open spec fn package_state_key(package_name: Seq<char>) -> Seq<char> {
    "/package/"@ + package_name + "/state"@
}

/// The key and the value that store the state of a package.
pub fn package_state_entry(package_name: &str, state: PackageState) -> (entry: (String, String))
    ensures
        entry.0@ == package_state_key(package_name@),
        entry.1@ == package_state_label(state),
{
    let value = match state {
        PackageState::Unspecified => "unspecified",
        PackageState::Initializing => "idle",
        PackageState::Running => "running",
        PackageState::Degraded => "degraded",
        PackageState::Error => "error",
        PackageState::Paused => "paused",
        PackageState::Updating => "updating",
        PackageState::Exited => "exited",
    };
    (concat3("/package/", package_name, "/state"), value.to_owned())
}

// ---------------------------------------------------------------------------
// Laws
// ---------------------------------------------------------------------------

/// A dead container makes its model fail, whatever the others do.
pub proof fn law_dead_container_fails_model(containers: Seq<ContainerStateView>, i: int)
    requires
        0 <= i < containers.len(),
        status_of(containers[i]) == ContainerState::Dead,
    ensures
        determined_model_state(containers) == ModelState::Failed,
{
    assert(statuses_of(containers)[i] == ContainerState::Dead);
}

/// Without a dead container, a running one makes its model run.
pub proof fn law_running_container_runs_model(containers: Seq<ContainerStateView>, i: int)
    requires
        0 <= i < containers.len(),
        status_of(containers[i]) == ContainerState::Running,
        !statuses_of(containers).contains(ContainerState::Dead),
    ensures
        determined_model_state(containers) == ModelState::Running,
{
    assert(statuses_of(containers)[i] == ContainerState::Running);
}

/// A model with containers fails only when one of them is dead, and is paused exactly when all
/// of them are.
pub proof fn law_failed_and_paused_models(containers: Seq<ContainerStateView>)
    requires
        containers.len() > 0,
    ensures
        determined_model_state(containers) == ModelState::Failed <==> statuses_of(
            containers,
        ).contains(ContainerState::Dead),
        determined_model_state(containers) == ModelState::Unknown <==> all_in(
            statuses_of(containers),
            ContainerState::Paused,
        ),
{
    assert(statuses_of(containers)[0] == status_of(containers[0]));
    if all_in(statuses_of(containers), ContainerState::Paused)
        && statuses_of(containers).contains(ContainerState::Dead) {
        let i = choose|i: int|
            0 <= i < statuses_of(containers).len() && statuses_of(containers)[i]
                == ContainerState::Dead;
        assert(statuses_of(containers)[i] == ContainerState::Paused);
    }
}

/// A package with models is paused exactly when all of them are, and has exited exactly when
/// all of them have.
pub proof fn law_paused_and_exited_packages(models: Seq<ModelState>)
    requires
        models.len() > 0,
    ensures
        determined_package_state(models) == PackageState::Paused <==> all_models_in(
            models,
            ModelState::Unknown,
        ),
        determined_package_state(models) == PackageState::Exited <==> all_models_in(
            models,
            ModelState::Succeeded,
        ),
{
    let first = models[0];
    assert(all_models_in(models, ModelState::Failed) ==> first == ModelState::Failed);
    assert(all_models_in(models, ModelState::Unknown) ==> first == ModelState::Unknown);
    assert(all_models_in(models, ModelState::Succeeded) ==> first == ModelState::Succeeded);
    if models.contains(ModelState::Failed) {
        let i = choose|i: int| 0 <= i < models.len() && models[i] == ModelState::Failed;
        let failed = models[i];
        assert(all_models_in(models, ModelState::Unknown) ==> failed == ModelState::Unknown);
        assert(all_models_in(models, ModelState::Succeeded) ==> failed == ModelState::Succeeded);
    }
}

/// Every model has a state that containers bring about, and never `Unspecified`.
pub proof fn law_model_state_is_specified(containers: Seq<ContainerStateView>)
    ensures
        determined_model_state(containers) != ModelState::Unspecified,
        determined_model_state(containers) != ModelState::CrashLoopBackOff,
        determined_model_state(containers) != ModelState::ContainerCreating,
{
}

/// A package with models is in error exactly when all of them failed, and degraded exactly
/// when some failed and others did not.
pub proof fn law_failed_models_decide_package(models: Seq<ModelState>)
    requires
        models.len() > 0,
    ensures
        determined_package_state(models) == PackageState::Error <==> all_models_in(
            models,
            ModelState::Failed,
        ),
        determined_package_state(models) == PackageState::Degraded <==> models.contains(
            ModelState::Failed,
        ) && !all_models_in(models, ModelState::Failed),
{
}

/// The order of the models does not matter to the state of their package, nor does how often
/// a state occurs: only which states occur.
pub proof fn law_package_state_by_occurring_states(a: Seq<ModelState>, b: Seq<ModelState>)
    requires
        forall|state: ModelState| a.contains(state) <==> b.contains(state),
    ensures
        determined_package_state(a) == determined_package_state(b),
{
    if a.len() > 0 {
        assert(a.contains(a[0]));
    }
    if b.len() > 0 {
        assert(b.contains(b[0]));
    }
    lemma_all_models_in(a, b, ModelState::Failed);
    lemma_all_models_in(b, a, ModelState::Failed);
    lemma_all_models_in(a, b, ModelState::Unknown);
    lemma_all_models_in(b, a, ModelState::Unknown);
    lemma_all_models_in(a, b, ModelState::Succeeded);
    lemma_all_models_in(b, a, ModelState::Succeeded);
}

proof fn lemma_all_models_in(a: Seq<ModelState>, b: Seq<ModelState>, state: ModelState)
    requires
        forall|state: ModelState| a.contains(state) <==> b.contains(state),
    ensures
        all_models_in(a, state) ==> all_models_in(b, state),
{
    if all_models_in(a, state) {
        assert forall|i: int| 0 <= i < b.len() implies #[trigger] b[i] == state by {
            assert(b.contains(b[i]));
            assert(a.contains(b[i]));
        }
    }
}

} // verus!
