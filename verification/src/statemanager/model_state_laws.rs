//! What the state machine makes of the containers of a model.

use crate::grouping::law_distinct_names;
use crate::messages::{ContainerView, ModelState, ResourceType};
use crate::statemanager::laws::{
    law_containers_decide_models, law_resource_keys_differ, state_by_containers,
};
use crate::statemanager::model_state::{
    belonging, evaluated_state, model_in_names, model_of_container, model_state_key,
    model_state_label, models_of_containers, overall_state, state_by_words, states_of_model,
};
use crate::statemanager::state_machine::{
    current_model_state, models_named, resource_key, step_containers, step_models, with_model_state,
    MachineView,
};
use crate::text::{before_first, lowercase, occurs_at, occurs_in};
use crate::text_laws::law_before_first;
use vstd::prelude::*;

verus! {

// ---------------------------------------------------------------------------
// The state of a model by what its containers report
// ---------------------------------------------------------------------------

/// What is reported says, in upper or lower case, that a container is dead.
pub open spec fn says_dead(report: Seq<char>) -> bool {
    ||| lowercase(report) == "dead"@
    ||| lowercase(report) == "failed"@
    ||| lowercase(report) == "error"@
}

/// What is reported says, in upper or lower case, that a container has ended.
pub open spec fn says_exited(report: Seq<char>) -> bool {
    lowercase(report) == "exited"@ || lowercase(report) == "stopped"@
}

/// What is reported says, in upper or lower case, that a container is paused.
pub open spec fn says_paused(report: Seq<char>) -> bool {
    lowercase(report) == "paused"@
}

/// No word says two of these things.
proof fn lemma_words_differ(report: Seq<char>)
    ensures
        !(says_dead(report) && says_exited(report)),
        !(says_dead(report) && says_paused(report)),
        !(says_exited(report) && says_paused(report)),
{
    reveal_strlit("dead");
    reveal_strlit("failed");
    reveal_strlit("error");
    reveal_strlit("exited");
    reveal_strlit("stopped");
    reveal_strlit("paused");
    assert("dead"@[0] == 'd');
    assert("failed"@[0] == 'f');
    assert("error"@.len() == 5);
    assert("exited"@.len() == 6);
    assert("exited"@[0] == 'e');
    assert("stopped"@[0] == 's');
    assert("paused"@[0] == 'p');
}

/// A model with containers has failed exactly when one of them is dead; it has ended exactly
/// when all of them have; it is paused exactly when all of them are; otherwise it runs.
pub proof fn law_overall_state(states: Map<Seq<char>, Seq<char>>)
    requires
        exists|c: Seq<char>| states.contains_key(c),
    ensures
        overall_state(states) == ModelState::Failed <==> exists|c: Seq<char>| #[trigger]
            states.contains_key(c) && says_dead(states[c]),
        overall_state(states) == ModelState::Succeeded <==> forall|c: Seq<char>| #[trigger]
            states.contains_key(c) ==> says_exited(states[c]),
        overall_state(states) == ModelState::Unknown <==> forall|c: Seq<char>| #[trigger]
            states.contains_key(c) ==> says_paused(states[c]),
        overall_state(states) == ModelState::Running <==> {
            &&& forall|c: Seq<char>| #[trigger]
                states.contains_key(c) ==> !says_dead(states[c])
            &&& exists|c: Seq<char>| #[trigger]
                states.contains_key(c) && !says_exited(states[c])
            &&& exists|c: Seq<char>| #[trigger]
                states.contains_key(c) && !says_paused(states[c])
        },
{
    assert forall|c: Seq<char>| #[trigger] states.contains_key(c) implies !(says_dead(states[c])
        && says_exited(states[c])) && !(says_dead(states[c]) && says_paused(states[c])) && !(
    says_exited(states[c]) && says_paused(states[c])) by {
        lemma_words_differ(states[c]);
    }
    let some = choose|c: Seq<char>| states.contains_key(c);
    assert(states.contains_key(some));
}

/// One container that runs keeps its model running, in whatever states the others are, as long
/// as none of them is dead.
pub proof fn law_one_running_container_is_enough(states: Map<Seq<char>, Seq<char>>, c: Seq<char>)
    requires
        states.contains_key(c),
        lowercase(states[c]) == "running"@,
        forall|other: Seq<char>| #[trigger]
            states.contains_key(other) ==> !says_dead(states[other]),
    ensures
        overall_state(states) == ModelState::Running,
{
    reveal_strlit("running");
    reveal_strlit("exited");
    reveal_strlit("stopped");
    reveal_strlit("paused");
    assert("running"@[0] == 'r');
    assert("exited"@[0] == 'e');
    assert("stopped"@[0] == 's');
    assert("paused"@[0] == 'p');
    law_overall_state(states);
}

/// Words that stand for the states of containers make up the state of a model in the same way.
pub proof fn law_state_by_words(words: Seq<Seq<char>>)
    requires
        words.len() > 0,
    ensures
        state_by_words(words) == ModelState::Failed <==> exists|i: int|
            0 <= i < words.len() && (#[trigger] words[i] == "dead"@ || words[i] == "failed"@
                || words[i] == "error"@),
        state_by_words(words) == ModelState::Succeeded <==> forall|i: int|
            0 <= i < words.len() ==> #[trigger] words[i] == "exited"@ || words[i] == "stopped"@,
        state_by_words(words) == ModelState::Unknown <==> forall|i: int|
            0 <= i < words.len() ==> #[trigger] words[i] == "paused"@,
        state_by_words(words) != ModelState::Pending,
        state_by_words(words) != ModelState::Unspecified,
        state_by_words(words) != ModelState::ContainerCreating,
        state_by_words(words) != ModelState::CrashLoopBackOff,
{
    reveal_strlit("dead");
    reveal_strlit("failed");
    reveal_strlit("error");
    reveal_strlit("exited");
    reveal_strlit("stopped");
    reveal_strlit("paused");
    assert("dead"@[0] == 'd');
    assert("failed"@[0] == 'f');
    assert("error"@.len() == 5);
    assert("exited"@.len() == 6);
    assert("exited"@[0] == 'e');
    assert("stopped"@[0] == 's');
    assert("paused"@[0] == 'p');
    let first = words[0];
}

/// A name occurs in another one.
pub open spec fn is_part_of(part: Seq<char>, name: Seq<char>) -> bool {
    exists|before: Seq<char>, after: Seq<char>| name == #[trigger] (before + part + after)
}

/// The state of a model is evaluated from the containers whose names hold the model's name, and
/// from no others. Where nothing at all is reported, the model is pending.
pub proof fn law_evaluated_state(model_name: Seq<char>, states: Map<Seq<char>, Seq<char>>)
    ensures
        (forall|c: Seq<char>| !states.contains_key(c)) ==> evaluated_state(model_name, states)
            == ModelState::Pending,
        (exists|c: Seq<char>| #[trigger]
            states.contains_key(c) && is_part_of(model_name, c)) ==> {
            &&& evaluated_state(model_name, states) == ModelState::Failed <==> exists|c: Seq<char>|
                #[trigger]
                states.contains_key(c) && is_part_of(model_name, c) && says_dead(states[c])
            &&& evaluated_state(model_name, states) == ModelState::Succeeded <==> forall|
                c: Seq<char>,
            | #[trigger]
                states.contains_key(c) && is_part_of(model_name, c) ==> says_exited(states[c])
            &&& evaluated_state(model_name, states) == ModelState::Unknown <==> forall|
                c: Seq<char>,
            | #[trigger]
                states.contains_key(c) && is_part_of(model_name, c) ==> says_paused(states[c])
            &&& evaluated_state(model_name, states) != ModelState::Pending
        },
{
    if forall|c: Seq<char>| !states.contains_key(c) {
        assert(states =~= Map::<Seq<char>, Seq<char>>::empty());
    }
    if exists|c: Seq<char>| #[trigger] states.contains_key(c) && is_part_of(model_name, c) {
        let own = belonging(model_name, states);
        assert forall|c: Seq<char>| #[trigger] states.contains_key(c) implies own.contains_key(c)
            == is_part_of(model_name, c) by {
            lemma_part(model_name, c);
        }
        let some = choose|c: Seq<char>| #[trigger]
            states.contains_key(c) && is_part_of(model_name, c);
        assert(own.contains_key(some));
        assert(states != Map::<Seq<char>, Seq<char>>::empty());
        assert forall|c: Seq<char>| #[trigger] own.contains_key(c) implies states.contains_key(c)
            && own[c] == states[c] by {}
        law_overall_state(own);
    }
}

proof fn lemma_part(part: Seq<char>, name: Seq<char>)
    ensures
        occurs_in(part, name) == is_part_of(part, name),
{
    if occurs_in(part, name) {
        let i = choose|i: int| occurs_at(part, name, i);
        let before = name.take(i);
        let after = name.skip(i + part.len());
        assert(name =~= before + part + after);
    }
    if is_part_of(part, name) {
        let (before, after) = choose|before: Seq<char>, after: Seq<char>|
            name == #[trigger] (before + part + after);
        assert(name.subrange(before.len() as int, (before.len() + part.len()) as int) =~= part);
        assert(occurs_at(part, name, before.len() as int));
    }
}

// ---------------------------------------------------------------------------
// The containers of a model
// ---------------------------------------------------------------------------

/// The container at this place belongs to the model, and no later one of the model has the same
/// identifier.
pub open spec fn counts_for(containers: Seq<ContainerView>, model_name: Seq<char>, i: int) -> bool {
    &&& 0 <= i < containers.len()
    &&& model_of_container(containers[i]) == Some(model_name)
    &&& forall|j: int|
        i < j < containers.len() && model_of_container(#[trigger] containers[j]) == Some(model_name)
            ==> containers[j].id != containers[i].id
}

/// What a container reports first, or "unknown".
pub open spec fn first_report(container: ContainerView) -> Seq<char> {
    if container.state.len() > 0 {
        container.state[0].1
    } else {
        "unknown"@
    }
}

/// The states that are looked at for a model are those of its containers, of each the last that
/// was listed, and of no others.
pub proof fn law_states_of_model(
    containers: Seq<ContainerView>,
    model_name: Seq<char>,
    id: Seq<char>,
)
    ensures
        states_of_model(containers, model_name).contains_key(id) <==> exists|i: int| #[trigger]
            counts_for(containers, model_name, i) && containers[i].id == id,
        forall|i: int| #[trigger]
            counts_for(containers, model_name, i) ==> states_of_model(
                containers,
                model_name,
            ).contains_key(containers[i].id) && states_of_model(
                containers,
                model_name,
            )[containers[i].id] == first_report(containers[i]),
    decreases containers.len(),
{
    if containers.len() > 0 {
        let rest = containers.drop_last();
        let last = containers.len() - 1;
        law_states_of_model(rest, model_name, id);
        let own = model_of_container(containers[last]) == Some(model_name);
        assert forall|i: int| 0 <= i < last implies (#[trigger] counts_for(
            containers,
            model_name,
            i,
        ) <==> counts_for(rest, model_name, i) && (own ==> containers[last].id
            != containers[i].id)) by {
            assert(rest[i] == containers[i]);
            if counts_for(containers, model_name, i) {
                assert forall|j: int|
                    i < j < rest.len() && model_of_container(#[trigger] rest[j]) == Some(
                        model_name,
                    ) implies rest[j].id != rest[i].id by {
                    assert(rest[j] == containers[j]);
                }
            }
            if counts_for(rest, model_name, i) && (own ==> containers[last].id != containers[i].id) {
                assert forall|j: int|
                    i < j < containers.len() && model_of_container(#[trigger] containers[j])
                        == Some(model_name) implies containers[j].id != containers[i].id by {
                    if j < last {
                        assert(rest[j] == containers[j]);
                    }
                }
            }
        }
        assert(counts_for(containers, model_name, last) == own);
        assert(containers.last() == containers[last]);
        let before = states_of_model(rest, model_name);
        let after = states_of_model(containers, model_name);
        if before.contains_key(id) && !(own && containers[last].id == id) {
            let i = choose|i: int| #[trigger] counts_for(rest, model_name, i) && rest[i].id == id;
            assert(rest[i] == containers[i]);
            assert(counts_for(containers, model_name, i));
        }
        if exists|i: int| #[trigger]
            counts_for(containers, model_name, i) && containers[i].id == id {
            let i = choose|i: int| #[trigger]
                counts_for(containers, model_name, i) && containers[i].id == id;
            if i < last {
                assert(rest[i] == containers[i]);
                assert(counts_for(rest, model_name, i));
            }
        }
        assert forall|i: int| #[trigger] counts_for(containers, model_name, i) implies
            after.contains_key(containers[i].id) && after[containers[i].id] == first_report(
            containers[i],
        ) by {
            if i < last {
                assert(rest[i] == containers[i]);
                assert(counts_for(rest, model_name, i));
            }
        }
    }
}

/// The state that a list of containers brings a model into, by what its containers report
/// first: failed when one is dead, ended when all have, paused when all are, and running
/// otherwise. Containers of other models do not matter.
pub proof fn law_listed_containers_make_up_model(
    containers: Seq<ContainerView>,
    model_name: Seq<char>,
)
    requires
        exists|i: int| counts_for(containers, model_name, i),
    ensures
        ({
            let state = state_by_containers(containers, model_name);
            &&& state == ModelState::Failed <==> exists|i: int| #[trigger]
                counts_for(containers, model_name, i) && says_dead(first_report(containers[i]))
            &&& state == ModelState::Succeeded <==> forall|i: int| #[trigger]
                counts_for(containers, model_name, i) ==> says_exited(first_report(containers[i]))
            &&& state == ModelState::Unknown <==> forall|i: int| #[trigger]
                counts_for(containers, model_name, i) ==> says_paused(first_report(containers[i]))
            &&& state == ModelState::Failed || state == ModelState::Succeeded || state
                == ModelState::Unknown || state == ModelState::Running
        }),
{
    let states = states_of_model(containers, model_name);
    assert forall|c: Seq<char>| #[trigger] states.contains_key(c) implies exists|i: int| #[trigger]
        counts_for(containers, model_name, i) && containers[i].id == c && states[c] == first_report(
            containers[i],
        ) by {
        law_states_of_model(containers, model_name, c);
        let i = choose|i: int| #[trigger]
            counts_for(containers, model_name, i) && containers[i].id == c;
        assert(counts_for(containers, model_name, i));
    }
    assert forall|i: int| #[trigger] counts_for(containers, model_name, i) implies
        states.contains_key(containers[i].id) && states[containers[i].id] == first_report(
        containers[i],
    ) by {
        law_states_of_model(containers, model_name, containers[i].id);
    }
    let some = choose|i: int| counts_for(containers, model_name, i);
    assert(states.contains_key(containers[some].id));
    law_overall_state(states);
}

/// A container belongs to the model that its annotation names; else to the one that its
/// configuration names; else to the one that its own names tell.
pub proof fn law_model_of_container(container: ContainerView)
    ensures
        container.annotation.contains_key("pullpiri.model"@) ==> model_of_container(container)
            == Some(container.annotation["pullpiri.model"@]),
        !container.annotation.contains_key("pullpiri.model"@) && container.config.contains_key(
            "model"@,
        ) ==> model_of_container(container) == Some(container.config["model"@]),
        !container.annotation.contains_key("pullpiri.model"@) && !container.config.contains_key(
            "model"@,
        ) ==> model_of_container(container) == model_in_names(container.names),
{
}

/// A name tells nothing of a model: what stands before its first dash is empty, "pod" or
/// "container".
pub open spec fn tells_nothing(name: Seq<char>) -> bool {
    ||| name.len() == 0 || name[0] == '-'
    ||| name == "pod"@ || name.take(4) == "pod-"@ && name.len() > 3
    ||| name == "container"@ || name.take(10) == "container-"@ && name.len() > 9
}

/// The names of a container tell the model by the first of them that tells anything: up to its
/// first dash.
pub proof fn law_model_in_names(names: Seq<Seq<char>>)
    ensures
        match model_in_names(names) {
            Some(model_name) => exists|i: int|
                {
                    &&& 0 <= i < names.len()
                    &&& !tells_nothing(#[trigger] names[i])
                    &&& forall|j: int| 0 <= j < i ==> tells_nothing(#[trigger] names[j])
                    &&& !model_name.contains('-')
                    &&& model_name.len() > 0
                    &&& model_name.len() <= names[i].len()
                    &&& names[i].take(model_name.len() as int) == model_name
                    &&& model_name.len() < names[i].len() ==> names[i][model_name.len() as int]
                        == '-'
                },
            None => forall|i: int| 0 <= i < names.len() ==> tells_nothing(#[trigger] names[i]),
        },
    decreases names.len(),
{
    if names.len() > 0 {
        let name = names[0];
        let part = before_first(name, '-');
        law_before_first(name, '-');
        lemma_tells_nothing(name);
        if part.len() > 0 && part != "pod"@ && part != "container"@ {
            assert(!tells_nothing(names[0]));
        } else {
            let rest = names.skip(1);
            law_model_in_names(rest);
            match model_in_names(rest) {
                Some(model_name) => {
                    let i = choose|i: int|
                        {
                            &&& 0 <= i < rest.len()
                            &&& !tells_nothing(#[trigger] rest[i])
                            &&& forall|j: int| 0 <= j < i ==> tells_nothing(#[trigger] rest[j])
                            &&& !model_name.contains('-')
                            &&& model_name.len() > 0
                            &&& model_name.len() <= rest[i].len()
                            &&& rest[i].take(model_name.len() as int) == model_name
                            &&& model_name.len() < rest[i].len()
                                ==> rest[i][model_name.len() as int] == '-'
                        };
                    assert(names[i + 1] == rest[i]);
                    assert forall|j: int| 0 <= j < i + 1 implies tells_nothing(
                        #[trigger] names[j],
                    ) by {
                        if j > 0 {
                            assert(names[j] == rest[j - 1]);
                        }
                    }
                },
                None => {
                    assert forall|i: int| 0 <= i < names.len() implies tells_nothing(
                        #[trigger] names[i],
                    ) by {
                        if i > 0 {
                            assert(names[i] == rest[i - 1]);
                        }
                    }
                },
            }
        }
    }
}

proof fn lemma_tells_nothing(name: Seq<char>)
    ensures
        ({
            let part = before_first(name, '-');
            tells_nothing(name) <==> part.len() == 0 || part == "pod"@ || part == "container"@
        }),
{
    let part = before_first(name, '-');
    law_before_first(name, '-');
    reveal_strlit("pod");
    reveal_strlit("pod-");
    reveal_strlit("container");
    reveal_strlit("container-");
    let n = part.len() as int;
    assert(name.take(n) == part);
    if n == 0 && name.len() > 0 {
        assert(name[0] == '-');
    }
    if name.len() > 0 && name[0] == '-' && n > 0 {
        assert(part[0] == '-');
        assert(part.contains(part[0]));
    }
    if part == "pod"@ {
        if name.len() == 3 {
            assert(name =~= "pod"@);
        } else {
            assert(name.take(4) =~= "pod-"@) by {
                assert(name[3] == '-');
                assert(forall|i: int| 0 <= i < 3 ==> name[i] == part[i]);
            }
        }
    }
    if part == "container"@ {
        if name.len() == 9 {
            assert(name =~= "container"@);
        } else {
            assert(name.take(10) =~= "container-"@) by {
                assert(name[9] == '-');
                assert(forall|i: int| 0 <= i < 9 ==> name[i] == part[i]);
            }
        }
    }
    if name == "pod"@ {
        assert(n == 3) by {
            if n < 3 {
                assert(name[n] == '-');
            }
        }
        assert(part =~= "pod"@);
    }
    if name == "container"@ {
        assert(n == 9) by {
            if n < 9 {
                assert(name[n] == '-');
            }
        }
        assert(part =~= "container"@);
    }
    if name.len() > 3 && name.take(4) == "pod-"@ {
        assert(name[3] == name.take(4)[3]);
        assert(forall|i: int| 0 <= i < 4 ==> name[i] == name.take(4)[i]);
        if n < 3 {
            assert(name[n] == '-');
        }
        if n > 3 {
            assert(part[3] == '-');
            assert(part.contains(part[3]));
        }
        assert(part =~= "pod"@);
    }
    if name.len() > 9 && name.take(10) == "container-"@ {
        assert(forall|i: int| 0 <= i < 10 ==> name[i] == name.take(10)[i]);
        if n < 9 {
            assert(name[n] == '-');
        }
        if n > 9 {
            assert(part[9] == '-');
            assert(part.contains(part[9]));
        }
        assert(part =~= "container"@);
    }
}

// ---------------------------------------------------------------------------
// What is on record of a model
// ---------------------------------------------------------------------------

/// A model counts as in the state that is on record, where containers can bring that about; as
/// pending otherwise, and where nothing is on record.
pub proof fn law_current_model_state(
    machine: MachineView,
    model_name: Seq<char>,
    state: ModelState,
)
    ensures
        ({
            let key = resource_key(ResourceType::Model, model_name);
            &&& !machine.resources.contains_key(key) ==> current_model_state(machine, model_name)
                == ModelState::Pending
            &&& machine.resources.contains_key(key) && machine.resources[key].current_state
                == state.number() ==> current_model_state(machine, model_name) == if state
                == ModelState::Unspecified || state == ModelState::ContainerCreating || state
                == ModelState::CrashLoopBackOff {
                ModelState::Pending
            } else {
                state
            }
        }),
{
}

/// A model that was not on record begins healthy, with one transition, without a wish for
/// another state and without notes. One that was keeps all but its state, the time and the
/// number of its transitions.
pub proof fn law_containers_touch_state_alone(
    machine: MachineView,
    model_name: Seq<char>,
    state: ModelState,
    now: u128,
)
    ensures
        ({
            let key = resource_key(ResourceType::Model, model_name);
            let after = with_model_state(machine, model_name, state, now).resources[key];
            &&& after.current_state == state.number()
            &&& after.last_transition_time == now
            &&& if machine.resources.contains_key(key) {
                let before = machine.resources[key];
                &&& after.transition_count == before.transition_count + 1
                &&& after.resource_type == before.resource_type
                &&& after.resource_name == before.resource_name
                &&& after.desired_state == before.desired_state
                &&& after.metadata == before.metadata
                &&& after.health_status == before.health_status
            } else {
                &&& after.transition_count == 1
                &&& after.resource_type == ResourceType::Model
                &&& after.resource_name == model_name
                &&& after.desired_state is None
                &&& after.metadata == Map::<Seq<char>, Seq<char>>::empty()
                &&& after.health_status.healthy
                &&& after.health_status.consecutive_failures == 0
                &&& after.health_status.last_check == now
            }
        }),
{
}

/// A model that its containers leave in its state is left alone altogether.
pub proof fn law_unchanged_model_is_left_alone(
    machine: MachineView,
    containers: Seq<ContainerView>,
    now: u128,
    model_name: Seq<char>,
)
    requires
        models_named(containers).contains(model_name),
        current_model_state(machine, model_name) == state_by_containers(containers, model_name),
    ensures
        ({
            let key = resource_key(ResourceType::Model, model_name);
            let after = step_containers(machine, containers, now).0;
            &&& after.resources.contains_key(key) == machine.resources.contains_key(key)
            &&& machine.resources.contains_key(key) ==> after.resources[key]
                == machine.resources[key]
        }),
{
    lemma_unchanged(machine, containers, models_named(containers), now, model_name);
}

proof fn lemma_unchanged(
    machine: MachineView,
    containers: Seq<ContainerView>,
    names: Seq<Seq<char>>,
    now: u128,
    model_name: Seq<char>,
)
    requires
        current_model_state(machine, model_name) == state_by_containers(containers, model_name),
    ensures
        ({
            let key = resource_key(ResourceType::Model, model_name);
            let after = step_models(machine, containers, names, now).0;
            &&& after.resources.contains_key(key) == machine.resources.contains_key(key)
            &&& machine.resources.contains_key(key) ==> after.resources[key]
                == machine.resources[key]
            &&& current_model_state(after, model_name) == current_model_state(machine, model_name)
        }),
    decreases names.len(),
{
    if names.len() > 0 {
        let last = names.last();
        lemma_unchanged(machine, containers, names.drop_last(), now, model_name);
        if resource_key(ResourceType::Model, last) == resource_key(ResourceType::Model, model_name) {
            law_resource_keys_differ(
                ResourceType::Model,
                last,
                ResourceType::Model,
                model_name,
            );
        }
    }
}

// ---------------------------------------------------------------------------
// What is stored of a model
// ---------------------------------------------------------------------------

/// The state of a model is stored under a key of its own, by the word for what its containers
/// are.
pub proof fn law_stored_models(a: Seq<char>, b: Seq<char>)
    ensures
        model_state_key(a) == model_state_key(b) ==> a == b,
        model_state_label(ModelState::Pending) == "Created"@,
        model_state_label(ModelState::Running) == "Running"@,
        model_state_label(ModelState::Unknown) == "Paused"@,
        model_state_label(ModelState::Succeeded) == "Exited"@,
        model_state_label(ModelState::Failed) == "Dead"@,
        model_state_key(a) == "/model/"@ + a + "/state"@,
{
    reveal_strlit("/model/");
    reveal_strlit("/state");
    if model_state_key(a) == model_state_key(b) {
        assert(a =~= model_state_key(a).subrange(7, model_state_key(a).len() - 6));
        assert(b =~= model_state_key(b).subrange(7, model_state_key(b).len() - 6));
    }
}

/// The models that a list of containers is about are those that some container of it belongs to.
pub proof fn law_models_named(containers: Seq<ContainerView>, model_name: Seq<char>)
    ensures
        models_named(containers).contains(model_name) <==> exists|i: int|
            0 <= i < containers.len() && model_of_container(#[trigger] containers[i]) == Some(
                model_name,
            ),
        models_named(containers).no_duplicates(),
{
    let models = models_of_containers(containers);
    law_distinct_names(models);
    if models.contains(Some(model_name)) {
        let i = choose|i: int| 0 <= i < models.len() && models[i] == Some(model_name);
        assert(model_of_container(containers[i]) == Some(model_name));
    }
    if exists|i: int|
        0 <= i < containers.len() && model_of_container(#[trigger] containers[i]) == Some(
            model_name,
        ) {
        let i = choose|i: int|
            0 <= i < containers.len() && model_of_container(#[trigger] containers[i]) == Some(
                model_name,
            );
        assert(models[i] == Some(model_name));
    }
}

/// After a list of containers every model that it is about has failed exactly when one of its
/// containers is dead, has ended exactly when all of them have, is paused exactly when all of them
/// are, and runs otherwise.
pub proof fn law_list_brings_models_about(
    machine: MachineView,
    containers: Seq<ContainerView>,
    now: u128,
    model_name: Seq<char>,
)
    requires
        exists|i: int| counts_for(containers, model_name, i),
    ensures
        ({
            let state = current_model_state(
                step_containers(machine, containers, now).0,
                model_name,
            );
            &&& state == ModelState::Failed <==> exists|i: int| #[trigger]
                counts_for(containers, model_name, i) && says_dead(first_report(containers[i]))
            &&& state == ModelState::Succeeded <==> forall|i: int| #[trigger]
                counts_for(containers, model_name, i) ==> says_exited(first_report(containers[i]))
            &&& state == ModelState::Unknown <==> forall|i: int| #[trigger]
                counts_for(containers, model_name, i) ==> says_paused(first_report(containers[i]))
            &&& state == ModelState::Failed || state == ModelState::Succeeded || state
                == ModelState::Unknown || state == ModelState::Running
        }),
{
    let some = choose|i: int| counts_for(containers, model_name, i);
    assert(model_of_container(containers[some]) == Some(model_name));
    law_models_named(containers, model_name);
    law_containers_decide_models(machine, containers, now, model_name, ModelState::Running);
    law_listed_containers_make_up_model(containers, model_name);
}

} // verus!
