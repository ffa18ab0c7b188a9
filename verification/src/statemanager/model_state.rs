//! How the states of a model's containers make up the state of the model.

use crate::grouping::optionals;
use crate::messages::{reported, ContainerInfo, ContainerView, ModelState};
use crate::string_map::{entries_map, keys_distinct, lemma_entries_map, place_of, StringMap};
use crate::text::{
    before_first, before_first_str, concat3, contains_str, is_empty_str, lowercase, lowercase_str,
    occurs_in, optional, str_eq, texts,
};
use vstd::prelude::*;

verus! {

// ---------------------------------------------------------------------------
// The state of a model
// ---------------------------------------------------------------------------

/// The word, in lower case, for a paused container.
pub open spec fn paused_word(word: Seq<char>) -> bool {
    word == "paused"@
}

/// The words, in lower case, for a container that has ended.
pub open spec fn exited_word(word: Seq<char>) -> bool {
    word == "exited"@ || word == "stopped"@
}

/// The words, in lower case, for a container that has failed.
pub open spec fn dead_word(word: Seq<char>) -> bool {
    word == "dead"@ || word == "failed"@ || word == "error"@
}

/// The state of a model whose containers are in the states that these words stand for: failed
/// when one of them is dead; "paused" (which `Unknown` stands for) when all are paused;
/// "exited" (which `Succeeded` stands for) when all have ended; running otherwise.
pub open spec fn state_by_words(words: Seq<Seq<char>>) -> ModelState {
    if exists|i: int| 0 <= i < words.len() && dead_word(#[trigger] words[i]) {
        ModelState::Failed
    } else if forall|i: int| 0 <= i < words.len() ==> paused_word(#[trigger] words[i]) {
        ModelState::Unknown
    } else if forall|i: int| 0 <= i < words.len() ==> exited_word(#[trigger] words[i]) {
        ModelState::Succeeded
    } else {
        ModelState::Running
    }
}

/// A container that reports this state is paused.
pub open spec fn is_paused(state: Seq<char>) -> bool {
    paused_word(lowercase(state))
}

/// A container that reports this state has ended.
pub open spec fn is_exited(state: Seq<char>) -> bool {
    exited_word(lowercase(state))
}

/// A container that reports this state has failed.
pub open spec fn is_dead(state: Seq<char>) -> bool {
    dead_word(lowercase(state))
}

/// The state of a model whose containers report these states, in upper or lower case.
pub open spec fn overall_state(states: Map<Seq<char>, Seq<char>>) -> ModelState {
    if exists|c: Seq<char>| #[trigger] states.contains_key(c) && is_dead(states[c]) {
        ModelState::Failed
    } else if forall|c: Seq<char>| #[trigger] states.contains_key(c) ==> is_paused(states[c]) {
        ModelState::Unknown
    } else if forall|c: Seq<char>| #[trigger] states.contains_key(c) ==> is_exited(states[c]) {
        ModelState::Succeeded
    } else {
        ModelState::Running
    }
}

/// The containers with the model's name in theirs.
pub open spec fn belonging(model_name: Seq<char>, states: Map<Seq<char>, Seq<char>>) -> Map<
    Seq<char>,
    Seq<char>,
> {
    Map::new(
        |c: Seq<char>| states.contains_key(c) && occurs_in(model_name, c),
        |c: Seq<char>| states[c],
    )
}

/// The state of a model, by the states of containers of which some are the model's. Where no
/// container at all is known, the model is "created", which `Pending` stands for.
pub open spec fn evaluated_state(
    model_name: Seq<char>,
    states: Map<Seq<char>, Seq<char>>,
) -> ModelState {
    if states == Map::<Seq<char>, Seq<char>>::empty() {
        ModelState::Pending
    } else {
        overall_state(belonging(model_name, states))
    }
}

/// The state of a model whose containers are in the states that these words stand for.
pub fn model_state_by_words(words: &Vec<String>) -> (state: ModelState)
    ensures
        state == state_by_words(texts(words@)),
{
    let ghost all = texts(words@);
    let mut all_paused = true;
    let mut all_exited = true;
    let mut has_dead = false;
    let mut i: usize = 0;
    while i < words.len()
        invariant
            i <= words@.len(),
            all == texts(words@),
            has_dead == exists|j: int| 0 <= j < i && dead_word(#[trigger] all[j]),
            all_paused == forall|j: int| 0 <= j < i ==> paused_word(#[trigger] all[j]),
            all_exited == forall|j: int| 0 <= j < i ==> exited_word(#[trigger] all[j]),
        decreases words@.len() - i,
    {
        let word = words[i].as_str();
        assert(word@ == all[i as int]);
        if !str_eq(word, "paused") {
            all_paused = false;
        }
        if !str_eq(word, "exited") && !str_eq(word, "stopped") {
            all_exited = false;
        }
        if str_eq(word, "dead") || str_eq(word, "failed") || str_eq(word, "error") {
            has_dead = true;
        }
        i += 1;
    }
    if has_dead {
        ModelState::Failed
    } else if all_paused {
        ModelState::Unknown
    } else if all_exited {
        ModelState::Succeeded
    } else {
        ModelState::Running
    }
}

/// The state of a model whose containers report these states.
pub fn overall_state_of(states: &StringMap<String>) -> (state: ModelState)
    ensures
        state == overall_state(states@),
{
    let ghost entries = states.entries();
    let mut words: Vec<String> = Vec::new();
    let count: usize = states.len();
    let mut i: usize = 0;
    while i < count
        invariant
            i <= count == entries.len(),
            entries == states.entries(),
            words@.len() == i,
            forall|j: int| 0 <= j < i ==> (#[trigger] words@[j])@ == lowercase(entries[j].1),
        decreases count - i,
    {
        words.push(lowercase_str(states.value_at(i).as_str()));
        i += 1;
    }
    proof {
        assert forall|j: int| 0 <= j < entries.len() implies #[trigger] texts(words@)[j]
            == lowercase(entries[j].1) by {
            assert(words@[j]@ == lowercase(entries[j].1));
        }
        lemma_overall_state(entries, texts(words@));
    }
    model_state_by_words(&words)
}

proof fn lemma_overall_state(entries: Seq<(Seq<char>, Seq<char>)>, words: Seq<Seq<char>>)
    requires
        keys_distinct(entries),
        words.len() == entries.len(),
        forall|j: int|
            0 <= j < entries.len() ==> #[trigger] words[j] == lowercase(entries[j].1),
    ensures
        overall_state(entries_map(entries)) == state_by_words(words),
{
    let map = entries_map(entries);
    lemma_entries_map(entries);
    assert forall|j: int| 0 <= j < words.len() implies map.contains_key(entries[j].0)
        && lowercase(map[entries[j].0]) == #[trigger] words[j] by {
        assert(map[entries[j].0] == entries[j].1);
    }
    assert forall|c: Seq<char>| #[trigger] map.contains_key(c) implies 0 <= place_of(entries, c)
        < words.len() && words[place_of(entries, c)] == lowercase(map[c]) by {
        assert(entries[place_of(entries, c)] == (c, map[c]));
    }
}

fn belonging_to(model_name: &str, states: &StringMap<String>) -> (own: StringMap<String>)
    ensures
        own@ == belonging(model_name@, states@),
{
    let ghost entries = states.entries();
    let mut own: StringMap<String> = StringMap::new();
    let count: usize = states.len();
    proof {
        lemma_entries_map(entries);
    }
    let mut i: usize = 0;
    while i < count
        invariant
            i <= count == entries.len(),
            entries == states.entries(),
            states@ == entries_map(entries),
            forall|j: int|
                0 <= j < entries.len() ==> states@.contains_key((#[trigger] entries[j]).0)
                    && states@[entries[j].0] == entries[j].1,
            forall|c: Seq<char>| #[trigger]
                own@.contains_key(c) ==> states@.contains_key(c) && occurs_in(model_name@, c)
                    && own@[c] == states@[c],
            forall|j: int|
                0 <= j < i && occurs_in(model_name@, (#[trigger] entries[j]).0)
                    ==> own@.contains_key(entries[j].0),
        decreases count - i,
    {
        let name = states.key_at(i);
        if contains_str(name.as_str(), model_name) {
            own.insert(name.clone(), states.value_at(i).clone());
        }
        i += 1;
    }
    assert(own@ =~= belonging(model_name@, states@)) by {
        assert forall|c: Seq<char>|
            states@.contains_key(c) && occurs_in(model_name@, c) implies own@.contains_key(c) by {
            assert(entries[place_of(entries, c)].0 == c);
        }
    }
    own
}

/// The state of a model, by the states of containers of which some are the model's.
pub fn evaluated_state_of(model_name: &str, states: &StringMap<String>) -> (state: ModelState)
    ensures
        state == evaluated_state(model_name@, states@),
{
    proof {
        let entries = states.entries();
        if entries.len() > 0 {
            assert(states@.contains_key(entries[0].0));
        } else {
            assert(states@ =~= Map::<Seq<char>, Seq<char>>::empty());
        }
    }
    if states.is_empty() {
        ModelState::Pending
    } else {
        let own = belonging_to(model_name, states);
        overall_state_of(&own)
    }
}

// ---------------------------------------------------------------------------
// The model of a container
// ---------------------------------------------------------------------------

/// The model that the first telling name of a container names: what stands before its first
/// dash, unless that is empty, "pod" or "container".
pub open spec fn model_in_names(names: Seq<Seq<char>>) -> Option<Seq<char>>
    decreases names.len(),
{
    if names.len() == 0 {
        None
    } else {
        let part = before_first(names[0], '-');
        if part.len() > 0 && part != "pod"@ && part != "container"@ {
            Some(part)
        } else {
            model_in_names(names.skip(1))
        }
    }
}

/// The model that a container belongs to: its annotation names it, or its configuration, or
/// its own name.
pub open spec fn model_of_container(container: ContainerView) -> Option<Seq<char>> {
    if container.annotation.contains_key("pullpiri.model"@) {
        Some(container.annotation["pullpiri.model"@])
    } else if container.config.contains_key("model"@) {
        Some(container.config["model"@])
    } else {
        model_in_names(container.names)
    }
}

/// The state that a container reports: its first one.
pub open spec fn container_state(container: ContainerView) -> Seq<char> {
    if container.state.len() > 0 {
        container.state[0].1
    } else {
        "unknown"@
    }
}

/// The states of a model's containers, by container.
pub open spec fn states_of_model(containers: Seq<ContainerView>, model_name: Seq<char>) -> Map<
    Seq<char>,
    Seq<char>,
>
    decreases containers.len(),
{
    if containers.len() == 0 {
        Map::empty()
    } else {
        let before = states_of_model(containers.drop_last(), model_name);
        let last = containers.last();
        if model_of_container(last) == Some(model_name) {
            before.insert(last.id, container_state(last))
        } else {
            before
        }
    }
}

/// The models that containers belong to, container by container.
pub open spec fn models_of_containers(containers: Seq<ContainerView>) -> Seq<Option<Seq<char>>> {
    containers.map_values(|container: ContainerView| model_of_container(container))
}

fn model_in_names_of(names: &Vec<String>) -> (model_name: Option<String>)
    ensures
        optional(model_name) == model_in_names(texts(names@)),
{
    let ghost all = texts(names@);
    let mut i: usize = 0;
    assert(all.skip(0) =~= all);
    while i < names.len()
        invariant
            i <= names@.len(),
            all == texts(names@),
            model_in_names(all) == model_in_names(all.skip(i as int)),
        decreases names@.len() - i,
    {
        let part = before_first_str(names[i].as_str(), '-');
        assert(all.skip(i as int)[0] == names@[i as int]@);
        assert(all.skip(i as int).skip(1) =~= all.skip(i + 1));
        if !is_empty_str(part.as_str()) && !str_eq(part.as_str(), "pod") && !str_eq(
            part.as_str(),
            "container",
        ) {
            return Some(part);
        }
        i += 1;
    }
    None
}

/// The model that a container belongs to.
pub fn model_name_of_container(container: &ContainerInfo) -> (model_name: Option<String>)
    ensures
        optional(model_name) == model_of_container(container@),
{
    if let Some(model_name) = container.annotation.get("pullpiri.model") {
        return Some(model_name.clone());
    }
    if let Some(model_name) = container.config.get("model") {
        return Some(model_name.clone());
    }
    model_in_names_of(&container.names)
}

fn container_state_of(container: &ContainerInfo) -> (state: String)
    ensures
        state@ == container_state(container@),
{
    if container.state.is_empty() {
        "unknown".to_owned()
    } else {
        container.state.value_at(0).clone()
    }
}

/// The models that containers belong to, container by container.
pub fn model_names_of_containers(containers: &Vec<ContainerInfo>) -> (names: Vec<Option<String>>)
    ensures
        optionals(names@) == models_of_containers(reported(containers@)),
{
    let mut names: Vec<Option<String>> = Vec::new();
    let mut i: usize = 0;
    while i < containers.len()
        invariant
            i <= containers@.len(),
            names@.len() == i,
            forall|j: int|
                0 <= j < i ==> optional(#[trigger] names@[j]) == model_of_container(
                    containers@[j]@,
                ),
        decreases containers@.len() - i,
    {
        names.push(model_name_of_container(&containers[i]));
        i += 1;
    }
    assert(optionals(names@) =~= models_of_containers(reported(containers@)));
    names
}

/// The states of a model's containers, by container.
pub fn states_of_model_in(containers: &Vec<ContainerInfo>, model_name: &str) -> (states: StringMap<
    String,
>)
    ensures
        states@ == states_of_model(reported(containers@), model_name@),
{
    let ghost all = reported(containers@);
    let mut states: StringMap<String> = StringMap::new();
    let mut i: usize = 0;
    while i < containers.len()
        invariant
            i <= containers@.len(),
            all == reported(containers@),
            states@ == states_of_model(all.take(i as int), model_name@),
        decreases containers@.len() - i,
    {
        let container = &containers[i];
        assert(all.take(i + 1).drop_last() =~= all.take(i as int));
        assert(all.take(i + 1).last() == container@);
        if let Some(name) = model_name_of_container(container) {
            if str_eq(name.as_str(), model_name) {
                states.insert(container.id.clone(), container_state_of(container));
            }
        }
        i += 1;
    }
    assert(all.take(containers@.len() as int) =~= all);
    states
}

// ---------------------------------------------------------------------------
// What is stored
// ---------------------------------------------------------------------------

/// The word under which the state of a model is stored.
pub open spec fn model_state_label(state: ModelState) -> Seq<char> {
    match state {
        ModelState::Pending => "Created"@,
        ModelState::Unknown => "Paused"@,
        ModelState::Succeeded => "Exited"@,
        ModelState::Failed => "Dead"@,
        ModelState::Running => "Running"@,
        _ => "Unknown"@,
    }
}

/// The key under which the state of a model is stored.
pub open spec fn model_state_key(model_name: Seq<char>) -> Seq<char> {
    "/model/"@ + model_name + "/state"@
}

/// The key and the value that store the state of a model.
pub fn model_state_entry(model_name: &str, state: ModelState) -> (entry: (String, String))
    ensures
        entry.0@ == model_state_key(model_name@),
        entry.1@ == model_state_label(state),
{
    let value = match state {
        ModelState::Pending => "Created",
        ModelState::Unknown => "Paused",
        ModelState::Succeeded => "Exited",
        ModelState::Failed => "Dead",
        ModelState::Running => "Running",
        _ => "Unknown",
    };
    (concat3("/model/", model_name, "/state"), value.to_owned())
}

} // verus!
