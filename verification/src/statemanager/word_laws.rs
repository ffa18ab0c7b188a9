//! The words for states in requests.

use crate::messages::{
    law_model_state_names, law_package_state_names, law_scenario_state_names, ModelState,
    PackageState, ResourceType, ScenarioState,
};
use crate::statemanager::state_machine::resource_key;
use crate::statemanager::transitions::{
    model_state, package_state, requested_state_name, scenario_state, state_char, state_name,
    state_number, state_word, type_label,
};
use crate::text::{ascii_upper, is_space, trim, trim_end, trim_start};
use vstd::prelude::*;

verus! {

/// The words for the states of a scenario.
pub proof fn law_words_for_scenario_states()
    ensures
        state_number("idle"@, ResourceType::Scenario.number()) == ScenarioState::Idle.number(),
        state_number("waiting"@, ResourceType::Scenario.number()) == ScenarioState::Waiting.number(),
        state_number("satisfied"@, ResourceType::Scenario.number()) == ScenarioState::Satisfied.number(),
        state_number("allowed"@, ResourceType::Scenario.number()) == ScenarioState::Allowed.number(),
        state_number("denied"@, ResourceType::Scenario.number()) == ScenarioState::Denied.number(),
        state_number("playing"@, ResourceType::Scenario.number()) == ScenarioState::Playing.number(),
        state_number("completed"@, ResourceType::Scenario.number()) == ScenarioState::Completed.number(),
{
    reveal_strlit("SCENARIO_STATE_");
    assert(!is_space('a') && !is_space('c') && !is_space('d') && !is_space('e') && !is_space('g') && !is_space('i') && !is_space('p') && !is_space('s') && !is_space('w'));
    reveal_strlit("idle");
    reveal_strlit("SCENARIO_STATE_IDLE");
    assert(trim_start("idle"@) == "idle"@);
    assert(trim("idle"@) == "idle"@);
    assert("SCENARIO_STATE_"@ + state_word("idle"@) =~= "SCENARIO_STATE_IDLE"@);
    law_scenario_state_names(ScenarioState::Idle, ScenarioState::Idle.name());
    reveal_strlit("waiting");
    reveal_strlit("SCENARIO_STATE_WAITING");
    assert(trim_start("waiting"@) == "waiting"@);
    assert(trim("waiting"@) == "waiting"@);
    assert("SCENARIO_STATE_"@ + state_word("waiting"@) =~= "SCENARIO_STATE_WAITING"@);
    law_scenario_state_names(ScenarioState::Waiting, ScenarioState::Waiting.name());
    reveal_strlit("satisfied");
    reveal_strlit("SCENARIO_STATE_SATISFIED");
    assert(trim_start("satisfied"@) == "satisfied"@);
    assert(trim("satisfied"@) == "satisfied"@);
    assert("SCENARIO_STATE_"@ + state_word("satisfied"@) =~= "SCENARIO_STATE_SATISFIED"@);
    law_scenario_state_names(ScenarioState::Satisfied, ScenarioState::Satisfied.name());
    reveal_strlit("allowed");
    reveal_strlit("SCENARIO_STATE_ALLOWED");
    assert(trim_start("allowed"@) == "allowed"@);
    assert(trim("allowed"@) == "allowed"@);
    assert("SCENARIO_STATE_"@ + state_word("allowed"@) =~= "SCENARIO_STATE_ALLOWED"@);
    law_scenario_state_names(ScenarioState::Allowed, ScenarioState::Allowed.name());
    reveal_strlit("denied");
    reveal_strlit("SCENARIO_STATE_DENIED");
    assert(trim_start("denied"@) == "denied"@);
    assert(trim("denied"@) == "denied"@);
    assert("SCENARIO_STATE_"@ + state_word("denied"@) =~= "SCENARIO_STATE_DENIED"@);
    law_scenario_state_names(ScenarioState::Denied, ScenarioState::Denied.name());
    reveal_strlit("playing");
    reveal_strlit("SCENARIO_STATE_PLAYING");
    assert(trim_start("playing"@) == "playing"@);
    assert(trim("playing"@) == "playing"@);
    assert("SCENARIO_STATE_"@ + state_word("playing"@) =~= "SCENARIO_STATE_PLAYING"@);
    law_scenario_state_names(ScenarioState::Playing, ScenarioState::Playing.name());
    reveal_strlit("completed");
    reveal_strlit("SCENARIO_STATE_COMPLETED");
    assert(trim_start("completed"@) == "completed"@);
    assert(trim("completed"@) == "completed"@);
    assert("SCENARIO_STATE_"@ + state_word("completed"@) =~= "SCENARIO_STATE_COMPLETED"@);
    law_scenario_state_names(ScenarioState::Completed, ScenarioState::Completed.name());
}

/// The words for the states of a package.
pub proof fn law_words_for_package_states()
    ensures
        state_number("initializing"@, ResourceType::Package.number()) == PackageState::Initializing.number(),
        state_number("running"@, ResourceType::Package.number()) == PackageState::Running.number(),
        state_number("degraded"@, ResourceType::Package.number()) == PackageState::Degraded.number(),
        state_number("error"@, ResourceType::Package.number()) == PackageState::Error.number(),
        state_number("paused"@, ResourceType::Package.number()) == PackageState::Paused.number(),
        state_number("updating"@, ResourceType::Package.number()) == PackageState::Updating.number(),
        state_number("exited"@, ResourceType::Package.number()) == PackageState::Exited.number(),
{
    reveal_strlit("PACKAGE_STATE_");
    assert(!is_space('d') && !is_space('e') && !is_space('g') && !is_space('i') && !is_space('p') && !is_space('r') && !is_space('u'));
    reveal_strlit("initializing");
    reveal_strlit("PACKAGE_STATE_INITIALIZING");
    assert(trim_start("initializing"@) == "initializing"@);
    assert(trim("initializing"@) == "initializing"@);
    assert("PACKAGE_STATE_"@ + state_word("initializing"@) =~= "PACKAGE_STATE_INITIALIZING"@);
    law_package_state_names(PackageState::Initializing, PackageState::Initializing.name());
    reveal_strlit("running");
    reveal_strlit("PACKAGE_STATE_RUNNING");
    assert(trim_start("running"@) == "running"@);
    assert(trim("running"@) == "running"@);
    assert("PACKAGE_STATE_"@ + state_word("running"@) =~= "PACKAGE_STATE_RUNNING"@);
    law_package_state_names(PackageState::Running, PackageState::Running.name());
    reveal_strlit("degraded");
    reveal_strlit("PACKAGE_STATE_DEGRADED");
    assert(trim_start("degraded"@) == "degraded"@);
    assert(trim("degraded"@) == "degraded"@);
    assert("PACKAGE_STATE_"@ + state_word("degraded"@) =~= "PACKAGE_STATE_DEGRADED"@);
    law_package_state_names(PackageState::Degraded, PackageState::Degraded.name());
    reveal_strlit("error");
    reveal_strlit("PACKAGE_STATE_ERROR");
    assert(trim_start("error"@) == "error"@);
    assert(trim("error"@) == "error"@);
    assert("PACKAGE_STATE_"@ + state_word("error"@) =~= "PACKAGE_STATE_ERROR"@);
    law_package_state_names(PackageState::Error, PackageState::Error.name());
    reveal_strlit("paused");
    reveal_strlit("PACKAGE_STATE_PAUSED");
    assert(trim_start("paused"@) == "paused"@);
    assert(trim("paused"@) == "paused"@);
    assert("PACKAGE_STATE_"@ + state_word("paused"@) =~= "PACKAGE_STATE_PAUSED"@);
    law_package_state_names(PackageState::Paused, PackageState::Paused.name());
    reveal_strlit("updating");
    reveal_strlit("PACKAGE_STATE_UPDATING");
    assert(trim_start("updating"@) == "updating"@);
    assert(trim("updating"@) == "updating"@);
    assert("PACKAGE_STATE_"@ + state_word("updating"@) =~= "PACKAGE_STATE_UPDATING"@);
    law_package_state_names(PackageState::Updating, PackageState::Updating.name());
    reveal_strlit("exited");
    reveal_strlit("PACKAGE_STATE_EXITED");
    assert(trim_start("exited"@) == "exited"@);
    assert(trim("exited"@) == "exited"@);
    assert("PACKAGE_STATE_"@ + state_word("exited"@) =~= "PACKAGE_STATE_EXITED"@);
    law_package_state_names(PackageState::Exited, PackageState::Exited.name());
}

/// The words for the states of a model. Words are joined by a hyphen or an underscore.
pub proof fn law_words_for_model_states()
    ensures
        state_number("pending"@, ResourceType::Model.number()) == ModelState::Pending.number(),
        state_number("container-creating"@, ResourceType::Model.number()) == ModelState::ContainerCreating.number(),
        state_number("running"@, ResourceType::Model.number()) == ModelState::Running.number(),
        state_number("succeeded"@, ResourceType::Model.number()) == ModelState::Succeeded.number(),
        state_number("failed"@, ResourceType::Model.number()) == ModelState::Failed.number(),
        state_number("unknown"@, ResourceType::Model.number()) == ModelState::Unknown.number(),
        state_number("crash-loop-back-off"@, ResourceType::Model.number()) == ModelState::CrashLoopBackOff.number(),
{
    reveal_strlit("MODEL_STATE_");
    assert(!is_space('c') && !is_space('d') && !is_space('f') && !is_space('g') && !is_space('n') && !is_space('p') && !is_space('r') && !is_space('s') && !is_space('u'));
    reveal_strlit("pending");
    reveal_strlit("MODEL_STATE_PENDING");
    assert(trim_start("pending"@) == "pending"@);
    assert(trim("pending"@) == "pending"@);
    assert("MODEL_STATE_"@ + state_word("pending"@) =~= "MODEL_STATE_PENDING"@);
    law_model_state_names(ModelState::Pending, ModelState::Pending.name());
    reveal_strlit("container-creating");
    reveal_strlit("MODEL_STATE_CONTAINER_CREATING");
    assert(trim_start("container-creating"@) == "container-creating"@);
    assert(trim("container-creating"@) == "container-creating"@);
    assert("MODEL_STATE_"@ + state_word("container-creating"@) =~= "MODEL_STATE_CONTAINER_CREATING"@);
    law_model_state_names(ModelState::ContainerCreating, ModelState::ContainerCreating.name());
    reveal_strlit("running");
    reveal_strlit("MODEL_STATE_RUNNING");
    assert(trim_start("running"@) == "running"@);
    assert(trim("running"@) == "running"@);
    assert("MODEL_STATE_"@ + state_word("running"@) =~= "MODEL_STATE_RUNNING"@);
    law_model_state_names(ModelState::Running, ModelState::Running.name());
    reveal_strlit("succeeded");
    reveal_strlit("MODEL_STATE_SUCCEEDED");
    assert(trim_start("succeeded"@) == "succeeded"@);
    assert(trim("succeeded"@) == "succeeded"@);
    assert("MODEL_STATE_"@ + state_word("succeeded"@) =~= "MODEL_STATE_SUCCEEDED"@);
    law_model_state_names(ModelState::Succeeded, ModelState::Succeeded.name());
    reveal_strlit("failed");
    reveal_strlit("MODEL_STATE_FAILED");
    assert(trim_start("failed"@) == "failed"@);
    assert(trim("failed"@) == "failed"@);
    assert("MODEL_STATE_"@ + state_word("failed"@) =~= "MODEL_STATE_FAILED"@);
    law_model_state_names(ModelState::Failed, ModelState::Failed.name());
    reveal_strlit("unknown");
    reveal_strlit("MODEL_STATE_UNKNOWN");
    assert(trim_start("unknown"@) == "unknown"@);
    assert(trim("unknown"@) == "unknown"@);
    assert("MODEL_STATE_"@ + state_word("unknown"@) =~= "MODEL_STATE_UNKNOWN"@);
    law_model_state_names(ModelState::Unknown, ModelState::Unknown.name());
    reveal_strlit("crash-loop-back-off");
    reveal_strlit("MODEL_STATE_CRASH_LOOP_BACK_OFF");
    assert(trim_start("crash-loop-back-off"@) == "crash-loop-back-off"@);
    assert(trim("crash-loop-back-off"@) == "crash-loop-back-off"@);
    assert("MODEL_STATE_"@ + state_word("crash-loop-back-off"@) =~= "MODEL_STATE_CRASH_LOOP_BACK_OFF"@);
    law_model_state_names(ModelState::CrashLoopBackOff, ModelState::CrashLoopBackOff.name());
}

/// Two characters are the same letter, in upper or lower case, or both join words.
pub open spec fn same_letter(a: char, b: char) -> bool {
    ||| a == b
    ||| 'a' <= a && a <= 'z' && b as u32 + 32 == a as u32
    ||| 'a' <= b && b <= 'z' && a as u32 + 32 == b as u32
    ||| (a == '-' || a == '_') && (b == '-' || b == '_')
}

/// A word means the same in upper and lower case, and with hyphens as with underscores.
pub proof fn law_spelling_does_not_matter(a: Seq<char>, b: Seq<char>, resource_type: i32)
    requires
        a.len() == b.len(),
        forall|i: int| 0 <= i < a.len() ==> same_letter(#[trigger] a[i], b[i]),
    ensures
        state_number(a, resource_type) == state_number(b, resource_type),
{
    lemma_same_start(a, b);
    lemma_same_end(trim_start(a), trim_start(b));
    let x = trim(a);
    let y = trim(b);
    assert forall|i: int| 0 <= i < x.len() implies state_char(x[i]) == state_char(y[i]) by {
        assert(same_letter(x[i], y[i]));
    }
    assert(state_word(a) =~= state_word(b));
}

proof fn lemma_same_start(a: Seq<char>, b: Seq<char>)
    requires
        a.len() == b.len(),
        forall|i: int| 0 <= i < a.len() ==> same_letter(#[trigger] a[i], b[i]),
    ensures
        trim_start(a).len() == trim_start(b).len(),
        forall|i: int|
            0 <= i < trim_start(a).len() ==> same_letter(
                #[trigger] trim_start(a)[i],
                trim_start(b)[i],
            ),
    decreases a.len(),
{
    if a.len() > 0 {
        assert(same_letter(a[0], b[0]));
        if is_space(a[0]) {
            let c = a.drop_first();
            let d = b.drop_first();
            assert forall|i: int| 0 <= i < c.len() implies same_letter(#[trigger] c[i], d[i]) by {
                assert(same_letter(a[i + 1], b[i + 1]));
            }
            lemma_same_start(c, d);
        }
    }
}

proof fn lemma_same_end(a: Seq<char>, b: Seq<char>)
    requires
        a.len() == b.len(),
        forall|i: int| 0 <= i < a.len() ==> same_letter(#[trigger] a[i], b[i]),
    ensures
        trim_end(a).len() == trim_end(b).len(),
        forall|i: int|
            0 <= i < trim_end(a).len() ==> same_letter(#[trigger] trim_end(a)[i], trim_end(b)[i]),
    decreases a.len(),
{
    if a.len() > 0 {
        assert(same_letter(a[a.len() - 1], b[a.len() - 1]));
        if is_space(a.last()) {
            let c = a.drop_last();
            let d = b.drop_last();
            assert forall|i: int| 0 <= i < c.len() implies same_letter(#[trigger] c[i], d[i]) by {
                assert(same_letter(a[i], b[i]));
            }
            lemma_same_end(c, d);
        }
    }
}

/// White space around a word does not matter.
pub proof fn law_space_does_not_matter(word: Seq<char>, space: char, resource_type: i32)
    requires
        is_space(space),
    ensures
        state_number(seq![space] + word, resource_type) == state_number(word, resource_type),
        state_number(word.push(space), resource_type) == state_number(word, resource_type),
{
    assert((seq![space] + word).drop_first() =~= word);
    assert(trim_start(seq![space] + word) == trim_start(word));
    lemma_space_after(word, space);
}

proof fn lemma_space_after(word: Seq<char>, space: char)
    requires
        is_space(space),
    ensures
        trim(word.push(space)) == trim(word),
    decreases word.len(),
{
    let longer = word.push(space);
    if word.len() > 0 && is_space(word[0]) {
        assert(longer.drop_first() =~= word.drop_first().push(space));
        lemma_space_after(word.drop_first(), space);
    } else if word.len() > 0 {
        assert(trim_start(longer) == longer);
        assert(longer.drop_last() =~= word);
    } else {
        assert(longer.drop_first() =~= word);
    }
}

/// A word that names no state of a type counts as the state that is not specified, whose number
/// is zero; in messages it is called unknown.
pub proof fn law_words_without_a_state(word: Seq<char>)
    ensures
        scenario_state(word) is None ==> {
            &&& state_number(word, ResourceType::Scenario.number()) == 0
            &&& requested_state_name(ResourceType::Scenario, word) == "UNKNOWN"@
        },
        package_state(word) is None ==> {
            &&& state_number(word, ResourceType::Package.number()) == 0
            &&& requested_state_name(ResourceType::Package, word) == "UNKNOWN"@
        },
        model_state(word) is None ==> {
            &&& state_number(word, ResourceType::Model.number()) == 0
            &&& requested_state_name(ResourceType::Model, word) == "UNKNOWN"@
        },
{
}

/// The state that a word means has one name, whether it is looked up by the word or by its
/// number: the one that ends in the word, in upper case.
pub proof fn law_names_of_requested_states(resource_type: ResourceType, word: Seq<char>)
    requires
        state_number(word, resource_type.number()) != 0,
    ensures
        state_name(resource_type, state_number(word, resource_type.number()))
            == requested_state_name(resource_type, word),
        ({
            let name = requested_state_name(resource_type, word);
            name.len() >= trim(word).len() && forall|i: int|
                0 <= i < trim(word).len() ==> {
                    let c = #[trigger] trim(word)[i];
                    name[name.len() - trim(word).len() + i] == if c == '-' {
                        '_'
                    } else {
                        ascii_upper(c)
                    }
                }
        }),
{
    let spelt = state_word(word);
    assert(spelt.len() == trim(word).len());
    match resource_type {
        ResourceType::Scenario => {
            let state = scenario_state(word)->0;
            law_scenario_state_names(state, "SCENARIO_STATE_"@ + spelt);
        },
        ResourceType::Package => {
            let state = package_state(word)->0;
            law_package_state_names(state, "PACKAGE_STATE_"@ + spelt);
        },
        ResourceType::Model => {
            let state = model_state(word)->0;
            law_model_state_names(state, "MODEL_STATE_"@ + spelt);
        },
        _ => {},
    }
}

/// The names of the types of resources, as they stand in keys and messages.
pub proof fn law_type_labels()
    ensures
        type_label(ResourceType::Scenario) == "Scenario"@,
        type_label(ResourceType::Package) == "Package"@,
        type_label(ResourceType::Model) == "Model"@,
        type_label(ResourceType::Volume) == "Volume"@,
        type_label(ResourceType::Network) == "Network"@,
        type_label(ResourceType::Node) == "Node"@,
        type_label(ResourceType::Unspecified) == "Unspecified"@,
{
}

/// The key of a resource is its type and its name, with two colons between them.
pub proof fn law_keys(resource_type: ResourceType, resource_name: Seq<char>)
    ensures
        ({
            let key = resource_key(resource_type, resource_name);
            let label = type_label(resource_type);
            &&& key.len() == label.len() + 2 + resource_name.len()
            &&& key.take(label.len() as int) == label
            &&& key[label.len() as int] == ':'
            &&& key[label.len() as int + 1] == ':'
            &&& key.skip(label.len() as int + 2) == resource_name
        }),
{
    reveal_strlit("::");
    let key = resource_key(resource_type, resource_name);
    let label = type_label(resource_type);
    assert(key.take(label.len() as int) =~= label);
    assert(key.skip(label.len() as int + 2) =~= resource_name);
}

} // verus!
