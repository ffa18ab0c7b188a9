//! How the states of scenarios are stored.

use crate::messages::{
    law_scenario_state_names, law_scenario_state_numbers, ErrorCode, ResourceType, ScenarioState,
    StateChangeView,
};
use crate::statemanager::laws::{
    is_sound, is_state_of, law_granted_is_recorded, law_requests_keep_invariants, lemma_row_between,
};
use crate::statemanager::state_machine::{resource_key, state_before, step, MachineView};
use crate::statemanager::transitions::{scenario_state, scenario_table, state_number, state_word};
use crate::statemanager::types::ResultView;
use crate::text::{concat3, is_space, trim, trim_start};
use vstd::prelude::*;

verus! {

/// The word under which the state of a scenario is stored.
pub open spec fn scenario_state_label(state: ScenarioState) -> Seq<char> {
    match state {
        ScenarioState::Unspecified => "unspecified"@,
        ScenarioState::Idle => "idle"@,
        ScenarioState::Waiting => "waiting"@,
        ScenarioState::Allowed => "allowed"@,
        ScenarioState::Playing => "playing"@,
        ScenarioState::Denied => "denied"@,
        ScenarioState::Satisfied => "satisfied"@,
        ScenarioState::Completed => "completed"@,
    }
}

/// The key under which the state of a scenario is stored.
pub open spec fn scenario_state_key(scenario_name: Seq<char>) -> Seq<char> {
    "/scenario/"@ + scenario_name + "/state"@
}

/// The key and the value that store the state of a scenario.
pub fn scenario_state_entry(scenario_name: &str, state: ScenarioState) -> (entry: (String, String))
    ensures
        entry.0@ == scenario_state_key(scenario_name@),
        entry.1@ == scenario_state_label(state),
{
    let value = match state {
        ScenarioState::Unspecified => "unspecified",
        ScenarioState::Idle => "idle",
        ScenarioState::Waiting => "waiting",
        ScenarioState::Allowed => "allowed",
        ScenarioState::Playing => "playing",
        ScenarioState::Denied => "denied",
        ScenarioState::Satisfied => "satisfied",
        ScenarioState::Completed => "completed",
    };
    (concat3("/scenario/", scenario_name, "/state"), value.to_owned())
}

/// What is to be stored of the answer to a request: the new state of a scenario, where the
/// request was granted.
pub open spec fn stored_by(
    resource_type: ResourceType,
    resource_name: Seq<char>,
    result: ResultView,
) -> Option<(Seq<char>, Seq<char>)> {
    if resource_type == ResourceType::Scenario && result.error_code == ErrorCode::Success {
        match ScenarioState::numbered(result.new_state) {
            Some(state) => Some((scenario_state_key(resource_name), scenario_state_label(state))),
            None => None,
        }
    } else {
        None
    }
}

/// Whenever a request for a scenario is granted, and only then, the state that was asked for
/// is to be stored, under the key of the scenario.
pub proof fn law_granted_scenario_is_stored(
    machine: MachineView,
    change: StateChangeView,
    resource_type: ResourceType,
    now: u128,
)
    requires
        is_sound(machine),
        ResourceType::numbered(change.resource_type) == Some(resource_type),
    ensures
        ({
            let result = step(machine, change, now).result;
            let granted = resource_type == ResourceType::Scenario && result.error_code
                == ErrorCode::Success;
            match stored_by(resource_type, change.resource_name, result) {
                Some(entry) => {
                    &&& granted
                    &&& entry.0 == scenario_state_key(change.resource_name)
                    &&& match scenario_state(change.target_state) {
                        Some(state) => entry.1 == scenario_state_label(state),
                        None => false,
                    }
                },
                None => !granted,
            }
        }),
{
    let done = step(machine, change, now);
    if resource_type == ResourceType::Scenario && done.result.error_code == ErrorCode::Success {
        law_granted_is_recorded(machine, change, resource_type, now);
        law_requests_keep_invariants(machine, change, now);
        let key = resource_key(resource_type, change.resource_name);
        assert(done.machine.resources.contains_key(key));
        assert(is_state_of(resource_type, done.result.new_state));
        let from = state_before(machine, change, resource_type);
        lemma_row_between(scenario_table(), from, done.result.new_state);
        assert(scenario_table().len() == 10);
        assert(done.result.new_state != ScenarioState::Unspecified.number());
        if let Some(state) = scenario_state(change.target_state) {
            law_scenario_state_numbers(state, state.number());
        }
    }
}

/// The word under which the state of a scenario is stored names that state in a request.
pub proof fn law_stored_word_names_state(state: ScenarioState)
    ensures
        scenario_state(scenario_state_label(state)) == Some(state),
        state_number(scenario_state_label(state), ResourceType::Scenario.number())
            == state.number(),
{
    reveal_strlit("SCENARIO_STATE_");
    assert(!is_space('a') && !is_space('c') && !is_space('d') && !is_space('e') && !is_space('g') && !is_space('i') && !is_space('p') && !is_space('s') && !is_space('u') && !is_space('w'));
    match state {
        ScenarioState::Unspecified => {
            reveal_strlit("unspecified");
            reveal_strlit("SCENARIO_STATE_UNSPECIFIED");
            assert(trim_start("unspecified"@) == "unspecified"@);
            assert(trim("unspecified"@) == "unspecified"@);
            assert("SCENARIO_STATE_"@ + state_word("unspecified"@) =~= state.name());
        },
        ScenarioState::Idle => {
            reveal_strlit("idle");
            reveal_strlit("SCENARIO_STATE_IDLE");
            assert(trim_start("idle"@) == "idle"@);
            assert(trim("idle"@) == "idle"@);
            assert("SCENARIO_STATE_"@ + state_word("idle"@) =~= state.name());
        },
        ScenarioState::Waiting => {
            reveal_strlit("waiting");
            reveal_strlit("SCENARIO_STATE_WAITING");
            assert(trim_start("waiting"@) == "waiting"@);
            assert(trim("waiting"@) == "waiting"@);
            assert("SCENARIO_STATE_"@ + state_word("waiting"@) =~= state.name());
        },
        ScenarioState::Allowed => {
            reveal_strlit("allowed");
            reveal_strlit("SCENARIO_STATE_ALLOWED");
            assert(trim_start("allowed"@) == "allowed"@);
            assert(trim("allowed"@) == "allowed"@);
            assert("SCENARIO_STATE_"@ + state_word("allowed"@) =~= state.name());
        },
        ScenarioState::Playing => {
            reveal_strlit("playing");
            reveal_strlit("SCENARIO_STATE_PLAYING");
            assert(trim_start("playing"@) == "playing"@);
            assert(trim("playing"@) == "playing"@);
            assert("SCENARIO_STATE_"@ + state_word("playing"@) =~= state.name());
        },
        ScenarioState::Denied => {
            reveal_strlit("denied");
            reveal_strlit("SCENARIO_STATE_DENIED");
            assert(trim_start("denied"@) == "denied"@);
            assert(trim("denied"@) == "denied"@);
            assert("SCENARIO_STATE_"@ + state_word("denied"@) =~= state.name());
        },
        ScenarioState::Satisfied => {
            reveal_strlit("satisfied");
            reveal_strlit("SCENARIO_STATE_SATISFIED");
            assert(trim_start("satisfied"@) == "satisfied"@);
            assert(trim("satisfied"@) == "satisfied"@);
            assert("SCENARIO_STATE_"@ + state_word("satisfied"@) =~= state.name());
        },
        ScenarioState::Completed => {
            reveal_strlit("completed");
            reveal_strlit("SCENARIO_STATE_COMPLETED");
            assert(trim_start("completed"@) == "completed"@);
            assert(trim("completed"@) == "completed"@);
            assert("SCENARIO_STATE_"@ + state_word("completed"@) =~= state.name());
        },
    }
    law_scenario_state_names(state, state.name());
}

} // verus!
