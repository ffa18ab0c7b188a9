//! The policy manager: it says whether a scenario may proceed, and reports that to the state
//! manager.

use crate::messages::{ErrorCode, ResourceType, ScenarioState, StateChange, StateChangeView};
use crate::statemanager::scenario_state::law_stored_word_names_state;
use crate::statemanager::state_machine::{invalid_reason, resource_key, step, MachineView};
use crate::statemanager::transitions::{row_between, state_number};
use crate::text::{concat, digits, digits_of, is_blank, is_empty_str, is_space, str_eq};
use vstd::prelude::*;

verus! {

// ---------------------------------------------------------------------------
// Policy checks
// ---------------------------------------------------------------------------

/// The answer to a policy check.
#[derive(Clone, Debug)]
pub struct PolicyCheck {
    /// Zero where the scenario may proceed, and one where it may not.
    pub status: i32,
    pub desc: String,
}

/// The scenario may proceed.
pub open spec fn is_allowed(scenario_name: Seq<char>) -> bool {
    scenario_name == "test_scenario"@
}

/// What is said of a policy check.
pub open spec fn check_text(scenario_name: Seq<char>) -> Seq<char> {
    if scenario_name.len() == 0 {
        "Scenario name cannot be empty"@
    } else if is_allowed(scenario_name) {
        "Policy check passed"@
    } else {
        "Policy check failed for scenario: "@ + scenario_name
    }
}

/// The word for the outcome of a policy check.
pub open spec fn decision_word(status: i32) -> Seq<char> {
    if status == 0 {
        "allowed"@
    } else {
        "denied"@
    }
}

/// Says whether a scenario may proceed.
pub fn check_policy(scenario_name: &str) -> (check: PolicyCheck)
    ensures
        check.status == if is_allowed(scenario_name@) {
            0i32
        } else {
            1i32
        },
        check.desc@ == check_text(scenario_name@),
{
    proof {
        reveal_strlit("test_scenario");
    }
    if is_empty_str(scenario_name) {
        PolicyCheck { status: 1, desc: "Scenario name cannot be empty".to_owned() }
    } else if str_eq(scenario_name, "test_scenario") {
        PolicyCheck { status: 0, desc: "Policy check passed".to_owned() }
    } else {
        PolicyCheck {
            status: 1,
            desc: concat("Policy check failed for scenario: ", scenario_name),
        }
    }
}

/// The word for the outcome of a policy check.
pub fn policy_decision(check: &PolicyCheck) -> (word: &'static str)
    ensures
        word@ == decision_word(check.status),
{
    if check.status == 0 {
        "allowed"
    } else {
        "denied"
    }
}

/// The identifier of a policy check, by the time at which it was made.
pub fn check_id(milliseconds: u128) -> (id: String)
    ensures
        id@ == "check-"@ + digits(milliseconds as nat),
{
    let number = digits_of(milliseconds);
    concat("check-", number.as_str())
}

// ---------------------------------------------------------------------------
// Reports to the state manager
// ---------------------------------------------------------------------------

/// A change of a scenario's state, as the policy manager reports it.
pub open spec fn scenario_change(
    scenario_name: Seq<char>,
    current_state: Seq<char>,
    target_state: Seq<char>,
    transition_id: Seq<char>,
    timestamp_ns: i64,
) -> StateChangeView {
    StateChangeView {
        resource_type: ResourceType::Scenario.number(),
        resource_name: scenario_name,
        current_state,
        target_state,
        transition_id,
        timestamp_ns,
        source: "policymanager"@,
    }
}

/// The report of a change of a scenario's state.
pub fn report_scenario_state_change(
    scenario_name: &str,
    current_state: &str,
    target_state: &str,
    transition_id: &str,
    timestamp_ns: i64,
) -> (change: StateChange)
    ensures
        change@ == scenario_change(
            scenario_name@,
            current_state@,
            target_state@,
            transition_id@,
            timestamp_ns,
        ),
{
    StateChange {
        resource_type: ResourceType::Scenario.to_i32(),
        resource_name: scenario_name.to_owned(),
        current_state: current_state.to_owned(),
        target_state: target_state.to_owned(),
        transition_id: transition_id.to_owned(),
        timestamp_ns,
        source: "policymanager".to_owned(),
    }
}

/// The report of a policy check's outcome.
pub fn report_policy_verification(
    scenario_name: &str,
    policy_decision: &str,
    policy_id: &str,
    timestamp_ns: i64,
) -> (change: StateChange)
    ensures
        change@ == scenario_change(
            scenario_name@,
            "satisfied"@,
            policy_decision@,
            "policy-verification-"@ + policy_id@,
            timestamp_ns,
        ),
{
    let transition_id = concat("policy-verification-", policy_id);
    report_scenario_state_change(
        scenario_name,
        "satisfied",
        policy_decision,
        transition_id.as_str(),
        timestamp_ns,
    )
}

/// The report that a scenario may proceed.
pub fn report_policy_approval(scenario_name: &str, policy_id: &str, timestamp_ns: i64) -> (change:
    StateChange)
    ensures
        change@ == scenario_change(
            scenario_name@,
            "satisfied"@,
            "allowed"@,
            "policy-approval-"@ + policy_id@,
            timestamp_ns,
        ),
{
    let transition_id = concat("policy-approval-", policy_id);
    report_scenario_state_change(
        scenario_name,
        "satisfied",
        "allowed",
        transition_id.as_str(),
        timestamp_ns,
    )
}

/// The report that a scenario may not proceed.
pub fn report_policy_denial(scenario_name: &str, policy_id: &str, timestamp_ns: i64) -> (change:
    StateChange)
    ensures
        change@ == scenario_change(
            scenario_name@,
            "satisfied"@,
            "denied"@,
            "policy-denial-"@ + policy_id@,
            timestamp_ns,
        ),
{
    let transition_id = concat("policy-denial-", policy_id);
    report_scenario_state_change(
        scenario_name,
        "satisfied",
        "denied",
        transition_id.as_str(),
        timestamp_ns,
    )
}

// ---------------------------------------------------------------------------
// Laws
// ---------------------------------------------------------------------------

/// The report of a policy check on a scenario with a name is a valid request.
pub proof fn law_report_is_valid(
    scenario_name: Seq<char>,
    status: i32,
    policy_id: Seq<char>,
    timestamp_ns: i64,
)
    requires
        !is_blank(scenario_name),
    ensures
        invalid_reason(
            scenario_change(
                scenario_name,
                "satisfied"@,
                decision_word(status),
                "policy-verification-"@ + policy_id,
                timestamp_ns,
            ),
        ) is None,
{
    reveal_strlit("policy-verification-");
    assert(("policy-verification-"@ + policy_id)[0] == 'p');
    lemma_is_valid(
        scenario_name,
        decision_word(status),
        "policy-verification-"@ + policy_id,
        timestamp_ns,
    );
}

proof fn lemma_is_valid(
    scenario_name: Seq<char>,
    target_state: Seq<char>,
    transition_id: Seq<char>,
    timestamp_ns: i64,
)
    requires
        !is_blank(scenario_name),
        target_state == "allowed"@ || target_state == "denied"@,
        transition_id.len() > 0,
        transition_id[0] == 'p',
    ensures
        invalid_reason(
            scenario_change(
                scenario_name,
                "satisfied"@,
                target_state,
                transition_id,
                timestamp_ns,
            ),
        ) is None,
{
    reveal_strlit("satisfied");
    reveal_strlit("allowed");
    reveal_strlit("denied");
    reveal_strlit("policymanager");
    assert("satisfied"@[0] == 's');
    assert("allowed"@[0] == 'a');
    assert("denied"@[0] == 'd');
    assert("policymanager"@[0] == 'p');
    assert(is_space(transition_id[0]) ==> false);
    assert(is_space("policymanager"@[0]) ==> false);
}

/// The words of the policy manager name the states that they mean.
proof fn lemma_state_words()
    ensures
        state_number("satisfied"@, ResourceType::Scenario.number())
            == ScenarioState::Satisfied.number(),
        state_number("allowed"@, ResourceType::Scenario.number()) == ScenarioState::Allowed.number(),
        state_number("denied"@, ResourceType::Scenario.number()) == ScenarioState::Denied.number(),
{
    law_stored_word_names_state(ScenarioState::Satisfied);
    law_stored_word_names_state(ScenarioState::Allowed);
    law_stored_word_names_state(ScenarioState::Denied);
}

/// A scenario is in one of two states, or is not tracked yet.
pub open spec fn is_new_or_in(
    machine: MachineView,
    scenario_name: Seq<char>,
    one: ScenarioState,
    other: ScenarioState,
) -> bool {
    let key = resource_key(ResourceType::Scenario, scenario_name);
    machine.resources.contains_key(key) ==> {
        ||| machine.resources[key].current_state == one.number()
        ||| machine.resources[key].current_state == other.number()
    }
}

/// The state manager grants what the check of a policy came to, for a scenario whose
/// conditions are met: the scenario is allowed where it may proceed, and denied otherwise.
pub proof fn law_verification_is_granted(
    machine: MachineView,
    scenario_name: Seq<char>,
    status: i32,
    policy_id: Seq<char>,
    timestamp_ns: i64,
    now: u128,
)
    requires
        !is_blank(scenario_name),
        is_new_or_in(
            machine,
            scenario_name,
            ScenarioState::Satisfied,
            ScenarioState::Satisfied,
        ),
    ensures
        ({
            let done = step(
                machine,
                scenario_change(
                    scenario_name,
                    "satisfied"@,
                    decision_word(status),
                    "policy-verification-"@ + policy_id,
                    timestamp_ns,
                ),
                now,
            );
            &&& done.result.error_code == ErrorCode::Success
            &&& done.result.new_state == if status == 0 {
                ScenarioState::Allowed.number()
            } else {
                ScenarioState::Denied.number()
            }
        }),
{
    lemma_state_words();
    law_report_is_valid(scenario_name, status, policy_id, timestamp_ns);
    reveal_with_fuel(row_between, 11);
}

/// The state manager grants the approval of a scenario that waits or whose conditions are met,
/// and so the scenario is allowed. One that is not tracked yet is taken to be satisfied.
pub proof fn law_approval_is_granted(
    machine: MachineView,
    scenario_name: Seq<char>,
    policy_id: Seq<char>,
    timestamp_ns: i64,
    now: u128,
)
    requires
        !is_blank(scenario_name),
        is_new_or_in(machine, scenario_name, ScenarioState::Satisfied, ScenarioState::Waiting),
    ensures
        ({
            let done = step(
                machine,
                scenario_change(
                    scenario_name,
                    "satisfied"@,
                    "allowed"@,
                    "policy-approval-"@ + policy_id,
                    timestamp_ns,
                ),
                now,
            );
            &&& done.result.error_code == ErrorCode::Success
            &&& done.result.new_state == ScenarioState::Allowed.number()
        }),
{
    lemma_state_words();
    reveal_strlit("policy-approval-");
    assert(("policy-approval-"@ + policy_id)[0] == 'p');
    lemma_is_valid(scenario_name, "allowed"@, "policy-approval-"@ + policy_id, timestamp_ns);
    reveal_with_fuel(row_between, 11);
}

/// The state manager grants the denial of a scenario whose conditions are met or that is
/// allowed, and so the scenario is denied. One that is not tracked yet is taken to be
/// satisfied.
pub proof fn law_denial_is_granted(
    machine: MachineView,
    scenario_name: Seq<char>,
    policy_id: Seq<char>,
    timestamp_ns: i64,
    now: u128,
)
    requires
        !is_blank(scenario_name),
        is_new_or_in(machine, scenario_name, ScenarioState::Satisfied, ScenarioState::Allowed),
    ensures
        ({
            let done = step(
                machine,
                scenario_change(
                    scenario_name,
                    "satisfied"@,
                    "denied"@,
                    "policy-denial-"@ + policy_id,
                    timestamp_ns,
                ),
                now,
            );
            &&& done.result.error_code == ErrorCode::Success
            &&& done.result.new_state == ScenarioState::Denied.number()
        }),
{
    lemma_state_words();
    reveal_strlit("policy-denial-");
    assert(("policy-denial-"@ + policy_id)[0] == 'p');
    lemma_is_valid(scenario_name, "denied"@, "policy-denial-"@ + policy_id, timestamp_ns);
    reveal_with_fuel(row_between, 11);
}

/// One scenario may proceed, and no other; the outcome of a check is a word for that, and its text
/// says why.
pub proof fn law_who_may_proceed(scenario_name: Seq<char>)
    ensures
        is_allowed(scenario_name) <==> scenario_name == "test_scenario"@,
        decision_word(0) == "allowed"@,
        forall|status: i32| status != 0 ==> #[trigger] decision_word(status) == "denied"@,
        scenario_name == "test_scenario"@ ==> check_text(scenario_name) == "Policy check passed"@,
        scenario_name.len() == 0 ==> check_text(scenario_name) == "Scenario name cannot be empty"@,
        scenario_name.len() > 0 && scenario_name != "test_scenario"@ ==> check_text(scenario_name)
            == "Policy check failed for scenario: "@ + scenario_name,
{
    reveal_strlit("test_scenario");
}

/// A report is about the scenario, and says from where it comes, and from which state to which.
pub proof fn law_report_says_what_it_is_told(
    scenario_name: Seq<char>,
    current_state: Seq<char>,
    target_state: Seq<char>,
    transition_id: Seq<char>,
    timestamp_ns: i64,
)
    ensures
        ({
            let change = scenario_change(
                scenario_name,
                current_state,
                target_state,
                transition_id,
                timestamp_ns,
            );
            &&& ResourceType::numbered(change.resource_type) == Some(ResourceType::Scenario)
            &&& change.resource_name == scenario_name
            &&& change.current_state == current_state
            &&& change.target_state == target_state
            &&& change.transition_id == transition_id
            &&& change.timestamp_ns == timestamp_ns
            &&& change.source == "policymanager"@
        }),
{
}

} // verus!
