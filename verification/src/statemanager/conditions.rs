//! The conditions of transitions.

use crate::text::{chars_of, lemma_split_nothing, split, split_str, str_eq, texts};
use crate::text_laws::law_split_of_joined;
use vstd::prelude::*;

verus! {

/// A letter, a digit, or an underscore.
pub open spec fn is_word_char(c: char) -> bool {
    ||| 'a' <= c && c <= 'z'
    ||| 'A' <= c && c <= 'Z'
    ||| '0' <= c && c <= '9'
    ||| c == '_'
}

/// A name or a number: letters, digits and underscores, one at least.
pub open spec fn is_word(s: Seq<char>) -> bool {
    &&& s.len() > 0
    &&& forall|i: int| 0 <= i < s.len() ==> is_word_char(#[trigger] s[i])
}

/// A sign that compares two words, or joins two comparisons.
pub open spec fn is_operator(s: Seq<char>) -> bool {
    ||| s == ">"@
    ||| s == "<"@
    ||| s == ">="@
    ||| s == "<="@
    ||| s == "=="@
    ||| s == "!="@
    ||| s == "&&"@
    ||| s == "||"@
}

/// A text is well formed as a condition: it is a word, or words with an operator between each
/// two, and a space on each side of it.
pub open spec fn is_well_formed(condition: Seq<char>) -> bool {
    let parts = split(condition, ' ');
    &&& parts.len() % 2 == 1
    &&& forall|i: int|
        0 <= i < parts.len() ==> if i % 2 == 0 {
            is_word(#[trigger] parts[i])
        } else {
            is_operator(parts[i])
        }
}

/// The conditions that are known not to be met.
pub open spec fn is_unmet(condition: Seq<char>) -> bool {
    ||| condition == "critical_models_failed"@
    ||| condition == "critical_model_issues"@
    ||| condition == "critical_models_affected"@
    ||| condition == "timeout_or_error"@
    ||| condition == "unexpected_termination"@
    ||| condition == "consecutive_restart_failures"@
    ||| condition == "node_communication_issues"@
    ||| condition == "retry_limit_reached"@
}

/// A condition holds when it is well formed, and is not known to be unmet.
pub open spec fn condition_holds(condition: Seq<char>) -> bool {
    is_well_formed(condition) && !is_unmet(condition)
}

fn is_word_str(s: &str) -> (word: bool)
    ensures
        word == is_word(s@),
{
    let chars = chars_of(s);
    let mut i: usize = 0;
    while i < chars.len()
        invariant
            i <= chars@.len(),
            chars@ == s@,
            forall|j: int| 0 <= j < i ==> is_word_char(#[trigger] s@[j]),
        decreases chars@.len() - i,
    {
        let c = chars[i];
        assert(c == s@[i as int]);
        let fits = ('a' <= c && c <= 'z') || ('A' <= c && c <= 'Z') || ('0' <= c && c <= '9') || c
            == '_';
        if !fits {
            return false;
        }
        i += 1;
    }
    chars.len() > 0
}

fn is_operator_str(s: &str) -> (operator: bool)
    ensures
        operator == is_operator(s@),
{
    str_eq(s, ">")
        || str_eq(s, "<")
        || str_eq(s, ">=")
        || str_eq(s, "<=")
        || str_eq(s, "==")
        || str_eq(s, "!=")
        || str_eq(s, "&&")
        || str_eq(s, "||")
}

fn is_well_formed_str(condition: &str) -> (well_formed: bool)
    ensures
        well_formed == is_well_formed(condition@),
{
    let parts = split_str(condition, ' ');
    let ghost all = split(condition@, ' ');
    let mut i: usize = 0;
    while i < parts.len()
        invariant
            i <= parts@.len(),
            all == texts(parts@),
            all == split(condition@, ' '),
            forall|j: int|
                0 <= j < i ==> if j % 2 == 0 {
                    is_word(#[trigger] all[j])
                } else {
                    is_operator(all[j])
                },
        decreases parts@.len() - i,
    {
        let part = parts[i].as_str();
        assert(part@ == all[i as int]);
        let fits = if i % 2 == 0 {
            is_word_str(part)
        } else {
            is_operator_str(part)
        };
        if !fits {
            return false;
        }
        i += 1;
    }
    parts.len() % 2 == 1
}

/// Whether a condition lets a transition happen.
pub fn evaluate_condition(condition: &str) -> (holds: bool)
    ensures
        holds == condition_holds(condition@),
{
    let unmet = str_eq(condition, "critical_models_failed")
        || str_eq(condition, "critical_model_issues")
        || str_eq(condition, "critical_models_affected")
        || str_eq(condition, "timeout_or_error")
        || str_eq(condition, "unexpected_termination")
        || str_eq(condition, "consecutive_restart_failures")
        || str_eq(condition, "node_communication_issues")
        || str_eq(condition, "retry_limit_reached");
    is_well_formed_str(condition) && !unmet
}

// ---------------------------------------------------------------------------
// Laws
// ---------------------------------------------------------------------------

/// A condition that is a word holds, unless it is known to be unmet.
pub proof fn law_words_hold(condition: Seq<char>)
    requires
        is_word(condition),
    ensures
        condition_holds(condition) <==> !is_unmet(condition),
{
    assert forall|i: int| 0 <= i < condition.len() implies #[trigger] condition[i] != ' ' by {
        assert(is_word_char(condition[i]));
    }
    lemma_split_nothing(condition, ' ');
    assert(split(condition, ' ')[0] == condition);
}

/// A text that has something else than words and operators in it does not hold.
pub proof fn law_malformed_conditions_fail(condition: Seq<char>, i: int)
    requires
        0 <= i < split(condition, ' ').len(),
        !is_word(split(condition, ' ')[i]),
        !is_operator(split(condition, ' ')[i]),
    ensures
        !condition_holds(condition),
{
}

/// The conditions that say that all is well are met, and those that say that something is
/// wrong are not.
pub proof fn law_known_conditions()
    ensures
        condition_holds("all_models_normal"@),
        condition_holds("critical_models_normal"@),
        condition_holds("non_critical_model_issues"@),
        condition_holds("all_models_recovered"@),
        condition_holds("depends_on_recovery_level"@),
        condition_holds("depends_on_previous_state"@),
        condition_holds("depends_on_rollback_settings"@),
        condition_holds("sufficient_resources"@),
        condition_holds("all_containers_started"@),
        condition_holds("one_time_task"@),
        condition_holds("restart_successful"@),
        condition_holds("depends_on_actual_state"@),
        condition_holds("according_to_restart_policy"@),
        !condition_holds("critical_models_failed"@),
        !condition_holds("critical_model_issues"@),
        !condition_holds("critical_models_affected"@),
        !condition_holds("timeout_or_error"@),
        !condition_holds("unexpected_termination"@),
        !condition_holds("consecutive_restart_failures"@),
        !condition_holds("node_communication_issues"@),
        !condition_holds("retry_limit_reached"@),
{
    lemma_all_models_normal_holds();
    lemma_critical_models_normal_holds();
    lemma_non_critical_model_issues_holds();
    lemma_all_models_recovered_holds();
    lemma_depends_on_recovery_level_holds();
    lemma_depends_on_previous_state_holds();
    lemma_depends_on_rollback_settings_holds();
    lemma_sufficient_resources_holds();
    lemma_all_containers_started_holds();
    lemma_one_time_task_holds();
    lemma_restart_successful_holds();
    lemma_depends_on_actual_state_holds();
    lemma_according_to_restart_policy_holds();
}

proof fn lemma_all_models_normal_holds()
    ensures
        condition_holds("all_models_normal"@),
{
    reveal_strlit("all_models_normal");
    reveal_strlit("critical_models_failed");
    reveal_strlit("critical_model_issues");
    reveal_strlit("critical_models_affected");
    reveal_strlit("timeout_or_error");
    reveal_strlit("unexpected_termination");
    reveal_strlit("consecutive_restart_failures");
    reveal_strlit("node_communication_issues");
    reveal_strlit("retry_limit_reached");
    assert("all_models_normal"@.len() == 17);
    assert("critical_models_failed"@.len() == 22);
    assert("critical_model_issues"@.len() == 21);
    assert("critical_models_affected"@.len() == 24);
    assert("timeout_or_error"@.len() == 16);
    assert("unexpected_termination"@.len() == 22);
    assert("consecutive_restart_failures"@.len() == 28);
    assert("node_communication_issues"@.len() == 25);
    assert("retry_limit_reached"@.len() == 19);
    law_words_hold("all_models_normal"@);
}

proof fn lemma_critical_models_normal_holds()
    ensures
        condition_holds("critical_models_normal"@),
{
    reveal_strlit("critical_models_normal");
    reveal_strlit("critical_models_failed");
    reveal_strlit("critical_model_issues");
    reveal_strlit("critical_models_affected");
    reveal_strlit("timeout_or_error");
    reveal_strlit("unexpected_termination");
    reveal_strlit("consecutive_restart_failures");
    reveal_strlit("node_communication_issues");
    reveal_strlit("retry_limit_reached");
    assert("critical_models_normal"@.len() == 22);
    assert("critical_models_failed"@[16] == 'f');
    assert("critical_models_normal"@[16] == 'n');
    assert("critical_model_issues"@.len() == 21);
    assert("critical_models_affected"@.len() == 24);
    assert("timeout_or_error"@.len() == 16);
    assert("unexpected_termination"@[0] == 'u');
    assert("critical_models_normal"@[0] == 'c');
    assert("consecutive_restart_failures"@.len() == 28);
    assert("node_communication_issues"@.len() == 25);
    assert("retry_limit_reached"@.len() == 19);
    law_words_hold("critical_models_normal"@);
}

proof fn lemma_non_critical_model_issues_holds()
    ensures
        condition_holds("non_critical_model_issues"@),
{
    reveal_strlit("non_critical_model_issues");
    reveal_strlit("critical_models_failed");
    reveal_strlit("critical_model_issues");
    reveal_strlit("critical_models_affected");
    reveal_strlit("timeout_or_error");
    reveal_strlit("unexpected_termination");
    reveal_strlit("consecutive_restart_failures");
    reveal_strlit("node_communication_issues");
    reveal_strlit("retry_limit_reached");
    assert("non_critical_model_issues"@.len() == 25);
    assert("critical_models_failed"@.len() == 22);
    assert("critical_model_issues"@.len() == 21);
    assert("critical_models_affected"@.len() == 24);
    assert("timeout_or_error"@.len() == 16);
    assert("unexpected_termination"@.len() == 22);
    assert("consecutive_restart_failures"@.len() == 28);
    assert("node_communication_issues"@[2] == 'd');
    assert("non_critical_model_issues"@[2] == 'n');
    assert("retry_limit_reached"@.len() == 19);
    law_words_hold("non_critical_model_issues"@);
}

proof fn lemma_all_models_recovered_holds()
    ensures
        condition_holds("all_models_recovered"@),
{
    reveal_strlit("all_models_recovered");
    reveal_strlit("critical_models_failed");
    reveal_strlit("critical_model_issues");
    reveal_strlit("critical_models_affected");
    reveal_strlit("timeout_or_error");
    reveal_strlit("unexpected_termination");
    reveal_strlit("consecutive_restart_failures");
    reveal_strlit("node_communication_issues");
    reveal_strlit("retry_limit_reached");
    assert("all_models_recovered"@.len() == 20);
    assert("critical_models_failed"@.len() == 22);
    assert("critical_model_issues"@.len() == 21);
    assert("critical_models_affected"@.len() == 24);
    assert("timeout_or_error"@.len() == 16);
    assert("unexpected_termination"@.len() == 22);
    assert("consecutive_restart_failures"@.len() == 28);
    assert("node_communication_issues"@.len() == 25);
    assert("retry_limit_reached"@.len() == 19);
    law_words_hold("all_models_recovered"@);
}

proof fn lemma_depends_on_recovery_level_holds()
    ensures
        condition_holds("depends_on_recovery_level"@),
{
    reveal_strlit("depends_on_recovery_level");
    reveal_strlit("critical_models_failed");
    reveal_strlit("critical_model_issues");
    reveal_strlit("critical_models_affected");
    reveal_strlit("timeout_or_error");
    reveal_strlit("unexpected_termination");
    reveal_strlit("consecutive_restart_failures");
    reveal_strlit("node_communication_issues");
    reveal_strlit("retry_limit_reached");
    assert("depends_on_recovery_level"@.len() == 25);
    assert("critical_models_failed"@.len() == 22);
    assert("critical_model_issues"@.len() == 21);
    assert("critical_models_affected"@.len() == 24);
    assert("timeout_or_error"@.len() == 16);
    assert("unexpected_termination"@.len() == 22);
    assert("consecutive_restart_failures"@.len() == 28);
    assert("node_communication_issues"@[0] == 'n');
    assert("depends_on_recovery_level"@[0] == 'd');
    assert("retry_limit_reached"@.len() == 19);
    law_words_hold("depends_on_recovery_level"@);
}

proof fn lemma_depends_on_previous_state_holds()
    ensures
        condition_holds("depends_on_previous_state"@),
{
    reveal_strlit("depends_on_previous_state");
    reveal_strlit("critical_models_failed");
    reveal_strlit("critical_model_issues");
    reveal_strlit("critical_models_affected");
    reveal_strlit("timeout_or_error");
    reveal_strlit("unexpected_termination");
    reveal_strlit("consecutive_restart_failures");
    reveal_strlit("node_communication_issues");
    reveal_strlit("retry_limit_reached");
    assert("depends_on_previous_state"@.len() == 25);
    assert("critical_models_failed"@.len() == 22);
    assert("critical_model_issues"@.len() == 21);
    assert("critical_models_affected"@.len() == 24);
    assert("timeout_or_error"@.len() == 16);
    assert("unexpected_termination"@.len() == 22);
    assert("consecutive_restart_failures"@.len() == 28);
    assert("node_communication_issues"@[0] == 'n');
    assert("depends_on_previous_state"@[0] == 'd');
    assert("retry_limit_reached"@.len() == 19);
    law_words_hold("depends_on_previous_state"@);
}

proof fn lemma_depends_on_rollback_settings_holds()
    ensures
        condition_holds("depends_on_rollback_settings"@),
{
    reveal_strlit("depends_on_rollback_settings");
    reveal_strlit("critical_models_failed");
    reveal_strlit("critical_model_issues");
    reveal_strlit("critical_models_affected");
    reveal_strlit("timeout_or_error");
    reveal_strlit("unexpected_termination");
    reveal_strlit("consecutive_restart_failures");
    reveal_strlit("node_communication_issues");
    reveal_strlit("retry_limit_reached");
    assert("depends_on_rollback_settings"@.len() == 28);
    assert("critical_models_failed"@.len() == 22);
    assert("critical_model_issues"@.len() == 21);
    assert("critical_models_affected"@.len() == 24);
    assert("timeout_or_error"@.len() == 16);
    assert("unexpected_termination"@.len() == 22);
    assert("consecutive_restart_failures"@[0] == 'c');
    assert("depends_on_rollback_settings"@[0] == 'd');
    assert("node_communication_issues"@.len() == 25);
    assert("retry_limit_reached"@.len() == 19);
    law_words_hold("depends_on_rollback_settings"@);
}

proof fn lemma_sufficient_resources_holds()
    ensures
        condition_holds("sufficient_resources"@),
{
    reveal_strlit("sufficient_resources");
    reveal_strlit("critical_models_failed");
    reveal_strlit("critical_model_issues");
    reveal_strlit("critical_models_affected");
    reveal_strlit("timeout_or_error");
    reveal_strlit("unexpected_termination");
    reveal_strlit("consecutive_restart_failures");
    reveal_strlit("node_communication_issues");
    reveal_strlit("retry_limit_reached");
    assert("sufficient_resources"@.len() == 20);
    assert("critical_models_failed"@.len() == 22);
    assert("critical_model_issues"@.len() == 21);
    assert("critical_models_affected"@.len() == 24);
    assert("timeout_or_error"@.len() == 16);
    assert("unexpected_termination"@.len() == 22);
    assert("consecutive_restart_failures"@.len() == 28);
    assert("node_communication_issues"@.len() == 25);
    assert("retry_limit_reached"@.len() == 19);
    law_words_hold("sufficient_resources"@);
}

proof fn lemma_all_containers_started_holds()
    ensures
        condition_holds("all_containers_started"@),
{
    reveal_strlit("all_containers_started");
    reveal_strlit("critical_models_failed");
    reveal_strlit("critical_model_issues");
    reveal_strlit("critical_models_affected");
    reveal_strlit("timeout_or_error");
    reveal_strlit("unexpected_termination");
    reveal_strlit("consecutive_restart_failures");
    reveal_strlit("node_communication_issues");
    reveal_strlit("retry_limit_reached");
    assert("all_containers_started"@.len() == 22);
    assert("critical_models_failed"@[0] == 'c');
    assert("all_containers_started"@[0] == 'a');
    assert("critical_model_issues"@.len() == 21);
    assert("critical_models_affected"@.len() == 24);
    assert("timeout_or_error"@.len() == 16);
    assert("unexpected_termination"@[0] == 'u');
    assert("all_containers_started"@[0] == 'a');
    assert("consecutive_restart_failures"@.len() == 28);
    assert("node_communication_issues"@.len() == 25);
    assert("retry_limit_reached"@.len() == 19);
    law_words_hold("all_containers_started"@);
}

proof fn lemma_one_time_task_holds()
    ensures
        condition_holds("one_time_task"@),
{
    reveal_strlit("one_time_task");
    reveal_strlit("critical_models_failed");
    reveal_strlit("critical_model_issues");
    reveal_strlit("critical_models_affected");
    reveal_strlit("timeout_or_error");
    reveal_strlit("unexpected_termination");
    reveal_strlit("consecutive_restart_failures");
    reveal_strlit("node_communication_issues");
    reveal_strlit("retry_limit_reached");
    assert("one_time_task"@.len() == 13);
    assert("critical_models_failed"@.len() == 22);
    assert("critical_model_issues"@.len() == 21);
    assert("critical_models_affected"@.len() == 24);
    assert("timeout_or_error"@.len() == 16);
    assert("unexpected_termination"@.len() == 22);
    assert("consecutive_restart_failures"@.len() == 28);
    assert("node_communication_issues"@.len() == 25);
    assert("retry_limit_reached"@.len() == 19);
    law_words_hold("one_time_task"@);
}

proof fn lemma_restart_successful_holds()
    ensures
        condition_holds("restart_successful"@),
{
    reveal_strlit("restart_successful");
    reveal_strlit("critical_models_failed");
    reveal_strlit("critical_model_issues");
    reveal_strlit("critical_models_affected");
    reveal_strlit("timeout_or_error");
    reveal_strlit("unexpected_termination");
    reveal_strlit("consecutive_restart_failures");
    reveal_strlit("node_communication_issues");
    reveal_strlit("retry_limit_reached");
    assert("restart_successful"@.len() == 18);
    assert("critical_models_failed"@.len() == 22);
    assert("critical_model_issues"@.len() == 21);
    assert("critical_models_affected"@.len() == 24);
    assert("timeout_or_error"@.len() == 16);
    assert("unexpected_termination"@.len() == 22);
    assert("consecutive_restart_failures"@.len() == 28);
    assert("node_communication_issues"@.len() == 25);
    assert("retry_limit_reached"@.len() == 19);
    law_words_hold("restart_successful"@);
}

proof fn lemma_depends_on_actual_state_holds()
    ensures
        condition_holds("depends_on_actual_state"@),
{
    reveal_strlit("depends_on_actual_state");
    reveal_strlit("critical_models_failed");
    reveal_strlit("critical_model_issues");
    reveal_strlit("critical_models_affected");
    reveal_strlit("timeout_or_error");
    reveal_strlit("unexpected_termination");
    reveal_strlit("consecutive_restart_failures");
    reveal_strlit("node_communication_issues");
    reveal_strlit("retry_limit_reached");
    assert("depends_on_actual_state"@.len() == 23);
    assert("critical_models_failed"@.len() == 22);
    assert("critical_model_issues"@.len() == 21);
    assert("critical_models_affected"@.len() == 24);
    assert("timeout_or_error"@.len() == 16);
    assert("unexpected_termination"@.len() == 22);
    assert("consecutive_restart_failures"@.len() == 28);
    assert("node_communication_issues"@.len() == 25);
    assert("retry_limit_reached"@.len() == 19);
    law_words_hold("depends_on_actual_state"@);
}

proof fn lemma_according_to_restart_policy_holds()
    ensures
        condition_holds("according_to_restart_policy"@),
{
    reveal_strlit("according_to_restart_policy");
    reveal_strlit("critical_models_failed");
    reveal_strlit("critical_model_issues");
    reveal_strlit("critical_models_affected");
    reveal_strlit("timeout_or_error");
    reveal_strlit("unexpected_termination");
    reveal_strlit("consecutive_restart_failures");
    reveal_strlit("node_communication_issues");
    reveal_strlit("retry_limit_reached");
    assert("according_to_restart_policy"@.len() == 27);
    assert("critical_models_failed"@.len() == 22);
    assert("critical_model_issues"@.len() == 21);
    assert("critical_models_affected"@.len() == 24);
    assert("timeout_or_error"@.len() == 16);
    assert("unexpected_termination"@.len() == 22);
    assert("consecutive_restart_failures"@.len() == 28);
    assert("node_communication_issues"@.len() == 25);
    assert("retry_limit_reached"@.len() == 19);
    law_words_hold("according_to_restart_policy"@);
}

/// A letter, a digit or an underscore alone is a word, and no other character is; a word is made of
/// such characters.
pub proof fn law_words(s: Seq<char>, c: char)
    ensures
        is_word(seq![c]) <==> ('a' <= c && c <= 'z') || ('A' <= c && c <= 'Z') || ('0' <= c && c
            <= '9') || c == '_',
        is_word(s) && is_word(seq![c]) ==> is_word(s.push(c)),
        s.len() > 0 && is_word(s.push(c)) ==> is_word(s) && is_word(seq![c]),
        !is_word(Seq::<char>::empty()),
{
    let one = seq![c];
    assert(one[0] == c);
    let longer = s.push(c);
    if is_word(s) && is_word(one) {
        assert forall|i: int| 0 <= i < longer.len() implies is_word_char(#[trigger] longer[i]) by {
            if i < s.len() {
                assert(is_word_char(s[i]));
            } else {
                assert(is_word_char(one[0]));
            }
        }
    }
    if s.len() > 0 && is_word(longer) {
        assert forall|i: int| 0 <= i < s.len() implies is_word_char(#[trigger] s[i]) by {
            assert(is_word_char(longer[i]));
        }
        assert(is_word_char(longer[s.len() as int]));
    }
}

/// A condition stays well formed when a comparison or a joining sign and a word are put behind it,
/// with a space before each. Such a condition holds.
pub proof fn law_joined_words_hold(condition: Seq<char>, sign: Seq<char>, word: Seq<char>)
    requires
        is_well_formed(condition),
        sign == ">"@ || sign == "<"@ || sign == ">="@ || sign == "<="@ || sign == "=="@ || sign
            == "!="@ || sign == "&&"@ || sign == "||"@,
        is_word(word),
    ensures
        is_well_formed(condition.push(' ') + (sign.push(' ') + word)),
        condition_holds(condition.push(' ') + (sign.push(' ') + word)),
{
    let whole = condition.push(' ') + (sign.push(' ') + word);
    lemma_no_space_in_sign(sign);
    assert forall|i: int| 0 <= i < word.len() implies #[trigger] word[i] != ' ' by {
        assert(is_word_char(word[i]));
    }
    lemma_split_nothing(word, ' ');
    lemma_split_nothing(sign, ' ');
    law_split_of_joined(sign, word, ' ');
    law_split_of_joined(condition, sign.push(' ') + word, ' ');
    let parts = split(whole, ' ');
    let before = split(condition, ' ');
    assert(parts =~= before + seq![sign, word]);
    assert forall|i: int| 0 <= i < parts.len() implies if i % 2 == 0 {
        is_word(#[trigger] parts[i])
    } else {
        is_operator(parts[i])
    } by {
        if i < before.len() {
            assert(parts[i] == before[i]);
        } else if i == before.len() {
            assert(parts[i] == sign);
        } else {
            assert(parts[i] == word);
        }
    }
    if is_unmet(whole) {
        lemma_no_space_in_unmet(whole);
        assert(whole[condition.len() as int] == ' ');
    }
}

proof fn lemma_no_space_in_sign(sign: Seq<char>)
    requires
        is_operator(sign),
    ensures
        forall|i: int| 0 <= i < sign.len() ==> #[trigger] sign[i] != ' ',
{
    reveal_strlit(">");
    reveal_strlit("<");
    reveal_strlit(">=");
    reveal_strlit("<=");
    reveal_strlit("==");
    reveal_strlit("!=");
    reveal_strlit("&&");
    reveal_strlit("||");
}

proof fn lemma_no_space_in_unmet(condition: Seq<char>)
    requires
        is_unmet(condition),
    ensures
        forall|i: int| 0 <= i < condition.len() ==> #[trigger] condition[i] != ' ',
{
    reveal_strlit("critical_models_failed");
    reveal_strlit("critical_model_issues");
    reveal_strlit("critical_models_affected");
    reveal_strlit("timeout_or_error");
    reveal_strlit("unexpected_termination");
    reveal_strlit("consecutive_restart_failures");
    reveal_strlit("node_communication_issues");
    reveal_strlit("retry_limit_reached");
}

} // verus!
