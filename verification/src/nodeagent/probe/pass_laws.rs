//! What holds of a whole pass of the probe loop, and from pass to pass.

use crate::nodeagent::desired_state::DesiredView;
use crate::nodeagent::probe::liveness::{
    desired_for, is_due, liveness_for, new_state, retained, running, states_after, verdict_on,
    ContainerSummary, Verdict,
};
use crate::nodeagent::probe::pass::{
    action_at, advanced, awaits_probe, awaits_start, begun, law_action_fits_place,
    lemma_advanced_never_stops, told_probe, told_start, LoopView, ProbeActionView,
};
use vstd::prelude::*;

verus! {

// ---------------------------------------------------------------------------
// A whole pass
// ---------------------------------------------------------------------------

/// What the loop is told during a pass, by the place of the container.
pub struct Answers {
    /// When the container was started, as far as that could be had, and when that was told.
    pub started: spec_fn(int) -> (Option<Seq<char>>, u128),
    /// Whether the probe of the container succeeded.
    pub succeeded: spec_fn(int) -> bool,
}

/// The pass when it is known when the container at its place was started.
pub open spec fn with_start(pass: LoopView, answers: Answers) -> LoopView {
    if awaits_start(pass) {
        let (started_at, now) = (answers.started)(pass.at);
        LoopView {
            states: pass.states.insert(pass.ids[pass.at], new_state(started_at, now)),
            ..pass
        }
    } else {
        pass
    }
}

/// The pass after the container at its place, whose start is known, has had its turn.
pub open spec fn with_probe(pass: LoopView, answers: Answers) -> LoopView {
    if awaits_probe(pass) {
        let id = pass.ids[pass.at];
        LoopView {
            states: states_after(
                pass.states,
                id,
                liveness_for(pass.cache, id)->0.failure_threshold,
                (answers.succeeded)(pass.at),
                pass.now,
            ),
            at: pass.at + 1,
            ..pass
        }
    } else {
        LoopView { at: pass.at + 1, ..pass }
    }
}

/// What a pass does at its place when it is known when the container there was started: it
/// probes the container if it is due, and stops it if it failed too often.
pub open spec fn probe_and_stop(pass: LoopView, answers: Answers) -> Seq<ProbeActionView> {
    if awaits_probe(pass) {
        let id = pass.ids[pass.at];
        let threshold = liveness_for(pass.cache, id)->0.failure_threshold;
        let probe = seq![action_at(pass, id)->0];
        match verdict_on(pass.states[id], threshold, (answers.succeeded)(pass.at)) {
            Verdict::Stop { .. } => probe.push(
                ProbeActionView::Stop {
                    container_id: id,
                    pod_name: desired_for(pass.cache, id)->0.pod_name,
                    path: "/v4.0.0/libpod/containers/"@ + id + "/stop"@,
                },
            ),
            _ => probe,
        }
    } else {
        Seq::empty()
    }
}

/// What a pass does at its place.
pub open spec fn turn(pass: LoopView, answers: Answers) -> Seq<ProbeActionView> {
    let inspection = if awaits_start(pass) {
        seq![ProbeActionView::Inspect { container_id: pass.ids[pass.at] }]
    } else {
        Seq::empty()
    };
    inspection + probe_and_stop(with_start(pass, answers), answers)
}

/// All that a pass does from its place on, container by container, up to its sleep.
pub open spec fn rest_of_pass(pass: LoopView, answers: Answers) -> Seq<ProbeActionView>
    decreases pass.ids.len() - pass.at,
{
    if pass.at < 0 || pass.at >= pass.ids.len() {
        seq![ProbeActionView::Sleep]
    } else {
        turn(pass, answers) + rest_of_pass(
            with_probe(with_start(pass, answers), answers),
            answers,
        )
    }
}

/// What the loop does next is the first of what is left of its pass; to go there leaves
/// nothing out.
pub proof fn law_loop_begins_rest(pass: LoopView, answers: Answers)
    requires
        0 <= pass.at,
    ensures
        rest_of_pass(pass, answers).len() > 0,
        rest_of_pass(pass, answers)[0] == advanced(pass).1,
        rest_of_pass(advanced(pass).0, answers) == rest_of_pass(pass, answers),
    decreases pass.ids.len() - pass.at,
{
    if pass.at < pass.ids.len() {
        let id = pass.ids[pass.at];
        if action_at(pass, id) is None {
            let next = LoopView { at: pass.at + 1, ..pass };
            law_loop_begins_rest(next, answers);
            assert(turn(pass, answers) =~= Seq::<ProbeActionView>::empty());
            assert(rest_of_pass(pass, answers) =~= rest_of_pass(next, answers));
        } else {
            assert(turn(pass, answers)[0] == advanced(pass).1);
        }
    }
}

/// When the loop has asked for the start of a container, what is left of its pass is that
/// question and what it does once it was answered.
pub proof fn law_loop_goes_on_after_start(pass: LoopView, answers: Answers)
    requires
        awaits_start(pass),
    ensures
        ({
            let (started_at, now) = (answers.started)(pass.at);
            let (place, action) = told_start(pass, started_at, now);
            &&& rest_of_pass(pass, answers) == seq![
                ProbeActionView::Inspect { container_id: pass.ids[pass.at] },
            ] + rest_of_pass(place, answers)
            &&& rest_of_pass(place, answers)[0] == action
        }),
{
    let known = with_start(pass, answers);
    law_loop_begins_rest(known, answers);
    let inspection = seq![ProbeActionView::Inspect { container_id: pass.ids[pass.at] }];
    assert(turn(known, answers) =~= probe_and_stop(known, answers));
    assert(turn(pass, answers) =~= inspection + probe_and_stop(known, answers));
    assert(rest_of_pass(pass, answers) =~= inspection + rest_of_pass(known, answers));
}

/// When the loop has asked for a probe, what is left of its pass is that probe, the stop that
/// it may lead to, and what it does after that.
pub proof fn law_loop_goes_on_after_probe(pass: LoopView, answers: Answers)
    requires
        awaits_probe(pass),
    ensures
        ({
            let (place, action) = told_probe(pass, (answers.succeeded)(pass.at));
            let probe = action_at(pass, pass.ids[pass.at])->0;
            if action is Stop {
                rest_of_pass(pass, answers) == seq![probe, action] + rest_of_pass(place, answers)
            } else {
                &&& rest_of_pass(pass, answers) == seq![probe] + rest_of_pass(place, answers)
                &&& rest_of_pass(place, answers)[0] == action
            }
        }),
{
    let (place, action) = told_probe(pass, (answers.succeeded)(pass.at));
    let probe = action_at(pass, pass.ids[pass.at])->0;
    let noted = with_probe(pass, answers);
    lemma_advanced_never_stops(noted);
    law_loop_begins_rest(noted, answers);
    assert(turn(pass, answers) =~= probe_and_stop(pass, answers));
    if action is Stop {
        assert(rest_of_pass(pass, answers) =~= seq![probe, action] + rest_of_pass(noted, answers));
    } else {
        assert(rest_of_pass(pass, answers) =~= seq![probe] + rest_of_pass(noted, answers));
    }
}

// ---------------------------------------------------------------------------
// Every container that is due is probed
// ---------------------------------------------------------------------------

/// How often a container is probed.
pub open spec fn probes_of(actions: Seq<ProbeActionView>, id: Seq<char>) -> nat
    decreases actions.len(),
{
    if actions.len() == 0 {
        0
    } else {
        let before = probes_of(actions.drop_last(), id);
        match actions.last() {
            ProbeActionView::Probe { container_id, .. } if container_id == id => before + 1,
            _ => before,
        }
    }
}

/// The container at this place has a liveness probe, and is due when the pass comes to it.
pub open spec fn due_in_pass(pass: LoopView, answers: Answers, i: int) -> bool {
    let id = pass.ids[i];
    let (started_at, now) = (answers.started)(i);
    let state = if pass.states.contains_key(id) {
        pass.states[id]
    } else {
        new_state(started_at, now)
    };
    match liveness_for(pass.cache, id) {
        Some(liveness) => is_due(state, liveness, pass.now),
        None => false,
    }
}

/// A container is listed once from the place of a pass on, at the place `i`.
pub open spec fn listed_once(pass: LoopView, i: int) -> bool {
    forall|j: int| pass.at <= j < pass.ids.len() && j != i ==> #[trigger] pass.ids[j] != pass.ids[i]
}

/// The container at the place `i` is not probed again in a pass in which it was probed there,
/// though it may be listed again: its period is not zero, and the probe does not stop it.
pub open spec fn rests_after_probe(pass: LoopView, answers: Answers, i: int) -> bool {
    let id = pass.ids[i];
    let (started_at, now) = (answers.started)(i);
    let state = if pass.states.contains_key(id) {
        pass.states[id]
    } else {
        new_state(started_at, now)
    };
    match liveness_for(pass.cache, id) {
        Some(liveness) => {
            &&& liveness.period_seconds > 0
            &&& !(verdict_on(state, liveness.failure_threshold, (answers.succeeded)(i)) is Stop)
        },
        None => true,
    }
}

/// In a pass every container that is due when the pass first comes to it is probed, and is
/// probed once; one that is not due then is not probed. A container that is listed more than
/// once is meant to rest after its probe.
pub proof fn law_due_containers_are_probed_once(pass: LoopView, answers: Answers, i: int)
    requires
        0 <= pass.at <= i < pass.ids.len(),
        forall|j: int| pass.at <= j < i ==> #[trigger] pass.ids[j] != pass.ids[i],
        due_in_pass(pass, answers, i) ==> listed_once(pass, i) || rests_after_probe(
            pass,
            answers,
            i,
        ),
    ensures
        probes_of(rest_of_pass(pass, answers), pass.ids[i]) == if due_in_pass(pass, answers, i) {
            1nat
        } else {
            0nat
        },
    decreases pass.ids.len() - pass.at,
{
    let id = pass.ids[i];
    let next = with_probe(with_start(pass, answers), answers);
    lemma_probes_add(turn(pass, answers), rest_of_pass(next, answers), id);
    lemma_probes_of_turn(pass, answers, id);
    if pass.at == i {
        if listed_once(pass, i) || liveness_for(pass.cache, id) is None {
            if listed_once(pass, i) {
                lemma_passed_by(next, answers, id);
            } else {
                lemma_without_probe(next, answers, id);
            }
        } else {
            lemma_settled(next, answers, id);
        }
    } else {
        assert(pass.ids[pass.at] != id);
        assert(listed_once(pass, i) ==> listed_once(next, i));
        law_due_containers_are_probed_once(next, answers, i);
    }
}

/// A container without a liveness probe is not probed.
proof fn lemma_without_probe(pass: LoopView, answers: Answers, id: Seq<char>)
    requires
        0 <= pass.at,
        liveness_for(pass.cache, id) is None,
    ensures
        probes_of(rest_of_pass(pass, answers), id) == 0,
    decreases pass.ids.len() - pass.at,
{
    if pass.at < pass.ids.len() {
        let next = with_probe(with_start(pass, answers), answers);
        lemma_probes_add(turn(pass, answers), rest_of_pass(next, answers), id);
        lemma_probes_of_turn(pass, answers, id);
        lemma_without_probe(next, answers, id);
    } else {
        reveal_with_fuel(probes_of, 2);
    }
}

/// A container that is known and not due is not probed in what is left of a pass.
proof fn lemma_settled(pass: LoopView, answers: Answers, id: Seq<char>)
    requires
        0 <= pass.at,
        pass.states.contains_key(id),
        liveness_for(pass.cache, id) matches Some(liveness) && !is_due(
            pass.states[id],
            liveness,
            pass.now,
        ),
    ensures
        probes_of(rest_of_pass(pass, answers), id) == 0,
    decreases pass.ids.len() - pass.at,
{
    if pass.at < pass.ids.len() {
        let next = with_probe(with_start(pass, answers), answers);
        lemma_probes_add(turn(pass, answers), rest_of_pass(next, answers), id);
        lemma_probes_of_turn(pass, answers, id);
        lemma_settled(next, answers, id);
    } else {
        reveal_with_fuel(probes_of, 2);
    }
}

/// A pass probes no container but those that it still comes to.
pub proof fn law_no_other_container_is_probed(pass: LoopView, answers: Answers, id: Seq<char>)
    requires
        0 <= pass.at,
        !pass.ids.contains(id),
    ensures
        probes_of(rest_of_pass(pass, answers), id) == 0,
{
    lemma_passed_by(pass, answers, id);
}

/// A container that is not among those to come is not probed any more.
proof fn lemma_passed_by(pass: LoopView, answers: Answers, id: Seq<char>)
    requires
        0 <= pass.at,
        forall|j: int| pass.at <= j < pass.ids.len() ==> #[trigger] pass.ids[j] != id,
    ensures
        probes_of(rest_of_pass(pass, answers), id) == 0,
    decreases pass.ids.len() - pass.at,
{
    if pass.at < pass.ids.len() {
        let next = with_probe(with_start(pass, answers), answers);
        lemma_probes_add(turn(pass, answers), rest_of_pass(next, answers), id);
        lemma_probes_of_turn(pass, answers, id);
        lemma_passed_by(next, answers, id);
    } else {
        reveal_with_fuel(probes_of, 2);
    }
}

/// At its place a pass probes the container there, if it is due, and no other.
proof fn lemma_probes_of_turn(pass: LoopView, answers: Answers, id: Seq<char>)
    requires
        0 <= pass.at < pass.ids.len(),
    ensures
        probes_of(turn(pass, answers), id) == if id == pass.ids[pass.at] && due_in_pass(
            pass,
            answers,
            pass.at,
        ) {
            1nat
        } else {
            0nat
        },
{
    reveal_with_fuel(probes_of, 3);
    let known = with_start(pass, answers);
    let inspection = if awaits_start(pass) {
        seq![ProbeActionView::Inspect { container_id: pass.ids[pass.at] }]
    } else {
        Seq::empty()
    };
    lemma_probes_add(inspection, probe_and_stop(known, answers), id);
    let actions = probe_and_stop(known, answers);
    if actions.len() == 2 {
        assert(actions.drop_last() =~= seq![actions[0]]);
    }
    assert(seq![actions[0]].drop_last() =~= Seq::<ProbeActionView>::empty());
}

proof fn lemma_probes_add(a: Seq<ProbeActionView>, b: Seq<ProbeActionView>, id: Seq<char>)
    ensures
        probes_of(a + b, id) == probes_of(a, id) + probes_of(b, id),
    decreases b.len(),
{
    if b.len() == 0 {
        assert(a + b =~= a);
    } else {
        lemma_probes_add(a, b.drop_last(), id);
        assert((a + b).drop_last() =~= a + b.drop_last());
        assert((a + b).last() == b.last());
    }
}

// ---------------------------------------------------------------------------
// Every container is stopped at its threshold
// ---------------------------------------------------------------------------

/// A container is not known to have failed as often in a row as its threshold says.
pub open spec fn count_below(pass: LoopView, id: Seq<char>) -> bool {
    pass.states.contains_key(id) ==> match liveness_for(pass.cache, id) {
        Some(liveness) => pass.states[id].failure_count == 0 || pass.states[id].failure_count
            < liveness.failure_threshold,
        None => true,
    }
}

/// Whatever the loop is told, of this container or of another, the failures that it has
/// counted of a container stay below its threshold. Of a container that it does not know they
/// always are.
pub proof fn law_count_stays_below(
    pass: LoopView,
    id: Seq<char>,
    started_at: Option<Seq<char>>,
    now: u128,
    success: bool,
)
    requires
        0 <= pass.at,
        count_below(pass, id),
    ensures
        count_below(advanced(pass).0, id),
        awaits_start(pass) ==> count_below(told_start(pass, started_at, now).0, id),
        awaits_probe(pass) ==> count_below(told_probe(pass, success).0, id),
{
    law_action_fits_place(pass);
    if awaits_start(pass) {
        law_action_fits_place(
            LoopView {
                states: pass.states.insert(pass.ids[pass.at], new_state(started_at, now)),
                ..pass
            },
        );
    }
    if awaits_probe(pass) {
        law_action_fits_place(noted(pass, success));
    }
}

/// The pass when it has noted how the probe of the container at its place ended.
pub open spec fn noted(pass: LoopView, success: bool) -> LoopView {
    let id = pass.ids[pass.at];
    LoopView {
        states: states_after(
            pass.states,
            id,
            liveness_for(pass.cache, id)->0.failure_threshold,
            success,
            pass.now,
        ),
        at: pass.at + 1,
        ..pass
    }
}

/// The threshold of a container, where it is known, has not been lowered, and has not come
/// since.
pub open spec fn threshold_kept(
    pass: LoopView,
    cache: Seq<(Seq<char>, DesiredView)>,
    id: Seq<char>,
) -> bool {
    pass.states.contains_key(id) ==> match (liveness_for(pass.cache, id), liveness_for(cache, id)) {
        (Some(before), Some(now)) => before.failure_threshold <= now.failure_threshold,
        (None, Some(now)) => false,
        (_, None) => true,
    }
}

/// From pass to pass, too, the failures of a container stay below its threshold, as long as
/// that is not lowered, whatever becomes of the thresholds of others.
pub proof fn law_count_begins_below(
    pass: LoopView,
    containers: Seq<ContainerSummary>,
    cache: Seq<(Seq<char>, DesiredView)>,
    now: u128,
    id: Seq<char>,
)
    requires
        count_below(pass, id),
        threshold_kept(pass, cache, id),
    ensures
        count_below(begun(pass, containers, cache, now).0, id),
{
    law_action_fits_place(
        LoopView {
            states: retained(pass.states, running(containers)),
            cache,
            ids: running(containers),
            at: 0,
            now,
        },
    );
}

/// A container is stopped by exactly the failure that brings the number of its failures in a
/// row up to its threshold, or by the first where the threshold is zero. It is then forgotten.
/// A failure before that is counted, and a success sets the count to zero. Nothing of this
/// touches what is known of another container.
pub proof fn law_stop_comes_at_threshold(pass: LoopView, success: bool)
    requires
        awaits_probe(pass),
        count_below(pass, pass.ids[pass.at]),
    ensures
        ({
            let id = pass.ids[pass.at];
            let threshold = liveness_for(pass.cache, id)->0.failure_threshold;
            let failures = pass.states[id].failure_count + 1;
            let (after, action) = told_probe(pass, success);
            &&& action is Stop <==> !success && failures == if threshold == 0 {
                1int
            } else {
                threshold as int
            }
            &&& action is Stop <==> !after.states.contains_key(id)
            &&& action is Stop ==> action->Stop_container_id == id
            &&& success ==> after.states[id].failure_count == 0
            &&& !success && !(action is Stop) ==> after.states[id].failure_count == failures
            &&& forall|other: Seq<char>|
                other != id ==> after.states.contains_key(other)
                    == #[trigger] pass.states.contains_key(other)
            &&& forall|other: Seq<char>|
                other != id && #[trigger] pass.states.contains_key(other)
                    ==> after.states[other] == pass.states[other]
        }),
{
    lemma_advanced_never_stops(noted(pass, success));
    law_action_fits_place(noted(pass, success));
}

/// Of a container that the loop did not know, it counts from zero. To learn of its start, or to
/// go on to the next container, touches nothing that is known of another one.
pub proof fn law_counting_begins_at_zero(
    pass: LoopView,
    started_at: Option<Seq<char>>,
    now: u128,
)
    requires
        0 <= pass.at,
    ensures
        advanced(pass).0.states == pass.states,
        awaits_start(pass) ==> {
            let id = pass.ids[pass.at];
            let after = told_start(pass, started_at, now).0;
            &&& after.states == pass.states.insert(id, new_state(started_at, now))
            &&& after.states[id].failure_count == 0
        },
{
    law_action_fits_place(pass);
    if awaits_start(pass) {
        law_action_fits_place(
            LoopView {
                states: pass.states.insert(pass.ids[pass.at], new_state(started_at, now)),
                ..pass
            },
        );
    }
}

} // verus!
