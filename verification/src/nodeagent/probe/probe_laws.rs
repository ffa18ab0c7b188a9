//! When containers are probed, how, and what comes of it, told by their configuration.

use crate::grouping::lemma_contains_push;
use crate::nodeagent::desired_state::{DesiredView, LivenessView, ProbeTypeView};
use crate::nodeagent::probe::calendar::{
    is_date, law_written_timestamp_is_read, second_number, timestamp, written,
};
use crate::nodeagent::probe::checker::{http_address, is_uri};
use crate::nodeagent::probe::liveness::{
    desired_for, failure_note, is_due, liveness_for, new_state, planned, probe_description, retained, running,
    state_after, ContainerSummary, PlanView, ProbeState,
};
use crate::nodeagent::probe::pass::{
    action_at, awaits_probe, begun, law_action_fits_place, lemma_advanced_never_stops, told_probe,
    LoopView, ProbeActionView,
};
use crate::nodeagent::probe::pass_laws::{
    law_due_containers_are_probed_once, law_loop_begins_rest, law_no_other_container_is_probed,
    noted, probes_of, rest_of_pass, Answers,
};
use crate::text::{bracketed, digits, quoted};
use crate::text_laws::law_digits;
use vstd::prelude::*;

verus! {

// ---------------------------------------------------------------------------
// When
// ---------------------------------------------------------------------------

/// A container is due as soon as it may be, and not before: when its initial delay has passed
/// since it was started, and its period since it was last probed, if it was. No time needs to
/// pass for a delay or a period of zero.
pub proof fn law_due_exactly(state: ProbeState, liveness: LivenessView, now: u128)
    ensures
        is_due(state, liveness, now) <==> {
            &&& liveness.initial_delay_seconds == 0 || now >= state.container_started_at
                + liveness.initial_delay_seconds * 1_000_000_000
            &&& match state.last_probe_at {
                Some(last) => liveness.period_seconds == 0 || now >= last + liveness.period_seconds
                    * 1_000_000_000,
                None => true,
            }
        },
{
}

/// What was due stays due as time goes on, until the container is probed.
pub proof fn law_due_until_probed(
    state: ProbeState,
    liveness: LivenessView,
    now: u128,
    later: u128,
)
    requires
        is_due(state, liveness, now),
        now <= later,
    ensures
        is_due(state, liveness, later),
{
}

/// A container that was probed in time is due again exactly when its period has passed since then,
/// however long its initial delay was.
pub proof fn law_due_again_after_period(
    state: ProbeState,
    liveness: LivenessView,
    success: bool,
    now: u128,
    later: u128,
)
    requires
        is_due(state, liveness, now),
        now <= later,
    ensures
        match state_after(state, liveness.failure_threshold, success, now) {
            Some(after) => is_due(after, liveness, later) <==> later - now
                >= liveness.period_seconds * 1_000_000_000,
            None => true,
        },
{
}

/// A container counts as started when its timestamp says, to the second; and when the timestamp
/// is missing or cannot be read, as started now. No probe of it is known yet.
pub proof fn law_start_of_container(started_at: Option<Seq<char>>, now: u128)
    ensures
        new_state(started_at, now).failure_count == 0,
        new_state(started_at, now).last_probe_at is None,
        started_at is None ==> new_state(started_at, now).container_started_at == now,
        started_at is Some && timestamp(started_at->0) is None ==> new_state(
            started_at,
            now,
        ).container_started_at == now,
        started_at is Some && timestamp(started_at->0) is Some ==> new_state(
            started_at,
            now,
        ).container_started_at == timestamp(started_at->0)->0 * 1_000_000_000,
{
}

/// A timestamp that was written for a date and a time of day is when the container was started.
pub proof fn law_written_start(
    date: (i64, i64, i64),
    time: (i64, i64, i64),
    suffix: Seq<char>,
    now: u128,
)
    requires
        is_date(date.0 as int, date.1 as int, date.2 as int),
        date.0 <= 9999,
        0 <= time.0 <= 99,
        0 <= time.1 <= 99,
        0 <= time.2 <= 99,
    ensures
        new_state(Some(written(date, time) + suffix), now).container_started_at == (second_number(
            date,
            time,
        ) as u64) * 1_000_000_000,
{
    law_written_timestamp_is_read(date, time, suffix);
}

// ---------------------------------------------------------------------------
// What comes of a probe
// ---------------------------------------------------------------------------

/// A probe is put down with its time; when the container was started does not change. A success
/// sets the number of failures to zero, and a failure adds one to it. A container is forgotten
/// exactly when a failure brings that number up to the threshold, or beyond it.
pub proof fn law_probe_is_noted(state: ProbeState, threshold: u8, success: bool, now: u128)
    ensures
        state_after(state, threshold, success, now) is None <==> !success && (state.failure_count
            + 1 >= threshold),
        state_after(state, threshold, success, now) matches Some(after) ==> {
            &&& after.container_started_at == state.container_started_at
            &&& after.last_probe_at == Some(now)
            &&& after.failure_count == if success {
                0
            } else {
                state.failure_count + 1
            }
        },
{
}

// ---------------------------------------------------------------------------
// Which containers
// ---------------------------------------------------------------------------

/// The containers that run are those that the container runtime lists as running, in its order.
pub proof fn law_running_containers(containers: Seq<ContainerSummary>, id: Seq<char>)
    ensures
        running(containers).contains(id) <==> exists|i: int|
            0 <= i < containers.len() && (#[trigger] containers[i]).id@ == id
                && containers[i].state@ == "running"@,
        running(containers) == containers.filter(
            |container: ContainerSummary| container.state@ == "running"@,
        ).map_values(|container: ContainerSummary| container.id@),
    decreases containers.len(),
{
    reveal(Seq::filter);
    let pred = |container: ContainerSummary| container.state@ == "running"@;
    let pick = |container: ContainerSummary| container.id@;
    if containers.len() > 0 {
        let rest = containers.drop_last();
        let last = containers.len() - 1;
        law_running_containers(rest, id);
        assert(containers.last() == containers[last]);
        lemma_contains_push(running(rest), containers[last].id@, id);
        if exists|i: int|
            0 <= i < rest.len() && (#[trigger] rest[i]).id@ == id && rest[i].state@ == "running"@ {
            let i = choose|i: int|
                0 <= i < rest.len() && (#[trigger] rest[i]).id@ == id && rest[i].state@
                    == "running"@;
            assert(containers[i].id@ == id && containers[i].state@ == "running"@);
        }
        if exists|i: int|
            0 <= i < containers.len() && (#[trigger] containers[i]).id@ == id
                && containers[i].state@ == "running"@ {
            let i = choose|i: int|
                0 <= i < containers.len() && (#[trigger] containers[i]).id@ == id
                    && containers[i].state@ == "running"@;
            if i < last {
                assert(rest[i].id@ == id && rest[i].state@ == "running"@);
            }
        }
        assert(rest.filter(pred).push(containers[last]).map_values(pick) =~= rest.filter(
            pred,
        ).map_values(pick).push(containers[last].id@));
    } else {
        assert(containers.filter(pred).map_values(pick) =~= Seq::<Seq<char>>::empty());
    }
}

/// A container is looked up in the cache by its identifier: the first pod that has it counts.
pub proof fn law_desired_for(cache: Seq<(Seq<char>, DesiredView)>, id: Seq<char>)
    ensures
        match desired_for(cache, id) {
            Some(desired) => exists|i: int|
                {
                    &&& 0 <= i < cache.len()
                    &&& (#[trigger] cache[i]).1 == desired
                    &&& cache[i].1.container_id == id
                    &&& forall|j: int| 0 <= j < i ==> (#[trigger] cache[j]).1.container_id != id
                },
            None => forall|i: int| 0 <= i < cache.len() ==> (#[trigger] cache[i]).1.container_id
                != id,
        },
    decreases cache.len(),
{
    if cache.len() > 0 && cache[0].1.container_id != id {
        let rest = cache.skip(1);
        law_desired_for(rest, id);
        assert forall|j: int| 0 < j < cache.len() implies cache[j] == rest[j - 1] by {}
        match desired_for(rest, id) {
            Some(desired) => {
                let i = choose|i: int|
                    {
                        &&& 0 <= i < rest.len()
                        &&& (#[trigger] rest[i]).1 == desired
                        &&& rest[i].1.container_id == id
                        &&& forall|j: int| 0 <= j < i ==> (#[trigger] rest[j]).1.container_id != id
                    };
                assert(cache[i + 1].1 == desired);
                assert forall|j: int| 0 <= j < i + 1 implies (#[trigger] cache[j]).1.container_id
                    != id by {
                    if j > 0 {
                        assert(rest[j - 1].1.container_id != id);
                    }
                }
            },
            None => {
                assert forall|j: int| 0 <= j < cache.len() implies (
                #[trigger] cache[j]).1.container_id != id by {
                    if j > 0 {
                        assert(rest[j - 1].1.container_id != id);
                    }
                }
            },
        }
    }
}

/// A container is probed as the pod that runs in it wants it, and not at all where no pod does, or
/// the pod has no liveness probe.
pub proof fn law_liveness_for(cache: Seq<(Seq<char>, DesiredView)>, id: Seq<char>)
    ensures
        liveness_for(cache, id) is Some <==> {
            &&& desired_for(cache, id) is Some
            &&& desired_for(cache, id)->0.probe_config is Some
            &&& desired_for(cache, id)->0.probe_config->0 is Some
        },
        liveness_for(cache, id) is Some ==> desired_for(cache, id)->0.probe_config == Some(
            liveness_for(cache, id),
        ),
{
}

/// In a pass over the containers that run, every one that is due when the pass comes to it is
/// probed once, and no other container is probed.
pub proof fn law_pass_covers_running_containers(
    pass: LoopView,
    containers: Seq<ContainerSummary>,
    cache: Seq<(Seq<char>, DesiredView)>,
    now: u128,
    answers: Answers,
    i: int,
)
    requires
        0 <= i < running(containers).len(),
        forall|j: int, k: int|
            0 <= j < k < running(containers).len() ==> #[trigger] running(containers)[j]
                != #[trigger] running(containers)[k],
    ensures
        ({
            let id = running(containers)[i];
            let (started_at, told_at) = (answers.started)(i);
            let state = if pass.states.contains_key(id) {
                pass.states[id]
            } else {
                new_state(started_at, told_at)
            };
            let actions = rest_of_pass(begun(pass, containers, cache, now).0, answers);
            &&& actions.len() > 0
            &&& actions[0] == begun(pass, containers, cache, now).1
            &&& probes_of(actions, id) == if liveness_for(cache, id) is Some && is_due(
                state,
                liveness_for(cache, id)->0,
                now,
            ) {
                1nat
            } else {
                0nat
            }
        }),
{
    let first = LoopView {
        states: retained(pass.states, running(containers)),
        cache,
        ids: running(containers),
        at: 0,
        now,
    };
    let id = running(containers)[i];
    assert(running(containers).contains(id));
    law_loop_begins_rest(first, answers);
    law_due_containers_are_probed_once(first, answers, i);
}

/// A container that does not run is not probed.
pub proof fn law_only_running_containers_are_probed(
    pass: LoopView,
    containers: Seq<ContainerSummary>,
    cache: Seq<(Seq<char>, DesiredView)>,
    now: u128,
    answers: Answers,
    id: Seq<char>,
)
    requires
        !running(containers).contains(id),
    ensures
        probes_of(rest_of_pass(begun(pass, containers, cache, now).0, answers), id) == 0,
{
    let first = LoopView {
        states: retained(pass.states, running(containers)),
        cache,
        ids: running(containers),
        at: 0,
        now,
    };
    law_loop_begins_rest(first, answers);
    law_no_other_container_is_probed(first, answers, id);
}

// ---------------------------------------------------------------------------
// How
// ---------------------------------------------------------------------------

/// A probe is for the container that the pass has come to, by the name of its pod, as its liveness
/// probe wants it, and within the time that it gives.
pub proof fn law_what_a_probe_asks(pass: LoopView)
    requires
        awaits_probe(pass),
    ensures
        ({
            let id = pass.ids[pass.at];
            let liveness = liveness_for(pass.cache, id)->0;
            match action_at(pass, id) {
                Some(
                    ProbeActionView::Probe {
                        container_id,
                        pod_name,
                        description,
                        plan,
                        timeout_seconds,
                        failure_note,
                    },
                ) => {
                    &&& container_id == id
                    &&& pod_name == desired_for(pass.cache, id)->0.pod_name
                    &&& plan == planned(id, liveness.probe_type)
                    &&& timeout_seconds == liveness.timeout_seconds
                    &&& description == probe_description(liveness.probe_type)
                },
                _ => false,
            }
        }),
{
}

/// A container is asked over HTTP on its port and path on this machine, where that makes an
/// address; over TCP on its port on this machine; or by a command that is run inside it, where
/// there is one. Otherwise its probe fails.
pub proof fn law_plans(container_id: Seq<char>, probe_type: ProbeTypeView)
    ensures
        match probe_type {
            ProbeTypeView::Http { path, port } => {
                let address = "http://"@ + "localhost"@ + ":"@ + digits(port as nat) + path;
                planned(container_id, probe_type) == if is_uri(address) {
                    PlanView::Http { address }
                } else {
                    PlanView::Fail
                }
            },
            ProbeTypeView::Tcp { port } => planned(container_id, probe_type) == (PlanView::Tcp {
                address: "127.0.0.1"@ + ":"@ + digits(port as nat),
            }),
            ProbeTypeView::Exec { command } => if command.len() == 0 {
                planned(container_id, probe_type) == PlanView::Fail
            } else {
                match planned(container_id, probe_type) {
                    PlanView::Exec { arguments } => {
                        &&& arguments.len() == command.len() + 2
                        &&& arguments[0] == "exec"@
                        &&& arguments[1] == container_id
                        &&& arguments.skip(2) == command
                    },
                    _ => false,
                }
            },
        },
{
    if let ProbeTypeView::Exec { command } = probe_type {
        if command.len() > 0 {
            let arguments = seq!["exec"@, container_id] + command;
            assert(arguments.skip(2) =~= command);
        }
    }
}

/// Two probes of the same kind are asked at different addresses when their ports differ.
pub proof fn law_ports_tell_addresses_apart(
    container_id: Seq<char>,
    a: u16,
    b: u16,
)
    requires
        planned(container_id, ProbeTypeView::Tcp { port: a }) == planned(
            container_id,
            ProbeTypeView::Tcp { port: b },
        ),
    ensures
        a == b,
{
    law_digits(a as nat, b as nat);
    let prefix = "127.0.0.1"@ + ":"@;
    let x = prefix + digits(a as nat);
    let y = prefix + digits(b as nat);
    assert(x == y);
    assert(digits(a as nat) =~= x.skip(prefix.len() as int));
    assert(digits(b as nat) =~= y.skip(prefix.len() as int));
}

/// A container that is stopped is stopped under its own identifier and the name of its pod.
pub proof fn law_what_a_stop_asks(pass: LoopView, success: bool)
    requires
        awaits_probe(pass),
        told_probe(pass, success).1 is Stop,
    ensures
        ({
            let id = pass.ids[pass.at];
            told_probe(pass, success).1 == (ProbeActionView::Stop {
                container_id: id,
                pod_name: desired_for(pass.cache, id)->0.pod_name,
                path: "/v4.0.0/libpod/containers/"@ + id + "/stop"@,
            })
        }),
{
    lemma_advanced_never_stops(noted(pass, success));
}

// ---------------------------------------------------------------------------
// Step by step
// ---------------------------------------------------------------------------

/// At a container the loop asks for its start exactly when it is to be probed and nothing is known of
/// it yet; it asks for a probe exactly when the start is known and the probe is due; and otherwise
/// it goes on.
pub proof fn law_what_is_done_at_a_container(pass: LoopView, id: Seq<char>)
    ensures
        action_at(pass, id) == Some(ProbeActionView::Inspect { container_id: id }) <==> {
            &&& liveness_for(pass.cache, id) is Some
            &&& !pass.states.contains_key(id)
        },
        (action_at(pass, id) is Some && action_at(pass, id)->0 is Probe) <==> {
            &&& liveness_for(pass.cache, id) is Some
            &&& pass.states.contains_key(id)
            &&& is_due(pass.states[id], liveness_for(pass.cache, id)->0, pass.now)
        },
        action_at(pass, id) is Some ==> action_at(pass, id)->0 is Inspect || action_at(
            pass,
            id,
        )->0 is Probe,
{
}

/// When a pass begins, what was known of the containers that run still is, and nothing is known of
/// others. The pass is over those containers, by what the node is meant to run now.
pub proof fn law_begin_of_pass(
    pass: LoopView,
    containers: Seq<ContainerSummary>,
    cache: Seq<(Seq<char>, DesiredView)>,
    now: u128,
    id: Seq<char>,
)
    ensures
        ({
            let first = begun(pass, containers, cache, now).0;
            &&& first.states.contains_key(id) <==> pass.states.contains_key(id) && running(
                containers,
            ).contains(id)
            &&& first.states.contains_key(id) ==> first.states[id] == pass.states[id]
            &&& first.ids == running(containers)
            &&& first.cache == cache
            &&& first.now == now
        }),
{
    law_action_fits_place(
        LoopView {
            states: retained(pass.states, running(containers)),
            cache,
            ids: running(containers),
            at: 0,
            now,
        },
    );
}

/// After a probe of a container that is not stopped, it is known when it was probed; when it was
/// started stays known. The pass goes on behind it.
pub proof fn law_probe_is_remembered(pass: LoopView, success: bool)
    requires
        awaits_probe(pass),
    ensures
        ({
            let id = pass.ids[pass.at];
            let (after, action) = told_probe(pass, success);
            &&& after.at > pass.at
            &&& after.ids == pass.ids
            &&& after.cache == pass.cache
            &&& after.now == pass.now
            &&& after.states.contains_key(id) ==> {
                &&& after.states[id].last_probe_at == Some(pass.now)
                &&& after.states[id].container_started_at == pass.states[id].container_started_at
            }
        }),
{
    law_action_fits_place(noted(pass, success));
}

// ---------------------------------------------------------------------------
// In words
// ---------------------------------------------------------------------------

/// A probe is described by its kind, and by the path, port or command that it asks for.
pub proof fn law_descriptions(probe_type: ProbeTypeView)
    ensures
        match probe_type {
            ProbeTypeView::Http { path, port } => probe_description(probe_type) == "HTTP GET "@ + path
                + " on port "@ + digits(port as nat),
            ProbeTypeView::Tcp { port } => probe_description(probe_type) == "TCP port "@ + digits(
                port as nat,
            ),
            ProbeTypeView::Exec { command } => probe_description(probe_type) == "Exec "@ + bracketed(
                command.map_values(|part: Seq<char>| quoted(part)),
            ),
        },
{
}

/// A failure is told by its number in a row, counting it, and by the threshold.
pub proof fn law_failure_note(failure_count: u8, threshold: u8)
    requires
        failure_count < 255,
    ensures
        failure_note(failure_count, threshold) == "Liveness probe failed ("@ + digits(
            (failure_count + 1) as nat,
        ) + "/"@ + digits(threshold as nat) + ")"@,
{
}

/// An HTTP probe asks a host on a port for a path.
pub proof fn law_http_address(host: Seq<char>, port: u16, path: Seq<char>)
    ensures
        http_address(host, port, path) == "http://"@ + host + ":"@ + digits(port as nat) + path,
{
}

} // verus!
