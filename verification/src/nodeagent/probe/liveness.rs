//! Which containers are probed when, and which are stopped.

use crate::nodeagent::desired_state::{
    DesiredState, DesiredView, LivenessProbe, LivenessView, ProbeType, ProbeTypeView,
};
use crate::nodeagent::probe::calendar::{parse_rfc3339, timestamp};
use crate::nodeagent::probe::checker::{
    exec_arguments, http_address, http_address_of, http_target, is_uri, tcp_target,
};
use crate::grouping::lemma_contains_push;
use crate::string_map::StringMap;
use crate::text::{
    all_quoted, bracketed, concat, concat3, concat4, digits, digits_of, quoted_texts, str_eq, texts,
};
use vstd::prelude::*;

verus! {

/// The nanoseconds of a second.
pub const NANOSECONDS: u128 = 1_000_000_000;

// ---------------------------------------------------------------------------
// Descriptions and plans
// ---------------------------------------------------------------------------

/// What a probe does, in words.
pub open spec fn probe_description(probe_type: ProbeTypeView) -> Seq<char> {
    match probe_type {
        ProbeTypeView::Http { path, port } => "HTTP GET "@ + path + " on port "@ + digits(
            port as nat,
        ),
        ProbeTypeView::Tcp { port } => "TCP port "@ + digits(port as nat),
        ProbeTypeView::Exec { command } => "Exec "@ + bracketed(all_quoted(command)),
    }
}

/// What a probe does, in words.
pub fn format_probe_desc(probe_type: &ProbeType) -> (description: String)
    ensures
        description@ == probe_description(probe_type@),
{
    match probe_type {
        ProbeType::Http { path, port } => {
            let number = digits_of(*port as u128);
            concat4("HTTP GET ", path.as_str(), " on port ", number.as_str())
        },
        ProbeType::Tcp { port } => {
            let number = digits_of(*port as u128);
            concat("TCP port ", number.as_str())
        },
        ProbeType::Exec { command } => {
            let list = quoted_texts(command);
            concat("Exec ", list.as_str())
        },
    }
}

/// What there is to do to probe a container.
#[derive(Clone, Debug)]
pub enum ProbePlan {
    /// Send an HTTP GET request to this address.
    Http { address: String },
    /// Connect to this address.
    Tcp { address: String },
    /// Run `podman` with these arguments.
    Exec { arguments: Vec<String> },
    /// Nothing: the probe fails.
    Fail,
}

/// The contents of a `ProbePlan`.
#[verifier::ext_equal]
pub enum PlanView {
    Http { address: Seq<char> },
    Tcp { address: Seq<char> },
    Exec { arguments: Seq<Seq<char>> },
    Fail,
}

impl View for ProbePlan {
    type V = PlanView;

    open spec fn view(&self) -> PlanView {
        match self {
            ProbePlan::Http { address } => PlanView::Http { address: address@ },
            ProbePlan::Tcp { address } => PlanView::Tcp { address: address@ },
            ProbePlan::Exec { arguments } => PlanView::Exec { arguments: texts(arguments@) },
            ProbePlan::Fail => PlanView::Fail,
        }
    }
}

/// What there is to do to probe a container, where it is known whether the address of an HTTP
/// probe is a URI.
pub open spec fn planned_with(
    container_id: Seq<char>,
    probe_type: ProbeTypeView,
    address_is_uri: bool,
) -> PlanView {
    match probe_type {
        ProbeTypeView::Http { path, port } => if address_is_uri {
            PlanView::Http { address: http_address("localhost"@, port, path) }
        } else {
            PlanView::Fail
        },
        ProbeTypeView::Tcp { port } => PlanView::Tcp {
            address: "127.0.0.1"@ + ":"@ + digits(port as nat),
        },
        ProbeTypeView::Exec { command } => if command.len() == 0 {
            PlanView::Fail
        } else {
            PlanView::Exec { arguments: seq!["exec"@, container_id] + command }
        },
    }
}

/// What there is to do to probe a container.
pub open spec fn planned(container_id: Seq<char>, probe_type: ProbeTypeView) -> PlanView {
    planned_with(
        container_id,
        probe_type,
        match probe_type {
            ProbeTypeView::Http { path, port } => is_uri(http_address("localhost"@, port, path)),
            _ => false,
        },
    )
}

/// What there is to do to probe a container, where it is known whether the address of an HTTP
/// probe is a URI.
pub fn plan_probe(container_id: &str, liveness: &LivenessProbe, address_is_uri: bool) -> (plan:
    ProbePlan)
    ensures
        plan@ == planned_with(container_id@, liveness@.probe_type, address_is_uri),
{
    match &liveness.probe_type {
        ProbeType::Http { path, port } => if address_is_uri {
            ProbePlan::Http { address: http_address_of("localhost", *port, path.as_str()) }
        } else {
            ProbePlan::Fail
        },
        ProbeType::Tcp { port } => ProbePlan::Tcp { address: tcp_target("127.0.0.1", *port) },
        ProbeType::Exec { command } => match exec_arguments(container_id, command) {
            Some(arguments) => ProbePlan::Exec { arguments },
            None => ProbePlan::Fail,
        },
    }
}

/// What there is to do to probe a container.
pub fn check_liveness_probe(container_id: &str, liveness: &LivenessProbe) -> (plan: ProbePlan)
    ensures
        plan@ == planned(container_id@, liveness@.probe_type),
{
    let address_is_uri = match &liveness.probe_type {
        ProbeType::Http { path, port } => http_target("localhost", *port, path.as_str()).is_some(),
        _ => false,
    };
    plan_probe(container_id, liveness, address_is_uri)
}

/// The path under which the container runtime stops a container.
pub fn stop_path(container_id: &str) -> (path: String)
    ensures
        path@ == "/v4.0.0/libpod/containers/"@ + container_id@ + "/stop"@,
{
    concat3("/v4.0.0/libpod/containers/", container_id, "/stop")
}

// ---------------------------------------------------------------------------
// What is to be done, and when
// ---------------------------------------------------------------------------

/// A container, as the container runtime lists it.
#[derive(Clone, Debug)]
pub struct ContainerSummary {
    pub id: String,
    pub state: String,
}

/// What is known of the probes of a container. Times are nanoseconds since the Unix epoch.
#[derive(Clone, Copy, Debug, PartialEq, Eq, Structural)]
pub struct ProbeState {
    /// How many probes have failed since the last one that succeeded.
    pub failure_count: u8,
    /// When the container was started.
    pub container_started_at: u128,
    /// When it was last probed.
    pub last_probe_at: Option<u128>,
}

impl View for ProbeState {
    type V = ProbeState;

    open spec fn view(&self) -> ProbeState {
        *self
    }
}

/// What is to be done about a container.
pub enum Visit<'a> {
    /// Nothing, for now.
    Skip,
    /// Ask the container runtime when it was started, and tell by `inspected`.
    Inspect,
    /// Probe it, and tell by `probed`. So many probes in a row have failed so far.
    Probe { desired: &'a DesiredState, liveness: &'a LivenessProbe, failure_count: u8 },
}

/// What a probe led to.
#[derive(Clone, Copy, Debug, PartialEq, Eq, Structural)]
pub enum Verdict {
    /// The container works.
    Passed,
    /// The probe failed, for the `failure_count`-th time.
    Failed { failure_count: u8 },
    /// The probe failed too often: the container is to be stopped.
    Stop { failure_count: u8 },
}

/// The identifiers of the containers that run.
pub open spec fn running(containers: Seq<ContainerSummary>) -> Seq<Seq<char>>
    decreases containers.len(),
{
    if containers.len() == 0 {
        Seq::empty()
    } else {
        let before = running(containers.drop_last());
        if containers.last().state@ == "running"@ {
            before.push(containers.last().id@)
        } else {
            before
        }
    }
}

/// What is known of the containers that run.
pub open spec fn retained(states: Map<Seq<char>, ProbeState>, ids: Seq<Seq<char>>) -> Map<
    Seq<char>,
    ProbeState,
> {
    Map::new(
        |id: Seq<char>| states.contains_key(id) && ids.contains(id),
        |id: Seq<char>| states[id],
    )
}

/// The first pod that is meant to run in a container.
pub open spec fn desired_for(
    cache: Seq<(Seq<char>, DesiredView)>,
    container_id: Seq<char>,
) -> Option<DesiredView>
    decreases cache.len(),
{
    if cache.len() == 0 {
        None
    } else if cache[0].1.container_id == container_id {
        Some(cache[0].1)
    } else {
        desired_for(cache.skip(1), container_id)
    }
}

/// The liveness probe of a container, where it has one.
pub open spec fn liveness_for(
    cache: Seq<(Seq<char>, DesiredView)>,
    container_id: Seq<char>,
) -> Option<LivenessView> {
    match desired_for(cache, container_id) {
        Some(desired) => match desired.probe_config {
            Some(liveness) => liveness,
            None => None,
        },
        None => None,
    }
}

/// The time that has passed; none where the clock went back.
pub open spec fn elapsed(now: u128, then: u128) -> int {
    if now >= then {
        now - then
    } else {
        0
    }
}

/// It is time to probe a container: it has had its time to start, and the last probe is long
/// enough ago.
pub open spec fn is_due(state: ProbeState, liveness: LivenessView, now: u128) -> bool {
    &&& elapsed(now, state.container_started_at) >= liveness.initial_delay_seconds * NANOSECONDS
    &&& match state.last_probe_at {
        Some(last) => elapsed(now, last) >= liveness.period_seconds * NANOSECONDS,
        None => true,
    }
}

/// A container that was not probed yet. When its start could not be read, it counts as
/// started now.
pub open spec fn new_state(started_at: Option<Seq<char>>, now: u128) -> ProbeState {
    ProbeState {
        failure_count: 0,
        container_started_at: match started_at {
            Some(text) => match timestamp(text) {
                Some(seconds) => (seconds * NANOSECONDS) as u128,
                None => now,
            },
            None => now,
        },
        last_probe_at: None,
    }
}

/// The number of failures in a row after one more. It does not count beyond the largest number.
pub open spec fn one_more(failure_count: u8) -> u8 {
    if failure_count < u8::MAX {
        (failure_count + 1) as u8
    } else {
        u8::MAX
    }
}

/// What is said of a probe that fails after so many failures in a row.
pub open spec fn failure_note(failure_count: u8, threshold: u8) -> Seq<char> {
    "Liveness probe failed ("@ + digits(one_more(failure_count) as nat) + "/"@ + digits(
        threshold as nat,
    ) + ")"@
}

/// What is said of a probe that fails after so many failures in a row.
pub fn failure_note_for(failure_count: u8, threshold: u8) -> (note: String)
    ensures
        note@ == failure_note(failure_count, threshold),
{
    let count: u8 = if failure_count < u8::MAX {
        failure_count + 1
    } else {
        u8::MAX
    };
    let count_text = digits_of(count as u128);
    let threshold_text = digits_of(threshold as u128);
    let begun = concat4("Liveness probe failed (", count_text.as_str(), "/", threshold_text.as_str());
    concat(begun.as_str(), ")")
}

/// What a probe leads to.
pub open spec fn verdict_on(state: ProbeState, threshold: u8, success: bool) -> Verdict {
    let count = one_more(state.failure_count);
    if success {
        Verdict::Passed
    } else if count >= threshold {
        Verdict::Stop { failure_count: count }
    } else {
        Verdict::Failed { failure_count: count }
    }
}

/// What is known of a container after a probe. One that is stopped is forgotten.
pub open spec fn state_after(
    state: ProbeState,
    threshold: u8,
    success: bool,
    now: u128,
) -> Option<ProbeState> {
    match verdict_on(state, threshold, success) {
        Verdict::Passed => Some(
            ProbeState { failure_count: 0, last_probe_at: Some(now), ..state },
        ),
        Verdict::Failed { failure_count } => Some(
            ProbeState { failure_count, last_probe_at: Some(now), ..state },
        ),
        Verdict::Stop { .. } => None,
    }
}

/// What is known of all containers after a probe of one.
pub open spec fn states_after(
    states: Map<Seq<char>, ProbeState>,
    id: Seq<char>,
    threshold: u8,
    success: bool,
    now: u128,
) -> Map<Seq<char>, ProbeState> {
    match state_after(states[id], threshold, success, now) {
        Some(state) => states.insert(id, state),
        None => states.remove(id),
    }
}

/// The containers that run.
pub fn running_containers(containers: &Vec<ContainerSummary>) -> (ids: Vec<String>)
    ensures
        texts(ids@) == running(containers@),
{
    let mut ids: Vec<String> = Vec::new();
    let mut i: usize = 0;
    assert(texts(ids@) =~= running(containers@.take(0)));
    while i < containers.len()
        invariant
            i <= containers@.len(),
            texts(ids@) == running(containers@.take(i as int)),
        decreases containers@.len() - i,
    {
        let ghost before = ids@;
        assert(containers@.take(i + 1).drop_last() =~= containers@.take(i as int));
        if str_eq(containers[i].state.as_str(), "running") {
            ids.push(containers[i].id.clone());
            assert(texts(ids@) =~= texts(before).push(containers@[i as int].id@));
        }
        i += 1;
    }
    assert(containers@.take(containers@.len() as int) =~= containers@);
    ids
}

fn find_desired<'a>(cache: &'a StringMap<DesiredState>, container_id: &str) -> (found: Option<
    &'a DesiredState,
>)
    ensures
        match found {
            Some(desired) => desired_for(cache.entries(), container_id@) == Some(desired@),
            None => desired_for(cache.entries(), container_id@) is None,
        },
{
    let ghost entries = cache.entries();
    let count: usize = cache.len();
    let mut i: usize = 0;
    assert(entries.skip(0) =~= entries);
    while i < count
        invariant
            i <= count == entries.len(),
            entries == cache.entries(),
            desired_for(entries, container_id@) == desired_for(
                entries.skip(i as int),
                container_id@,
            ),
        decreases count - i,
    {
        let desired = cache.value_at(i);
        assert(entries.skip(i as int)[0] == entries[i as int]);
        assert(entries.skip(i as int).skip(1) =~= entries.skip(i + 1));
        if str_eq(desired.container_id.as_str(), container_id) {
            return Some(desired);
        }
        i += 1;
    }
    None
}

fn is_due_now(state: &ProbeState, liveness: &LivenessProbe, now: u128) -> (due: bool)
    ensures
        due == is_due(*state, liveness@, now),
{
    let since_start: u128 = if now >= state.container_started_at {
        now - state.container_started_at
    } else {
        0
    };
    if since_start < liveness.initial_delay_seconds as u128 * NANOSECONDS {
        return false;
    }
    match state.last_probe_at {
        Some(last) => {
            let since_probe: u128 = if now >= last {
                now - last
            } else {
                0
            };
            since_probe >= liveness.period_seconds as u128 * NANOSECONDS
        },
        None => true,
    }
}

proof fn lemma_retained_push(
    states: Map<Seq<char>, ProbeState>,
    ids: Seq<Seq<char>>,
    id: Seq<char>,
)
    ensures
        retained(states, ids.push(id)) == if states.contains_key(id) {
            retained(states, ids).insert(id, states[id])
        } else {
            retained(states, ids)
        },
{
    let after = retained(states, ids.push(id));
    let before = if states.contains_key(id) {
        retained(states, ids).insert(id, states[id])
    } else {
        retained(states, ids)
    };
    assert forall|other: Seq<char>| #[trigger]
        after.contains_key(other) <==> before.contains_key(other) by {
        lemma_contains_push(ids, id, other);
    }
    assert(after =~= before);
}

/// What is known of the probes of all containers.
pub struct ProbeTracker {
    states: StringMap<ProbeState>,
}

impl View for ProbeTracker {
    type V = Map<Seq<char>, ProbeState>;

    closed spec fn view(&self) -> Map<Seq<char>, ProbeState> {
        self.states@
    }
}

impl ProbeTracker {
    /// Nothing is known yet.
    pub fn new() -> (tracker: ProbeTracker)
        ensures
            tracker@ == Map::<Seq<char>, ProbeState>::empty(),
    {
        ProbeTracker { states: StringMap::new() }
    }

    /// Forgets the containers that do not run any more.
    pub fn retain_running(&mut self, ids: &Vec<String>)
        ensures
            final(self)@ == retained(old(self)@, texts(ids@)),
    {
        let ghost all = texts(ids@);
        let ghost states = self.states@;
        let mut kept: StringMap<ProbeState> = StringMap::new();
        let mut i: usize = 0;
        while i < ids.len()
            invariant
                i <= ids@.len(),
                all == texts(ids@),
                states == self.states@,
                kept@ == retained(states, all.take(i as int)),
            decreases ids@.len() - i,
        {
            let ghost id = all[i as int];
            assert(id == ids@[i as int]@);
            proof {
                assert(all.take(i + 1) =~= all.take(i as int).push(id));
                lemma_retained_push(states, all.take(i as int), id);
            }
            if let Some(state) = self.states.get(ids[i].as_str()) {
                kept.insert(ids[i].clone(), *state);
            }
            i += 1;
        }
        assert(all.take(ids@.len() as int) =~= all);
        self.states = kept;
    }

    /// What is to be done about a running container.
    pub fn visit<'a>(
        &self,
        cache: &'a StringMap<DesiredState>,
        container_id: &str,
        now: u128,
    ) -> (visit: Visit<'a>)
        ensures
            match visit {
                Visit::Skip => match liveness_for(cache.entries(), container_id@) {
                    Some(liveness) => self@.contains_key(container_id@) && !is_due(
                        self@[container_id@],
                        liveness,
                        now,
                    ),
                    None => true,
                },
                Visit::Inspect => {
                    &&& liveness_for(cache.entries(), container_id@) is Some
                    &&& !self@.contains_key(container_id@)
                },
                Visit::Probe { desired, liveness, failure_count } => {
                    &&& failure_count == self@[container_id@].failure_count
                    &&& desired_for(cache.entries(), container_id@) == Some(desired@)
                    &&& liveness_for(cache.entries(), container_id@) == Some(liveness@)
                    &&& self@.contains_key(container_id@)
                    &&& is_due(self@[container_id@], liveness@, now)
                },
            },
    {
        let desired = match find_desired(cache, container_id) {
            Some(desired) => desired,
            None => {
                return Visit::Skip;
            },
        };
        let liveness = match &desired.probe_config {
            Some(config) => match &config.liveness {
                Some(liveness) => liveness,
                None => {
                    return Visit::Skip;
                },
            },
            None => {
                return Visit::Skip;
            },
        };
        match self.states.get(container_id) {
            Some(state) => if is_due_now(state, liveness, now) {
                Visit::Probe { desired, liveness, failure_count: state.failure_count }
            } else {
                Visit::Skip
            },
            None => Visit::Inspect,
        }
    }

    /// Notes when a container was started: the container runtime's timestamp, where it gave
    /// one, and the present time otherwise.
    pub fn inspected(&mut self, container_id: &str, started_at: Option<&str>, now: u128)
        ensures
            final(self)@ == old(self)@.insert(
                container_id@,
                new_state(
                    match started_at {
                        Some(text) => Some(text@),
                        None => None,
                    },
                    now,
                ),
            ),
    {
        let container_started_at: u128 = match started_at {
            Some(text) => match parse_rfc3339(text) {
                Some(seconds) => seconds as u128 * NANOSECONDS,
                None => now,
            },
            None => now,
        };
        self.states.insert(
            container_id.to_owned(),
            ProbeState { failure_count: 0, container_started_at, last_probe_at: None },
        );
    }

    /// Notes how the probe of a container ended, and tells what it leads to.
    pub fn probed(
        &mut self,
        container_id: &str,
        liveness: &LivenessProbe,
        success: bool,
        now: u128,
    ) -> (verdict: Verdict)
        requires
            old(self)@.contains_key(container_id@),
        ensures
            final(self)@ == states_after(
                old(self)@,
                container_id@,
                liveness.failure_threshold,
                success,
                now,
            ),
            verdict == verdict_on(old(self)@[container_id@], liveness.failure_threshold, success),
    {
        let state: ProbeState = match self.states.get(container_id) {
            Some(state) => *state,
            None => ProbeState { failure_count: 0, container_started_at: now, last_probe_at: None },
        };
        if success {
            self.states.insert(
                container_id.to_owned(),
                ProbeState { failure_count: 0, last_probe_at: Some(now), ..state },
            );
            return Verdict::Passed;
        }
        let failure_count: u8 = if state.failure_count < u8::MAX {
            state.failure_count + 1
        } else {
            u8::MAX
        };
        if failure_count >= liveness.failure_threshold {
            let dropped = self.states.remove(container_id);
            Verdict::Stop { failure_count }
        } else {
            self.states.insert(
                container_id.to_owned(),
                ProbeState { failure_count, last_probe_at: Some(now), ..state },
            );
            Verdict::Failed { failure_count }
        }
    }
}

// ---------------------------------------------------------------------------
// Laws
// ---------------------------------------------------------------------------

/// What is known of a container after as many probes in a row have failed as there are times
/// here; nothing, once it was stopped.
pub open spec fn after_failures(
    fresh: ProbeState,
    threshold: u8,
    times: Seq<u128>,
) -> Option<ProbeState>
    decreases times.len(),
{
    if times.len() == 0 {
        Some(fresh)
    } else {
        match after_failures(fresh, threshold, times.drop_last()) {
            Some(state) => state_after(state, threshold, false, times.last()),
            None => None,
        }
    }
}

/// A container is stopped by exactly as many failures in a row as the threshold says: not by
/// fewer, which are counted, and always by that many. One failure at least is needed.
pub proof fn law_stopped_at_threshold(fresh: ProbeState, threshold: u8, times: Seq<u128>)
    requires
        fresh.failure_count == 0,
        threshold >= 1,
    ensures
        match after_failures(fresh, threshold, times) {
            Some(state) => times.len() < threshold && state.failure_count == times.len(),
            None => times.len() >= threshold,
        },
    decreases times.len(),
{
    if times.len() > 0 {
        law_stopped_at_threshold(fresh, threshold, times.drop_last());
    }
}

/// A probe that succeeds makes all failures before it forgotten.
pub proof fn law_success_resets(state: ProbeState, threshold: u8, now: u128)
    ensures
        verdict_on(state, threshold, true) == Verdict::Passed,
        state_after(state, threshold, true, now) matches Some(after) && after.failure_count == 0,
{
}

/// A probe stops a container only when it failed.
pub proof fn law_stop_needs_failure(state: ProbeState, threshold: u8, success: bool)
    requires
        verdict_on(state, threshold, success) is Stop,
    ensures
        !success,
{
}

/// After a probe the next one waits for the period to pass.
pub proof fn law_probes_keep_their_distance(
    state: ProbeState,
    liveness: LivenessView,
    success: bool,
    now: u128,
    later: u128,
)
    requires
        liveness.period_seconds > 0,
        later < now + liveness.period_seconds * NANOSECONDS,
    ensures
        state_after(state, liveness.failure_threshold, success, now) matches Some(after)
            ==> !is_due(after, liveness, later),
{
}

/// No container is probed before its initial delay is over.
pub proof fn law_initial_delay_is_kept(state: ProbeState, liveness: LivenessView, now: u128)
    requires
        liveness.initial_delay_seconds > 0,
        now < state.container_started_at + liveness.initial_delay_seconds * NANOSECONDS,
    ensures
        !is_due(state, liveness, now),
{
}

/// A probe says nothing of other containers.
pub proof fn law_other_containers_untouched(
    states: Map<Seq<char>, ProbeState>,
    id: Seq<char>,
    threshold: u8,
    success: bool,
    now: u128,
    other: Seq<char>,
)
    requires
        other != id,
    ensures
        ({
            let after = states_after(states, id, threshold, success, now);
            &&& after.contains_key(other) == states.contains_key(other)
            &&& states.contains_key(other) ==> after[other] == states[other]
        }),
{
}

/// A container that does not run is forgotten, and one that runs is remembered as it was.
pub proof fn law_only_running_are_remembered(
    states: Map<Seq<char>, ProbeState>,
    ids: Seq<Seq<char>>,
    id: Seq<char>,
)
    ensures
        retained(states, ids).contains_key(id) <==> states.contains_key(id) && ids.contains(id),
        retained(states, ids).contains_key(id) ==> retained(states, ids)[id] == states[id],
{
}

} // verus!
