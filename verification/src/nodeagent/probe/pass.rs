//! One pass of the probe loop after the other: what the loop does next, by what it was told
//! last.

use crate::nodeagent::desired_state::{DesiredState, DesiredView};
use crate::nodeagent::probe::liveness::{
    check_liveness_probe, desired_for, failure_note, failure_note_for, format_probe_desc, is_due,
    liveness_for, new_state, planned, probe_description, retained, running, running_containers,
    states_after, stop_path, verdict_on, ContainerSummary, PlanView, ProbePlan, ProbeState,
    ProbeTracker, Verdict, Visit,
};
use crate::string_map::StringMap;
use crate::text::texts;
use vstd::prelude::*;

verus! {

/// What the loop does next.
#[derive(Clone, Debug)]
pub enum ProbeAction {
    /// Ask the container runtime when this container was started.
    Inspect { container_id: String },
    /// Probe this container.
    Probe {
        container_id: String,
        pod_name: String,
        description: String,
        plan: ProbePlan,
        timeout_seconds: u32,
        /// What is said of it if the probe fails.
        failure_note: String,
    },
    /// Have the container runtime stop this container.
    Stop { container_id: String, pod_name: String, path: String },
    /// Sleep for a second, and begin the next pass.
    Sleep,
}

/// The contents of a `ProbeAction`.
#[verifier::ext_equal]
pub enum ProbeActionView {
    Inspect { container_id: Seq<char> },
    Probe {
        container_id: Seq<char>,
        pod_name: Seq<char>,
        description: Seq<char>,
        plan: PlanView,
        timeout_seconds: u32,
        failure_note: Seq<char>,
    },
    Stop { container_id: Seq<char>, pod_name: Seq<char>, path: Seq<char> },
    Sleep,
}

impl View for ProbeAction {
    type V = ProbeActionView;

    open spec fn view(&self) -> ProbeActionView {
        match self {
            ProbeAction::Inspect { container_id } => ProbeActionView::Inspect {
                container_id: container_id@,
            },
            ProbeAction::Probe {
                container_id,
                pod_name,
                description,
                plan,
                timeout_seconds,
                failure_note,
            } => ProbeActionView::Probe {
                container_id: container_id@,
                pod_name: pod_name@,
                description: description@,
                plan: plan@,
                timeout_seconds: *timeout_seconds,
                failure_note: failure_note@,
            },
            ProbeAction::Stop { container_id, pod_name, path } => ProbeActionView::Stop {
                container_id: container_id@,
                pod_name: pod_name@,
                path: path@,
            },
            ProbeAction::Sleep => ProbeActionView::Sleep,
        }
    }
}

/// Where the loop is.
#[verifier::ext_equal]
pub struct LoopView {
    /// What is known of the probes of all containers.
    pub states: Map<Seq<char>, ProbeState>,
    /// What the node was meant to run when the pass began.
    pub cache: Seq<(Seq<char>, DesiredView)>,
    /// The containers that ran when the pass began.
    pub ids: Seq<Seq<char>>,
    /// The place of the container that the pass has come to.
    pub at: int,
    /// When the pass began.
    pub now: u128,
}

/// What a pass does at a container; nothing, where it goes on to the next.
pub open spec fn action_at(pass: LoopView, id: Seq<char>) -> Option<ProbeActionView> {
    match (desired_for(pass.cache, id), liveness_for(pass.cache, id)) {
        (Some(desired), Some(liveness)) => if !pass.states.contains_key(id) {
            Some(ProbeActionView::Inspect { container_id: id })
        } else if is_due(pass.states[id], liveness, pass.now) {
            Some(
                ProbeActionView::Probe {
                    container_id: id,
                    pod_name: desired.pod_name,
                    description: probe_description(liveness.probe_type),
                    plan: planned(id, liveness.probe_type),
                    timeout_seconds: liveness.timeout_seconds,
                    failure_note: failure_note(
                        pass.states[id].failure_count,
                        liveness.failure_threshold,
                    ),
                },
            )
        } else {
            None
        },
        _ => None,
    }
}

/// Where a pass stops next, and what it does there. At the end it sleeps.
pub open spec fn advanced(pass: LoopView) -> (LoopView, ProbeActionView)
    decreases pass.ids.len() - pass.at,
{
    if pass.at < 0 || pass.at >= pass.ids.len() {
        (pass, ProbeActionView::Sleep)
    } else {
        match action_at(pass, pass.ids[pass.at]) {
            Some(action) => (pass, action),
            None => advanced(LoopView { at: pass.at + 1, ..pass }),
        }
    }
}

/// The loop has asked when a container was started.
pub open spec fn awaits_start(pass: LoopView) -> bool {
    &&& 0 <= pass.at < pass.ids.len()
    &&& action_at(pass, pass.ids[pass.at]) matches Some(action) && action is Inspect
}

/// The loop has asked for a probe.
pub open spec fn awaits_probe(pass: LoopView) -> bool {
    &&& 0 <= pass.at < pass.ids.len()
    &&& action_at(pass, pass.ids[pass.at]) matches Some(action) && action is Probe
}

/// A new pass begins: containers that do not run any more are forgotten.
pub open spec fn begun(
    pass: LoopView,
    containers: Seq<ContainerSummary>,
    cache: Seq<(Seq<char>, DesiredView)>,
    now: u128,
) -> (LoopView, ProbeActionView) {
    advanced(
        LoopView {
            states: retained(pass.states, running(containers)),
            cache,
            ids: running(containers),
            at: 0,
            now,
        },
    )
}

/// The loop learns when a container was started, and looks at it again.
pub open spec fn told_start(pass: LoopView, started_at: Option<Seq<char>>, now: u128) -> (
    LoopView,
    ProbeActionView,
) {
    advanced(
        LoopView {
            states: pass.states.insert(pass.ids[pass.at], new_state(started_at, now)),
            ..pass
        },
    )
}

/// The loop learns how a probe ended: it has the container stopped, or goes on to the next.
pub open spec fn told_probe(pass: LoopView, success: bool) -> (LoopView, ProbeActionView) {
    let id = pass.ids[pass.at];
    let threshold = liveness_for(pass.cache, id)->0.failure_threshold;
    let noted = LoopView {
        states: states_after(pass.states, id, threshold, success, pass.now),
        at: pass.at + 1,
        ..pass
    };
    match verdict_on(pass.states[id], threshold, success) {
        Verdict::Stop { .. } => (
            noted,
            ProbeActionView::Stop {
                container_id: id,
                pod_name: desired_for(pass.cache, id)->0.pod_name,
                path: "/v4.0.0/libpod/containers/"@ + id + "/stop"@,
            },
        ),
        _ => advanced(noted),
    }
}

/// The probe loop.
pub struct ProbeLoop {
    tracker: ProbeTracker,
    cache: StringMap<DesiredState>,
    ids: Vec<String>,
    at: usize,
    now: u128,
}

impl View for ProbeLoop {
    type V = LoopView;

    closed spec fn view(&self) -> LoopView {
        LoopView {
            states: self.tracker@,
            cache: self.cache.entries(),
            ids: texts(self.ids@),
            at: self.at as int,
            now: self.now,
        }
    }
}

impl ProbeLoop {
    /// A loop that knows of no container yet.
    pub fn new() -> (probe_loop: ProbeLoop)
        ensures
            probe_loop@ == (LoopView {
                states: Map::empty(),
                cache: Seq::empty(),
                ids: Seq::empty(),
                at: 0,
                now: 0,
            }),
    {
        let probe_loop = ProbeLoop {
            tracker: ProbeTracker::new(),
            cache: StringMap::new(),
            ids: Vec::new(),
            at: 0,
            now: 0,
        };
        assert(probe_loop@.ids =~= Seq::<Seq<char>>::empty());
        probe_loop
    }

    /// Begins a pass at the time `now`, over the containers that the container runtime lists
    /// and what the node is meant to run. Where the list could not be had, there is nothing
    /// to do but to sleep.
    pub fn begin(
        &mut self,
        containers: Option<Vec<ContainerSummary>>,
        cache: StringMap<DesiredState>,
        now: u128,
    ) -> (action: ProbeAction)
        ensures
            match containers {
                Some(list) => {
                    &&& final(self)@ == begun(old(self)@, list@, cache.entries(), now).0
                    &&& action@ == begun(old(self)@, list@, cache.entries(), now).1
                    &&& action is Inspect ==> awaits_start(final(self)@)
                    &&& action is Probe ==> awaits_probe(final(self)@)
                },
                None => {
                    &&& final(self)@ == old(self)@
                    &&& action@ == ProbeActionView::Sleep
                },
            },
    {
        match containers {
            Some(list) => {
                let ids = running_containers(&list);
                self.tracker.retain_running(&ids);
                self.cache = cache;
                self.ids = ids;
                self.at = 0;
                self.now = now;
                self.advance()
            },
            None => ProbeAction::Sleep,
        }
    }

    /// Goes on after the container runtime told when a container was started, or could not
    /// tell it. The present time is `now`.
    pub fn inspected(&mut self, started_at: Option<&str>, now: u128) -> (action: ProbeAction)
        requires
            awaits_start(old(self)@),
        ensures
            ({
                let start = match started_at {
                    Some(text) => Some(text@),
                    None => None,
                };
                &&& final(self)@ == told_start(old(self)@, start, now).0
                &&& action@ == told_start(old(self)@, start, now).1
            }),
            action is Inspect ==> awaits_start(final(self)@),
            action is Probe ==> awaits_probe(final(self)@),
    {
        let id = self.ids[self.at].clone();
        assert(self@.ids[self.at as int] == id@);
        self.tracker.inspected(id.as_str(), started_at, now);
        self.advance()
    }

    /// Goes on after a probe, which succeeded or failed.
    pub fn probed(&mut self, success: bool) -> (action: ProbeAction)
        requires
            awaits_probe(old(self)@),
        ensures
            final(self)@ == told_probe(old(self)@, success).0,
            action@ == told_probe(old(self)@, success).1,
            action is Inspect ==> awaits_start(final(self)@),
            action is Probe ==> awaits_probe(final(self)@),
    {
        let id = self.ids[self.at].clone();
        let now = self.now;
        assert(self@.ids[self.at as int] == id@);
        assert(self.at < self.ids.len());
        let next: usize = self.at + 1;
        let (verdict, pod_name) = match self.tracker.visit(&self.cache, id.as_str(), now) {
            Visit::Probe { desired, liveness, .. } => (
                self.tracker.probed(id.as_str(), liveness, success, now),
                desired.pod_name.clone(),
            ),
            _ => (Verdict::Passed, String::new()),
        };
        self.at = next;
        match verdict {
            Verdict::Stop { .. } => {
                let path = stop_path(id.as_str());
                ProbeAction::Stop { container_id: id, pod_name, path }
            },
            _ => self.advance(),
        }
    }

    /// Goes on after a container was stopped.
    pub fn stopped(&mut self) -> (action: ProbeAction)
        ensures
            final(self)@ == advanced(old(self)@).0,
            action@ == advanced(old(self)@).1,
            action is Inspect ==> awaits_start(final(self)@),
            action is Probe ==> awaits_probe(final(self)@),
    {
        self.advance()
    }

    fn advance(&mut self) -> (action: ProbeAction)
        ensures
            final(self)@ == advanced(old(self)@).0,
            action@ == advanced(old(self)@).1,
            action is Inspect ==> awaits_start(final(self)@),
            action is Probe ==> awaits_probe(final(self)@),
    {
        let ghost start = self@;
        proof {
            law_action_fits_place(start);
        }
        while self.at < self.ids.len()
            invariant
                start == old(self)@,
                advanced(start) == advanced(self@),
            decreases self.ids@.len() - self.at,
        {
            let id = self.ids[self.at].as_str();
            assert(self@.ids[self.at as int] == id@);
            match self.tracker.visit(&self.cache, id, self.now) {
                Visit::Skip => {},
                Visit::Inspect => {
                    return ProbeAction::Inspect { container_id: id.to_owned() };
                },
                Visit::Probe { desired, liveness, failure_count } => {
                    return ProbeAction::Probe {
                        container_id: id.to_owned(),
                        pod_name: desired.pod_name.clone(),
                        description: format_probe_desc(&liveness.probe_type),
                        plan: check_liveness_probe(id, liveness),
                        timeout_seconds: liveness.timeout_seconds,
                        failure_note: failure_note_for(failure_count, liveness.failure_threshold),
                    };
                },
            }
            let ghost before = self@;
            self.at = self.at + 1;
            assert(self@ == (LoopView { at: before.at + 1, ..before }));
        }
        ProbeAction::Sleep
    }
}

// ---------------------------------------------------------------------------
// Laws
// ---------------------------------------------------------------------------

/// What the loop does next is what its place says: it asks for a start or a probe exactly
/// when it waits for one.
pub proof fn law_action_fits_place(pass: LoopView)
    requires
        0 <= pass.at,
    ensures
        ({
            let (place, action) = advanced(pass);
            &&& pass.at <= place.at
            &&& place == (LoopView { at: place.at, ..pass })
            &&& action is Inspect <==> awaits_start(place)
            &&& action is Probe <==> awaits_probe(place)
            &&& action is Sleep <==> place.at >= place.ids.len()
        }),
    decreases pass.ids.len() - pass.at,
{
    if pass.at < pass.ids.len() && action_at(pass, pass.ids[pass.at]) is None {
        law_action_fits_place(LoopView { at: pass.at + 1, ..pass });
    }
}

/// Only a container that runs and that has a liveness probe is ever probed, and only when it
/// is due.
pub proof fn law_probes_are_due(pass: LoopView)
    requires
        0 <= pass.at,
    ensures
        advanced(pass).1 matches ProbeActionView::Probe { container_id, .. } ==> {
            &&& pass.ids.contains(container_id)
            &&& pass.states.contains_key(container_id)
            &&& liveness_for(pass.cache, container_id) matches Some(liveness) && is_due(
                pass.states[container_id],
                liveness,
                pass.now,
            )
        },
    decreases pass.ids.len() - pass.at,
{
    if pass.at < pass.ids.len() {
        assert(pass.ids.contains(pass.ids[pass.at]));
        if action_at(pass, pass.ids[pass.at]) is None {
            law_probes_are_due(LoopView { at: pass.at + 1, ..pass });
        }
    }
}

/// A container is stopped only when its probe has failed as often in a row as its threshold
/// says, and then it is forgotten.
pub proof fn law_stop_means_threshold(pass: LoopView, success: bool)
    requires
        awaits_probe(pass),
        told_probe(pass, success).1 is Stop,
    ensures
        ({
            let id = pass.ids[pass.at];
            let liveness = liveness_for(pass.cache, id)->0;
            &&& !success
            &&& told_probe(pass, success).1->Stop_container_id == id
            &&& pass.states[id].failure_count + 1 >= liveness.failure_threshold
            &&& !told_probe(pass, success).0.states.contains_key(id)
        }),
{
    let id = pass.ids[pass.at];
    let threshold = liveness_for(pass.cache, id)->0.failure_threshold;
    let noted = LoopView {
        states: states_after(pass.states, id, threshold, success, pass.now),
        at: pass.at + 1,
        ..pass
    };
    lemma_advanced_never_stops(noted);
}

/// The loop asks for a stop only on what it is told of a probe.
pub proof fn lemma_advanced_never_stops(pass: LoopView)
    ensures
        !(advanced(pass).1 is Stop),
    decreases pass.ids.len() - pass.at,
{
    if 0 <= pass.at < pass.ids.len() && action_at(pass, pass.ids[pass.at]) is None {
        lemma_advanced_never_stops(LoopView { at: pass.at + 1, ..pass });
    }
}

} // verus!
