//! What a node is meant to run.

use crate::text::texts;
use vstd::prelude::*;

verus! {

/// When a container is started again after it ended.
#[derive(Clone, Copy, Debug, PartialEq, Eq, Structural)]
pub enum RestartPolicy {
    Always,
    OnFailure,
    Never,
}

/// How a container is asked whether it works.
#[derive(Clone, Debug, PartialEq)]
pub enum ProbeType {
    /// By an HTTP GET request.
    Http { path: String, port: u16 },
    /// By a TCP connection.
    Tcp { port: u16 },
    /// By a command inside the container.
    Exec { command: Vec<String> },
}

/// The contents of a `ProbeType`.
#[verifier::ext_equal]
pub enum ProbeTypeView {
    Http { path: Seq<char>, port: u16 },
    Tcp { port: u16 },
    Exec { command: Seq<Seq<char>> },
}

impl View for ProbeType {
    type V = ProbeTypeView;

    open spec fn view(&self) -> ProbeTypeView {
        match self {
            ProbeType::Http { path, port } => ProbeTypeView::Http { path: path@, port: *port },
            ProbeType::Tcp { port } => ProbeTypeView::Tcp { port: *port },
            ProbeType::Exec { command } => ProbeTypeView::Exec { command: texts(command@) },
        }
    }
}

/// When a container is probed, and when it counts as broken.
#[derive(Clone, Debug, PartialEq)]
pub struct LivenessProbe {
    pub probe_type: ProbeType,
    pub initial_delay_seconds: u32,
    pub period_seconds: u32,
    pub timeout_seconds: u32,
    pub failure_threshold: u8,
}

/// The contents of a `LivenessProbe`.
#[verifier::ext_equal]
pub struct LivenessView {
    pub probe_type: ProbeTypeView,
    pub initial_delay_seconds: u32,
    pub period_seconds: u32,
    pub timeout_seconds: u32,
    pub failure_threshold: u8,
}

impl View for LivenessProbe {
    type V = LivenessView;

    open spec fn view(&self) -> LivenessView {
        LivenessView {
            probe_type: self.probe_type@,
            initial_delay_seconds: self.initial_delay_seconds,
            period_seconds: self.period_seconds,
            timeout_seconds: self.timeout_seconds,
            failure_threshold: self.failure_threshold,
        }
    }
}

/// The probes of a pod.
#[derive(Clone, Debug, PartialEq)]
pub struct ProbeConfig {
    pub liveness: Option<LivenessProbe>,
}

/// What a pod is meant to be like.
#[derive(Clone, Debug)]
pub struct DesiredState {
    pub pod_name: String,
    /// The identifier of the pod's container; empty until it was started.
    pub container_id: String,
    pub restart_policy: RestartPolicy,
    pub probe_config: Option<ProbeConfig>,
}

/// The contents of a `DesiredState`.
#[verifier::ext_equal]
pub struct DesiredView {
    pub pod_name: Seq<char>,
    pub container_id: Seq<char>,
    pub restart_policy: RestartPolicy,
    /// The liveness probe, where probes are configured and one of them is that.
    pub probe_config: Option<Option<LivenessView>>,
}

/// The contents of an optional `LivenessProbe`.
pub open spec fn optional_liveness(liveness: Option<LivenessProbe>) -> Option<LivenessView> {
    match liveness {
        Some(probe) => Some(probe@),
        None => None,
    }
}

/// The contents of an optional `ProbeConfig`.
pub open spec fn optional_probes(config: Option<ProbeConfig>) -> Option<Option<LivenessView>> {
    match config {
        Some(probes) => Some(optional_liveness(probes.liveness)),
        None => None,
    }
}

impl View for DesiredState {
    type V = DesiredView;

    open spec fn view(&self) -> DesiredView {
        DesiredView {
            pod_name: self.pod_name@,
            container_id: self.container_id@,
            restart_policy: self.restart_policy,
            probe_config: optional_probes(self.probe_config),
        }
    }
}

/// What a pod is meant to be like when nothing but its name is known.
pub open spec fn plain_state(pod_name: Seq<char>) -> DesiredView {
    DesiredView {
        pod_name,
        container_id: Seq::empty(),
        restart_policy: RestartPolicy::Always,
        probe_config: None,
    }
}

impl DesiredState {
    /// A pod that is always restarted and never probed.
    pub fn new(pod_name: String) -> (state: DesiredState)
        ensures
            state@ == plain_state(pod_name@),
    {
        let state = DesiredState {
            pod_name,
            container_id: String::new(),
            restart_policy: RestartPolicy::Always,
            probe_config: None,
        };
        assert(state@.container_id =~= Seq::<char>::empty());
        state
    }
}

} // verus!
