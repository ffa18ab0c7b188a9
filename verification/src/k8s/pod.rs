//! What a pod consists of.

use vstd::prelude::*;

verus! {

/// The specification of a pod.
#[allow(non_snake_case)]
#[derive(Clone, Debug, PartialEq)]
pub struct PodSpec {
    pub hostNetwork: Option<bool>,
    pub containers: Vec<Container>,
    pub volumes: Option<Vec<Volume>>,
    pub initContainers: Option<Vec<Container>>,
    pub restartPolicy: Option<String>,
    pub terminationGracePeriodSeconds: Option<i32>,
    pub hostIPC: Option<bool>,
    pub runtimeClassName: Option<String>,
    pub securityContext: Option<PodSecurityContext>,
    pub probeConfig: Option<ProbeConfig>,
}

/// The probes of a pod.
#[derive(Clone, Debug, PartialEq)]
pub struct ProbeConfig {
    pub liveness: Option<LivenessProbe>,
}

/// A liveness probe, as Kubernetes describes it.
#[allow(non_snake_case)]
#[derive(Clone, Debug, PartialEq)]
pub struct LivenessProbe {
    pub http: Option<HttpProbe>,
    pub tcp: Option<TcpProbe>,
    pub exec_probe: Option<ExecProbe>,
    pub initialDelaySeconds: u32,
    pub periodSeconds: u32,
    pub timeoutSeconds: u32,
    pub failureThreshold: u8,
}

/// The parameters of an HTTP GET probe.
#[derive(Clone, Debug, PartialEq)]
pub struct HttpProbe {
    pub path: String,
    pub port: u16,
}

/// The parameters of a TCP probe.
#[derive(Clone, Debug, PartialEq)]
pub struct TcpProbe {
    pub port: u16,
}

/// The parameters of a probe that runs a command inside the container.
#[derive(Clone, Debug, PartialEq)]
pub struct ExecProbe {
    pub command: Vec<String>,
}

/// A container of a pod.
#[allow(non_snake_case)]
#[derive(Clone, Debug, PartialEq)]
pub struct Container {
    pub name: String,
    pub image: String,
    pub volumeMounts: Option<Vec<VolumeMount>>,
    pub env: Option<Vec<Env>>,
    pub ports: Option<Vec<Port>>,
    pub command: Option<Vec<String>>,
    pub workingDir: Option<String>,
    pub resources: Option<Resources>,
    pub securityContext: Option<SecurityContext>,
}

/// The security settings of a pod.
#[allow(non_snake_case)]
#[derive(Clone, Debug, PartialEq)]
pub struct PodSecurityContext {
    pub runAsUser: Option<i64>,
    pub runAsGroup: Option<i64>,
}

/// A volume of a pod.
#[allow(non_snake_case)]
#[derive(Clone, Debug, PartialEq)]
pub struct Volume {
    pub name: String,
    pub hostPath: HostPath,
}

/// A path on the host.
#[derive(Clone, Debug, PartialEq)]
pub struct HostPath {
    pub path: String,
}

/// Where a volume appears in a container.
#[allow(non_snake_case)]
#[derive(Clone, Debug, PartialEq)]
pub struct VolumeMount {
    pub name: String,
    pub mountPath: String,
}

/// A variable of a container's environment.
#[derive(Clone, Debug, PartialEq)]
pub struct Env {
    pub name: String,
    pub value: String,
}

/// A port of a container.
#[allow(non_snake_case)]
#[derive(Clone, Debug, PartialEq)]
pub struct Port {
    pub containerPort: Option<i32>,
    pub hostPort: Option<i32>,
}

/// What a container needs, and what it may use at most.
#[derive(Clone, Debug, PartialEq)]
pub struct Resources {
    pub requests: Option<Requests>,
    pub limits: Option<Limits>,
}

/// What a container needs.
#[derive(Clone, Debug, PartialEq)]
pub struct Requests {
    pub cpu: Option<String>,
    pub memory: Option<String>,
}

/// What a container may use at most.
#[derive(Clone, Debug, PartialEq)]
pub struct Limits {
    pub cpu: Option<String>,
    pub memory: Option<String>,
}

/// The security settings of a container.
#[allow(non_snake_case)]
#[derive(Clone, Debug, PartialEq)]
pub struct SecurityContext {
    pub privileged: Option<bool>,
    pub capabilities: Option<Capabilities>,
    pub runAsUser: Option<i64>,
    pub runAsGroup: Option<i64>,
}

/// Rights that a container gets or loses.
#[derive(Clone, Debug, PartialEq)]
pub struct Capabilities {
    pub add: Option<Vec<String>>,
    pub drop: Option<Vec<String>>,
}

impl PodSpec {
    /// The image of the first container, where there is one.
    pub fn get_image(&self) -> (image: Option<&str>)
        ensures
            match image {
                Some(name) => self.containers@.len() > 0 && name@ == self.containers@[0].image@,
                None => self.containers@.len() == 0,
            },
    {
        if self.containers.len() > 0 {
            Some(self.containers[0].image.as_str())
        } else {
            None
        }
    }

    /// The volumes.
    pub fn get_volume(&mut self) -> (volumes: &Option<Vec<Volume>>)
        ensures
            *volumes == old(self).volumes,
            *final(self) == *old(self),
    {
        &self.volumes
    }
}

/// A number that a probe gives, or the one that stands for it.
pub open spec fn given_or(given: Option<u32>, default: u32) -> u32 {
    match given {
        Some(n) => n,
        None => default,
    }
}

impl LivenessProbe {
    /// A probe of which some numbers may be missing. Kubernetes says what stands for those:
    /// no delay, every ten seconds, one second to answer, and three failures.
    pub fn with_defaults(
        http: Option<HttpProbe>,
        tcp: Option<TcpProbe>,
        exec_probe: Option<ExecProbe>,
        initial_delay_seconds: Option<u32>,
        period_seconds: Option<u32>,
        timeout_seconds: Option<u32>,
        failure_threshold: Option<u8>,
    ) -> (probe: LivenessProbe)
        ensures
            probe.http == http,
            probe.tcp == tcp,
            probe.exec_probe == exec_probe,
            probe.initialDelaySeconds == given_or(initial_delay_seconds, 0),
            probe.periodSeconds == given_or(period_seconds, 10),
            probe.timeoutSeconds == given_or(timeout_seconds, 1),
            probe.failureThreshold == match failure_threshold {
                Some(n) => n,
                None => 3,
            },
    {
        LivenessProbe {
            http,
            tcp,
            exec_probe,
            initialDelaySeconds: match initial_delay_seconds {
                Some(n) => n,
                None => 0,
            },
            periodSeconds: match period_seconds {
                Some(n) => n,
                None => 10,
            },
            timeoutSeconds: match timeout_seconds {
                Some(n) => n,
                None => 1,
            },
            failureThreshold: match failure_threshold {
                Some(n) => n,
                None => 3,
            },
        }
    }
}

/// A number that is given counts, whatever would stand for it.
pub proof fn law_given_numbers_count(n: u32, default: u32)
    ensures
        given_or(Some(n), default) == n,
        given_or(None, default) == default,
{
}

} // verus!
