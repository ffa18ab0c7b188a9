//! Workload requests: the pods that the node is meant to run are kept in a cache, by name.

use crate::k8s::pod;
use crate::k8s::Pod;
use crate::nodeagent::desired_state::{
    optional_probes, plain_state, DesiredState, DesiredView, LivenessProbe, LivenessView,
    ProbeConfig, ProbeType, ProbeTypeView, RestartPolicy,
};
use crate::string_map::StringMap;
use crate::text::{concat, str_eq, texts};
use vstd::prelude::*;

verus! {

// ---------------------------------------------------------------------------
// What a pod is meant to be like
// ---------------------------------------------------------------------------

/// The probe that a liveness configuration asks for: an HTTP probe where there is one, else a
/// TCP probe, else a command.
pub open spec fn chosen_probe(liveness: pod::LivenessProbe) -> Option<ProbeTypeView> {
    match (liveness.http, liveness.tcp, liveness.exec_probe) {
        (Some(http), _, _) => Some(ProbeTypeView::Http { path: http.path@, port: http.port }),
        (None, Some(tcp), _) => Some(ProbeTypeView::Tcp { port: tcp.port }),
        (None, None, Some(run)) => Some(ProbeTypeView::Exec { command: texts(run.command@) }),
        (None, None, None) => None,
    }
}

/// The liveness probe that a pod's probe configuration asks for, where it asks for one.
pub open spec fn chosen_liveness(config: pod::ProbeConfig) -> Option<LivenessView> {
    match config.liveness {
        Some(liveness) => match chosen_probe(liveness) {
            Some(probe_type) => Some(
                LivenessView {
                    probe_type,
                    initial_delay_seconds: liveness.initialDelaySeconds,
                    period_seconds: liveness.periodSeconds,
                    timeout_seconds: liveness.timeoutSeconds,
                    failure_threshold: liveness.failureThreshold,
                },
            ),
            None => None,
        },
        None => None,
    }
}

/// The restart policy that a word stands for. A word that is not known, or none, stands for
/// `Always`.
pub open spec fn policy_named(word: Option<String>) -> RestartPolicy {
    match word {
        Some(text) => if text@ == "OnFailure"@ {
            RestartPolicy::OnFailure
        } else if text@ == "Never"@ {
            RestartPolicy::Never
        } else {
            RestartPolicy::Always
        },
        None => RestartPolicy::Always,
    }
}

/// What a pod is meant to be like, by its description; without one, only its name is known.
pub open spec fn desired_by(pod_name: Seq<char>, pod: Option<Pod>) -> DesiredView {
    match pod {
        Some(described) => DesiredView {
            pod_name,
            container_id: Seq::empty(),
            restart_policy: policy_named(described.podspec.restartPolicy),
            probe_config: match described.podspec.probeConfig {
                Some(config) => match chosen_liveness(config) {
                    Some(liveness) => Some(Some(liveness)),
                    None => None,
                },
                None => None,
            },
        },
        None => plain_state(pod_name),
    }
}

/// The name of a pod.
pub fn extract_pod_name(pod: &Pod) -> (name: String)
    ensures
        name@ == pod.metadata.name@,
{
    pod.get_name()
}

/// The probes that a pod's probe configuration asks for.
pub fn convert_probe_config(common_probe: pod::ProbeConfig) -> (config: Option<ProbeConfig>)
    ensures
        optional_probes(config) == match chosen_liveness(common_probe) {
            Some(liveness) => Some(Some(liveness)),
            None => None,
        },
{
    let liveness = match common_probe.liveness {
        Some(liveness) => liveness,
        None => {
            return None;
        },
    };
    let probe_type = if let Some(http) = liveness.http {
        ProbeType::Http { path: http.path, port: http.port }
    } else if let Some(tcp) = liveness.tcp {
        ProbeType::Tcp { port: tcp.port }
    } else if let Some(run) = liveness.exec_probe {
        ProbeType::Exec { command: run.command }
    } else {
        return None;
    };
    Some(
        ProbeConfig {
            liveness: Some(
                LivenessProbe {
                    probe_type,
                    initial_delay_seconds: liveness.initialDelaySeconds,
                    period_seconds: liveness.periodSeconds,
                    timeout_seconds: liveness.timeoutSeconds,
                    failure_threshold: liveness.failureThreshold,
                },
            ),
        },
    )
}

fn restart_policy_of(word: &Option<String>) -> (policy: RestartPolicy)
    ensures
        policy == policy_named(*word),
{
    match word {
        Some(text) => if str_eq(text.as_str(), "OnFailure") {
            RestartPolicy::OnFailure
        } else if str_eq(text.as_str(), "Never") {
            RestartPolicy::Never
        } else {
            RestartPolicy::Always
        },
        None => RestartPolicy::Always,
    }
}

/// What a pod is meant to be like. Where its description could not be read, it is always
/// restarted and never probed.
pub fn build_desired_state(pod_name: String, pod: Option<Pod>) -> (state: DesiredState)
    ensures
        state@ == desired_by(pod_name@, pod),
{
    let mut state = DesiredState::new(pod_name);
    if let Some(described) = pod {
        state.restart_policy = restart_policy_of(&described.podspec.restartPolicy);
        state.probe_config = match described.podspec.probeConfig {
            Some(config) => convert_probe_config(config),
            None => None,
        };
    }
    state
}

// ---------------------------------------------------------------------------
// Requests
// ---------------------------------------------------------------------------

/// What is to be done with a workload.
#[derive(Clone, Copy, Debug, PartialEq, Eq, Structural)]
pub enum WorkloadCommand {
    Start,
    Stop,
    Remove,
    /// Anything else, by its number.
    Other(i32),
}

/// The numbers that stand for the commands that change what the node is meant to run.
#[derive(Clone, Copy, Debug, PartialEq, Eq, Structural)]
pub struct CommandNumbers {
    pub start: i32,
    pub stop: i32,
    pub remove: i32,
}

impl WorkloadCommand {
    /// The command that a number stands for.
    pub open spec fn numbered(number: i32, numbers: CommandNumbers) -> WorkloadCommand {
        if number == numbers.start {
            WorkloadCommand::Start
        } else if number == numbers.stop {
            WorkloadCommand::Stop
        } else if number == numbers.remove {
            WorkloadCommand::Remove
        } else {
            WorkloadCommand::Other(number)
        }
    }

    /// The command that a number stands for.
    pub fn from_i32(number: i32, numbers: CommandNumbers) -> (command: WorkloadCommand)
        ensures
            command == WorkloadCommand::numbered(number, numbers),
    {
        if number == numbers.start {
            WorkloadCommand::Start
        } else if number == numbers.stop {
            WorkloadCommand::Stop
        } else if number == numbers.remove {
            WorkloadCommand::Remove
        } else {
            WorkloadCommand::Other(number)
        }
    }
}

/// Why a request failed.
#[derive(Clone, Copy, Debug, PartialEq, Eq, Structural)]
pub enum FailureKind {
    InvalidArgument,
    Internal,
    Unimplemented,
}

/// How a request failed.
#[derive(Clone, Debug)]
pub struct WorkloadError {
    pub kind: FailureKind,
    pub message: String,
}

/// The contents of a `WorkloadError`.
pub struct ErrorView {
    pub kind: FailureKind,
    pub message: Seq<char>,
}

impl View for WorkloadError {
    type V = ErrorView;

    open spec fn view(&self) -> ErrorView {
        ErrorView { kind: self.kind, message: self.message@ }
    }
}

/// The cache after a request was read, before the container runtime is asked.
pub open spec fn cache_at_request(
    cache: Map<Seq<char>, DesiredView>,
    command: WorkloadCommand,
    pod: Pod,
) -> Map<Seq<char>, DesiredView> {
    let name = pod.metadata.name@;
    match command {
        WorkloadCommand::Start => cache.insert(name, desired_by(name, Some(pod))),
        WorkloadCommand::Stop | WorkloadCommand::Remove => cache.remove(name),
        WorkloadCommand::Other(_) => cache,
    }
}

/// The first of some identifiers, where there is one.
pub open spec fn first_of(ids: Seq<String>) -> Option<Seq<char>> {
    if ids.len() > 0 {
        Some(ids[0]@)
    } else {
        None
    }
}

/// The cache after the container runtime has answered: a pod that was started gets the
/// identifier of its container, and one that could not be started is dropped.
pub open spec fn cache_at_answer(
    cache: Map<Seq<char>, DesiredView>,
    command: WorkloadCommand,
    pod_name: Seq<char>,
    answer: Result<Vec<String>, String>,
) -> Map<Seq<char>, DesiredView> {
    match (command, answer) {
        (WorkloadCommand::Start, Ok(ids)) => match first_of(ids@) {
            Some(id) => if cache.contains_key(pod_name) {
                cache.insert(pod_name, DesiredView { container_id: id, ..cache[pod_name] })
            } else {
                cache
            },
            None => cache,
        },
        (WorkloadCommand::Start, Err(_)) => cache.remove(pod_name),
        _ => cache,
    }
}

/// What a request is answered when the container runtime has done its part.
pub open spec fn success_text(command: WorkloadCommand, pod_name: Seq<char>) -> Seq<char> {
    match command {
        WorkloadCommand::Start => "Container started and desired state cached for "@ + pod_name,
        WorkloadCommand::Stop | WorkloadCommand::Remove =>
            "Container stopped and desired state removed for "@ + pod_name,
        WorkloadCommand::Other(_) => "Workload command executed for "@ + pod_name,
    }
}

/// How a request fails when the container runtime fails.
pub open spec fn failure_of(command: WorkloadCommand, reason: Seq<char>) -> ErrorView {
    match command {
        WorkloadCommand::Start => ErrorView {
            kind: FailureKind::Internal,
            message: "Failed to start container: "@ + reason,
        },
        WorkloadCommand::Stop | WorkloadCommand::Remove => ErrorView {
            kind: FailureKind::Internal,
            message: "Failed to stop container: "@ + reason,
        },
        WorkloadCommand::Other(_) => ErrorView {
            kind: FailureKind::Unimplemented,
            message: "handle_workload is not implemented yet: "@ + reason,
        },
    }
}

/// Reads a request, and prepares the cache for it. The pod's description comes as it was
/// read, or with the reason why it could not be. Gives the pod's name, with which the
/// container runtime's answer is then handed to `finish_workload`.
pub fn begin_workload(
    cache: &mut StringMap<DesiredState>,
    command: WorkloadCommand,
    pod: Result<Pod, String>,
) -> (pod_name: Result<String, WorkloadError>)
    ensures
        match pod {
            Ok(described) => {
                &&& pod_name matches Ok(name)
                &&& name@ == described.metadata.name@
                &&& final(cache)@ == cache_at_request(old(cache)@, command, described)
            },
            Err(reason) => {
                &&& pod_name matches Err(error)
                &&& error@ == (ErrorView {
                    kind: FailureKind::InvalidArgument,
                    message: "Failed to parse pod YAML: "@ + reason@,
                })
                &&& final(cache)@ == old(cache)@
            },
        },
{
    match pod {
        Ok(described) => {
            let name = extract_pod_name(&described);
            match command {
                WorkloadCommand::Start => {
                    let state = build_desired_state(name.clone(), Some(described));
                    cache.insert(name.clone(), state);
                },
                WorkloadCommand::Stop | WorkloadCommand::Remove => {
                    let dropped = cache.remove(name.as_str());
                },
                WorkloadCommand::Other(_) => {},
            }
            Ok(name)
        },
        Err(reason) => Err(
            WorkloadError {
                kind: FailureKind::InvalidArgument,
                message: concat("Failed to parse pod YAML: ", reason.as_str()),
            },
        ),
    }
}

/// Ends a request after the container runtime has answered: with the identifiers of the
/// containers that it started, or with the reason why it failed.
pub fn finish_workload(
    cache: &mut StringMap<DesiredState>,
    command: WorkloadCommand,
    pod_name: &str,
    answer: Result<Vec<String>, String>,
) -> (response: Result<String, WorkloadError>)
    ensures
        final(cache)@ == cache_at_answer(old(cache)@, command, pod_name@, answer),
        match (answer, response) {
            (Ok(_), Ok(text)) => text@ == success_text(command, pod_name@),
            (Err(reason), Err(error)) => error@ == failure_of(command, reason@),
            _ => false,
        },
{
    match answer {
        Ok(ids) => {
            let text = match command {
                WorkloadCommand::Start => {
                    if ids.len() > 0 {
                        let ghost before = cache@;
                        if let Some(known) = cache.remove(pod_name) {
                            let mut state = known;
                            state.container_id = ids[0].clone();
                            let ghost view = state@;
                            cache.insert(pod_name.to_owned(), state);
                            assert(cache@ =~= before.insert(pod_name@, view));
                        } else {
                            assert(cache@ =~= before);
                        }
                    }
                    "Container started and desired state cached for "
                },
                WorkloadCommand::Stop | WorkloadCommand::Remove =>
                    "Container stopped and desired state removed for ",
                WorkloadCommand::Other(_) => "Workload command executed for ",
            };
            Ok(concat(text, pod_name))
        },
        Err(reason) => {
            let (kind, text) = match command {
                WorkloadCommand::Start => {
                    let dropped = cache.remove(pod_name);
                    (FailureKind::Internal, "Failed to start container: ")
                },
                WorkloadCommand::Stop | WorkloadCommand::Remove => (
                    FailureKind::Internal,
                    "Failed to stop container: ",
                ),
                WorkloadCommand::Other(_) => (
                    FailureKind::Unimplemented,
                    "handle_workload is not implemented yet: ",
                ),
            };
            Err(WorkloadError { kind, message: concat(text, reason.as_str()) })
        },
    }
}

// ---------------------------------------------------------------------------
// Laws
// ---------------------------------------------------------------------------

/// The cache after a request for a readable pod, from beginning to end.
pub open spec fn cache_after(
    cache: Map<Seq<char>, DesiredView>,
    command: WorkloadCommand,
    pod: Pod,
    answer: Result<Vec<String>, String>,
) -> Map<Seq<char>, DesiredView> {
    cache_at_answer(
        cache_at_request(cache, command, pod),
        command,
        pod.metadata.name@,
        answer,
    )
}

/// A pod that is stopped or removed leaves the cache, whatever the container runtime answers
/// and whether or not it was there.
pub proof fn law_stopped_pod_leaves_cache(
    cache: Map<Seq<char>, DesiredView>,
    command: WorkloadCommand,
    pod: Pod,
    answer: Result<Vec<String>, String>,
)
    requires
        command == WorkloadCommand::Stop || command == WorkloadCommand::Remove,
    ensures
        cache_after(cache, command, pod, answer) == cache.remove(pod.metadata.name@),
{
}

/// A pod that could not be started is not in the cache.
pub proof fn law_failed_start_leaves_cache(
    cache: Map<Seq<char>, DesiredView>,
    pod: Pod,
    answer: Result<Vec<String>, String>,
)
    requires
        answer is Err,
    ensures
        cache_after(cache, WorkloadCommand::Start, pod, answer) == cache.remove(pod.metadata.name@),
{
    assert(cache_after(cache, WorkloadCommand::Start, pod, answer) =~= cache.remove(
        pod.metadata.name@,
    ));
}

/// A pod that was started is in the cache as its description wants it, under the identifier
/// of its first container.
pub proof fn law_started_pod_is_cached(
    cache: Map<Seq<char>, DesiredView>,
    pod: Pod,
    ids: Vec<String>,
)
    requires
        ids@.len() > 0,
    ensures
        ({
            let name = pod.metadata.name@;
            let after = cache_after(cache, WorkloadCommand::Start, pod, Ok(ids));
            &&& after.contains_key(name)
            &&& after[name] == (DesiredView {
                container_id: ids@[0]@,
                ..desired_by(name, Some(pod))
            })
        }),
{
}

/// A request touches no other pod.
pub proof fn law_other_pods_untouched(
    cache: Map<Seq<char>, DesiredView>,
    command: WorkloadCommand,
    pod: Pod,
    answer: Result<Vec<String>, String>,
    other: Seq<char>,
)
    requires
        other != pod.metadata.name@,
    ensures
        ({
            let after = cache_after(cache, command, pod, answer);
            &&& after.contains_key(other) == cache.contains_key(other)
            &&& cache.contains_key(other) ==> after[other] == cache[other]
        }),
{
}

/// A request other than to start, stop or remove leaves the cache as it is.
pub proof fn law_other_commands_leave_cache(
    cache: Map<Seq<char>, DesiredView>,
    number: i32,
    pod: Pod,
    answer: Result<Vec<String>, String>,
)
    ensures
        cache_after(cache, WorkloadCommand::Other(number), pod, answer) == cache,
{
}

/// A pod's description asks for a liveness probe: it has one with an HTTP, a TCP or a command part.
pub open spec fn asks_for_probe(pod: Pod) -> bool {
    &&& pod.podspec.probeConfig is Some
    &&& pod.podspec.probeConfig->0.liveness is Some
    &&& {
        let liveness = pod.podspec.probeConfig->0.liveness->0;
        liveness.http is Some || liveness.tcp is Some || liveness.exec_probe is Some
    }
}

/// A pod has a liveness probe exactly when its description asks for one, whatever else the
/// description says: with the numbers that are given there, and by HTTP where that is given, else
/// by TCP, else by a command.
pub proof fn law_probe_follows_description(pod_name: Seq<char>, pod: Pod)
    ensures
        ({
            let probes = desired_by(pod_name, Some(pod)).probe_config;
            &&& !asks_for_probe(pod) ==> probes is None
            &&& asks_for_probe(pod) ==> {
                let given = pod.podspec.probeConfig->0.liveness->0;
                &&& probes is Some
                &&& probes->0 is Some
                &&& probes->0->0.initial_delay_seconds == given.initialDelaySeconds
                &&& probes->0->0.period_seconds == given.periodSeconds
                &&& probes->0->0.timeout_seconds == given.timeoutSeconds
                &&& probes->0->0.failure_threshold == given.failureThreshold
                &&& match probes->0->0.probe_type {
                    ProbeTypeView::Http { path, port } => {
                        &&& given.http is Some
                        &&& path == given.http->0.path@
                        &&& port == given.http->0.port
                    },
                    ProbeTypeView::Tcp { port } => {
                        &&& given.http is None
                        &&& given.tcp is Some
                        &&& port == given.tcp->0.port
                    },
                    ProbeTypeView::Exec { command } => {
                        &&& given.http is None
                        &&& given.tcp is None
                        &&& given.exec_probe is Some
                        &&& command == texts(given.exec_probe->0.command@)
                    },
                }
            }
        }),
{
}

/// Two pods with the same probe configuration get the same probe, and two with the same restart
/// policy are restarted alike, whatever else they differ in.
pub proof fn law_parts_of_description_are_apart(
    name_a: Seq<char>,
    a: Pod,
    name_b: Seq<char>,
    b: Pod,
)
    ensures
        a.podspec.probeConfig == b.podspec.probeConfig ==> desired_by(
            name_a,
            Some(a),
        ).probe_config == desired_by(name_b, Some(b)).probe_config,
        a.podspec.restartPolicy == b.podspec.restartPolicy ==> desired_by(
            name_a,
            Some(a),
        ).restart_policy == desired_by(name_b, Some(b)).restart_policy,
{
}

/// A pod is restarted on failure or never exactly when its description says so in these words, and
/// always otherwise. It has the name that it was given, and no container yet.
pub proof fn law_restart_policy_follows_description(pod_name: Seq<char>, pod: Pod)
    ensures
        ({
            let desired = desired_by(pod_name, Some(pod));
            let word = pod.podspec.restartPolicy;
            &&& desired.restart_policy == RestartPolicy::OnFailure <==> word is Some && word->0@
                == "OnFailure"@
            &&& desired.restart_policy == RestartPolicy::Never <==> word is Some && word->0@
                == "Never"@
            &&& desired.pod_name == pod_name
            &&& desired.container_id.len() == 0
        }),
{
    reveal_strlit("OnFailure");
    reveal_strlit("Never");
    assert("OnFailure"@.len() == 9);
    assert("Never"@.len() == 5);
}

/// A pod whose description could not be read is always restarted, and never probed.
pub proof fn law_unread_pod(pod_name: Seq<char>)
    ensures
        ({
            let desired = desired_by(pod_name, None);
            &&& desired.pod_name == pod_name
            &&& desired.container_id.len() == 0
            &&& desired.restart_policy == RestartPolicy::Always
            &&& desired.probe_config is None
        }),
{
}

/// After a pod was started it is in the cache under its name, has a liveness probe exactly when its
/// description asks for one, and has the identifier of its first container, where there is one.
pub proof fn law_started_pod_is_as_described(
    cache: Map<Seq<char>, DesiredView>,
    pod: Pod,
    ids: Vec<String>,
)
    ensures
        ({
            let name = pod.metadata.name@;
            let after = cache_after(cache, WorkloadCommand::Start, pod, Ok(ids));
            &&& after.contains_key(name)
            &&& after[name].pod_name == name
            &&& after[name].probe_config is Some <==> asks_for_probe(pod)
            &&& after[name].probe_config == desired_by(name, Some(pod)).probe_config
            &&& after[name].restart_policy == desired_by(name, Some(pod)).restart_policy
            &&& ids@.len() > 0 ==> after[name].container_id == ids@[0]@
            &&& ids@.len() == 0 ==> after[name].container_id.len() == 0
        }),
{
    law_probe_follows_description(pod.metadata.name@, pod);
}

/// What the container runtime answers touches only the pod that it is about, and brings no pod into
/// the cache; of a pod that is there it changes nothing but the identifier of its container.
pub proof fn law_answer_touches_its_pod(
    cache: Map<Seq<char>, DesiredView>,
    command: WorkloadCommand,
    pod_name: Seq<char>,
    answer: Result<Vec<String>, String>,
    name: Seq<char>,
)
    ensures
        ({
            let after = cache_at_answer(cache, command, pod_name, answer);
            &&& after.contains_key(name) ==> cache.contains_key(name)
            &&& name != pod_name && cache.contains_key(name) ==> after.contains_key(name)
                && after[name] == cache[name]
            &&& after.contains_key(name) ==> {
                &&& after[name].pod_name == cache[name].pod_name
                &&& after[name].restart_policy == cache[name].restart_policy
                &&& after[name].probe_config == cache[name].probe_config
            }
            &&& command != WorkloadCommand::Start ==> after == cache
        }),
{
}

/// A request whose part with the container runtime failed is answered with the reason; as one that
/// is not implemented, where it was neither to start, stop nor remove a pod.
pub proof fn law_failures_tell_the_reason(command: WorkloadCommand, reason: Seq<char>)
    ensures
        ({
            let error = failure_of(command, reason);
            &&& error.kind == FailureKind::Unimplemented <==> command is Other
            &&& error.kind == FailureKind::Internal <==> !(command is Other)
            &&& command is Start ==> error.message == "Failed to start container: "@ + reason
            &&& command is Stop || command is Remove ==> error.message
                == "Failed to stop container: "@ + reason
            &&& command is Other ==> error.message == "handle_workload is not implemented yet: "@
                + reason
        }),
{
}

/// A request that went well is answered with what was done, and to which pod.
pub proof fn law_successes_tell_the_pod(command: WorkloadCommand, pod_name: Seq<char>)
    ensures
        command is Start ==> success_text(command, pod_name)
            == "Container started and desired state cached for "@ + pod_name,
        command is Stop || command is Remove ==> success_text(command, pod_name)
            == "Container stopped and desired state removed for "@ + pod_name,
        command is Other ==> success_text(command, pod_name) == "Workload command executed for "@
            + pod_name,
{
}

/// A number stands for the command that has it; one that no command has stands for another.
pub proof fn law_command_numbers(number: i32, numbers: CommandNumbers)
    requires
        numbers.start != numbers.stop,
        numbers.start != numbers.remove,
        numbers.stop != numbers.remove,
    ensures
        WorkloadCommand::numbered(number, numbers) == WorkloadCommand::Start <==> number
            == numbers.start,
        WorkloadCommand::numbered(number, numbers) == WorkloadCommand::Stop <==> number
            == numbers.stop,
        WorkloadCommand::numbered(number, numbers) == WorkloadCommand::Remove <==> number
            == numbers.remove,
        WorkloadCommand::numbered(number, numbers) is Other ==> WorkloadCommand::numbered(
            number,
            numbers,
        ) == WorkloadCommand::Other(number),
{
}

} // verus!
