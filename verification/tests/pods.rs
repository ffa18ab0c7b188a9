use pullpiri::k8s::pod::{
    Container, ExecProbe, HostPath, HttpProbe, LivenessProbe, PodSpec, ProbeConfig, TcpProbe,
    Volume,
};
use pullpiri::k8s::{MetaData, Model, Pod};
use pullpiri::nodeagent::actioncontroller::{
    begin_workload, build_desired_state, convert_probe_config, extract_pod_name, finish_workload,
    CommandNumbers, FailureKind, WorkloadCommand,
};
use pullpiri::nodeagent::desired_state::{DesiredState, ProbeType, RestartPolicy};
use pullpiri::string_map::StringMap;
use serde_yaml::Value;

fn plain_container(name: &str, image: &str) -> Container {
    Container {
        name: name.to_string(),
        image: image.to_string(),
        volumeMounts: None,
        env: None,
        ports: None,
        command: None,
        workingDir: None,
        resources: None,
        securityContext: None,
    }
}

fn plain_spec(containers: Vec<Container>, volumes: Option<Vec<Volume>>) -> PodSpec {
    PodSpec {
        hostNetwork: None,
        containers,
        volumes,
        initContainers: None,
        restartPolicy: None,
        terminationGracePeriodSeconds: None,
        hostIPC: None,
        runtimeClassName: None,
        securityContext: None,
        probeConfig: None,
    }
}

fn volume(name: &str, path: &str) -> Volume {
    Volume {
        name: name.to_string(),
        hostPath: HostPath { path: path.to_string() },
    }
}

// ── Reading manifests ────────────────────────────────────────────────────────

fn text_of(value: &Value, key: &str) -> Result<String, String> {
    match value.get(key).and_then(|v| v.as_str()) {
        Some(text) => Ok(text.to_string()),
        None => Err(format!("missing field `{}`", key)),
    }
}

fn number_of(value: &Value, key: &str) -> Option<u32> {
    value.get(key).and_then(|v| v.as_u64()).map(|n| n as u32)
}

fn port_of(value: &Value) -> Result<u16, String> {
    match value.get("port").and_then(|v| v.as_u64()) {
        Some(n) => Ok(n as u16),
        None => Err("missing field `port`".to_string()),
    }
}

fn strings_of(value: &Value) -> Vec<String> {
    match value.as_sequence() {
        Some(list) => list.iter().filter_map(|v| v.as_str()).map(|s| s.to_string()).collect(),
        None => vec![],
    }
}

fn liveness_of(value: &Value) -> Result<LivenessProbe, String> {
    let http = match value.get("http") {
        Some(v) => Some(HttpProbe { path: text_of(v, "path")?, port: port_of(v)? }),
        None => None,
    };
    let tcp = match value.get("tcp") {
        Some(v) => Some(TcpProbe { port: port_of(v)? }),
        None => None,
    };
    let run = match value.get("exec").and_then(|v| v.get("command")) {
        Some(v) => Some(ExecProbe { command: strings_of(v) }),
        None => None,
    };
    Ok(LivenessProbe::with_defaults(
        http,
        tcp,
        run,
        number_of(value, "initialDelaySeconds"),
        number_of(value, "periodSeconds"),
        number_of(value, "timeoutSeconds"),
        number_of(value, "failureThreshold").map(|n| n as u8),
    ))
}

fn spec_of(value: &Value) -> Result<PodSpec, String> {
    let list = match value.get("containers").and_then(|v| v.as_sequence()) {
        Some(list) => list,
        None => return Err("missing field `containers`".to_string()),
    };
    let mut containers = vec![];
    for item in list {
        containers.push(plain_container(&text_of(item, "name")?, &text_of(item, "image")?));
    }
    let mut spec = plain_spec(containers, None);
    spec.restartPolicy = text_of(value, "restartPolicy").ok();
    spec.probeConfig = match value.get("probeConfig") {
        Some(probes) => Some(ProbeConfig {
            liveness: match probes.get("liveness") {
                Some(v) => Some(liveness_of(v)?),
                None => None,
            },
        }),
        None => None,
    };
    Ok(spec)
}

fn read_spec(yaml: &str) -> Result<PodSpec, String> {
    match serde_yaml::from_str::<Value>(yaml) {
        Ok(value) => spec_of(&value),
        Err(e) => Err(e.to_string()),
    }
}

fn read_pod(yaml: &str) -> Result<Pod, String> {
    let value = match serde_yaml::from_str::<Value>(yaml) {
        Ok(value) => value,
        Err(e) => return Err(e.to_string()),
    };
    let metadata = match value.get("metadata") {
        Some(metadata) => metadata,
        None => return Err("missing field `metadata`".to_string()),
    };
    let podspec = match value.get("spec") {
        Some(spec) => spec_of(spec)?,
        None => return Err("missing field `spec`".to_string()),
    };
    Ok(Pod {
        apiVersion: text_of(&value, "apiVersion")?,
        kind: text_of(&value, "kind")?,
        metadata: MetaData {
            name: text_of(metadata, "name")?,
            labels: None,
            annotations: None,
        },
        podspec,
    })
}

const VALID_POD_YAML: &str = r#"
apiVersion: v1
kind: Pod
metadata:
  name: test-pod
spec:
  containers:
    - name: test-container
      image: nginx:latest
"#;

const POD_YAML_WITH_HTTP_PROBE: &str = r#"
apiVersion: v1
kind: Pod
metadata:
  name: http-probe-pod
spec:
  containers:
    - name: app
      image: nginx:latest
  restartPolicy: Always
  probeConfig:
    liveness:
      http:
        path: /health
        port: 8080
      initialDelaySeconds: 5
      periodSeconds: 10
      timeoutSeconds: 2
      failureThreshold: 3
"#;

const POD_YAML_WITH_TCP_PROBE: &str = r#"
apiVersion: v1
kind: Pod
metadata:
  name: tcp-probe-pod
spec:
  containers:
    - name: app
      image: redis:latest
  restartPolicy: OnFailure
  probeConfig:
    liveness:
      tcp:
        port: 6379
"#;

const POD_YAML_WITH_EXEC_PROBE: &str = r#"
apiVersion: v1
kind: Pod
metadata:
  name: exec-probe-pod
spec:
  containers:
    - name: app
      image: busybox:latest
  restartPolicy: Never
  probeConfig:
    liveness:
      exec:
        command:
          - cat
          - /tmp/healthy
      failureThreshold: 5
"#;

// ── Pods ─────────────────────────────────────────────────────────────────────

#[test]
fn test_get_image_with_multiple_containers() {
    let podspec = plain_spec(
        vec![
            plain_container("container-1", "image-1"),
            plain_container("container-2", "image-2"),
        ],
        None,
    );
    assert_eq!(podspec.get_image(), Some("image-1"));
}

#[test]
fn test_get_image_with_no_containers() {
    let podspec = plain_spec(vec![], None);
    assert_eq!(podspec.get_image(), None);
}

#[test]
fn test_get_image_with_null_image_field() {
    let podspec = plain_spec(vec![plain_container("test-container", "")], None);
    assert_eq!(podspec.get_image(), Some(""));
}

#[test]
fn test_get_image_with_special_characters_in_image_name() {
    let podspec = plain_spec(vec![plain_container("test-container", "special:image@tag")], None);
    assert_eq!(podspec.get_image(), Some("special:image@tag"));
}

#[test]
fn test_get_volume_with_multiple_volumes() {
    let mut podspec = plain_spec(
        vec![],
        Some(vec![volume("volume-1", "/path/1"), volume("volume-2", "/path/2")]),
    );
    assert_eq!(
        podspec.get_volume(),
        &Some(vec![volume("volume-1", "/path/1"), volume("volume-2", "/path/2")])
    );
}

#[test]
fn test_get_volume_with_no_volumes() {
    let mut podspec = plain_spec(vec![], None);
    assert_eq!(podspec.get_volume(), &None);
}

#[test]
fn test_get_volume_with_empty_volume_list() {
    let mut podspec = plain_spec(vec![], Some(vec![]));
    assert_eq!(podspec.get_volume(), &Some(vec![]));
}

#[test]
fn test_get_volume_with_invalid_volume() {
    let mut podspec = plain_spec(vec![], Some(vec![volume("", "")]));
    assert_eq!(podspec.get_volume(), &Some(vec![volume("", "")]));
}

#[test]
fn new_pod_is_a_plain_pod() {
    let podspec = plain_spec(vec![plain_container("c", "i")], None);
    let pod = Pod::new("pod-1", podspec.clone());
    assert_eq!(pod.apiVersion, "v1");
    assert_eq!(pod.kind, "Pod");
    assert_eq!(pod.get_name(), "pod-1");
    assert!(pod.metadata.labels.is_none());
    assert!(pod.metadata.annotations.is_none());
    assert_eq!(pod.podspec, podspec);
}

#[test]
fn pod_from_model_has_name_and_spec() {
    let podspec = plain_spec(vec![plain_container("c", "i")], None);
    let pod = Pod::from(Model { name: "m".to_string(), podspec: podspec.clone() });
    assert_eq!(pod, Pod::new("m", podspec));
}

#[test]
fn test_podspec_deserialize_with_probe_config() {
    let yaml = r#"
containers:
  - name: nginx
    image: nginx:latest
probeConfig:
  liveness:
    http:
      path: /healthz
      port: 80
    initialDelaySeconds: 5
    periodSeconds: 10
    timeoutSeconds: 3
    failureThreshold: 3
"#;
    let spec: PodSpec = read_spec(yaml).expect("deserialization failed");
    let probe_config = spec.probeConfig.expect("probeConfig should be present");
    let liveness = probe_config.liveness.expect("liveness should be present");
    assert_eq!(liveness.initialDelaySeconds, 5);
    assert_eq!(liveness.periodSeconds, 10);
    assert_eq!(liveness.timeoutSeconds, 3);
    assert_eq!(liveness.failureThreshold, 3);
    let http = liveness.http.expect("http probe should be present");
    assert_eq!(http.path, "/healthz");
    assert_eq!(http.port, 80);
    assert!(liveness.tcp.is_none());
    assert!(liveness.exec_probe.is_none());
}

#[test]
fn test_podspec_deserialize_with_tcp_probe_config() {
    let yaml = r#"
containers:
  - name: redis
    image: redis:latest
probeConfig:
  liveness:
    tcp:
      port: 6379
    initialDelaySeconds: 10
    periodSeconds: 15
    timeoutSeconds: 5
    failureThreshold: 3
"#;
    let spec: PodSpec = read_spec(yaml).expect("deserialization failed");
    let probe_config = spec.probeConfig.expect("probeConfig should be present");
    let liveness = probe_config.liveness.expect("liveness should be present");
    let tcp = liveness.tcp.expect("tcp probe should be present");
    assert_eq!(tcp.port, 6379);
    assert!(liveness.http.is_none());
    assert!(liveness.exec_probe.is_none());
}

#[test]
fn test_podspec_deserialize_with_exec_probe_config() {
    let yaml = r#"
containers:
  - name: myapp
    image: myapp:latest
probeConfig:
  liveness:
    exec:
      command:
        - cat
        - /tmp/healthy
    initialDelaySeconds: 0
    periodSeconds: 5
    timeoutSeconds: 2
    failureThreshold: 3
"#;
    let spec: PodSpec = read_spec(yaml).expect("deserialization failed");
    let probe_config = spec.probeConfig.expect("probeConfig should be present");
    let liveness = probe_config.liveness.expect("liveness should be present");
    let run = liveness.exec_probe.expect("exec probe should be present");
    assert_eq!(run.command, vec!["cat", "/tmp/healthy"]);
    assert!(liveness.http.is_none());
    assert!(liveness.tcp.is_none());
}

#[test]
fn test_podspec_deserialize_without_probe_config() {
    let yaml = r#"
containers:
  - name: nginx
    image: nginx:latest
"#;
    let spec: PodSpec = read_spec(yaml).expect("deserialization failed");
    assert!(spec.probeConfig.is_none());
}

#[test]
fn missing_numbers_of_a_probe_have_defaults() {
    let probe = LivenessProbe::with_defaults(None, None, None, None, None, None, None);
    assert_eq!(probe.initialDelaySeconds, 0);
    assert_eq!(probe.periodSeconds, 10);
    assert_eq!(probe.timeoutSeconds, 1);
    assert_eq!(probe.failureThreshold, 3);
    let given = LivenessProbe::with_defaults(None, None, None, Some(7), Some(8), Some(9), Some(4));
    assert_eq!(given.initialDelaySeconds, 7);
    assert_eq!(given.periodSeconds, 8);
    assert_eq!(given.timeoutSeconds, 9);
    assert_eq!(given.failureThreshold, 4);
}

// ── Desired states ───────────────────────────────────────────────────────────

#[test]
fn test_extract_pod_name_valid() {
    let result = read_pod(VALID_POD_YAML).map(|pod| extract_pod_name(&pod));
    assert!(result.is_ok());
    assert_eq!(result.unwrap(), "test-pod");
}

#[test]
fn test_extract_pod_name_invalid_yaml() {
    let result = read_pod("not: valid: yaml: [").map(|pod| extract_pod_name(&pod));
    assert!(result.is_err());
}

#[test]
fn test_extract_pod_name_empty() {
    let result = read_pod("").map(|pod| extract_pod_name(&pod));
    assert!(result.is_err());
}

#[test]
fn test_build_desired_state_no_probe() {
    let state = build_desired_state("test-pod".to_string(), read_pod(VALID_POD_YAML).ok());
    assert_eq!(state.pod_name, "test-pod");
    assert!(state.probe_config.is_none());
    assert_eq!(state.restart_policy, RestartPolicy::Always);
}

#[test]
fn test_build_desired_state_http_probe() {
    let state = build_desired_state(
        "http-probe-pod".to_string(),
        read_pod(POD_YAML_WITH_HTTP_PROBE).ok(),
    );
    assert_eq!(state.pod_name, "http-probe-pod");
    assert_eq!(state.restart_policy, RestartPolicy::Always);

    let probe_config = state.probe_config.expect("probe_config must be Some");
    let liveness = probe_config.liveness.expect("liveness must be Some");
    assert_eq!(liveness.initial_delay_seconds, 5);
    assert_eq!(liveness.period_seconds, 10);
    assert_eq!(liveness.timeout_seconds, 2);
    assert_eq!(liveness.failure_threshold, 3);

    match liveness.probe_type {
        ProbeType::Http { path, port } => {
            assert_eq!(path, "/health");
            assert_eq!(port, 8080);
        }
        _ => panic!("Expected Http probe type"),
    }
}

#[test]
fn test_build_desired_state_tcp_probe() {
    let state = build_desired_state(
        "tcp-probe-pod".to_string(),
        read_pod(POD_YAML_WITH_TCP_PROBE).ok(),
    );
    assert_eq!(state.restart_policy, RestartPolicy::OnFailure);

    let probe_config = state.probe_config.expect("probe_config must be Some");
    let liveness = probe_config.liveness.expect("liveness must be Some");

    match liveness.probe_type {
        ProbeType::Tcp { port } => assert_eq!(port, 6379),
        _ => panic!("Expected Tcp probe type"),
    }
}

#[test]
fn test_build_desired_state_exec_probe() {
    let state = build_desired_state(
        "exec-probe-pod".to_string(),
        read_pod(POD_YAML_WITH_EXEC_PROBE).ok(),
    );
    assert_eq!(state.restart_policy, RestartPolicy::Never);

    let probe_config = state.probe_config.expect("probe_config must be Some");
    let liveness = probe_config.liveness.expect("liveness must be Some");
    assert_eq!(liveness.failure_threshold, 5);

    match liveness.probe_type {
        ProbeType::Exec { command } => {
            assert_eq!(command, vec!["cat", "/tmp/healthy"]);
        }
        _ => panic!("Expected Exec probe type"),
    }
}

#[test]
fn unreadable_pod_is_restarted_and_not_probed() {
    let state = build_desired_state("p".to_string(), None);
    assert_eq!(state.pod_name, "p");
    assert_eq!(state.container_id, "");
    assert_eq!(state.restart_policy, RestartPolicy::Always);
    assert!(state.probe_config.is_none());
}

#[test]
fn unknown_restart_policy_means_always() {
    let mut pod = read_pod(VALID_POD_YAML).unwrap();
    pod.podspec.restartPolicy = Some("Sometimes".to_string());
    let state = build_desired_state("test-pod".to_string(), Some(pod));
    assert_eq!(state.restart_policy, RestartPolicy::Always);
}

#[test]
fn test_convert_probe_config_no_liveness() {
    let common_probe = ProbeConfig { liveness: None };
    let result = convert_probe_config(common_probe);
    assert!(result.is_none());
}

#[test]
fn test_convert_probe_config_no_probe_type() {
    let common_probe = ProbeConfig {
        liveness: Some(LivenessProbe {
            http: None,
            tcp: None,
            exec_probe: None,
            initialDelaySeconds: 0,
            periodSeconds: 10,
            timeoutSeconds: 1,
            failureThreshold: 3,
        }),
    };
    let result = convert_probe_config(common_probe);
    assert!(result.is_none());
}

#[test]
fn http_comes_before_tcp_and_tcp_before_exec() {
    let mut liveness = LivenessProbe {
        http: Some(HttpProbe { path: "/".to_string(), port: 80 }),
        tcp: Some(TcpProbe { port: 81 }),
        exec_probe: Some(ExecProbe { command: vec!["true".to_string()] }),
        initialDelaySeconds: 1,
        periodSeconds: 2,
        timeoutSeconds: 3,
        failureThreshold: 4,
    };
    let chosen = convert_probe_config(ProbeConfig { liveness: Some(liveness.clone()) }).unwrap();
    assert_eq!(
        chosen.liveness.unwrap().probe_type,
        ProbeType::Http { path: "/".to_string(), port: 80 }
    );
    liveness.http = None;
    let chosen = convert_probe_config(ProbeConfig { liveness: Some(liveness.clone()) }).unwrap();
    assert_eq!(chosen.liveness.unwrap().probe_type, ProbeType::Tcp { port: 81 });
    liveness.tcp = None;
    let chosen = convert_probe_config(ProbeConfig { liveness: Some(liveness) }).unwrap();
    let chosen = chosen.liveness.unwrap();
    assert_eq!(chosen.probe_type, ProbeType::Exec { command: vec!["true".to_string()] });
    assert_eq!(chosen.initial_delay_seconds, 1);
    assert_eq!(chosen.period_seconds, 2);
    assert_eq!(chosen.timeout_seconds, 3);
    assert_eq!(chosen.failure_threshold, 4);
}

// ── Workload requests ────────────────────────────────────────────────────────

fn cache_with(names: &[&str]) -> StringMap<DesiredState> {
    let mut cache = StringMap::new();
    for name in names {
        cache.insert(name.to_string(), DesiredState::new(name.to_string()));
    }
    cache
}

const NO_PODMAN: &str = "podman is not running";

#[test]
fn test_handle_workload_invalid_yaml_returns_error() {
    let mut cache = cache_with(&[]);
    let pod = read_pod("invalid yaml [[[");
    let reason = pod.clone().unwrap_err();
    let error = begin_workload(&mut cache, WorkloadCommand::Start, pod).unwrap_err();
    assert_eq!(error.kind, FailureKind::InvalidArgument);
    assert_eq!(error.message, format!("Failed to parse pod YAML: {}", reason));
    assert_eq!(cache.len(), 0);
}

#[test]
fn test_handle_workload_stop_removes_from_cache() {
    let mut cache = cache_with(&["test-pod"]);
    assert_eq!(cache.len(), 1);
    let name =
        begin_workload(&mut cache, WorkloadCommand::Stop, read_pod(VALID_POD_YAML)).unwrap();
    assert_eq!(name, "test-pod");
    let result =
        finish_workload(&mut cache, WorkloadCommand::Stop, &name, Err(NO_PODMAN.to_string()));
    let error = result.unwrap_err();
    assert_eq!(error.kind, FailureKind::Internal);
    assert_eq!(error.message, "Failed to stop container: podman is not running");
    assert_eq!(cache.len(), 0);
}

#[test]
fn test_handle_workload_remove_clears_from_cache() {
    let mut cache = cache_with(&["test-pod"]);
    let name =
        begin_workload(&mut cache, WorkloadCommand::Remove, read_pod(VALID_POD_YAML)).unwrap();
    let text = finish_workload(&mut cache, WorkloadCommand::Remove, &name, Ok(vec![])).unwrap();
    assert_eq!(text, "Container stopped and desired state removed for test-pod");
    assert_eq!(cache.len(), 0);
}

#[test]
fn test_handle_workload_start_clears_cache_on_podman_failure() {
    let mut cache = cache_with(&[]);
    let name =
        begin_workload(&mut cache, WorkloadCommand::Start, read_pod(VALID_POD_YAML)).unwrap();
    let result =
        finish_workload(&mut cache, WorkloadCommand::Start, &name, Err(NO_PODMAN.to_string()));
    assert!(result.is_err());
    let error = result.unwrap_err();
    assert_eq!(error.kind, FailureKind::Internal);
    assert_eq!(error.message, "Failed to start container: podman is not running");
    assert_eq!(cache.len(), 0);
}

#[test]
fn test_handle_workload_stop_missing_from_cache_is_noop() {
    let mut cache = cache_with(&[]);
    let name =
        begin_workload(&mut cache, WorkloadCommand::Stop, read_pod(VALID_POD_YAML)).unwrap();
    let _ = finish_workload(&mut cache, WorkloadCommand::Stop, &name, Err(NO_PODMAN.to_string()));
    assert_eq!(cache.len(), 0);
}

#[test]
fn test_handle_workload_start_with_probe_config_sets_desired_state() {
    let mut cache = cache_with(&[]);
    let name = begin_workload(
        &mut cache,
        WorkloadCommand::Start,
        read_pod(POD_YAML_WITH_HTTP_PROBE),
    )
    .unwrap();
    assert!(cache.get("http-probe-pod").unwrap().probe_config.is_some());
    let result =
        finish_workload(&mut cache, WorkloadCommand::Start, &name, Err(NO_PODMAN.to_string()));
    assert!(result.is_err());
    assert_eq!(cache.len(), 0);
}

#[test]
fn started_pod_gets_its_first_container_id() {
    let mut cache = cache_with(&["other"]);
    let name =
        begin_workload(&mut cache, WorkloadCommand::Start, read_pod(VALID_POD_YAML)).unwrap();
    let ids = vec!["first".to_string(), "second".to_string()];
    let text = finish_workload(&mut cache, WorkloadCommand::Start, &name, Ok(ids)).unwrap();
    assert_eq!(text, "Container started and desired state cached for test-pod");
    assert_eq!(cache.get("test-pod").unwrap().container_id, "first");
    assert_eq!(cache.get("other").unwrap().container_id, "");
    assert_eq!(cache.len(), 2);
}

#[test]
fn other_commands_leave_the_cache_alone() {
    let mut cache = cache_with(&["test-pod"]);
    let command = WorkloadCommand::Other(7);
    let name = begin_workload(&mut cache, command, read_pod(VALID_POD_YAML)).unwrap();
    let text = finish_workload(&mut cache, command, &name, Ok(vec!["x".to_string()])).unwrap();
    assert_eq!(text, "Workload command executed for test-pod");
    let error =
        finish_workload(&mut cache, command, &name, Err("no pause".to_string())).unwrap_err();
    assert_eq!(error.kind, FailureKind::Unimplemented);
    assert_eq!(error.message, "handle_workload is not implemented yet: no pause");
    assert_eq!(cache.len(), 1);
    assert_eq!(cache.get("test-pod").unwrap().container_id, "");
}

#[test]
fn commands_come_by_number() {
    let numbers = CommandNumbers { start: 4, stop: 5, remove: 9 };
    assert_eq!(WorkloadCommand::from_i32(4, numbers), WorkloadCommand::Start);
    assert_eq!(WorkloadCommand::from_i32(5, numbers), WorkloadCommand::Stop);
    assert_eq!(WorkloadCommand::from_i32(9, numbers), WorkloadCommand::Remove);
    assert_eq!(WorkloadCommand::from_i32(-1, numbers), WorkloadCommand::Other(-1));
}
