use pullpiri::nodeagent::desired_state::{DesiredState, LivenessProbe, ProbeConfig, ProbeType};
use pullpiri::nodeagent::probe::calendar::{days_since_unix_epoch, is_leap_year, parse_rfc3339};
use pullpiri::nodeagent::probe::checker::{exec_arguments, exec_passed, http_passed, http_target, tcp_target};
use pullpiri::nodeagent::probe::liveness::{
    check_liveness_probe, failure_note_for, format_probe_desc, plan_probe, running_containers, stop_path,
    ContainerSummary, ProbePlan, ProbeTracker, Verdict, Visit, NANOSECONDS,
};
use pullpiri::nodeagent::probe::pass::{ProbeAction, ProbeLoop};
use pullpiri::string_map::StringMap;
use pullpiri::text::bracketed_texts;
use std::time::{Duration, SystemTime};

fn make_liveness(probe_type: ProbeType) -> LivenessProbe {
    LivenessProbe {
        probe_type,
        initial_delay_seconds: 0,
        period_seconds: 1,
        timeout_seconds: 1,
        failure_threshold: 3,
    }
}

fn system_time(seconds: Option<u64>) -> Option<SystemTime> {
    seconds.map(|s| SystemTime::UNIX_EPOCH + Duration::from_secs(s))
}

// ── format_probe_desc ────────────────────────────────────────────────────────

#[test]
fn test_format_probe_desc_http() {
    let desc = format_probe_desc(&ProbeType::Http {
        path: "/health".to_string(),
        port: 8080,
    });
    assert_eq!(desc, "HTTP GET /health on port 8080");
}

#[test]
fn test_format_probe_desc_tcp() {
    let desc = format_probe_desc(&ProbeType::Tcp { port: 6379 });
    assert_eq!(desc, "TCP port 6379");
}

#[test]
fn test_format_probe_desc_exec() {
    let desc = format_probe_desc(&ProbeType::Exec {
        command: vec!["cat".to_string(), "/tmp/healthy".to_string()],
    });
    assert!(desc.contains("cat") && desc.contains("/tmp/healthy"));
    assert_eq!(desc, "Exec [\"cat\", \"/tmp/healthy\"]");
}

#[test]
fn exec_descriptions_are_quoted_like_debug_output() {
    let lists: Vec<Vec<String>> = vec![
        vec![],
        vec!["one".to_string()],
        vec!["a\"b".to_string(), "c\\d".to_string(), "tab\tend".to_string(), "it's".to_string()],
    ];
    for command in lists {
        let expected = format!("Exec {:?}", command);
        assert_eq!(format_probe_desc(&ProbeType::Exec { command }), expected);
    }
}

// ── parse_rfc3339 ────────────────────────────────────────────────────────────

#[test]
fn test_parse_rfc3339_unix_epoch() {
    let result = system_time(parse_rfc3339("1970-01-01T00:00:00Z"));
    assert_eq!(result, Some(SystemTime::UNIX_EPOCH));
}

#[test]
fn test_parse_rfc3339_with_nanoseconds() {
    let result = parse_rfc3339("2024-01-15T10:30:45.123456789Z");
    assert!(result.is_some());
    assert_eq!(result, Some(1705314645));
}

#[test]
fn test_parse_rfc3339_with_positive_offset() {
    let result = parse_rfc3339("2024-06-01T08:00:00.000000000+00:00");
    assert!(result.is_some());
}

#[test]
fn test_parse_rfc3339_with_negative_offset() {
    let result = parse_rfc3339("2024-06-01T08:00:00-05:00");
    assert!(result.is_some());
    assert_eq!(result, parse_rfc3339("2024-06-01T08:00:00Z"));
}

#[test]
fn test_parse_rfc3339_negative_offset_no_fractions() {
    let result = system_time(parse_rfc3339("1970-01-01T00:00:00-00:00"));
    assert_eq!(result, Some(SystemTime::UNIX_EPOCH));
}

#[test]
fn test_parse_rfc3339_invalid() {
    assert!(parse_rfc3339("not-a-date").is_none());
    assert!(parse_rfc3339("").is_none());
}

#[test]
fn timestamps_with_missing_or_broken_parts_are_not_read() {
    assert!(parse_rfc3339("2024-01-15 10:30:45Z").is_none());
    assert!(parse_rfc3339("2024-01T10:30:45Z").is_none());
    assert!(parse_rfc3339("2024-01-15T10:30").is_none());
    assert!(parse_rfc3339("2024-01-15T10.30.45").is_none());
    assert!(parse_rfc3339("2024-xx-15T10:30:45Z").is_none());
    assert!(parse_rfc3339("1969-12-31T23:59:59Z").is_none());
    assert!(parse_rfc3339("1970-01-01T-1:00:00").is_none());
    assert!(parse_rfc3339("99999999999999999-01-01T00:00:00Z").is_none());
    assert!(parse_rfc3339("2024-01-15T10:30:4é").is_none());
    assert!(parse_rfc3339("2024-01-15T10:30:é").is_none());
}

#[test]
fn a_time_of_day_may_use_signs_and_any_number() {
    assert_eq!(parse_rfc3339("1970-01-02T-1:00:00"), Some(82800));
    assert_eq!(parse_rfc3339("1970-01-01T+1:2:345"), Some(3600 + 120 + 345));
    assert_eq!(parse_rfc3339("1970-02-31T00:00:00"), Some(61 * 86400));
}

// ── days_since_unix_epoch ────────────────────────────────────────────────────

#[test]
fn test_days_unix_epoch() {
    assert_eq!(days_since_unix_epoch(1970, 1, 1), Some(0));
}

#[test]
fn test_days_next_day() {
    assert_eq!(days_since_unix_epoch(1970, 1, 2), Some(1));
}

#[test]
fn test_days_first_day_of_february() {
    assert_eq!(days_since_unix_epoch(1970, 2, 1), Some(31));
}

#[test]
fn test_days_first_day_of_1971() {
    assert_eq!(days_since_unix_epoch(1971, 1, 1), Some(365));
}

#[test]
fn test_days_2024_jan_01() {
    assert_eq!(days_since_unix_epoch(2024, 1, 1), Some(19723));
}

#[test]
fn test_days_invalid_year() {
    assert!(days_since_unix_epoch(1969, 1, 1).is_none());
}

#[test]
fn test_days_invalid_month() {
    assert!(days_since_unix_epoch(2024, 0, 1).is_none());
    assert!(days_since_unix_epoch(2024, 13, 1).is_none());
}

#[test]
fn days_out_of_range_have_no_number() {
    assert!(days_since_unix_epoch(2024, 1, 0).is_none());
    assert!(days_since_unix_epoch(2024, 1, 32).is_none());
    assert!(days_since_unix_epoch(i64::MAX, 12, 31).is_none());
}

#[test]
fn days_count_on_over_leap_days_and_year_ends() {
    assert_eq!(days_since_unix_epoch(2024, 2, 29), Some(19723 + 59));
    assert_eq!(days_since_unix_epoch(2024, 3, 1), Some(19723 + 60));
    assert_eq!(days_since_unix_epoch(2024, 12, 31), Some(19723 + 365));
    assert_eq!(days_since_unix_epoch(2025, 1, 1), Some(19723 + 366));
    assert_eq!(days_since_unix_epoch(2000, 3, 1), Some(11017));
    assert_eq!(days_since_unix_epoch(2100, 3, 1), Some(47541));
}

#[test]
fn test_is_leap_year() {
    assert!(is_leap_year(2000));
    assert!(is_leap_year(2024));
    assert!(!is_leap_year(1900));
    assert!(!is_leap_year(2023));
}

// ── Checks ───────────────────────────────────────────────────────────────────

#[test]
fn http_probes_ask_at_an_address() {
    assert_eq!(
        http_target("127.0.0.1", 59997, "/health"),
        Some("http://127.0.0.1:59997/health".to_string())
    );
    assert_eq!(http_target("bad host", 80, "/"), None);
    assert_eq!(http_target("localhost", 80, "/a b"), None);
}

#[test]
fn http_probes_pass_on_success_and_redirection() {
    assert!(http_passed(Some(200)));
    assert!(http_passed(Some(399)));
    assert!(!http_passed(Some(199)));
    assert!(!http_passed(Some(400)));
    assert!(!http_passed(None));
}

#[test]
fn exec_probes_pass_on_exit_code_zero() {
    assert!(exec_passed(Some(0)));
    assert!(!exec_passed(Some(1)));
    assert!(!exec_passed(Some(-1)));
    assert!(!exec_passed(None));
}

#[test]
fn failures_are_counted_in_their_notes() {
    assert_eq!(failure_note_for(0, 3), "Liveness probe failed (1/3)");
    assert_eq!(failure_note_for(255, 0), "Liveness probe failed (255/0)");
}

#[test]
fn tcp_probes_connect_to_an_address() {
    assert_eq!(tcp_target("127.0.0.1", 59998), "127.0.0.1:59998");
    assert_eq!(tcp_target("::", 0), ":::0");
}

#[test]
fn test_check_exec_empty_command() {
    assert_eq!(exec_arguments("some-container", &vec![]), None);
}

#[test]
fn exec_probes_run_inside_the_container() {
    let arguments = exec_arguments("c1", &vec!["cat".to_string(), "/tmp/healthy".to_string()]);
    assert_eq!(
        arguments,
        Some(vec![
            "exec".to_string(),
            "c1".to_string(),
            "cat".to_string(),
            "/tmp/healthy".to_string()
        ])
    );
}

#[test]
fn each_probe_type_has_its_plan() {
    let http = make_liveness(ProbeType::Http { path: "/health".to_string(), port: 59990 });
    match check_liveness_probe("test-container", &http) {
        ProbePlan::Http { address } => assert_eq!(address, "http://localhost:59990/health"),
        _ => panic!("expected an HTTP plan"),
    }
    let tcp = make_liveness(ProbeType::Tcp { port: 59991 });
    match check_liveness_probe("test-container", &tcp) {
        ProbePlan::Tcp { address } => assert_eq!(address, "127.0.0.1:59991"),
        _ => panic!("expected a TCP plan"),
    }
    let run = make_liveness(ProbeType::Exec { command: vec!["true".to_string()] });
    match check_liveness_probe("c", &run) {
        ProbePlan::Exec { arguments } => assert_eq!(arguments, vec!["exec", "c", "true"]),
        _ => panic!("expected a command"),
    }
    let nothing = make_liveness(ProbeType::Exec { command: vec![] });
    assert!(matches!(check_liveness_probe("c", &nothing), ProbePlan::Fail));
    let broken = make_liveness(ProbeType::Http { path: "no path".to_string(), port: 1 });
    assert!(matches!(check_liveness_probe("c", &broken), ProbePlan::Fail));
}

#[test]
fn containers_are_stopped_under_their_path() {
    assert_eq!(stop_path("abc"), "/v4.0.0/libpod/containers/abc/stop");
}

// ── Tracking ─────────────────────────────────────────────────────────────────

fn summary(id: &str, state: &str) -> ContainerSummary {
    ContainerSummary { id: id.to_string(), state: state.to_string() }
}

fn cache_with_probe(liveness: LivenessProbe) -> StringMap<DesiredState> {
    let mut cache = StringMap::new();
    let mut state = DesiredState::new("probe-pod".to_string());
    state.container_id = "c1".to_string();
    state.probe_config = Some(ProbeConfig { liveness: Some(liveness) });
    cache.insert("probe-pod".to_string(), state);
    cache
}

#[test]
fn only_running_containers_are_listed() {
    let list = vec![summary("a", "running"), summary("b", "exited"), summary("c", "running")];
    assert_eq!(running_containers(&list), vec!["a".to_string(), "c".to_string()]);
}

#[test]
fn failures_count_up_to_the_threshold() {
    let liveness = make_liveness(ProbeType::Tcp { port: 1 });
    let cache = cache_with_probe(liveness.clone());
    let mut tracker = ProbeTracker::new();
    let second = NANOSECONDS;
    let mut now = 1000 * second;
    assert!(matches!(tracker.visit(&cache, "c1", now), Visit::Inspect));
    tracker.inspected("c1", Some("1970-01-01T00:00:10Z"), now);
    assert!(matches!(tracker.visit(&cache, "c1", now), Visit::Probe { .. }));
    assert_eq!(tracker.probed("c1", &liveness, false, now), Verdict::Failed { failure_count: 1 });
    assert!(matches!(tracker.visit(&cache, "c1", now), Visit::Skip));
    now = now + second;
    assert!(matches!(tracker.visit(&cache, "c1", now), Visit::Probe { .. }));
    assert_eq!(tracker.probed("c1", &liveness, false, now), Verdict::Failed { failure_count: 2 });
    now = now + second;
    assert_eq!(tracker.probed("c1", &liveness, true, now), Verdict::Passed);
    now = now + second;
    assert_eq!(tracker.probed("c1", &liveness, false, now), Verdict::Failed { failure_count: 1 });
    assert_eq!(tracker.probed("c1", &liveness, false, now), Verdict::Failed { failure_count: 2 });
    assert_eq!(tracker.probed("c1", &liveness, false, now), Verdict::Stop { failure_count: 3 });
    assert!(matches!(tracker.visit(&cache, "c1", now), Visit::Inspect));
}

#[test]
fn failures_stop_counting_at_the_largest_number() {
    let mut liveness = make_liveness(ProbeType::Tcp { port: 1 });
    liveness.failure_threshold = 255;
    let mut tracker = ProbeTracker::new();
    tracker.inspected("c1", None, 0);
    for n in 1..255 {
        assert_eq!(
            tracker.probed("c1", &liveness, false, 0),
            Verdict::Failed { failure_count: n as u8 }
        );
    }
    assert_eq!(tracker.probed("c1", &liveness, false, 0), Verdict::Stop { failure_count: 255 });
}

#[test]
fn initial_delay_counts_from_the_start_of_the_container() {
    let mut liveness = make_liveness(ProbeType::Tcp { port: 1 });
    liveness.initial_delay_seconds = 5;
    let cache = cache_with_probe(liveness);
    let mut tracker = ProbeTracker::new();
    tracker.inspected("c1", Some("1970-01-01T00:01:40.5Z"), 0);
    assert!(matches!(tracker.visit(&cache, "c1", 90 * NANOSECONDS), Visit::Skip));
    assert!(matches!(tracker.visit(&cache, "c1", 105 * NANOSECONDS - 1), Visit::Skip));
    assert!(matches!(tracker.visit(&cache, "c1", 105 * NANOSECONDS), Visit::Probe { .. }));
    tracker.inspected("c1", Some("garbage"), 200 * NANOSECONDS);
    assert!(matches!(tracker.visit(&cache, "c1", 204 * NANOSECONDS), Visit::Skip));
    assert!(matches!(tracker.visit(&cache, "c1", 205 * NANOSECONDS), Visit::Probe { .. }));
}

#[test]
fn containers_that_do_not_run_are_forgotten() {
    let cache = cache_with_probe(make_liveness(ProbeType::Tcp { port: 1 }));
    let mut tracker = ProbeTracker::new();
    tracker.inspected("c1", None, 0);
    tracker.retain_running(&vec!["c1".to_string(), "c2".to_string()]);
    assert!(matches!(tracker.visit(&cache, "c1", NANOSECONDS), Visit::Probe { .. }));
    tracker.retain_running(&vec!["c2".to_string()]);
    assert!(matches!(tracker.visit(&cache, "c1", NANOSECONDS), Visit::Inspect));
    assert!(matches!(tracker.visit(&cache, "c2", NANOSECONDS), Visit::Skip));
}

// ── The probe loop ───────────────────────────────────────────────────────────

#[test]
fn test_probe_loop_empty_cache_no_panic() {
    let mut probe_loop = ProbeLoop::new();
    let list = vec![summary("x", "running")];
    assert!(matches!(probe_loop.begin(Some(list), StringMap::new(), 0), ProbeAction::Sleep));
    assert!(matches!(probe_loop.begin(None, StringMap::new(), 1), ProbeAction::Sleep));
    assert!(matches!(probe_loop.begin(Some(vec![]), StringMap::new(), 2), ProbeAction::Sleep));
}

#[test]
fn test_probe_loop_no_probe_config_skips_gracefully() {
    let mut cache = StringMap::new();
    let mut state = DesiredState::new("test-pod".to_string());
    state.container_id = "test-container-id".to_string();
    state.probe_config = None;
    cache.insert("test-pod".to_string(), state);
    let mut probe_loop = ProbeLoop::new();
    let list = vec![summary("test-container-id", "running")];
    assert!(matches!(probe_loop.begin(Some(list), cache, 0), ProbeAction::Sleep));
}

#[test]
fn test_probe_loop_with_probe_config_no_running_container() {
    let mut cache = StringMap::new();
    let mut state = DesiredState::new("probe-pod".to_string());
    state.container_id = "not-a-real-container-id".to_string();
    state.probe_config = Some(ProbeConfig {
        liveness: Some(LivenessProbe {
            probe_type: ProbeType::Http {
                path: "/health".to_string(),
                port: 8080,
            },
            initial_delay_seconds: 0,
            period_seconds: 1,
            timeout_seconds: 1,
            failure_threshold: 3,
        }),
    });
    cache.insert("probe-pod".to_string(), state);
    let mut probe_loop = ProbeLoop::new();
    let list = vec![summary("another-container", "running")];
    assert!(matches!(probe_loop.begin(Some(list), cache, 0), ProbeAction::Sleep));
}

#[test]
fn the_loop_inspects_probes_and_stops() {
    let mut liveness = make_liveness(ProbeType::Tcp { port: 7 });
    liveness.failure_threshold = 2;
    liveness.timeout_seconds = 9;
    let mut probe_loop = ProbeLoop::new();
    let list = || vec![summary("dead", "exited"), summary("c1", "running")];
    let mut now = 50 * NANOSECONDS;
    match probe_loop.begin(Some(list()), cache_with_probe(liveness.clone()), now) {
        ProbeAction::Inspect { container_id } => assert_eq!(container_id, "c1"),
        _ => panic!("expected an inspection"),
    }
    match probe_loop.inspected(Some("1970-01-01T00:00:00Z"), now) {
        ProbeAction::Probe {
            container_id,
            pod_name,
            description,
            plan,
            timeout_seconds,
            failure_note,
        } => {
            assert_eq!(failure_note, "Liveness probe failed (1/2)");
            assert_eq!(container_id, "c1");
            assert_eq!(pod_name, "probe-pod");
            assert_eq!(description, "TCP port 7");
            assert_eq!(timeout_seconds, 9);
            assert!(matches!(plan, ProbePlan::Tcp { .. }));
        }
        _ => panic!("expected a probe"),
    }
    assert!(matches!(probe_loop.probed(false), ProbeAction::Sleep));
    now = now + NANOSECONDS;
    assert!(matches!(
        probe_loop.begin(Some(list()), cache_with_probe(liveness.clone()), now),
        ProbeAction::Probe { .. }
    ));
    match probe_loop.probed(false) {
        ProbeAction::Stop { container_id, pod_name, path } => {
            assert_eq!(container_id, "c1");
            assert_eq!(pod_name, "probe-pod");
            assert_eq!(path, "/v4.0.0/libpod/containers/c1/stop");
        }
        _ => panic!("expected a stop"),
    }
    assert!(matches!(probe_loop.stopped(), ProbeAction::Sleep));
    assert!(matches!(
        probe_loop.begin(Some(list()), cache_with_probe(liveness), now),
        ProbeAction::Inspect { .. }
    ));
}

#[test]
fn plans_take_the_word_of_the_uri_parser() {
    let http = make_liveness(ProbeType::Http { path: "/x".to_string(), port: 5 });
    assert!(matches!(plan_probe("c", &http, false), ProbePlan::Fail));
    match plan_probe("c", &http, true) {
        ProbePlan::Http { address } => assert_eq!(address, "http://localhost:5/x"),
        _ => panic!("expected an HTTP plan"),
    }
}

#[test]
fn lists_stand_between_brackets() {
    assert_eq!(bracketed_texts(&vec![]), "[]");
    assert_eq!(bracketed_texts(&vec!["a".to_string()]), "[a]");
    assert_eq!(bracketed_texts(&vec!["a".to_string(), "b".to_string()]), "[a, b]");
}

#[test]
fn every_container_that_is_due_is_probed_once_in_a_pass() {
    let mut cache = StringMap::new();
    for (name, initial_delay_seconds) in [("a", 0), ("b", 1000), ("c", 0)] {
        let mut liveness = make_liveness(ProbeType::Tcp { port: 7 });
        liveness.initial_delay_seconds = initial_delay_seconds;
        let mut state = DesiredState::new(format!("pod-{}", name));
        state.container_id = name.to_string();
        state.probe_config = Some(ProbeConfig { liveness: Some(liveness) });
        cache.insert(name.to_string(), state);
    }
    let list = ["c", "b", "x", "a"].iter().map(|id| summary(id, "running")).collect();
    let now = 50 * NANOSECONDS;
    let mut probe_loop = ProbeLoop::new();
    let mut probed = Vec::new();
    let mut inspected = Vec::new();
    let mut action = probe_loop.begin(Some(list), cache, now);
    loop {
        action = match action {
            ProbeAction::Inspect { container_id } => {
                inspected.push(container_id);
                probe_loop.inspected(Some("1970-01-01T00:00:00Z"), now)
            }
            ProbeAction::Probe { container_id, .. } => {
                probed.push(container_id);
                probe_loop.probed(true)
            }
            ProbeAction::Stop { .. } => panic!("nothing failed"),
            ProbeAction::Sleep => break,
        };
    }
    assert_eq!(inspected, vec!["c", "b", "a"]);
    assert_eq!(probed, vec!["c", "a"]);
}

#[test]
fn the_loop_stops_a_container_at_the_failure_that_reaches_the_threshold() {
    let liveness = make_liveness(ProbeType::Tcp { port: 7 });
    let mut probe_loop = ProbeLoop::new();
    let results = [false, false, true, false, false, false];
    for (n, success) in results.iter().enumerate() {
        let now = (100 + n as u128) * NANOSECONDS;
        let list = vec![summary("c1", "running")];
        let mut action = probe_loop.begin(Some(list), cache_with_probe(liveness.clone()), now);
        if matches!(action, ProbeAction::Inspect { .. }) {
            action = probe_loop.inspected(Some("1970-01-01T00:00:00Z"), now);
        }
        assert!(matches!(action, ProbeAction::Probe { .. }));
        let stopped = matches!(probe_loop.probed(*success), ProbeAction::Stop { .. });
        assert_eq!(stopped, n == 5);
    }
}

#[test]
fn a_container_that_is_listed_twice_is_probed_once() {
    let liveness = make_liveness(ProbeType::Tcp { port: 7 });
    let now = 50 * NANOSECONDS;
    let list = vec![summary("c1", "running"), summary("c1", "running")];
    let mut probe_loop = ProbeLoop::new();
    let action = probe_loop.begin(Some(list), cache_with_probe(liveness), now);
    assert!(matches!(action, ProbeAction::Inspect { .. }));
    let action = probe_loop.inspected(Some("1970-01-01T00:00:00Z"), now);
    assert!(matches!(action, ProbeAction::Probe { .. }));
    assert!(matches!(probe_loop.probed(true), ProbeAction::Sleep));
}

#[test]
fn lowering_the_threshold_of_one_container_leaves_the_others_theirs() {
    let cache = |threshold_of_a: u8| {
        let mut cache = StringMap::new();
        for (name, failure_threshold) in [("a", threshold_of_a), ("b", 3)] {
            let mut liveness = make_liveness(ProbeType::Tcp { port: 7 });
            liveness.failure_threshold = failure_threshold;
            let mut state = DesiredState::new(name.to_string());
            state.container_id = name.to_string();
            state.probe_config = Some(ProbeConfig { liveness: Some(liveness) });
            cache.insert(name.to_string(), state);
        }
        cache
    };
    let mut probe_loop = ProbeLoop::new();
    let mut stops = Vec::new();
    for pass in 0..3u8 {
        let list = vec![summary("a", "running"), summary("b", "running")];
        let threshold = if pass < 2 { 9 } else { 1 };
        let now = (100 + pass as u128) * NANOSECONDS;
        let mut action = probe_loop.begin(Some(list), cache(threshold), now);
        loop {
            action = match action {
                ProbeAction::Inspect { .. } => {
                    probe_loop.inspected(Some("1970-01-01T00:00:00Z"), now)
                }
                ProbeAction::Probe { .. } => probe_loop.probed(false),
                ProbeAction::Stop { container_id, .. } => {
                    stops.push((pass, container_id));
                    probe_loop.stopped()
                }
                ProbeAction::Sleep => break,
            };
        }
    }
    assert_eq!(stops, vec![(2, "a".to_string()), (2, "b".to_string())]);
}
