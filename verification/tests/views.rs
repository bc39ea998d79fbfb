use navipod::clipboard::{env_vars_copy_text, log_copy_text, mounts_copy_text, probe_config_copy_text, probe_result_copy_text};
use navipod::container_app::{ProbeResult, ProbeStatus};
use navipod::data::{Ingress, LogRec};
use navipod::log_app::next_log_batch;
use navipod::modern_ui::{
    build_probe_result_lines, calculate_wrapped_height, detail_level_style, determine_container_status,
    determine_pod_status, determine_route_status, extract_compact_time, extract_image_name,
    get_log_level_style, get_log_level_symbol, get_restart_style, get_status_style,
    log_detail_scrollbar, parse_container_count, parse_replica_count, probe_handler_symbol,
    probe_type_color, probes_title, restart_bar, truncate_text, LevelStyle, ProbeTypeColor,
};
use navipod::theme::{HealthColor, ResourceStatus, TextType};
use navipod::tuples::format_at;

#[test]
fn truncation_is_by_bytes_with_an_ellipsis() {
    assert_eq!(truncate_text("short", 10), "short");
    assert_eq!(truncate_text("abcdefghij", 5), "abcd…");
    assert_eq!(truncate_text("abc", 0), "…");
    assert_eq!(extract_image_name("registry.io/team/nginx:1.25"), "nginx:1.25");
    assert_eq!(
        extract_image_name("a-very-long-image-name-that-goes-on-and-on:latest"),
        "a-very-long-image-name-that-goes-o…"
    );
}

#[test]
fn container_health_by_restarts() {
    assert_eq!(determine_container_status(0), ResourceStatus::Running);
    assert_eq!(determine_container_status(2), ResourceStatus::Ready);
    assert_eq!(determine_container_status(4), ResourceStatus::Pending);
    assert_eq!(determine_container_status(9), ResourceStatus::Unknown);
    assert_eq!(determine_container_status(11), ResourceStatus::Failed);
    assert_eq!(get_restart_style(0), TextType::Success);
    assert_eq!(get_restart_style(6), TextType::Error);
    assert_eq!(restart_bar(0), ("▓▓▓▓▓▓▓▓".to_string(), HealthColor::Success));
    assert_eq!(restart_bar(1), ("██████░░".to_string(), HealthColor::Lime));
    assert_eq!(restart_bar(4), ("████░░░░".to_string(), HealthColor::Warning));
    assert_eq!(restart_bar(20), ("░░░░░░░░".to_string(), HealthColor::Error));
}

#[test]
fn route_status_by_configuration() {
    let ingress = |host: &str, path: &str, port: &str| Ingress {
        name: "web".to_string(),
        host: host.to_string(),
        path: path.to_string(),
        backend_svc: "svc".to_string(),
        port: port.to_string(),
    };
    assert_eq!(determine_route_status(&ingress("-", "/", "80")), ResourceStatus::Failed);
    assert_eq!(determine_route_status(&ingress("a.com", "", "80")), ResourceStatus::Pending);
    assert_eq!(determine_route_status(&ingress("a.com", "/", "-")), ResourceStatus::Unknown);
    assert_eq!(determine_route_status(&ingress("a.com", "/", "443")), ResourceStatus::Running);
    assert_eq!(determine_route_status(&ingress("a.com", "/", "80")), ResourceStatus::Ready);
}

#[test]
fn log_levels() {
    assert_eq!(get_log_level_symbol("ERROR"), "✗");
    assert_eq!(get_log_level_symbol("Warning"), "⚠");
    assert_eq!(get_log_level_symbol("info"), "✓");
    assert_eq!(get_log_level_symbol("trace"), "·");
    assert_eq!(get_log_level_symbol("notice"), "•");
    assert_eq!(get_log_level_style("fatal"), TextType::Error);
    assert_eq!(get_log_level_style("debug"), TextType::Caption);
    assert_eq!(detail_level_style("ERR"), LevelStyle::ErrorColor);
    assert_eq!(detail_level_style("warning"), LevelStyle::WarningColor);
    assert_eq!(detail_level_style("information"), LevelStyle::Body);
}

#[test]
fn compact_times() {
    assert_eq!(extract_compact_time(""), "");
    assert_eq!(extract_compact_time("2024-01-01 12:34:56"), "12:34");
    assert_eq!(extract_compact_time("2024-01-01T12:34:56Z"), "12:34");
    assert_eq!(extract_compact_time("2024-01-01T12:34:56.123"), "12:34");
    assert_eq!(extract_compact_time("2024-01-01T1:2Z"), "1:2");
    assert_eq!(extract_compact_time("09:15:00"), "09:15");
    assert_eq!(extract_compact_time("yesterday"), "yesterday");
}

#[test]
fn wrapped_heights() {
    assert_eq!(calculate_wrapped_height("", 10), 1);
    assert_eq!(calculate_wrapped_height("abcdefghij\n\nxyz", 4), 5);
    assert_eq!(calculate_wrapped_height("a\nb\nc", 0), 3);
    assert_eq!(log_detail_scrollbar("abc", 20, 5, 0), Some((4, 0)));
    assert_eq!(log_detail_scrollbar("abc", 20, 5, 9), Some((4, 4)));
    assert_eq!(log_detail_scrollbar("abc", 20, 30, 0), None);
}

#[test]
fn pod_counts_and_status() {
    assert_eq!(parse_container_count("2/3"), (2, 3));
    assert_eq!(parse_container_count("4"), (4, 4));
    assert_eq!(parse_container_count("x/2"), (0, 2));
    assert_eq!(parse_replica_count("1/2"), (1, 2));
    assert_eq!(parse_replica_count("7"), (0, 0));
    assert_eq!(determine_pod_status("Running", 2, 2), ResourceStatus::Running);
    assert_eq!(determine_pod_status("Running", 1, 2), ResourceStatus::Pending);
    assert_eq!(determine_pod_status("Completed", 0, 1), ResourceStatus::Ready);
    assert_eq!(determine_pod_status("CrashLoopBackOff", 0, 1), ResourceStatus::Failed);
    assert_eq!(determine_pod_status("Weird", 0, 1), ResourceStatus::Unknown);
    assert_eq!(get_status_style("PodInitializing"), TextType::Warning);
    assert_eq!(get_status_style("Succeeded"), TextType::Success);
    assert_eq!(get_status_style("Terminating"), TextType::Caption);
}

fn probe() -> ProbeResult {
    ProbeResult {
        probe_type: "Readiness".to_string(),
        handler_type: "HTTP".to_string(),
        status: ProbeStatus::Failure,
        response_time_ms: 12,
        status_code: Some(503),
        response_body: "down\nretry".to_string(),
        error_message: Some("unhealthy".to_string()),
        timestamp: "12:00:00".to_string(),
    }
}

#[test]
fn probe_displays() {
    assert_eq!(probe_handler_symbol("TCP"), "🔌");
    assert_eq!(probe_handler_symbol("gRPC"), "❓");
    assert_eq!(probe_type_color("Liveness"), ProbeTypeColor::Error);
    assert_eq!(probe_type_color("Other"), ProbeTypeColor::Primary);
    assert_eq!(probes_title(false), "🏥 Health Probes");
    assert_eq!(
        build_probe_result_lines(&probe()),
        vec![
            "❌ Readiness HTTP Probe Result",
            "",
            "Execution Time: 12ms",
            "Timestamp: 12:00:00",
            "HTTP Status: 503",
            "",
            "Error: unhealthy",
            "",
            "Response:",
            "down",
            "retry",
        ]
    );
}

#[test]
fn clipboard_texts() {
    assert_eq!(log_copy_text(&[], true), Err("No logs to copy".to_string()));
    let logs = vec!["12:00:01 started".to_string(), "[info] ready".to_string(), "plain line".to_string()];
    assert_eq!(log_copy_text(&logs, true).unwrap(), "12:00:01 started\n[info] ready\nplain line");
    assert_eq!(log_copy_text(&logs, false).unwrap(), "started\nready\nplain line");
    let rows = vec![
        ("A".to_string(), "1".to_string(), None),
        ("B".to_string(), "2".to_string(), Some("x".to_string())),
    ];
    assert_eq!(env_vars_copy_text(&rows).unwrap(), "A=1\nB=2");
    assert_eq!(mounts_copy_text(&rows).unwrap(), "A: 1\nB: 2");
    assert_eq!(mounts_copy_text(&[]), Err("No mounts to copy".to_string()));
    assert_eq!(env_vars_copy_text(&[]), Err("No environment variables to copy".to_string()));
    assert_eq!(
        probe_config_copy_text("Liveness", "Exec", "cat /tmp/ok"),
        "Probe Configuration\nType: Liveness\nHandler: Exec\nDetails: cat /tmp/ok"
    );
    assert_eq!(
        probe_result_copy_text(&probe()),
        "Probe Result - Readiness HTTP\nStatus: Failure\nResponse Time: 12ms\nTimestamp: 12:00:00\nHTTP Status: 503\nResponse:\ndown\nretry"
    );
}

#[test]
fn observations_are_tagged() {
    let metrics = vec![vec![("cpu".to_string(), "1".to_string())], vec![]];
    let tagged = format_at(metrics.clone(), "2024-01-01T00:00:00Z", "pod", "app", "ns");
    assert_eq!(tagged[0].len(), 5);
    assert_eq!(tagged[0][0], ("cpu".to_string(), "1".to_string()));
    assert_eq!(tagged[0][1], ("k8p_datetime".to_string(), "2024-01-01T00:00:00Z".to_string()));
    assert_eq!(tagged[1][3], ("k8p_namespace".to_string(), "ns".to_string()));
    let now = navipod::tuples::format(metrics, "pod", "app", "ns");
    assert_eq!(now[1][1], ("k8p_podname".to_string(), "pod".to_string()));
    assert!(!now[0][1].1.is_empty());
}

#[test]
fn log_polls_send_only_new_lines() {
    let line = |m: &str| LogRec { datetime: String::new(), level: String::new(), message: m.to_string() };
    let all: Vec<LogRec> = (0..60).map(|i| line(&i.to_string())).collect();
    let (batch, seen) = next_log_batch(all.clone(), 0);
    assert_eq!(seen, 60);
    let batch = batch.unwrap();
    assert_eq!(batch.len(), 50);
    assert_eq!(batch[0].message, "10");
    let (batch, seen) = next_log_batch(all.clone(), 58);
    assert_eq!(batch.unwrap().len(), 2);
    assert_eq!(seen, 60);
    let (batch, seen) = next_log_batch(all.clone(), 60);
    assert!(batch.is_none());
    assert_eq!(seen, 60);
    let (batch, seen) = next_log_batch(all, 70);
    assert!(batch.is_none());
    assert_eq!(seen, 60);
}
