use navipod::data::{Cert, Container, ContainerEnvVar, ContainerMount, Ingress, LogRec, Namespace, ResourceEvent, Rs, RsPod};
use navipod::keys::{Key, KeyInput};
use navipod::pod_app::PodSelector;
use navipod::rs_app::{cache_is_cold, route_to_pods, yaml_resource_type, WorkloadKind, WorkloadSignal};
use navipod::ui_loop::{run_control, AppKind, AppStack, Apps, Context, Load, Message, RunControl, Step};
use navipod::modern_ui::determine_namespace_status;
use navipod::theme::ResourceStatus;
use navipod::{cert_app, container_app, event_app, ingress_app, log_app, namespace_app, pod_app, rs_app};
use std::collections::BTreeMap;

fn key(code: Key) -> Message {
    Message::Key(Some(KeyInput { code, ctrl: false, other_modifiers: false }))
}

fn ctx() -> Context {
    Context { namespace: "default".to_string(), has_network_activity: true, has_blocking_activity: false }
}

fn labels() -> BTreeMap<String, String> {
    let mut m = BTreeMap::new();
    m.insert("app".to_string(), "web".to_string());
    m
}

fn rs_row(name: &str, kind: &str, selectors: Option<BTreeMap<String, String>>) -> Rs {
    Rs {
        name: name.to_string(),
        owner: String::new(),
        description: kind.to_string(),
        age: "1d".to_string(),
        pods: "1/1".to_string(),
        selectors,
        events: vec![ResourceEvent {
            resource_name: name.to_string(),
            object: "rs".to_string(),
            message: "scaled".to_string(),
            reason: "Scaling".to_string(),
            type_: "Normal".to_string(),
            age: "5m".to_string(),
        }],
    }
}

fn pod_row(name: &str) -> RsPod {
    RsPod {
        name: name.to_string(),
        status: "Running".to_string(),
        description: "ReplicaSet".to_string(),
        age: "1d".to_string(),
        containers: "1/1".to_string(),
        selectors: Some(labels()),
        events: vec![],
    }
}

fn rs_view(rows: Vec<Rs>) -> Apps {
    Apps::Rs { app: rs_app::App::new(rows) }
}

fn shown(step: Step) -> Apps {
    match step {
        Step::Show(a) => a,
        _ => panic!("expected a view"),
    }
}

#[test]
fn entering_a_view_and_leaving_it_returns_to_the_previous_one() {
    let mut stack = AppStack::new();
    assert_eq!(stack.current.kind(), AppKind::Rs);
    let from = rs_view(vec![rs_row("web", "ReplicaSet", None)]);
    let into = Apps::Event { app: event_app::App::new() };
    assert!(stack.after_run(Some(from), Some(into)));
    assert_eq!(stack.current.kind(), AppKind::Event);
    assert_eq!(stack.history.len(), 1);
    assert!(stack.after_run(None, None));
    assert_eq!(stack.current.kind(), AppKind::Rs);
    assert!(stack.history.is_empty());
    match &stack.current {
        Apps::Rs { app } => assert_eq!(app.base.items[0].name, "web"),
        _ => panic!("expected the workloads view"),
    }
    assert!(!stack.after_run(None, None));
}

#[test]
fn a_run_continues_while_the_view_keeps_its_kind() {
    match run_control(AppKind::Rs, Some(rs_view(vec![]))) {
        RunControl::Continue(a) => assert_eq!(a.kind(), AppKind::Rs),
        _ => panic!("expected to continue"),
    }
    match run_control(AppKind::Rs, Some(Apps::Event { app: event_app::App::new() })) {
        RunControl::Leave(Some(a)) => assert_eq!(a.kind(), AppKind::Event),
        _ => panic!("expected to leave"),
    }
    assert!(matches!(run_control(AppKind::Pod, None), RunControl::Leave(None)));
}

#[test]
fn workloads_view_keys() {
    let view = rs_view(vec![rs_row("web", "ReplicaSet", Some(labels())), rs_row("nightly", "Job", None)]);
    let c = ctx();
    assert!(matches!(view.handle_event(key(Key::Char('q')), &c), Step::Quit));

    let view = rs_view(vec![rs_row("web", "ReplicaSet", Some(labels())), rs_row("nightly", "Job", None)]);
    let next = shown(view.handle_event(key(Key::Char('j')), &c));
    let Apps::Rs { app } = next else { panic!("expected the workloads view") };
    assert_eq!(app.base.selected, Some(1));
    assert_eq!(app.base.scroll_position, 4);

    let next = shown(Apps::Rs { app }.handle_event(key(Key::Enter), &c));
    match next {
        Apps::Pod { app } => {
            assert!(matches!(app.selector, PodSelector::ByJob(ref n) if n == "nightly"));
            assert!(app.base.items.is_empty());
        },
        _ => panic!("expected the pods view"),
    }

    let view = rs_view(vec![rs_row("web", "ReplicaSet", Some(labels()))]);
    match view.handle_event(key(Key::Char('i')), &c) {
        Step::Load(Load::Ingresses { selector }, _) => assert_eq!(selector, labels()),
        _ => panic!("expected to load ingresses"),
    }

    let view = rs_view(vec![]);
    assert!(matches!(view.handle_event(key(Key::Char('n')), &c), Step::Load(Load::Namespaces, _)));
    let view = rs_view(vec![]);
    assert_eq!(shown(view.handle_event(key(Key::Char('e')), &c)).kind(), AppKind::Event);
}

#[test]
fn workloads_view_opens_yaml_with_kubectl_arguments() {
    let view = rs_view(vec![rs_row("proxy", "DaemonSet", None)]);
    match view.handle_event(key(Key::Char('y')), &ctx()) {
        Step::ShowAfterYaml(Apps::Rs { app }, args, fails_hard) => {
            assert_eq!(args, vec!["get", "daemonset", "proxy", "-o", "yaml", "-n", "default"]);
            assert!(!fails_hard);
            assert!(app.base.yaml_editor.is_active);
            let mut view = Apps::Rs { app };
            assert!(view.record_yaml_output(true, "kind: DaemonSet\n", "").is_ok());
            let Apps::Rs { app } = view else { panic!("expected the workloads view") };
            assert_eq!(app.base.yaml_editor.content, "kind: DaemonSet\n");
            let next = shown(Apps::Rs { app }.handle_event(key(Key::Esc), &ctx()));
            let Apps::Rs { app } = next else { panic!("expected the workloads view") };
            assert!(!app.base.yaml_editor.is_active);
        },
        _ => panic!("expected a YAML fetch"),
    }
    let unsafe_name = rs_view(vec![rs_row("--all", "ReplicaSet", None)]);
    let next = shown(unsafe_name.handle_event(key(Key::Char('y')), &ctx()));
    let Apps::Rs { app } = next else { panic!("expected the workloads view") };
    assert_eq!(
        app.base.yaml_editor.error_message.as_deref(),
        Some("Invalid resource name: contains unsafe characters")
    );
}

#[test]
fn workloads_filter_editing() {
    let c = ctx();
    let view = rs_view(vec![]);
    let view = shown(view.handle_event(key(Key::Char('/')), &c));
    let view = shown(view.handle_event(key(Key::Char('a')), &c));
    let view = shown(view.handle_event(key(Key::Char('c')), &c));
    let view = shown(view.handle_event(key(Key::Left), &c));
    let view = shown(view.handle_event(key(Key::Char('b')), &c));
    let view = shown(view.handle_event(key(Key::Backspace), &c));
    let view = shown(view.handle_event(key(Key::Enter), &c));
    let Apps::Rs { app } = view else { panic!("expected the workloads view") };
    assert_eq!(app.base.filter, "ac");
    assert_eq!(app.base.edit_filter_cursor_position, 1);
    assert!(!app.base.show_filter_edit);
}

#[test]
fn fresh_rows_update_the_workloads_view() {
    let view = rs_view(vec![]);
    let next = shown(view.handle_event(Message::Rs(vec![rs_row("a", "ReplicaSet", None), rs_row("b", "Job", None)]), &ctx()));
    let Apps::Rs { mut app } = next else { panic!("expected the workloads view") };
    assert_eq!(app.base.items.len(), 2);
    assert_eq!(app.base.scroll_content_length, 4);
    assert!(app.get_network_activity());
    assert!(!app.get_blocking_activity());
    let details = app.get_event_details();
    assert_eq!(details, vec![("Normal".to_string(), "scaled".to_string(), Some("5m".to_string()))]);
}

#[test]
fn pods_view_keys() {
    let view = Apps::Pod { app: pod_app::App::new(PodSelector::ByLabels(labels()), vec![pod_row("web-1")]) };
    match view.handle_event(key(Key::Enter), &ctx()) {
        Step::Load(Load::Containers { selectors, pod_name }, _) => {
            assert_eq!(selectors, labels());
            assert_eq!(pod_name, "web-1");
        },
        _ => panic!("expected to load containers"),
    }
    let view = Apps::Pod { app: pod_app::App::new(PodSelector::Unowned, vec![pod_row("web-1")]) };
    assert!(matches!(view.handle_event(key(Key::Esc), &ctx()), Step::Quit));
}

#[test]
fn ingress_and_certificate_views() {
    let ingress = Ingress {
        name: "web".to_string(),
        host: "example.com".to_string(),
        path: "/".to_string(),
        backend_svc: "web".to_string(),
        port: "443".to_string(),
    };
    let view = Apps::Ingress { app: ingress_app::App::new(vec![ingress]) };
    match view.handle_event(key(Key::Enter), &ctx()) {
        Step::Load(l, _) => {
            assert!(l.fails_softly());
            assert!(matches!(l, Load::Certificate { ref host } if host == "example.com"));
        },
        _ => panic!("expected to load a certificate"),
    }
    let cert = Cert {
        host: "example.com".to_string(),
        is_valid: "true".to_string(),
        expires: "90d".to_string(),
        issued_by: "CA".to_string(),
    };
    let view = Apps::Cert { app: cert_app::App::new(vec![cert.clone(), cert]) };
    let next = shown(view.handle_event(key(Key::Down), &ctx()));
    let Apps::Cert { app } = next else { panic!("expected the certificates view") };
    assert_eq!(app.base.selected, Some(1));
}

#[test]
fn container_view_opens_logs_and_goes_back() {
    let container = Container {
        name: "app".to_string(),
        description: "web".to_string(),
        restarts: "0".to_string(),
        image: "nginx:1".to_string(),
        ports: "80".to_string(),
        envvars: vec![],
        mounts: vec![],
        selectors: Some(labels()),
        pod_name: "web-1".to_string(),
    };
    let view = Apps::Container { app: container_app::App::new(vec![container.clone()]) };
    match shown(view.handle_event(key(Key::Enter), &ctx())) {
        Apps::Log { app } => {
            assert_eq!(app.pod_name, "web-1");
            assert_eq!(app.container_name, "app");
            assert!(app.is_tailing);
        },
        _ => panic!("expected the log view"),
    }
    let view = Apps::Container { app: container_app::App::new(vec![container]) };
    assert_eq!(shown(view.handle_event(key(Key::Esc), &ctx())).kind(), AppKind::Pod);
}

#[test]
fn log_view_appends_and_toggles_tailing() {
    let line = |m: &str| LogRec { datetime: "12:00".to_string(), level: "INFO".to_string(), message: m.to_string() };
    let view = Apps::Log { app: log_app::App::new(labels(), "web-1".to_string(), "app".to_string()) };
    let next = shown(view.handle_event(Message::Log(vec![line("a"), line("b")]), &ctx()));
    let next = shown(next.handle_event(Message::Log(vec![line("c")]), &ctx()));
    let Apps::Log { app } = next else { panic!("expected the log view") };
    assert_eq!(app.base.items.len(), 3);
    assert_eq!(app.base.selected, Some(2));
    let next = shown(Apps::Log { app }.handle_event(key(Key::Char('t')), &ctx()));
    let Apps::Log { app } = next else { panic!("expected the log view") };
    assert!(!app.is_tailing);
}

#[test]
fn an_empty_table_cannot_move_down() {
    let view = rs_view(vec![]);
    assert!(view.moves_down_on_empty(&key(Key::Char('j'))));
    assert!(!view.moves_down_on_empty(&key(Key::Char('k'))));
}

#[test]
fn workload_stream_decisions() {
    assert!(WorkloadSignal::Tick.refreshes());
    assert!(!WorkloadSignal::Other.refreshes());
    assert!(WorkloadSignal::Update(WorkloadKind::DaemonSets).prefetches_pods());
    assert!(!WorkloadSignal::Update(WorkloadKind::Jobs).prefetches_pods());
    assert!(cache_is_cold(&vec![], &vec![], &vec![], &vec![], &vec![]));
    assert!(!cache_is_cold(&vec![rs_row("a", "Job", None)], &vec![], &vec![], &vec![], &vec![]));
}

#[test]
fn workload_rows_route_to_their_pods() {
    assert!(matches!(route_to_pods(&rs_row("x", "Unowned", None)), Some(PodSelector::Unowned)));
    assert!(matches!(route_to_pods(&rs_row("x", "ReplicaSet", None)), None));
    assert!(matches!(route_to_pods(&rs_row("x", "StatefulSet", Some(labels()))), Some(PodSelector::ByLabels(_))));
    assert_eq!(yaml_resource_type("StatefulSet"), "statefulset");
    assert_eq!(yaml_resource_type("Deployment"), "replicaset");
}

#[test]
fn container_details_list_mounts_and_variables() {
    let container = Container {
        name: "app".to_string(),
        description: "web".to_string(),
        restarts: "0".to_string(),
        image: "nginx:1".to_string(),
        ports: "80".to_string(),
        envvars: vec![ContainerEnvVar { name: "MODE".to_string(), value: "prod".to_string() }],
        mounts: vec![
            ContainerMount { name: "config".to_string(), value: "/etc/app".to_string() },
            ContainerMount { name: "data".to_string(), value: "/var/data".to_string() },
        ],
        selectors: None,
        pod_name: "web-1".to_string(),
    };
    let mut app = container_app::App::new(vec![container]);
    assert_eq!(
        app.get_left_details(),
        vec![
            ("config".to_string(), "/etc/app".to_string(), None),
            ("data".to_string(), "/var/data".to_string(), None),
        ]
    );
    assert_eq!(app.get_right_details(), vec![("MODE".to_string(), "prod".to_string(), None)]);
    app.base.selected = Some(5);
    assert!(app.get_left_details().is_empty());
    assert_eq!(app.base.selected, Some(0));
}

#[test]
fn pod_events_of_the_selected_pod() {
    let mut pod = pod_row("web-1");
    pod.events = vec![ResourceEvent {
        resource_name: "web-1".to_string(),
        object: "pod".to_string(),
        message: "pulled".to_string(),
        reason: "Pulled".to_string(),
        type_: "Normal".to_string(),
        age: "2m".to_string(),
    }];
    let mut app = pod_app::App::new(PodSelector::Unowned, vec![pod_row("web-0"), pod]);
    assert!(app.get_event_details().is_empty());
    app.base.selected = Some(1);
    assert_eq!(app.get_event_details(), vec![("Normal".to_string(), "pulled".to_string(), Some("2m".to_string()))]);
}

#[test]
fn log_view_stops_tailing_when_scrolled_away_from_the_end() {
    let line = |m: String| LogRec { datetime: "12:00".to_string(), level: "INFO".to_string(), message: m };
    let lines: Vec<LogRec> = (0..10).map(|i| line(format!("line {i}"))).collect();
    let view = Apps::Log { app: log_app::App::new(labels(), "web-1".to_string(), "app".to_string()) };
    let view = shown(view.handle_event(Message::Log(lines), &ctx()));
    let view = shown(view.handle_event(key(Key::Char('k')), &ctx()));
    let Apps::Log { app } = &view else { panic!("expected the log view") };
    assert_eq!(app.base.selected, Some(8));
    assert!(app.is_tailing);
    assert!(app.user_scrolled);
    let view = shown(view.handle_event(key(Key::Char('g')), &ctx()));
    let view = shown(view.handle_event(key(Key::Char('j')), &ctx()));
    let Apps::Log { app } = view else { panic!("expected the log view") };
    assert_eq!(app.base.selected, Some(1));
    assert!(!app.is_tailing);
}

#[test]
fn log_view_keeps_only_the_newest_lines() {
    let line = |m: String| LogRec { datetime: "12:00".to_string(), level: "INFO".to_string(), message: m };
    let mut app = log_app::App::new(labels(), "web-1".to_string(), "app".to_string());
    app.max_log_lines = 3;
    app.add_log_entries((0..5).map(|i| line(format!("line {i}"))).collect());
    let kept: Vec<String> = app.base.items.iter().map(|l| l.message.clone()).collect();
    assert_eq!(kept, vec!["line 2", "line 3", "line 4"]);
    assert_eq!(app.base.selected, Some(2));
}

#[test]
fn failed_kubectl_runs_are_errors() {
    let view = rs_view(vec![rs_row("proxy", "DaemonSet", None)]);
    let Step::ShowAfterYaml(mut view, _, _) = view.handle_event(key(Key::Char('y')), &ctx()) else {
        panic!("expected a YAML fetch")
    };
    assert_eq!(view.record_yaml_output(false, "", "not found"), Err("kubectl error: not found".to_string()));
    assert_eq!(
        view.record_yaml_failure("no such file"),
        Err("Failed to run kubectl command 'kubectl get daemonset proxy -o yaml': no such file".to_string())
    );
    let Apps::Rs { app } = &view else { panic!("expected the workloads view") };
    assert_eq!(app.base.yaml_editor.content, "Error: kubectl command failed\nno such file");
    match view.handle_event(key(Key::Char('r')), &ctx()) {
        Step::ShowAfterYaml(_, args, fails_hard) => {
            assert!(fails_hard);
            assert_eq!(args[0], "get");
        },
        _ => panic!("expected a refresh"),
    }
}

#[test]
fn label_rows_are_sorted_by_name() {
    let mut labels = BTreeMap::new();
    labels.insert("tier".to_string(), "front".to_string());
    labels.insert("app".to_string(), "web".to_string());
    let mut pod = pod_row("web-1");
    pod.selectors = Some(labels.clone());
    let mut app = pod_app::App::new(PodSelector::Unowned, vec![pod]);
    let expected = vec![
        ("app".to_string(), "web".to_string(), None),
        ("tier".to_string(), "front".to_string(), None),
    ];
    assert_eq!(app.get_label_details(), expected);
    let mut rs = rs_app::App::new(vec![rs_row("web", "ReplicaSet", Some(labels))]);
    assert_eq!(rs.get_left_details(), expected);
    let mut bare = rs_app::App::new(vec![rs_row("web", "ReplicaSet", None)]);
    assert!(bare.get_left_details().is_empty());
}

fn namespace(name: &str, status: &str, is_current: bool) -> Namespace {
    Namespace { name: name.to_string(), status: status.to_string(), age: "30d".to_string(), is_current }
}

fn picker() -> Apps {
    Apps::Namespace {
        app: namespace_app::App::new(vec![namespace("default", "Active", true), namespace("prod", "Terminating", false)]),
    }
}

#[test]
fn the_namespace_picker_switches_namespaces() {
    let c = ctx();
    assert!(matches!(picker().handle_event(key(Key::Char('q')), &c), Step::QuitAll));
    assert_eq!(shown(picker().handle_event(key(Key::Esc), &c)).kind(), AppKind::Rs);
    assert_eq!(shown(picker().handle_event(key(Key::Enter), &c)).kind(), AppKind::Rs);
    let view = shown(picker().handle_event(key(Key::Down), &c));
    match view.handle_event(key(Key::Enter), &c) {
        Step::Load(load, shown_view) => {
            assert!(load.fails_softly());
            assert!(matches!(load, Load::SwitchNamespace { ref name } if name == "prod"));
            assert_eq!(shown_view.kind(), AppKind::Namespace);
        },
        _ => panic!("expected a namespace switch"),
    }
    assert_eq!(determine_namespace_status(&namespace("a", "Active", false)), ResourceStatus::Running);
    assert_eq!(determine_namespace_status(&namespace("a", "Terminating", false)), ResourceStatus::Pending);
    assert_eq!(determine_namespace_status(&namespace("a", "Gone", false)), ResourceStatus::Unknown);
}

#[test]
fn the_namespace_filter_ignores_the_cursor_keys() {
    let c = ctx();
    let view = shown(picker().handle_event(key(Key::Char('/')), &c));
    let view = shown(view.handle_event(key(Key::Char('p')), &c));
    let view = shown(view.handle_event(key(Key::Char('r')), &c));
    let view = shown(view.handle_event(key(Key::Left), &c));
    let view = shown(view.handle_event(key(Key::Char('o')), &c));
    let view = shown(view.handle_event(key(Key::Enter), &c));
    let Apps::Namespace { app } = view else { panic!("expected the namespace picker") };
    assert_eq!(app.base.filter, "pro");
    assert!(!app.base.show_filter_edit);
}

#[test]
fn q_in_the_probe_popup_quits_the_application() {
    let mut app = container_app::App::new(vec![]);
    app.panels.show_probe_popup = true;
    assert!(matches!(Apps::Container { app }.handle_event(key(Key::Char('q')), &ctx()), Step::QuitAll));
}

fn container_with_mounts(n: usize) -> Container {
    Container {
        name: "app".to_string(),
        description: "web".to_string(),
        restarts: "0".to_string(),
        image: "nginx:1".to_string(),
        ports: "80".to_string(),
        envvars: vec![],
        mounts: (0..n).map(|i| ContainerMount { name: format!("m{}", i), value: format!("/m/{}", i) }).collect(),
        selectors: None,
        pod_name: "web-1".to_string(),
    }
}

#[test]
fn tab_and_arrows_move_between_and_within_panels() {
    let view = Apps::Container { app: container_app::App::new(vec![container_with_mounts(3)]) };
    let view = shown(view.handle_event(key(Key::Tab), &ctx()));
    let Apps::Container { app } = &view else { panic!("expected the container view") };
    assert_eq!(app.panels.focused_panel, container_app::FocusedPanel::Mounts);
    assert_eq!(app.base.selected, Some(0));
    let view = shown(view.handle_event(key(Key::Down), &ctx()));
    let view = shown(view.handle_event(key(Key::Char('j')), &ctx()));
    let view = shown(view.handle_event(key(Key::Down), &ctx()));
    let Apps::Container { app } = &view else { panic!("expected the container view") };
    assert_eq!(app.panels.detail_selection, 2);
    assert_eq!(app.base.selected, Some(0));
    let view = shown(view.handle_event(key(Key::BackTab), &ctx()));
    let Apps::Container { app } = &view else { panic!("expected the container view") };
    assert_eq!(app.panels.focused_panel, container_app::FocusedPanel::ContainerList);
    assert_eq!(app.panels.detail_selection, 0);
    let view = shown(view.handle_event(key(Key::Tab), &ctx()));
    let view = shown(view.handle_event(key(Key::Esc), &ctx()));
    let Apps::Container { app } = &view else { panic!("expected the container view") };
    assert_eq!(app.panels.focused_panel, container_app::FocusedPanel::ContainerList);
}

#[test]
fn a_probe_result_opens_the_popup_and_scrolls() {
    let mut app = container_app::App::new(vec![container_with_mounts(0)]);
    let result = container_app::ProbeResult {
        probe_type: "Liveness".to_string(),
        handler_type: "HTTP".to_string(),
        status: container_app::ProbeStatus::Success,
        response_time_ms: 12,
        status_code: Some(200),
        response_body: "ok\nfine".to_string(),
        error_message: None,
        timestamp: "12:00:00".to_string(),
    };
    app.panels.probe_popup_scroll = 4;
    app.panels.show_probe_result(&result);
    assert!(app.panels.show_probe_popup);
    assert_eq!(app.panels.probe_result_lines, Some(12));
    assert_eq!(app.panels.probe_popup_scroll, 0);
    let view = shown(Apps::Container { app }.handle_event(key(Key::Char('G')), &ctx()));
    let Apps::Container { app } = &view else { panic!("expected the container view") };
    assert_eq!(app.panels.probe_popup_scroll, 11);
    let view = shown(view.handle_event(key(Key::Up), &ctx()));
    let view = shown(view.handle_event(key(Key::Esc), &ctx()));
    let Apps::Container { app } = &view else { panic!("expected the container view") };
    assert!(!app.panels.show_probe_popup);
    assert_eq!(app.panels.probe_result_lines, None);
}
