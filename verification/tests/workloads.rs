use navipod::data::{Rs, RsPod};
use navipod::domain::merge_workloads;

fn rs(name: &str, kind: &str) -> Rs {
    Rs {
        name: name.to_string(),
        owner: String::new(),
        description: kind.to_string(),
        age: String::new(),
        pods: String::new(),
        selectors: None,
        events: Vec::new(),
    }
}

fn pod(name: &str, kind: &str) -> RsPod {
    RsPod {
        name: name.to_string(),
        status: "Running".to_string(),
        description: kind.to_string(),
        age: String::new(),
        containers: "1/1".to_string(),
        selectors: None,
        events: Vec::new(),
    }
}

#[test]
fn merge_workloads_sorts_by_kind_then_name() {
    let rs_list = vec![rs("web", "ReplicaSet"), rs("api", "ReplicaSet")];
    let ds_list = vec![rs("kube-proxy", "DaemonSet")];
    let ss_list = vec![rs("kafka", "StatefulSet"), rs("etcd", "StatefulSet")];

    let merged = merge_workloads(rs_list, ds_list, ss_list, vec![], &[]);

    let order: Vec<(&str, &str)> = merged
        .iter()
        .map(|r| (r.description.as_str(), r.name.as_str()))
        .collect();

    assert_eq!(
        order,
        vec![
            ("DaemonSet", "kube-proxy"),
            ("ReplicaSet", "api"),
            ("ReplicaSet", "web"),
            ("StatefulSet", "etcd"),
            ("StatefulSet", "kafka"),
        ]
    );
}

#[test]
fn merge_workloads_sorts_jobs_between_daemonset_and_replicaset() {
    let merged = merge_workloads(
        vec![rs("web", "ReplicaSet")],
        vec![rs("kube-proxy", "DaemonSet")],
        vec![rs("etcd", "StatefulSet")],
        vec![rs("backup-nightly", "Job"), rs("apply-config", "Job")],
        &[],
    );

    let order: Vec<(&str, &str)> = merged
        .iter()
        .map(|r| (r.description.as_str(), r.name.as_str()))
        .collect();

    assert_eq!(
        order,
        vec![
            ("DaemonSet", "kube-proxy"),
            ("Job", "apply-config"),
            ("Job", "backup-nightly"),
            ("ReplicaSet", "web"),
            ("StatefulSet", "etcd"),
        ]
    );
}

#[test]
fn merge_workloads_synthesizes_single_unowned_row_sorted_last() {
    let rs_list = vec![rs("web", "ReplicaSet")];
    let ds_list = vec![rs("kube-proxy", "DaemonSet")];
    let ss_list: Vec<Rs> = vec![];
    let unowned = vec![
        pod("kube-apiserver-node1", "StaticPod"),
        pod("kube-scheduler-node1", "StaticPod"),
    ];

    let merged = merge_workloads(rs_list, ds_list, ss_list, vec![], &unowned);

    let last = merged.last().expect("unowned row should be present");
    assert_eq!(last.description, "Unowned");
    assert_eq!(last.name, "(unowned)");
    assert_eq!(last.pods, "2");
    assert_eq!(
        merged.iter().filter(|r| r.description == "Unowned").count(),
        1,
        "exactly one synthesized Unowned row"
    );
}

#[test]
fn merge_workloads_omits_unowned_row_when_empty() {
    let merged = merge_workloads(vec![rs("web", "ReplicaSet")], vec![], vec![], vec![], &[]);
    assert!(merged.iter().all(|r| r.description != "Unowned"));
}

#[test]
fn merging_keeps_every_row() {
    let merged = merge_workloads(
        vec![rs("b", "ReplicaSet"), rs("a", "ReplicaSet")],
        vec![rs("z", "DaemonSet")],
        vec![],
        vec![],
        &[pod("p", "StaticPod")],
    );
    assert_eq!(merged.len(), 4);
    assert_eq!(merged[0].name, "z");
    assert_eq!(merged[1].name, "a");
    assert_eq!(merged[2].name, "b");
    assert_eq!(merged[3].name, "(unowned)");
    assert_eq!(merged[3].pods, "1");
}
