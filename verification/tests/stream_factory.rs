use navipod::cert_app::{cert_error_message, cert_row};
use navipod::data::{ResourceEvent, Rs};
use navipod::rs_app::{after_fetch, SignalPlan, WorkloadKind, WorkloadSignal, WorkloadStream};
use navipod::stream_factory::{CacheStep, CacheStreamConfig, CacheTrigger, StreamFactory};
use std::collections::BTreeMap;

fn row(name: &str, app: &str) -> Rs {
    let mut labels = BTreeMap::new();
    labels.insert("app".to_string(), app.to_string());
    Rs {
        name: name.to_string(),
        owner: String::new(),
        description: "ReplicaSet".to_string(),
        age: "1d".to_string(),
        pods: "1/1".to_string(),
        selectors: Some(labels),
        events: vec![ResourceEvent {
            resource_name: name.to_string(),
            object: "rs".to_string(),
            message: "scaled".to_string(),
            reason: "Scaling".to_string(),
            type_: "Normal".to_string(),
            age: "5m".to_string(),
        }],
    }
}

#[test]
fn test_config_defaults() {
    let config = CacheStreamConfig::default();
    assert_eq!(config.subscription_pattern, "*");
    assert_eq!(config.poll_interval_ms, 1000);
    assert_eq!(config.channel_size, 100);
}

#[test]
fn rows_are_published_when_new_and_not_empty() {
    let initial = vec![row("a", "web")];
    assert!(!StreamFactory::should_publish(&Vec::<Rs>::new(), &initial));
    assert!(!StreamFactory::should_publish(&vec![row("a", "web")], &initial));
    assert!(StreamFactory::should_publish(&vec![row("a", "api")], &initial));
    assert!(StreamFactory::differs(&vec![row("b", "web")], &initial));
    assert!(!StreamFactory::differs(&vec![row("a", "web")], &initial));
    let mut changed = row("a", "web");
    changed.events[0].age = "6m".to_string();
    assert!(StreamFactory::differs(&vec![changed], &initial));
}

#[test]
fn cache_streams_prefetch_before_sending() {
    let initial = vec![row("a", "web")];
    let fresh = vec![row("b", "web")];
    assert_eq!(StreamFactory::cache_step(&fresh, &initial, CacheTrigger::Initial, true), CacheStep::PrefetchThenSend);
    assert_eq!(StreamFactory::cache_step(&fresh, &initial, CacheTrigger::Update, false), CacheStep::Send);
    assert_eq!(StreamFactory::cache_step(&initial.clone(), &initial, CacheTrigger::Update, true), CacheStep::Skip);
    assert_eq!(StreamFactory::cache_step(&initial.clone(), &initial, CacheTrigger::Poll, true), CacheStep::Prefetch);
    assert_eq!(StreamFactory::cache_step(&fresh, &initial, CacheTrigger::Stale, true), CacheStep::Send);
}

#[test]
fn the_workloads_stream_sends_only_changed_lists() {
    let mut stream = WorkloadStream::new(vec![row("a", "web")]);
    assert!(!stream.offer(Vec::new()));
    assert_eq!(stream.last_sent.len(), 1);
    assert!(!stream.offer(vec![row("a", "web")]));
    assert!(stream.offer(vec![row("a", "web"), row("b", "web")]));
    assert_eq!(stream.last_sent.len(), 2);
    assert!(stream.offer(Vec::new()));
    assert!(stream.last_sent.is_empty());
    assert_eq!(after_fetch(WorkloadKind::DaemonSets, &vec![row("a", "web")]), (true, true));
    assert_eq!(after_fetch(WorkloadKind::Jobs, &vec![row("a", "web")]), (true, false));
    assert_eq!(after_fetch(WorkloadKind::ReplicaSets, &Vec::new()), (false, false));
}

#[test]
fn certificate_rows() {
    let expires = x509_parser::time::ASN1Time::from_timestamp(0).unwrap();
    let cert = cert_row("example.com", true, &expires, "CA".to_string());
    assert_eq!(cert.host, "example.com");
    assert_eq!(cert.is_valid, "true");
    assert!(cert.expires.starts_with('-') && cert.expires.ends_with('d'));
    assert_eq!(cert.issued_by, "CA");
    assert_eq!(cert_error_message("example.com", "timed out"), "host: example.com error: timed out");
}

#[test]
fn rows_come_from_the_first_source_that_has_them() {
    assert_eq!(StreamFactory::pick_rows(Some(vec![1]), Some(vec![2]), Some(vec![3])), vec![1]);
    assert_eq!(StreamFactory::pick_rows(None, Some(vec![2]), Some(vec![3])), vec![2]);
    assert_eq!(StreamFactory::pick_rows(None, None, Some(vec![3])), vec![3]);
    assert_eq!(StreamFactory::pick_rows::<u8>(None, None, None), Vec::<u8>::new());
    assert!(StreamFactory::caches_fetched(&vec![1]));
    assert!(!StreamFactory::caches_fetched(&Vec::<u8>::new()));
}

#[test]
fn workload_updates_prefetch_before_refreshing() {
    assert_eq!(WorkloadSignal::Update(WorkloadKind::StatefulSets).plan(), SignalPlan::PrefetchThenRefresh);
    assert_eq!(WorkloadSignal::Update(WorkloadKind::Jobs).plan(), SignalPlan::Refresh);
    assert_eq!(WorkloadSignal::Tick.plan(), SignalPlan::Refresh);
    assert_eq!(WorkloadSignal::Other.plan(), SignalPlan::Ignore);
}
