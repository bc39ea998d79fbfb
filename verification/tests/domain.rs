use navipod::controller::{DomainService, NavTarget, NavigationHandler};
use navipod::data::Rs;
use navipod::domain::{ReplicaSetDomainService, ReplicaSetNavigationHandler};
use std::collections::BTreeMap;

fn row(name: &str, selectors: Option<BTreeMap<String, String>>) -> Rs {
    Rs {
        name: name.to_string(),
        owner: String::new(),
        description: "ReplicaSet".to_string(),
        age: String::new(),
        pods: "1/1".to_string(),
        selectors,
        events: Vec::new(),
    }
}

#[test]
fn test_replicaset_domain_service_creation() {
    let service = ReplicaSetDomainService::new();
    assert!(service.current_data.is_empty());
    assert!(service.selected_index.is_none());
}

#[test]
fn test_data_update_validation() {
    let mut service = ReplicaSetDomainService::new();
    let test_data = vec![];

    let result = service.handle_data_update(test_data);
    assert!(result.is_ok());
}

#[test]
fn test_available_actions() {
    let service = ReplicaSetDomainService::new();
    let actions = service.get_available_actions();

    assert!(actions.contains(&"view_pods".to_string()));
    assert!(actions.contains(&"view_yaml".to_string()));
    assert!(actions.contains(&"refresh".to_string()));
}

#[test]
fn selection_adds_actions_and_survives_updates_only_in_range() {
    let mut service = ReplicaSetDomainService::new();
    service.handle_data_update(vec![row("a", None), row("b", None)]).unwrap();
    service.set_selection(Some(1));
    assert_eq!(service.get_available_actions().len(), 6);
    assert_eq!(service.get_selected_replicaset().unwrap().name, "b");
    service.handle_data_update(vec![row("a", None)]).unwrap();
    assert_eq!(service.get_selected_replicaset().unwrap().name, "a");
    service.handle_data_update(vec![]).unwrap();
    assert!(service.get_selected_replicaset().is_none());
    assert!(service.selected_index.is_none());
    assert_eq!(service.get_available_actions().len(), 3);
}

#[test]
fn viewing_pods_needs_a_selection_with_selectors() {
    let mut service = ReplicaSetDomainService::new();
    assert_eq!(service.execute_action("view_pods").unwrap_err(), "No ReplicaSet selected");
    service.handle_data_update(vec![row("a", None)]).unwrap();
    service.set_selection(Some(0));
    assert_eq!(
        service.execute_action("view_pods").unwrap_err(),
        "No selectors available for selected ReplicaSet"
    );
    let mut labels = BTreeMap::new();
    labels.insert("app".to_string(), "web".to_string());
    service.handle_data_update(vec![row("a", Some(labels.clone()))]).unwrap();
    match service.execute_action("view_pods") {
        Ok(Some(NavTarget::Pod { selectors })) => assert_eq!(selectors, labels),
        _ => panic!("expected pods"),
    }
    assert!(matches!(service.execute_action("view_ingress"), Ok(Some(NavTarget::Ingress))));
    assert!(matches!(service.execute_action("refresh"), Ok(None)));
}

#[test]
fn navigation_handler_follows_the_service() {
    let handler = ReplicaSetNavigationHandler::new(ReplicaSetDomainService::new());
    assert!(!handler.can_navigate_to("view_pods"));
    assert!(handler.can_navigate_to("view_events"));
    assert_eq!(handler.get_navigation_targets(), vec!["view_pods", "view_ingress", "view_events"]);
    assert!(matches!(handler.handle_navigation("view_events"), Ok(Some(NavTarget::Event))));
}
