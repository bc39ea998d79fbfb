use navipod::controller::{AppController, DomainService, NavTarget, NavigationHandler, UiMode};

struct MockDomainService;
impl DomainService<String> for MockDomainService {
    fn handle_data_update(&mut self, _data: Vec<String>) -> Result<(), String> {
        Ok(())
    }

    fn get_available_actions(&self) -> Vec<String> {
        vec!["test_action".to_string()]
    }

    fn execute_action(&mut self, _action: &str) -> Result<Option<NavTarget>, String> {
        Ok(None)
    }

    fn validate(&self) -> Result<(), String> {
        Ok(())
    }
}

struct MockNavigationHandler;
impl NavigationHandler for MockNavigationHandler {
    fn handle_navigation(&self, _target: &str) -> Result<Option<NavTarget>, String> {
        Ok(None)
    }

    fn get_navigation_targets(&self) -> Vec<String> {
        vec!["test_target".to_string()]
    }

    fn can_navigate_to(&self, _target: &str) -> bool {
        true
    }
}

#[test]
fn test_app_controller_creation() {
    let domain_service = MockDomainService;
    let navigation_handler = MockNavigationHandler;
    let _controller = AppController::new(domain_service, navigation_handler);
}

#[test]
fn test_ui_mode_enum() {
    let mode = UiMode::Normal;
    assert_eq!(mode, UiMode::Normal);
}

#[test]
fn controller_forwards_to_its_services() {
    let mut controller = AppController::new(MockDomainService, MockNavigationHandler);
    assert!(matches!(controller.execute_domain_action::<String>("test_action"), Ok(None)));
    assert!(matches!(controller.handle_navigation("test_target"), Ok(None)));
}
