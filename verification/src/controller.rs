//! Separation of business logic, navigation and UI state for the table views.
use std::collections::BTreeMap;
use vstd::prelude::*;

verus! {

/// The view that an action or a navigation leads to.
#[derive(Clone, Debug)]
pub enum NavTarget {
    /// The pods matching the given label selectors.
    Pod { selectors: BTreeMap<String, String> },
    /// The ingresses of the current selection.
    Ingress,
    /// The cluster events.
    Event,
}

/// Business logic operations kept apart from UI concerns.
pub trait DomainService<T> {
    /// Handles domain-specific operations for data updates.
    ///
    /// # Errors
    /// Returns an error string if the update fails validation or processing.
    fn handle_data_update(&mut self, data: Vec<T>) -> Result<(), String>;

    /// Domain-specific actions available for the current selection.
    fn get_available_actions(&self) -> Vec<String>;

    /// Whether executing `action` on this service may give `r` and leave the
    /// service as `after`. A service that does not say claims nothing.
    open spec fn executes(&self, action: Seq<char>, after: &Self, r: Result<Option<NavTarget>, String>) -> bool {
        true
    }

    /// Executes a domain action.
    ///
    /// # Errors
    /// Returns an error string if the action fails or is invalid.
    fn execute_action(&mut self, action: &str) -> (r: Result<Option<NavTarget>, String>)
        ensures
            old(self).executes(action@, &*final(self), r),
    ;

    /// Validates the domain rules.
    ///
    /// # Errors
    /// Returns an error string if validation fails.
    fn validate(&self) -> Result<(), String>;
}

/// Navigation logic kept apart from UI and domain concerns.
pub trait NavigationHandler {
    /// Handles navigation to another view based on the current selection.
    ///
    /// # Errors
    /// Returns an error string if navigation fails or the target is invalid.
    fn handle_navigation(&self, target: &str) -> Result<Option<NavTarget>, String>;

    /// The available navigation targets.
    fn get_navigation_targets(&self) -> Vec<String>;

    /// Whether the navigation target is currently valid.
    fn can_navigate_to(&self, target: &str) -> bool;
}

/// An app controller that combines a domain service with a navigation handler.
pub struct AppController<D, N> {
    pub domain_service: D,
    pub navigation_handler: N,
}

impl<D, N> AppController<D, N> {
    pub fn new(domain_service: D, navigation_handler: N) -> (r: Self)
        ensures
            r.domain_service == domain_service,
            r.navigation_handler == navigation_handler,
    {
        Self { domain_service, navigation_handler }
    }

    /// Runs an action of the domain service: the result and the service's new
    /// state are those of the service's own `execute_action`.
    ///
    /// # Errors
    /// Returns the domain service's error.
    pub fn execute_domain_action<T>(&mut self, action: &str) -> (r: Result<Option<NavTarget>, String>)
        where D: DomainService<T>
        ensures
            old(self).domain_service.executes(action@, &final(self).domain_service, r),
            final(self).navigation_handler == old(self).navigation_handler,
    {
        self.domain_service.execute_action(action)
    }

    /// Navigates with the navigation handler: the result is one that the
    /// handler's own `handle_navigation` gives for the target.
    ///
    /// # Errors
    /// Returns the navigation handler's error.
    pub fn handle_navigation(&self, target: &str) -> (r: Result<Option<NavTarget>, String>)
        where N: NavigationHandler
        ensures
            call_ensures(N::handle_navigation, (&self.navigation_handler, target), r),
    {
        self.navigation_handler.handle_navigation(target)
    }
}

/// UI state management kept apart from business logic.
pub trait UiStateManager {
    /// The current UI mode.
    fn get_ui_mode(&self) -> UiMode;

    /// Sets the UI mode.
    fn set_ui_mode(&mut self, mode: UiMode);

    /// Whether the UI is in an interactive mode.
    fn is_interactive(&self) -> bool;

    /// The selection context for rendering.
    fn get_selection_context(&self) -> SelectionContext;
}

/// The interaction mode of a view.
#[derive(Debug, Clone, PartialEq, Eq, Structural)]
pub enum UiMode {
    Normal,
    Editing,
    Viewing,
    FilterEditing,
    YamlViewing,
}

/// What the UI needs to know about the current selection.
#[derive(Debug, Clone, Default)]
pub struct SelectionContext {
    pub selected_index: Option<usize>,
    pub total_items: usize,
    pub has_selection: bool,
    pub selection_valid: bool,
}

} // verus!
