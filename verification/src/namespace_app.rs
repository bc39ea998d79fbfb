//! The namespace picker: the cluster's namespaces, with a filter, and the switch
//! to another namespace.
use crate::data::Namespace;
use crate::keys::{filter_edit_of, handle_filter_editing_keys, FilterEdit, Key, KeyInput};
use crate::pod_app::step_wf;
use crate::rs_app;
use crate::table::{selected_of, BaseTableState};
use crate::ui_loop::{shows, Apps, Load, Message, Step};
use vstd::prelude::*;

verus! {

/// State of the namespace picker.
#[derive(Clone, Debug)]
pub struct App {
    pub base: BaseTableState<Namespace>,
}

/// The edit a key makes while the picker's filter is edited: a character is
/// typed, Backspace deletes, Esc and Enter close the editor; the cursor keys do
/// nothing here.
pub open spec fn namespace_filter_edit(k: Key) -> Option<FilterEdit> {
    match k {
        Key::Left | Key::Right => None,
        _ => filter_edit_of(k),
    }
}

/// The key moves the selection down in the table.
pub open spec fn namespace_moves_down(a: App, m: Message) -> bool {
    &&& !a.base.show_filter_edit
    &&& m matches Message::Key(Some(k))
    &&& (k.code == Key::Char('j') || k.code == Key::Down)
}

/// `r` shows a fresh workloads view with no rows yet.
pub open spec fn shows_fresh_workloads(r: Step) -> bool {
    match r {
        Step::Show(Apps::Rs { app }) => {
            &&& app.base.is_fresh(app.base.items)
            &&& app.base.items@.len() == 0
            &&& !app.has_network_activity
            &&& !app.has_blocking_activity
        },
        _ => false,
    }
}

/// The step of a key in the picker's table: `q` quits the application, Esc goes
/// back to a fresh workloads view, the movement and colour keys act on the
/// table, `/` opens the filter, and Enter on a namespace goes back to a fresh
/// workloads view, switching to the namespace first unless it is the current
/// one (a failed switch keeps the picker).
pub open spec fn namespace_table_step(a: App, k: KeyInput, r: Step) -> bool {
    let sel = selected_of(a.base.items@, a.base.selected);
    match k.code {
        Key::Char('q') => r is QuitAll,
        Key::Esc => shows_fresh_workloads(r),
        Key::Char('j') | Key::Down => shows(r, Apps::Namespace { app: App { base: a.base.after_next() } }),
        Key::Char('k') | Key::Up => shows(r, Apps::Namespace { app: App { base: a.base.after_previous() } }),
        Key::Char('c') | Key::Char('C') => shows(r, Apps::Namespace { app: App { base: a.base.after_next_color() } }),
        Key::Char('G') => shows(r, Apps::Namespace { app: App { base: a.base.after_jump_to_bottom() } }),
        Key::Char('g') => shows(r, Apps::Namespace { app: App { base: a.base.after_jump_to_top() } }),
        Key::Char('/') => shows(
            r,
            Apps::Namespace { app: App { base: BaseTableState { show_filter_edit: true, ..a.base } } },
        ),
        Key::Enter => match sel {
            Some(ns) => if ns.is_current {
                shows_fresh_workloads(r)
            } else {
                match r {
                    Step::Load(Load::SwitchNamespace { name }, shown) => name@ == ns.name@ && shown
                        == Apps::Namespace { app: a },
                    _ => false,
                }
            },
            None => shows(r, Apps::Namespace { app: a }),
        },
        _ => shows(r, Apps::Namespace { app: a }),
    }
}

impl App {
    /// A picker over the namespaces `data_vec`.
    pub fn new(data_vec: Vec<Namespace>) -> (r: Self)
        ensures
            r.base.is_fresh(data_vec),
    {
        App { base: BaseTableState::new(data_vec) }
    }

    /// Handles an event. While the filter is edited, keys edit it (see
    /// `namespace_filter_edit`); otherwise see `namespace_table_step`. Fresh
    /// namespaces replace the listed ones.
    pub fn handle_event(self, event: Message) -> (r: Step)
        requires
            self.base.wf(),
            event matches Message::Namespace(v) ==> v@.len() * 25 <= usize::MAX,
            namespace_moves_down(self, event) ==> self.base.items@.len() > 0,
        ensures
            step_wf(r),
            match event {
                Message::Key(Some(k)) => if self.base.show_filter_edit {
                    match namespace_filter_edit(k.code) {
                        Some(e) => match r {
                            Step::Show(Apps::Namespace { app }) => self.base.filter_edited(app.base, e),
                            _ => false,
                        },
                        None => shows(r, Apps::Namespace { app: self }),
                    }
                } else {
                    namespace_table_step(self, k, r)
                },
                Message::Namespace(v) => shows(r, Apps::Namespace { app: App { base: self.base.with_items(v) } }),
                _ => shows(r, Apps::Namespace { app: self }),
            },
    {
        let mut app = self;
        match event {
            Message::Key(Some(k)) => {
                if app.base.show_filter_edit {
                    let edit = match k.code {
                        Key::Left | Key::Right => None,
                        _ => handle_filter_editing_keys(&k),
                    };
                    match edit {
                        Some(e) => app.base.apply_filter_edit(e),
                        None => {},
                    }
                    Step::Show(Apps::Namespace { app })
                } else {
                    app.handle_key(k)
                }
            },
            Message::Namespace(v) => {
                app.base.set_items(v);
                Step::Show(Apps::Namespace { app })
            },
            _ => Step::Show(Apps::Namespace { app }),
        }
    }

    fn handle_key(self, k: KeyInput) -> (r: Step)
        requires
            self.base.wf(),
            !self.base.show_filter_edit,
            (k.code == Key::Char('j') || k.code == Key::Down) ==> self.base.items@.len() > 0,
        ensures
            step_wf(r),
            namespace_table_step(self, k, r),
    {
        let mut app = self;
        match k.code {
            Key::Char('q') => Step::QuitAll,
            Key::Esc => Step::Show(Apps::Rs { app: rs_app::App::new(Vec::new()) }),
            Key::Char('j') | Key::Down => {
                app.base.next();
                Step::Show(Apps::Namespace { app })
            },
            Key::Char('k') | Key::Up => {
                app.base.previous();
                Step::Show(Apps::Namespace { app })
            },
            Key::Char('c') | Key::Char('C') => {
                app.base.next_color();
                Step::Show(Apps::Namespace { app })
            },
            Key::Char('G') => {
                app.base.jump_to_bottom();
                Step::Show(Apps::Namespace { app })
            },
            Key::Char('g') => {
                app.base.jump_to_top();
                Step::Show(Apps::Namespace { app })
            },
            Key::Char('/') => {
                app.base.show_filter_edit = true;
                Step::Show(Apps::Namespace { app })
            },
            Key::Enter => {
                let target = match app.base.selected_item() {
                    Some(ns) => Some((ns.is_current, ns.name.clone())),
                    None => None,
                };
                match target {
                    Some((true, _)) => Step::Show(Apps::Rs { app: rs_app::App::new(Vec::new()) }),
                    Some((false, name)) => Step::Load(Load::SwitchNamespace { name }, Apps::Namespace { app }),
                    None => Step::Show(Apps::Namespace { app }),
                }
            },
            _ => Step::Show(Apps::Namespace { app }),
        }
    }
}

} // verus!
