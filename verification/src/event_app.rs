//! The events view: the cluster's events, with a filter, and what its keys do.
use crate::data::{event_constraint_len_calculator, ResourceEvent};
use crate::keys::{
    common_action, handle_common_keys, handle_filter_editing_keys, CommonKeyAction, Key, KeyInput,
};
use crate::pod_app::step_wf;
use crate::table::BaseTableState;
use crate::ui_loop::{shows, Apps, Message, Step};
use vstd::prelude::*;

verus! {

/// State of the events view.
#[derive(Debug)]
pub struct App {
    pub base: BaseTableState<ResourceEvent>,
    /// The widths of the object, message, reason, type and age columns.
    pub longest_item_lens: (u16, u16, u16, u16, u16),
}

/// The key asks the table to move down.
pub open spec fn event_moves_down(a: App, m: Message) -> bool {
    &&& !a.base.show_filter_edit
    &&& m matches Message::Key(Some(k))
    &&& common_action(k) == CommonKeyAction::Next
}

/// The view after fresh events: they replace the listed ones and the column
/// widths are measured on them.
pub open spec fn with_events(a: App, after: App, v: Vec<ResourceEvent>) -> bool {
    &&& after.base == a.base.with_items(v)
    &&& after.longest_item_lens == event_constraint_len_calculator_spec(v@)
}

/// The column widths that `event_constraint_len_calculator` measures.
pub open spec fn event_constraint_len_calculator_spec(items: Seq<ResourceEvent>) -> (u16, u16, u16, u16, u16) {
    (
        crate::data::column_width(items.map_values(|x: ResourceEvent| x.object@)) as u16,
        crate::data::column_width(items.map_values(|x: ResourceEvent| x.message@)) as u16,
        crate::data::column_width(items.map_values(|x: ResourceEvent| x.reason@)) as u16,
        crate::data::column_width(items.map_values(|x: ResourceEvent| x.type_@)) as u16,
        crate::data::column_width(items.map_values(|x: ResourceEvent| x.age@)) as u16,
    )
}

impl Clone for App {
    fn clone(&self) -> (r: Self) {
        App { base: self.base.clone(), longest_item_lens: self.longest_item_lens }
    }
}

impl App {
    /// An empty events view.
    pub fn new() -> (r: Self)
        ensures
            r.base.is_fresh(r.base.items),
            r.base.items@.len() == 0,
            r.longest_item_lens == event_constraint_len_calculator_spec(Seq::empty()),
    {
        let data_vec: Vec<ResourceEvent> = Vec::new();
        let lens = event_constraint_len_calculator(data_vec.as_slice());
        proof {
            assert(data_vec@ =~= Seq::<ResourceEvent>::empty());
        }
        App { base: BaseTableState::new(data_vec), longest_item_lens: lens }
    }

    fn handle_data_update(self, data_vec: Vec<ResourceEvent>) -> (r: Self)
        requires
            self.base.wf(),
            data_vec@.len() * 25 <= usize::MAX,
        ensures
            with_events(self, r, data_vec),
            r.base.wf(),
    {
        let mut app = self;
        let lens = event_constraint_len_calculator(data_vec.as_slice());
        app.base.set_items(data_vec);
        app.longest_item_lens = lens;
        app
    }

    /// Handles an event. While the filter is edited, keys edit it. Otherwise the
    /// common table keys apply (`q`/Esc leave), and `/` opens the filter. Fresh
    /// events replace the listed ones.
    pub fn handle_event(self, event: Message) -> (r: Step)
        requires
            self.base.wf(),
            event matches Message::Event(v) ==> v@.len() * 25 <= usize::MAX,
            event_moves_down(self, event) ==> self.base.items@.len() > 0,
        ensures
            step_wf(r),
            match event {
                Message::Key(Some(k)) => if self.base.show_filter_edit {
                    match crate::keys::filter_edit_of(k.code) {
                        Some(e) => match r {
                            Step::Show(Apps::Event { app }) => self.base.filter_edited(app.base, e)
                                && app.longest_item_lens == self.longest_item_lens,
                            _ => false,
                        },
                        None => shows(r, Apps::Event { app: self }),
                    }
                } else {
                    match common_action(k) {
                        CommonKeyAction::Quit => r is Quit,
                        CommonKeyAction::NotHandled => if k.code == Key::Char('/') {
                            shows(r, Apps::Event { app: App { base: crate::table::BaseTableState { show_filter_edit: true, ..self.base }, ..self } })
                        } else {
                            shows(r, Apps::Event { app: self })
                        },
                        a => shows(r, Apps::Event { app: App { base: self.base.after_common(a), ..self } }),
                    }
                },
                Message::Event(v) => match r {
                    Step::Show(Apps::Event { app }) => with_events(self, app, v),
                    _ => false,
                },
                _ => shows(r, Apps::Event { app: self }),
            },
    {
        let mut app = self;
        match event {
            Message::Key(Some(k)) => {
                if app.base.show_filter_edit {
                    match handle_filter_editing_keys(&k) {
                        Some(e) => {
                            app.base.apply_filter_edit(e);
                            Step::Show(Apps::Event { app })
                        },
                        None => Step::Show(Apps::Event { app }),
                    }
                } else {
                    match handle_common_keys(&k) {
                        CommonKeyAction::Quit => Step::Quit,
                        CommonKeyAction::NotHandled => {
                            if k.code == Key::Char('/') {
                                app.base.show_filter_edit = true;
                            }
                            Step::Show(Apps::Event { app })
                        },
                        a => {
                            app.base.apply_common(a);
                            Step::Show(Apps::Event { app })
                        },
                    }
                }
            },
            Message::Event(v) => Step::Show(Apps::Event { app: app.handle_data_update(v) }),
            _ => Step::Show(Apps::Event { app }),
        }
    }
}

} // verus!
