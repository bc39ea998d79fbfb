//! The pods view: the pods of a workload, and what its keys do.
use crate::data::{label_details, label_rows, RsPod};
use crate::keys::{Key, KeyInput};
use crate::table::{selected_of, BaseTableState};
use crate::ui_loop::{shows, Apps, Context, Load, Message, Step};
use crate::yaml::{fetch_outcome, fetch_prepared, viewer_key_effect, viewer_key_result, viewer_opened, YamlKeyResult};
use std::collections::BTreeMap;
use vstd::prelude::*;

verus! {

/// Which pods a pods view lists.
#[derive(Clone, Debug)]
pub enum PodSelector {
    /// The pods carrying these labels.
    ByLabels(BTreeMap<String, String>),
    /// The pods that no controller owns.
    Unowned,
    /// The pods of the named job.
    ByJob(String),
}

/// State of the pods view.
#[derive(Clone, Debug)]
pub struct App {
    pub base: BaseTableState<RsPod>,
    pub selector: PodSelector,
}

impl App {
    /// A pods view over `data_vec`, listing the pods that `selector` picks.
    pub fn new(selector: PodSelector, data_vec: Vec<RsPod>) -> (r: Self)
        ensures
            r.base.is_fresh(data_vec),
            r.selector == selector,
    {
        App { base: BaseTableState::new(data_vec), selector }
    }

    /// The labels of the selected pod as (name, value) rows sorted by name; none
    /// when nothing is selected or the pod has no labels.
    pub fn get_label_details(&mut self) -> (r: Vec<(String, String, Option<String>)>)
        requires
            old(self).base.items@.len() * 25 <= usize::MAX,
        ensures
            final(self).base == old(self).base.after_lookup(),
            final(self).selector == old(self).selector,
            match selected_of(old(self).base.items@, old(self).base.selected) {
                Some(pod) => match pod.selectors {
                    Some(m) => label_rows(m@, r@),
                    None => r@.len() == 0,
                },
                None => r@.len() == 0,
            },
    {
        match self.base.get_selected_item() {
            Some(pod) => label_details(&pod.selectors),
            None => Vec::new(),
        }
    }

    /// The events of the selected pod as (type, message, age) rows; none when
    /// nothing is selected.
    pub fn get_event_details(&mut self) -> (r: Vec<(String, String, Option<String>)>)
        requires
            old(self).base.items@.len() * 25 <= usize::MAX,
        ensures
            final(self).base == old(self).base.after_lookup(),
            final(self).selector == old(self).selector,
            match selected_of(old(self).base.items@, old(self).base.selected) {
                Some(pod) => {
                    &&& r@.len() == pod.events@.len()
                    &&& forall|i: int|
                        0 <= i < r@.len() ==> {
                            let e = #[trigger] pod.events@[i];
                            &&& r@[i].0 == e.type_
                            &&& r@[i].1 == e.message
                            &&& r@[i].2 == Some(e.age)
                        }
                },
                None => r@.len() == 0,
            },
    {
        let mut r: Vec<(String, String, Option<String>)> = Vec::new();
        match self.base.get_selected_item() {
            Some(pod) => {
                let mut i: usize = 0;
                while i < pod.events.len()
                    invariant
                        i <= pod.events@.len(),
                        r@.len() == i,
                        forall|j: int|
                            0 <= j < i ==> {
                                let e = #[trigger] pod.events@[j];
                                &&& r@[j].0 == e.type_
                                &&& r@[j].1 == e.message
                                &&& r@[j].2 == Some(e.age)
                            },
                    decreases pod.events.len() - i,
                {
                    let e = &pod.events[i];
                    r.push((e.type_.clone(), e.message.clone(), Some(e.age.clone())));
                    i = i + 1;
                }
            },
            None => {},
        }
        r
    }

    /// Handles an event. With the YAML viewer shown, keys go to the viewer.
    /// Otherwise `q`/Esc leave, `j`/`k` and the arrows move, `c` cycles the
    /// colours, `i` opens the ingresses and Enter the containers of the selected
    /// pod, `y` shows its YAML, `g`/`G` jump to the top or the bottom. Fresh pods
    /// replace the listed ones.
    pub fn handle_event(self, event: Message, ctx: &Context) -> (r: Step)
        requires
            self.base.wf(),
            message_fits_pods(event),
            moves_down(self.base.yaml_editor.is_active, event) ==> self.base.items@.len() > 0,
        ensures
            step_wf(r),
            match event {
                Message::Key(Some(k)) => if self.base.yaml_editor.is_active {
                    viewer_step(self, k, r)
                } else {
                    table_step(self, k, ctx.namespace@, r)
                },
                Message::Pod(v) => shows(r, Apps::Pod { app: App { base: self.base.with_items(v), ..self } }),
                _ => shows(r, Apps::Pod { app: self }),
            },
    {
        let mut app = self;
        match event {
            Message::Key(Some(k)) => {
                if app.base.yaml_editor.is_active {
                    let args = app.base.viewer_key(&k);
                    match args {
                        Some(v) => Step::ShowAfterYaml(Apps::Pod { app }, v, true),
                        None => Step::Show(Apps::Pod { app }),
                    }
                } else {
                    app.handle_key(k, ctx)
                }
            },
            Message::Pod(v) => {
                app.base.set_items(v);
                Step::Show(Apps::Pod { app })
            },
            _ => Step::Show(Apps::Pod { app }),
        }
    }

    fn handle_key(self, k: KeyInput, ctx: &Context) -> (r: Step)
        requires
            self.base.wf(),
            !self.base.yaml_editor.is_active,
            (k.code == Key::Char('j') || k.code == Key::Down) ==> self.base.items@.len() > 0,
        ensures
            step_wf(r),
            table_step(self, k, ctx.namespace@, r),
    {
        let mut app = self;
        match k.code {
            Key::Char('q') | Key::Esc => Step::Quit,
            Key::Char('j') | Key::Down => {
                app.base.next();
                Step::Show(Apps::Pod { app })
            },
            Key::Char('k') | Key::Up => {
                app.base.previous();
                Step::Show(Apps::Pod { app })
            },
            Key::Char('c') | Key::Char('C') => {
                app.base.next_color();
                Step::Show(Apps::Pod { app })
            },
            Key::Char('i') | Key::Char('I') => {
                let selector = match app.base.selected_item() {
                    Some(pod) => match &pod.selectors {
                        Some(s) => Some(s.clone()),
                        None => None,
                    },
                    None => None,
                };
                match selector {
                    Some(selector) => Step::Load(Load::Ingresses { selector }, Apps::Pod { app }),
                    None => Step::Show(Apps::Pod { app }),
                }
            },
            Key::Enter => {
                let target = match app.base.selected_item() {
                    Some(pod) => match &pod.selectors {
                        Some(s) => Some((s.clone(), pod.name.clone())),
                        None => None,
                    },
                    None => None,
                };
                match target {
                    Some((selectors, pod_name)) => Step::Load(
                        Load::Containers { selectors, pod_name },
                        Apps::Pod { app },
                    ),
                    None => Step::Show(Apps::Pod { app }),
                }
            },
            Key::Char('y') | Key::Char('Y') => {
                let name = match app.base.get_selected_item() {
                    Some(pod) => Some(pod.name.clone()),
                    None => None,
                };
                match name {
                    Some(name) => {
                        let args = app.base.open_viewer(
                            crate::text::owned("pod"),
                            name,
                            ctx.namespace.clone(),
                        );
                        match args {
                            Some(v) => Step::ShowAfterYaml(Apps::Pod { app }, v, false),
                            None => Step::Show(Apps::Pod { app }),
                        }
                    },
                    None => Step::Show(Apps::Pod { app }),
                }
            },
            Key::Char('G') => {
                app.base.jump_to_bottom();
                Step::Show(Apps::Pod { app })
            },
            Key::Char('g') => {
                app.base.jump_to_top();
                Step::Show(Apps::Pod { app })
            },
            _ => Step::Show(Apps::Pod { app }),
        }
    }
}

/// The pods in a message are few enough for the scrollbar arithmetic.
pub open spec fn message_fits_pods(m: Message) -> bool {
    m matches Message::Pod(v) ==> v@.len() * 25 <= usize::MAX
}

/// The event is a key that moves the selection down in the table.
pub open spec fn moves_down(viewer_shown: bool, m: Message) -> bool {
    &&& !viewer_shown
    &&& m matches Message::Key(Some(k))
    &&& (k.code == Key::Char('j') || k.code == Key::Down)
}

/// Every view a step shows is well formed.
pub open spec fn step_wf(s: Step) -> bool {
    match s {
        Step::Quit => true,
        Step::QuitAll => true,
        Step::Show(a) => crate::ui_loop::apps_wf(a),
        Step::ShowAfterYaml(a, _, _) => crate::ui_loop::apps_wf(a),
        Step::Load(_, a) => crate::ui_loop::apps_wf(a),
    }
}

/// The step of a key while the YAML viewer is shown: the viewer handles it,
/// and a refresh runs `kubectl` when its arguments are safe.
pub open spec fn viewer_step(a: App, k: KeyInput, r: Step) -> bool {
    match r {
        Step::Show(Apps::Pod { app }) => {
            &&& a.base.same_table(app.base)
            &&& app.selector == a.selector
            &&& if viewer_key_result(k.code) == YamlKeyResult::Refresh {
                fetch_prepared(a.base.yaml_editor, app.base.yaml_editor, None)
            } else {
                viewer_key_effect(a.base.yaml_editor, app.base.yaml_editor, k.code)
            }
        },
        Step::ShowAfterYaml(Apps::Pod { app }, args, fails_hard) => {
            &&& fails_hard
            &&& a.base.same_table(app.base)
            &&& app.selector == a.selector
            &&& viewer_key_result(k.code) == YamlKeyResult::Refresh
            &&& fetch_prepared(a.base.yaml_editor, app.base.yaml_editor, Some(args))
        },
        _ => false,
    }
}

/// The step of a key in the table of the pods view.
pub open spec fn table_step(a: App, k: KeyInput, ns: Seq<char>, r: Step) -> bool {
    let sel = selected_of(a.base.items@, a.base.selected);
    match k.code {
        Key::Char('q') | Key::Esc => r is Quit,
        Key::Char('j') | Key::Down => shows(r, Apps::Pod { app: App { base: a.base.after_next(), ..a } }),
        Key::Char('k') | Key::Up => shows(r, Apps::Pod { app: App { base: a.base.after_previous(), ..a } }),
        Key::Char('c') | Key::Char('C') => shows(r, Apps::Pod { app: App { base: a.base.after_next_color(), ..a } }),
        Key::Char('G') => shows(r, Apps::Pod { app: App { base: a.base.after_jump_to_bottom(), ..a } }),
        Key::Char('g') => shows(r, Apps::Pod { app: App { base: a.base.after_jump_to_top(), ..a } }),
        Key::Char('i') | Key::Char('I') => if sel is Some && sel.unwrap().selectors is Some {
            match r {
                Step::Load(Load::Ingresses { selector }, shown) => selector@
                    == sel.unwrap().selectors.unwrap()@ && shown == Apps::Pod { app: a },
                _ => false,
            }
        } else {
            shows(r, Apps::Pod { app: a })
        },
        Key::Enter => if sel is Some && sel.unwrap().selectors is Some {
            match r {
                Step::Load(Load::Containers { selectors, pod_name }, shown) => selectors@
                    == sel.unwrap().selectors.unwrap()@ && pod_name == sel.unwrap().name && shown
                    == Apps::Pod { app: a },
                _ => false,
            }
        } else {
            shows(r, Apps::Pod { app: a })
        },
        Key::Char('y') | Key::Char('Y') => match sel {
            Some(pod) => match r {
                Step::Show(Apps::Pod { app }) => opened_for(a, app, pod.name@, ns, None),
                Step::ShowAfterYaml(Apps::Pod { app }, args, false) => opened_for(a, app, pod.name@, ns, Some(args)),
                _ => false,
            },
            None => match r {
                Step::Show(Apps::Pod { app }) => app.selector == a.selector && app.base.items == a.base.items
                    && app.base.selected == Some(0usize) && app.base.yaml_editor == a.base.yaml_editor,
                _ => false,
            },
        },
        _ => shows(r, Apps::Pod { app: a }),
    }
}

/// `after` is `before` with its YAML viewer opened on the pod `name` in the
/// namespace `ns` and a fetch prepared with the result `args`.
pub open spec fn opened_for(before: App, after: App, name: Seq<char>, ns: Seq<char>, args: Option<Vec<String>>) -> bool {
    &&& before.base.same_table(after.base)
    &&& after.selector == before.selector
    &&& viewer_opened(after.base.yaml_editor, "pod"@, name, ns)
    &&& fetch_outcome(after.base.yaml_editor, args)
}

} // verus!
