//! The ingresses view: the ingresses of a workload, and what its keys do.
use crate::data::Ingress;
use crate::keys::{Key, KeyInput};
use crate::table::{selected_of, BaseTableState};
use crate::pod_app::{moves_down, step_wf};
use crate::ui_loop::{shows, Apps, Context, Load, Message, Step};
use crate::yaml::{fetch_outcome, fetch_prepared, viewer_key_effect, viewer_key_result, viewer_opened, YamlKeyResult};
use vstd::prelude::*;

verus! {

/// State of the ingresses view.
#[derive(Clone, Debug)]
pub struct App {
    pub base: BaseTableState<Ingress>,
}

impl App {
    /// An ingresses view over `data_vec`.
    pub fn new(data_vec: Vec<Ingress>) -> (r: Self)
        ensures
            r.base.is_fresh(data_vec),
    {
        App { base: BaseTableState::new(data_vec) }
    }

    /// Handles an event. With the YAML viewer shown, keys go to the viewer.
    /// Otherwise `q`/Esc leave, `j`/`k` and the arrows move, `c` cycles the
    /// colours, Enter opens the certificate of the selected ingress's host, `y`
    /// shows its YAML, `g`/`G` jump to the top or the bottom. Fresh ingresses
    /// replace the listed ones.
    pub fn handle_event(self, event: Message, ctx: &Context) -> (r: Step)
        requires
            self.base.wf(),
            message_fits_ingresses(event),
            moves_down(self.base.yaml_editor.is_active, event) ==> self.base.items@.len() > 0,
        ensures
            step_wf(r),
            match event {
                Message::Key(Some(k)) => if self.base.yaml_editor.is_active {
                    viewer_step(self, k, r)
                } else {
                    table_step(self, k, ctx.namespace@, r)
                },
                Message::Ingress(v) => shows(r, Apps::Ingress { app: App { base: self.base.with_items(v), ..self } }),
                _ => shows(r, Apps::Ingress { app: self }),
            },
    {
        let mut app = self;
        match event {
            Message::Key(Some(k)) => {
                if app.base.yaml_editor.is_active {
                    let args = app.base.viewer_key(&k);
                    match args {
                        Some(v) => Step::ShowAfterYaml(Apps::Ingress { app }, v, true),
                        None => Step::Show(Apps::Ingress { app }),
                    }
                } else {
                    app.handle_key(k, ctx)
                }
            },
            Message::Ingress(v) => {
                app.base.set_items(v);
                Step::Show(Apps::Ingress { app })
            },
            _ => Step::Show(Apps::Ingress { app }),
        }
    }

    fn handle_key(self, k: KeyInput, ctx: &Context) -> (r: Step)
        requires
            self.base.wf(),
            !self.base.yaml_editor.is_active,
            (k.code == Key::Char('j') || k.code == Key::Down) ==> self.base.items@.len() > 0,
        ensures
            step_wf(r),
            table_step(self, k, ctx.namespace@, r),
    {
        let mut app = self;
        match k.code {
            Key::Char('q') | Key::Esc => Step::Quit,
            Key::Char('j') | Key::Down => {
                app.base.next();
                Step::Show(Apps::Ingress { app })
            },
            Key::Char('k') | Key::Up => {
                app.base.previous();
                Step::Show(Apps::Ingress { app })
            },
            Key::Char('c') | Key::Char('C') => {
                app.base.next_color();
                Step::Show(Apps::Ingress { app })
            },
            Key::Enter => {
                let host = match app.base.selected_item() {
                    Some(ingress) => Some(ingress.host.clone()),
                    None => None,
                };
                match host {
                    Some(host) => Step::Load(Load::Certificate { host }, Apps::Ingress { app }),
                    None => Step::Show(Apps::Ingress { app }),
                }
            },
            Key::Char('y') | Key::Char('Y') => {
                let name = match app.base.get_selected_item() {
                    Some(ingress) => Some(ingress.name.clone()),
                    None => None,
                };
                match name {
                    Some(name) => {
                        let args = app.base.open_viewer(
                            crate::text::owned("ingress"),
                            name,
                            ctx.namespace.clone(),
                        );
                        match args {
                            Some(v) => Step::ShowAfterYaml(Apps::Ingress { app }, v, false),
                            None => Step::Show(Apps::Ingress { app }),
                        }
                    },
                    None => Step::Show(Apps::Ingress { app }),
                }
            },
            Key::Char('G') => {
                app.base.jump_to_bottom();
                Step::Show(Apps::Ingress { app })
            },
            Key::Char('g') => {
                app.base.jump_to_top();
                Step::Show(Apps::Ingress { app })
            },
            _ => Step::Show(Apps::Ingress { app }),
        }
    }
}

/// The ingresses in a message are few enough for the scrollbar arithmetic.
pub open spec fn message_fits_ingresses(m: Message) -> bool {
    m matches Message::Ingress(v) ==> v@.len() * 25 <= usize::MAX
}

/// The step of a key while the YAML viewer is shown: the viewer handles it,
/// and a refresh runs `kubectl` when its arguments are safe.
pub open spec fn viewer_step(a: App, k: KeyInput, r: Step) -> bool {
    match r {
        Step::Show(Apps::Ingress { app }) => {
            &&& a.base.same_table(app.base)
            &&& if viewer_key_result(k.code) == YamlKeyResult::Refresh {
                fetch_prepared(a.base.yaml_editor, app.base.yaml_editor, None)
            } else {
                viewer_key_effect(a.base.yaml_editor, app.base.yaml_editor, k.code)
            }
        },
        Step::ShowAfterYaml(Apps::Ingress { app }, args, fails_hard) => {
            &&& fails_hard
            &&& a.base.same_table(app.base)
            &&& viewer_key_result(k.code) == YamlKeyResult::Refresh
            &&& fetch_prepared(a.base.yaml_editor, app.base.yaml_editor, Some(args))
        },
        _ => false,
    }
}

/// The step of a key in the table of the ingresses view.
pub open spec fn table_step(a: App, k: KeyInput, ns: Seq<char>, r: Step) -> bool {
    let sel = selected_of(a.base.items@, a.base.selected);
    match k.code {
        Key::Char('q') | Key::Esc => r is Quit,
        Key::Char('j') | Key::Down => shows(r, Apps::Ingress { app: App { base: a.base.after_next(), ..a } }),
        Key::Char('k') | Key::Up => shows(r, Apps::Ingress { app: App { base: a.base.after_previous(), ..a } }),
        Key::Char('c') | Key::Char('C') => shows(r, Apps::Ingress { app: App { base: a.base.after_next_color(), ..a } }),
        Key::Char('G') => shows(r, Apps::Ingress { app: App { base: a.base.after_jump_to_bottom(), ..a } }),
        Key::Char('g') => shows(r, Apps::Ingress { app: App { base: a.base.after_jump_to_top(), ..a } }),
        Key::Enter => match sel {
            Some(ingress) => match r {
                Step::Load(Load::Certificate { host }, shown) => host == ingress.host && shown
                    == Apps::Ingress { app: a },
                _ => false,
            },
            None => shows(r, Apps::Ingress { app: a }),
        },
        Key::Char('y') | Key::Char('Y') => match sel {
            Some(ingress) => match r {
                Step::Show(Apps::Ingress { app }) => opened_for(a, app, ingress.name@, ns, None),
                Step::ShowAfterYaml(Apps::Ingress { app }, args, false) => opened_for(a, app, ingress.name@, ns, Some(args)),
                _ => false,
            },
            None => match r {
                Step::Show(Apps::Ingress { app }) => app.base.items == a.base.items
                    && app.base.selected == Some(0usize) && app.base.yaml_editor == a.base.yaml_editor,
                _ => false,
            },
        },
        _ => shows(r, Apps::Ingress { app: a }),
    }
}

/// `after` is `before` with its YAML viewer opened on the ingress `name` in the
/// namespace `ns` and a fetch prepared with the result `args`.
pub open spec fn opened_for(before: App, after: App, name: Seq<char>, ns: Seq<char>, args: Option<Vec<String>>) -> bool {
    &&& before.base.same_table(after.base)
    &&& viewer_opened(after.base.yaml_editor, "ingress"@, name, ns)
    &&& fetch_outcome(after.base.yaml_editor, args)
}

} // verus!
