//! The views the user moves through, what one event does to the current view,
//! and the stack of views that `Enter` goes into and `Esc` comes back out of.
use crate::cert_app;
use crate::container_app;
use crate::data::{Cert, Container, Ingress, LogRec, Namespace, ResourceEvent, Rs, RsPod};
use crate::event_app;
use crate::ingress_app;
use crate::keys::{common_action, CommonKeyAction, Key, KeyInput};
use crate::pod_app::step_wf;
use crate::table::BaseTableState;
use crate::yaml::{failure_recorded, output_recorded, YamlEditor};
use crate::log_app;
use crate::namespace_app;
use crate::pod_app;
use crate::rs_app;
use std::collections::BTreeMap;
use vstd::prelude::*;

verus! {

/// Something that happened: a terminal event or fresh data for a view.
pub enum Message {
    /// A terminal event: `Some` key press, or `None` for any other event.
    Key(Option<KeyInput>),
    Pod(Vec<RsPod>),
    Rs(Vec<Rs>),
    Ingress(Vec<Ingress>),
    Container(Vec<Container>),
    Cert(Vec<Cert>),
    Log(Vec<LogRec>),
    Event(Vec<ResourceEvent>),
    Namespace(Vec<Namespace>),
}

/// The data of a message is small enough for the scrollbar arithmetic.
pub open spec fn message_fits(m: Message) -> bool {
    match m {
        Message::Key(_) => true,
        Message::Pod(v) => v@.len() * 25 <= usize::MAX,
        Message::Rs(v) => v@.len() * 25 <= usize::MAX,
        Message::Ingress(v) => v@.len() * 25 <= usize::MAX,
        Message::Container(v) => v@.len() * 25 <= usize::MAX,
        Message::Cert(v) => v@.len() * 25 <= usize::MAX,
        Message::Log(v) => v@.len() * 25 <= usize::MAX,
        Message::Event(v) => v@.len() * 25 <= usize::MAX,
        Message::Namespace(v) => v@.len() * 25 <= usize::MAX,
    }
}

/// What the views read of the world around them when they handle an event.
pub struct Context {
    /// The namespace being browsed.
    pub namespace: String,
    /// Data is being fetched in the background.
    pub has_network_activity: bool,
    /// A view waits for data that was not cached.
    pub has_blocking_activity: bool,
}

/// A view and its state.
#[derive(Clone, Debug)]
pub enum Apps {
    Rs { app: rs_app::App },
    Pod { app: pod_app::App },
    Container { app: container_app::App },
    Ingress { app: ingress_app::App },
    Cert { app: cert_app::App },
    Log { app: log_app::App },
    Event { app: event_app::App },
    Namespace { app: namespace_app::App },
}

/// The kinds of views.
#[derive(Clone, Copy, Debug, PartialEq, Eq, Structural)]
pub enum AppKind {
    Rs,
    Pod,
    Container,
    Ingress,
    Cert,
    Log,
    Event,
    Namespace,
}

/// The kind of a view.
pub open spec fn kind_of(a: Apps) -> AppKind {
    match a {
        Apps::Rs { .. } => AppKind::Rs,
        Apps::Pod { .. } => AppKind::Pod,
        Apps::Container { .. } => AppKind::Container,
        Apps::Ingress { .. } => AppKind::Ingress,
        Apps::Cert { .. } => AppKind::Cert,
        Apps::Log { .. } => AppKind::Log,
        Apps::Event { .. } => AppKind::Event,
        Apps::Namespace { .. } => AppKind::Namespace,
    }
}

/// A view's state stays within the bounds its handlers need.
pub open spec fn apps_wf(a: Apps) -> bool {
    match a {
        Apps::Rs { app } => app.base.wf(),
        Apps::Pod { app } => app.base.wf(),
        Apps::Container { app } => app.wf(),
        Apps::Ingress { app } => app.base.wf(),
        Apps::Cert { app } => app.base.wf(),
        Apps::Log { app } => app.wf(),
        Apps::Event { app } => app.base.wf(),
        Apps::Namespace { app } => app.base.wf(),
    }
}

/// The step shows exactly the view `a`.
pub open spec fn shows(s: Step, a: Apps) -> bool {
    match s {
        Step::Show(x) => x == a,
        _ => false,
    }
}

/// Data to fetch before a view can be opened.
#[derive(Clone, Debug)]
pub enum Load {
    /// The ingresses of the workload with these label selectors.
    Ingresses { selector: BTreeMap<String, String> },
    /// The containers of a pod.
    Containers { selectors: BTreeMap<String, String>, pod_name: String },
    /// The TLS certificate presented by a host.
    Certificate { host: String },
    /// The namespaces, for the namespace picker.
    Namespaces,
    /// A switch of the browsed namespace to `name`, after which a fresh
    /// workloads view opens.
    SwitchNamespace { name: String },
}

/// What a view asks for after handling an event.
pub enum Step {
    /// Leave the current view.
    Quit,
    /// Leave the whole application.
    QuitAll,
    /// Show this view next: the same view, updated, or another one.
    Show(Apps),
    /// Show this view after running `kubectl` with these arguments and recording
    /// its output in the view's YAML viewer. When the flag is set (a refresh of
    /// the shown YAML), a failed run ends the session with its error; when it is
    /// not (the YAML is being opened), the failure is only shown in the viewer.
    ShowAfterYaml(Apps, Vec<String>, bool),
    /// Fetch this data and open the view it is for. A certificate that cannot be
    /// read, or a namespace that cannot be switched to, leaves the given view
    /// shown; the other fetches end the session when they fail.
    Load(Load, Apps),
}

/// Whether a failure to fetch `l` leaves the current view shown (rather than
/// ending the session with the error).
pub open spec fn load_fails_softly(l: Load) -> bool {
    l is Certificate || l is SwitchNamespace
}

impl Load {
    /// Whether a failure to fetch this data leaves the current view shown.
    pub fn fails_softly(&self) -> (b: bool)
        ensures
            b == load_fails_softly(*self),
    {
        match self {
            Load::Certificate { .. } => true,
            Load::SwitchNamespace { .. } => true,
            _ => false,
        }
    }
}

impl Apps {
    /// The kind of this view.
    pub fn kind(&self) -> (k: AppKind)
        ensures
            k == kind_of(*self),
    {
        match self {
            Apps::Rs { .. } => AppKind::Rs,
            Apps::Pod { .. } => AppKind::Pod,
            Apps::Container { .. } => AppKind::Container,
            Apps::Ingress { .. } => AppKind::Ingress,
            Apps::Cert { .. } => AppKind::Cert,
            Apps::Log { .. } => AppKind::Log,
            Apps::Event { .. } => AppKind::Event,
            Apps::Namespace { .. } => AppKind::Namespace,
        }
    }
}

/// The YAML viewer of a view.
pub open spec fn viewer_of(a: Apps) -> YamlEditor {
    match a {
        Apps::Rs { app } => app.base.yaml_editor,
        Apps::Pod { app } => app.base.yaml_editor,
        Apps::Container { app } => app.base.yaml_editor,
        Apps::Ingress { app } => app.base.yaml_editor,
        Apps::Cert { app } => app.base.yaml_editor,
        Apps::Log { app } => app.base.yaml_editor,
        Apps::Event { app } => app.base.yaml_editor,
        Apps::Namespace { app } => app.base.yaml_editor,
    }
}

/// The view `a` with its YAML viewer replaced by `e`, and nothing else changed.
pub open spec fn with_viewer(a: Apps, e: YamlEditor) -> Apps {
    match a {
        Apps::Rs { app } => Apps::Rs {
            app: rs_app::App { base: BaseTableState { yaml_editor: e, ..app.base }, ..app },
        },
        Apps::Pod { app } => Apps::Pod {
            app: pod_app::App { base: BaseTableState { yaml_editor: e, ..app.base }, ..app },
        },
        Apps::Container { app } => Apps::Container {
            app: container_app::App { base: BaseTableState { yaml_editor: e, ..app.base }, ..app },
        },
        Apps::Ingress { app } => Apps::Ingress {
            app: ingress_app::App { base: BaseTableState { yaml_editor: e, ..app.base }, ..app },
        },
        Apps::Cert { app } => Apps::Cert {
            app: cert_app::App { base: BaseTableState { yaml_editor: e, ..app.base }, ..app },
        },
        Apps::Log { app } => Apps::Log {
            app: log_app::App { base: BaseTableState { yaml_editor: e, ..app.base }, ..app },
        },
        Apps::Event { app } => Apps::Event {
            app: event_app::App { base: BaseTableState { yaml_editor: e, ..app.base }, ..app },
        },
        Apps::Namespace { app } => Apps::Namespace {
            app: namespace_app::App { base: BaseTableState { yaml_editor: e, ..app.base } },
        },
    }
}

/// The event asks the view's table to move its selection down: with no rows,
/// that is the one event a view cannot handle.
pub open spec fn moves_down_in(a: Apps, m: Message) -> bool {
    match a {
        Apps::Rs { app } => crate::rs_app::rs_moves_down(app, m),
        Apps::Pod { app } => crate::pod_app::moves_down(app.base.yaml_editor.is_active, m),
        Apps::Container { app } => crate::container_app::container_moves_down(app, m),
        Apps::Ingress { app } => crate::pod_app::moves_down(app.base.yaml_editor.is_active, m),
        Apps::Cert { app } => crate::pod_app::moves_down(false, m),
        Apps::Log { app } => crate::log_app::log_moves_down(app, m),
        Apps::Event { app } => crate::event_app::event_moves_down(app, m),
        Apps::Namespace { app } => crate::namespace_app::namespace_moves_down(app, m),
    }
}

/// The number of rows of a view's table.
pub open spec fn rows_of(a: Apps) -> nat {
    match a {
        Apps::Rs { app } => app.base.items@.len(),
        Apps::Pod { app } => app.base.items@.len(),
        Apps::Container { app } => app.base.items@.len(),
        Apps::Ingress { app } => app.base.items@.len(),
        Apps::Cert { app } => app.base.items@.len(),
        Apps::Log { app } => app.base.items@.len(),
        Apps::Event { app } => app.base.items@.len(),
        Apps::Namespace { app } => app.base.items@.len(),
    }
}

/// How the run of a view goes on after one of its events.
pub enum RunControl {
    /// Keep running the same kind of view, now in this state.
    Continue(Apps),
    /// Stop running this view: open the given one, or go back when there is none.
    Leave(Option<Apps>),
}

/// A view's run goes on while its events leave a view of the same kind; a view
/// of another kind, or none, ends it.
pub fn run_control(current: AppKind, result: Option<Apps>) -> (r: RunControl)
    ensures
        match result {
            Some(a) => if kind_of(a) == current {
                r == RunControl::Continue(a)
            } else {
                r == RunControl::Leave(Some(a))
            },
            None => r == RunControl::Leave(None),
        },
{
    match result {
        Some(a) => {
            if a.kind() == current {
                RunControl::Continue(a)
            } else {
                RunControl::Leave(Some(a))
            }
        },
        None => RunControl::Leave(None),
    }
}

impl Apps {
    /// Handles an event in the view: the step is one that the view's own
    /// `handle_event` can give for the event, so all that it promises holds.
    pub fn handle_event(self, event: Message, ctx: &Context) -> (r: Step)
        requires
            apps_wf(self),
            message_fits(event),
            moves_down_in(self, event) ==> rows_of(self) > 0,
        ensures
            step_wf(r),
            match self {
                Apps::Rs { app } => call_ensures(crate::rs_app::App::handle_event, (app, event, ctx), r),
                Apps::Pod { app } => call_ensures(crate::pod_app::App::handle_event, (app, event, ctx), r),
                Apps::Container { app } => call_ensures(crate::container_app::App::handle_event, (app, event), r),
                Apps::Ingress { app } => call_ensures(crate::ingress_app::App::handle_event, (app, event, ctx), r),
                Apps::Cert { app } => call_ensures(crate::cert_app::App::handle_event, (app, event), r),
                Apps::Log { app } => call_ensures(crate::log_app::App::handle_event, (app, event), r),
                Apps::Event { app } => call_ensures(crate::event_app::App::handle_event, (app, event), r),
                Apps::Namespace { app } => call_ensures(crate::namespace_app::App::handle_event, (app, event), r),
            },
    {
        match self {
            Apps::Rs { app } => app.handle_event(event, ctx),
            Apps::Pod { app } => app.handle_event(event, ctx),
            Apps::Container { app } => app.handle_event(event),
            Apps::Ingress { app } => app.handle_event(event, ctx),
            Apps::Cert { app } => app.handle_event(event),
            Apps::Log { app } => app.handle_event(event),
            Apps::Event { app } => app.handle_event(event),
            Apps::Namespace { app } => app.handle_event(event),
        }
    }

    /// Whether the event asks an empty table to move down, which the views
    /// cannot do.
    pub fn moves_down_on_empty(&self, event: &Message) -> (b: bool)
        ensures
            b == (moves_down_in(*self, *event) && rows_of(*self) == 0),
    {
        let down = match event {
            Message::Key(Some(k)) => match self {
                Apps::Rs { app } => !app.base.yaml_editor.is_active && !app.base.show_filter_edit
                    && crate::keys::handle_common_keys(k) == CommonKeyAction::Next,
                Apps::Pod { app } => !app.base.yaml_editor.is_active && (k.code == Key::Char('j')
                    || k.code == Key::Down),
                Apps::Container { .. } => crate::keys::handle_common_keys(k) == CommonKeyAction::Next,
                Apps::Ingress { app } => !app.base.yaml_editor.is_active && (k.code == Key::Char('j')
                    || k.code == Key::Down),
                Apps::Cert { .. } => k.code == Key::Char('j') || k.code == Key::Down,
                Apps::Log { app } => !app.base.show_filter_edit && crate::keys::handle_common_keys(k)
                    == CommonKeyAction::Next,
                Apps::Event { app } => !app.base.show_filter_edit && crate::keys::handle_common_keys(k)
                    == CommonKeyAction::Next,
                Apps::Namespace { app } => !app.base.show_filter_edit && (k.code == Key::Char('j')
                    || k.code == Key::Down),
            },
            _ => false,
        };
        let rows = match self {
            Apps::Rs { app } => app.base.items.len(),
            Apps::Pod { app } => app.base.items.len(),
            Apps::Container { app } => app.base.items.len(),
            Apps::Ingress { app } => app.base.items.len(),
            Apps::Cert { app } => app.base.items.len(),
            Apps::Log { app } => app.base.items.len(),
            Apps::Event { app } => app.base.items.len(),
            Apps::Namespace { app } => app.base.items.len(),
        };
        down && rows == 0
    }

    /// Records the output of a `kubectl` run in the view's YAML viewer; nothing
    /// else in the view changes. A failed run is an error.
    pub fn record_yaml_output(&mut self, success: bool, stdout: &str, stderr: &str) -> (r: Result<(), String>)
        requires
            apps_wf(*old(self)),
        ensures
            apps_wf(*final(self)),
            kind_of(*final(self)) == kind_of(*old(self)),
            *final(self) == with_viewer(*old(self), viewer_of(*final(self))),
            output_recorded(viewer_of(*old(self)), viewer_of(*final(self)), success, stdout@, stderr@),
            r is Ok <==> success,
            r matches Err(m) ==> m@ == "kubectl error: "@ + stderr@,
    {
        match self {
            Apps::Rs { app } => app.base.yaml_editor.apply_fetch_output(success, stdout, stderr),
            Apps::Pod { app } => app.base.yaml_editor.apply_fetch_output(success, stdout, stderr),
            Apps::Container { app } => app.base.yaml_editor.apply_fetch_output(success, stdout, stderr),
            Apps::Ingress { app } => app.base.yaml_editor.apply_fetch_output(success, stdout, stderr),
            Apps::Cert { app } => app.base.yaml_editor.apply_fetch_output(success, stdout, stderr),
            Apps::Log { app } => app.base.yaml_editor.apply_fetch_output(success, stdout, stderr),
            Apps::Event { app } => app.base.yaml_editor.apply_fetch_output(success, stdout, stderr),
            Apps::Namespace { app } => app.base.yaml_editor.apply_fetch_output(success, stdout, stderr),
        }
    }

    /// Records in the view's YAML viewer that `kubectl` could not be run, and
    /// fails with the message recorded; nothing else in the view changes.
    pub fn record_yaml_failure(&mut self, error: &str) -> (r: Result<(), String>)
        requires
            apps_wf(*old(self)),
        ensures
            apps_wf(*final(self)),
            kind_of(*final(self)) == kind_of(*old(self)),
            *final(self) == with_viewer(*old(self), viewer_of(*final(self))),
            failure_recorded(viewer_of(*old(self)), viewer_of(*final(self)), error@),
            r matches Err(m) && viewer_of(*final(self)).error_message == Some(m),
    {
        match self {
            Apps::Rs { app } => app.base.yaml_editor.apply_fetch_failure(error),
            Apps::Pod { app } => app.base.yaml_editor.apply_fetch_failure(error),
            Apps::Container { app } => app.base.yaml_editor.apply_fetch_failure(error),
            Apps::Ingress { app } => app.base.yaml_editor.apply_fetch_failure(error),
            Apps::Cert { app } => app.base.yaml_editor.apply_fetch_failure(error),
            Apps::Log { app } => app.base.yaml_editor.apply_fetch_failure(error),
            Apps::Event { app } => app.base.yaml_editor.apply_fetch_failure(error),
            Apps::Namespace { app } => app.base.yaml_editor.apply_fetch_failure(error),
        }
    }
}

/// The views the user came through, and the one shown.
pub struct AppStack {
    /// The view shown.
    pub current: Apps,
    /// The views to go back to, the most recent last.
    pub history: Vec<Apps>,
}

/// The stack after a view's run ended with its last state `old_app` and the view
/// it asked for, `new_app`: a switch to another view keeps the old one to come
/// back to; otherwise the previous view comes back, and with none left the
/// session ends. The flag says whether the session goes on.
pub open spec fn stack_step(history: Seq<Apps>, current: Apps, old_app: Option<Apps>, new_app: Option<Apps>) -> (Seq<Apps>, Apps, bool) {
    match (old_app, new_app) {
        (Some(o), Some(n)) => (history.push(o), n, true),
        _ => if history.len() > 0 {
            (history.drop_last(), history.last(), true)
        } else {
            (history, current, false)
        },
    }
}

impl AppStack {
    /// The session's start: the workloads view with no rows yet, and nothing to
    /// go back to.
    pub fn new() -> (r: Self)
        ensures
            r.history@.len() == 0,
            match r.current {
                Apps::Rs { app } => app.base.is_fresh(app.base.items) && app.base.items@.len() == 0,
                _ => false,
            },
            apps_wf(r.current),
    {
        AppStack { current: Apps::Rs { app: crate::rs_app::App::new(Vec::new()) }, history: Vec::new() }
    }

    /// Moves the stack on after a view's run; returns whether the session goes on.
    pub fn after_run(&mut self, old_app: Option<Apps>, new_app: Option<Apps>) -> (running: bool)
        ensures
            (final(self).history@, final(self).current, running) == stack_step(
                old(self).history@,
                old(self).current,
                old_app,
                new_app,
            ),
    {
        match (old_app, new_app) {
            (Some(o), Some(n)) => {
                self.history.push(o);
                self.current = n;
                true
            },
            _ => {
                match self.history.pop() {
                    Some(previous) => {
                        self.current = previous;
                        true
                    },
                    None => false,
                }
            },
        }
    }
}

/// Going into a view and coming back out of it returns to the view one came
/// from, with the history as it was.
pub proof fn lemma_enter_then_leave(history: Seq<Apps>, current: Apps, from: Apps, into: Apps, last: Option<Apps>)
    ensures
        ({
            let (h1, c1, go1) = stack_step(history, current, Some(from), Some(into));
            let (h2, c2, go2) = stack_step(h1, c1, last, None);
            go1 && go2 && h2 == history && c2 == from
        }),
{
    assert(history.push(from).drop_last() =~= history);
}

/// The session ends only when a view is left with nothing to go back to, and
/// then the stack stays as it was.
pub proof fn lemma_session_ends_only_at_root(history: Seq<Apps>, current: Apps, old_app: Option<Apps>, new_app: Option<Apps>)
    ensures
        ({
            let (h, c, going) = stack_step(history, current, old_app, new_app);
            &&& !going <==> (history.len() == 0 && !(old_app is Some && new_app is Some))
            &&& !going ==> h == history && c == current
        }),
{
}

/// Each run moves the history by one view at most: one deeper on a switch, one
/// back otherwise.
pub proof fn lemma_history_moves_by_one(history: Seq<Apps>, current: Apps, old_app: Option<Apps>, new_app: Option<Apps>)
    ensures
        ({
            let (h, c, going) = stack_step(history, current, old_app, new_app);
            &&& (old_app is Some && new_app is Some) ==> h.len() == history.len() + 1
            &&& !(old_app is Some && new_app is Some) && going ==> h.len() + 1 == history.len()
        }),
{
}

} // verus!
