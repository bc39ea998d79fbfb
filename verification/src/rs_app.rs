//! The workloads view: replica sets, daemon sets, stateful sets, jobs and the
//! unowned pods of a namespace, and what its keys do.
use crate::data::{label_details, label_rows, rows_are_same, same_rows, Rs, SameRow};
use crate::domain::{JOB_KIND, UNOWNED_KIND};
use crate::event_app;
use crate::keys::{
    common_action, filter_edit_of, handle_common_keys, handle_filter_editing_keys, CommonKeyAction,
    Key, KeyInput,
};
use crate::pod_app::{self, step_wf, PodSelector};
use crate::table::{selected_of, BaseTableState};
use crate::text::{chars_eq_str, chars_of, owned};
use crate::ui_loop::{shows, Apps, Context, Load, Message, Step};
use crate::yaml::{
    fetch_outcome, fetch_prepared, viewer_key_effect, viewer_key_result, viewer_opened, YamlKeyResult,
};
use vstd::prelude::*;

verus! {

/// State of the workloads view.
#[derive(Clone, Debug)]
pub struct App {
    pub base: BaseTableState<Rs>,
    /// Data is being fetched in the background.
    pub has_network_activity: bool,
    /// The view waits for data that was not cached.
    pub has_blocking_activity: bool,
}

/// The `kubectl` resource type of a workload row, by its kind.
pub open spec fn yaml_kind(description: Seq<char>) -> Seq<char> {
    if description == "DaemonSet"@ {
        "daemonset"@
    } else if description == "StatefulSet"@ {
        "statefulset"@
    } else if description == "Job"@ {
        "job"@
    } else {
        "replicaset"@
    }
}

/// The `kubectl` resource type of a workload row, by its kind.
pub fn yaml_resource_type(description: &str) -> (r: String)
    ensures
        r@ == yaml_kind(description@),
{
    proof {
        reveal_strlit("DaemonSet");
        reveal_strlit("StatefulSet");
        reveal_strlit("Job");
    }
    let d = chars_of(description);
    if chars_eq_str(d.as_slice(), "DaemonSet") {
        owned("daemonset")
    } else if chars_eq_str(d.as_slice(), "StatefulSet") {
        owned("statefulset")
    } else if chars_eq_str(d.as_slice(), "Job") {
        owned("job")
    } else {
        owned("replicaset")
    }
}

/// Where Enter on a workload row leads: the unowned pods, the pods of a job (by
/// its name), or the pods matching the row's label selectors; nowhere for a row
/// without selectors.
pub open spec fn pod_route(row: Rs) -> Option<PodSelector> {
    if row.description@ == UNOWNED_KIND@ {
        Some(PodSelector::Unowned)
    } else if row.description@ == JOB_KIND@ {
        Some(PodSelector::ByJob(row.name))
    } else {
        match row.selectors {
            Some(s) => Some(PodSelector::ByLabels(s)),
            None => None,
        }
    }
}

/// Two pod selectors pick the same pods: the same kind, the same job name, the
/// same labels.
pub open spec fn same_selector(a: PodSelector, b: PodSelector) -> bool {
    match (a, b) {
        (PodSelector::Unowned, PodSelector::Unowned) => true,
        (PodSelector::ByJob(x), PodSelector::ByJob(y)) => x == y,
        (PodSelector::ByLabels(x), PodSelector::ByLabels(y)) => x@ == y@,
        _ => false,
    }
}

/// The pods selector for Enter on a workload row.
pub fn route_to_pods(row: &Rs) -> (r: Option<PodSelector>)
    ensures
        match (r, pod_route(*row)) {
            (Some(x), Some(y)) => same_selector(x, y),
            (None, None) => true,
            _ => false,
        },
{
    let d = chars_of(row.description.as_str());
    if chars_eq_str(d.as_slice(), UNOWNED_KIND) {
        Some(PodSelector::Unowned)
    } else if chars_eq_str(d.as_slice(), JOB_KIND) {
        Some(PodSelector::ByJob(row.name.clone()))
    } else {
        match &row.selectors {
            Some(s) => Some(PodSelector::ByLabels(s.clone())),
            None => None,
        }
    }
}

/// The kinds of data whose cache updates the workloads stream listens to.
#[derive(Clone, Copy, Debug, PartialEq, Eq, Structural)]
pub enum WorkloadKind {
    ReplicaSets,
    DaemonSets,
    StatefulSets,
    Jobs,
    Pods,
}

/// What wakes the workloads stream up.
#[derive(Clone, Copy, Debug, PartialEq, Eq, Structural)]
pub enum WorkloadSignal {
    /// A cache update of the given kind, on the channel of that kind.
    Update(WorkloadKind),
    /// Anything else on a channel: another kind of update, or a closed channel.
    Other,
    /// The poll interval passed.
    Tick,
}

impl WorkloadSignal {
    /// Whether the stream merges the workloads again: on any update it listens to
    /// and on every tick.
    pub fn refreshes(&self) -> (b: bool)
        ensures
            b == !(*self is Other),
    {
        match self {
            WorkloadSignal::Other => false,
            _ => true,
        }
    }

    /// Whether the update starts fetching the pods of the updated workloads
    /// ahead of time: for replica sets, daemon sets and stateful sets (jobs and
    /// pods have no label selector to fetch by).
    pub fn prefetches_pods(&self) -> (b: bool)
        ensures
            b == (*self == WorkloadSignal::Update(WorkloadKind::ReplicaSets) || *self
                == WorkloadSignal::Update(WorkloadKind::DaemonSets) || *self
                == WorkloadSignal::Update(WorkloadKind::StatefulSets)),
    {
        match self {
            WorkloadSignal::Update(WorkloadKind::ReplicaSets)
            | WorkloadSignal::Update(WorkloadKind::DaemonSets)
            | WorkloadSignal::Update(WorkloadKind::StatefulSets) => true,
            _ => false,
        }
    }
}

/// What the workloads stream does when it wakes up, in order.
#[derive(Clone, Copy, Debug, PartialEq, Eq, Structural)]
pub enum SignalPlan {
    /// Nothing.
    Ignore,
    /// Read every kind, merge, and send what `WorkloadStream::offer` decides.
    Refresh,
    /// First start fetching the pods of the updated workloads ahead of time,
    /// then refresh as above: the prefetch comes before anything is sent.
    PrefetchThenRefresh,
}

impl WorkloadSignal {
    /// The plan for this wake-up: updates of replica sets, daemon sets and
    /// stateful sets prefetch their pods and then refresh; other updates and
    /// ticks refresh; anything else is ignored.
    pub fn plan(&self) -> (p: SignalPlan)
        ensures
            p == if !(*self is Other) {
                if *self == WorkloadSignal::Update(WorkloadKind::ReplicaSets) || *self
                    == WorkloadSignal::Update(WorkloadKind::DaemonSets) || *self
                    == WorkloadSignal::Update(WorkloadKind::StatefulSets) {
                    SignalPlan::PrefetchThenRefresh
                } else {
                    SignalPlan::Refresh
                }
            } else {
                SignalPlan::Ignore
            },
    {
        if !self.refreshes() {
            SignalPlan::Ignore
        } else if self.prefetches_pods() {
            SignalPlan::PrefetchThenRefresh
        } else {
            SignalPlan::Refresh
        }
    }
}

impl WorkloadKind {
    /// Whether workloads of this kind that were just fetched have their pods
    /// fetched ahead of time: replica sets, daemon sets and stateful sets (jobs
    /// and pods have no label selector to fetch by).
    pub fn prefetches_pods(&self) -> (b: bool)
        ensures
            b == (*self == WorkloadKind::ReplicaSets || *self == WorkloadKind::DaemonSets || *self
                == WorkloadKind::StatefulSets),
    {
        match self {
            WorkloadKind::ReplicaSets | WorkloadKind::DaemonSets | WorkloadKind::StatefulSets => true,
            _ => false,
        }
    }
}

/// What the workloads stream does with rows it fetched from the API on a cache
/// miss, before it merges and sends anything: it stores them in the cache when
/// there are some, and then has their pods fetched ahead of time when their kind
/// prefetches.
pub open spec fn fetched_follow_up(kind: WorkloadKind, fetched: Seq<Rs>) -> (bool, bool) {
    (fetched.len() > 0, fetched.len() > 0 && (kind == WorkloadKind::ReplicaSets || kind
        == WorkloadKind::DaemonSets || kind == WorkloadKind::StatefulSets))
}

/// Whether rows fetched on a cache miss are stored, and whether their pods are
/// then prefetched; see `fetched_follow_up`.
pub fn after_fetch(kind: WorkloadKind, fetched: &Vec<Rs>) -> (r: (bool, bool))
    ensures
        r == fetched_follow_up(kind, fetched@),
{
    let store = fetched.len() > 0;
    (store, store && kind.prefetches_pods())
}

/// Whether the workloads stream sends a merged list: the first read sends only
/// a list with rows, later refreshes any list; either way only one that is not
/// the same, field by field, as the last list sent (at first, the rows the view
/// already shows).
pub open spec fn workload_sends(merged: Seq<Rs>, last: Seq<Rs>, started: bool) -> bool {
    (started || merged.len() > 0) && !same_rows(merged, last)
}

/// One offer of `merged` to a stream in state `before`: it answers `send` and
/// leaves the stream in state `after`.
pub open spec fn offered(before: WorkloadStream, merged: Seq<Rs>, send: bool, after: WorkloadStream) -> bool {
    &&& send == workload_sends(merged, before.last_sent@, before.started)
    &&& after.started
    &&& after.last_sent@ == if send || before.started {
        merged
    } else {
        before.last_sent@
    }
}

/// What the workloads stream remembers between refreshes.
pub struct WorkloadStream {
    /// The last list sent, or the rows the view showed when the stream started.
    pub last_sent: Vec<Rs>,
    /// Whether the first read of the cache is done.
    pub started: bool,
}

impl WorkloadStream {
    /// The stream of a view that shows `shown`, before its first read.
    pub fn new(shown: Vec<Rs>) -> (r: Self)
        ensures
            r.last_sent == shown,
            !r.started,
    {
        WorkloadStream { last_sent: shown, started: false }
    }

    /// Takes the merged list of a read or refresh and says whether to send it
    /// (see `workload_sends`). A list sent, and any list after the first read,
    /// becomes the last list sent.
    pub fn offer(&mut self, merged: Vec<Rs>) -> (send: bool)
        ensures
            send == workload_sends(merged@, old(self).last_sent@, old(self).started),
            final(self).started,
            final(self).last_sent == if send || old(self).started {
                merged
            } else {
                old(self).last_sent
            },
            offered(*old(self), merged@, send, *final(self)),
    {
        let differs = !rows_are_same(&merged, &self.last_sent);
        let send = (self.started || merged.len() > 0) && differs;
        if send || self.started {
            self.last_sent = merged;
        }
        self.started = true;
        send
    }
}

/// Whether the cache holds no workload at all, so that the stream fetches all
/// kinds from the API at once.
pub fn cache_is_cold(rs: &Vec<Rs>, ds: &Vec<Rs>, ss: &Vec<Rs>, jobs: &Vec<Rs>, unowned: &Vec<crate::data::RsPod>) -> (b: bool)
    ensures
        b == (rs@.len() == 0 && ds@.len() == 0 && ss@.len() == 0 && jobs@.len() == 0
            && unowned@.len() == 0),
{
    rs.len() == 0 && ds.len() == 0 && ss.len() == 0 && jobs.len() == 0 && unowned.len() == 0
}

/// The key asks the table to move down.
pub open spec fn rs_moves_down(a: App, m: Message) -> bool {
    &&& !a.base.yaml_editor.is_active
    &&& !a.base.show_filter_edit
    &&& m matches Message::Key(Some(k))
    &&& common_action(k) == CommonKeyAction::Next
}

/// The view with the table `b` and the rest of `a`.
pub open spec fn with_base(a: App, b: BaseTableState<Rs>) -> Apps {
    Apps::Rs { app: App { base: b, ..a } }
}

impl App {
    /// A workloads view over `data_vec`, with no activity recorded.
    pub fn new(data_vec: Vec<Rs>) -> (r: Self)
        ensures
            r.base.is_fresh(data_vec),
            !r.has_network_activity,
            !r.has_blocking_activity,
    {
        App { base: BaseTableState::new(data_vec), has_network_activity: false, has_blocking_activity: false }
    }

    /// Records whether data is fetched in the background and whether the view
    /// waits for data that was not cached.
    pub fn update_activity_status(&mut self, network: bool, blocking: bool)
        ensures
            final(self).base == old(self).base,
            final(self).has_network_activity == network,
            final(self).has_blocking_activity == blocking,
    {
        self.has_network_activity = network;
        self.has_blocking_activity = blocking;
    }

    /// Whether data is fetched in the background.
    pub fn get_network_activity(&self) -> (b: bool)
        ensures
            b == self.has_network_activity,
    {
        self.has_network_activity
    }

    /// Whether the view waits for data that was not cached.
    pub fn get_blocking_activity(&self) -> (b: bool)
        ensures
            b == self.has_blocking_activity,
    {
        self.has_blocking_activity
    }

    /// Moves the filter cursor.
    pub fn set_cursor_pos(&mut self, cursor_pos: usize)
        ensures
            final(self).base == (BaseTableState { edit_filter_cursor_position: cursor_pos, ..old(self).base }),
            final(self).has_network_activity == old(self).has_network_activity,
            final(self).has_blocking_activity == old(self).has_blocking_activity,
    {
        self.base.edit_filter_cursor_position = cursor_pos;
    }

    /// The filter cursor.
    pub fn get_cursor_pos(&self) -> (c: usize)
        ensures
            c == self.base.edit_filter_cursor_position,
    {
        self.base.edit_filter_cursor_position
    }

    /// Shows or hides the filter editor.
    pub fn set_show_filter_edit(&mut self, show_filter_edit: bool)
        ensures
            final(self).base == (BaseTableState { show_filter_edit, ..old(self).base }),
            final(self).has_network_activity == old(self).has_network_activity,
            final(self).has_blocking_activity == old(self).has_blocking_activity,
    {
        self.base.show_filter_edit = show_filter_edit;
    }

    /// Whether the filter editor is shown.
    pub fn get_show_filter_edit(&self) -> (b: bool)
        ensures
            b == self.base.show_filter_edit,
    {
        self.base.show_filter_edit
    }

    /// The label selectors of the selected workload as (name, value) rows
    /// sorted by name; none when nothing is selected or it has no selectors.
    pub fn get_left_details(&mut self) -> (r: Vec<(String, String, Option<String>)>)
        requires
            old(self).base.wf(),
        ensures
            final(self).base == old(self).base.after_lookup(),
            final(self).base.wf(),
            final(self).has_network_activity == old(self).has_network_activity,
            final(self).has_blocking_activity == old(self).has_blocking_activity,
            match selected_of(old(self).base.items@, old(self).base.selected) {
                Some(row) => match row.selectors {
                    Some(m) => label_rows(m@, r@),
                    None => r@.len() == 0,
                },
                None => r@.len() == 0,
            },
    {
        match self.base.get_selected_item() {
            Some(row) => label_details(&row.selectors),
            None => Vec::new(),
        }
    }

    /// The events of the selected workload as (type, message, age) rows; none
    /// when nothing is selected.
    pub fn get_event_details(&mut self) -> (r: Vec<(String, String, Option<String>)>)
        requires
            old(self).base.wf(),
        ensures
            final(self).base == old(self).base.after_lookup(),
            final(self).base.wf(),
            final(self).has_network_activity == old(self).has_network_activity,
            final(self).has_blocking_activity == old(self).has_blocking_activity,
            match selected_of(old(self).base.items@, old(self).base.selected) {
                Some(row) => {
                    &&& r@.len() == row.events@.len()
                    &&& forall|i: int|
                        0 <= i < r@.len() ==> {
                            let e = #[trigger] row.events@[i];
                            &&& r@[i].0 == e.type_
                            &&& r@[i].1 == e.message
                            &&& r@[i].2 == Some(e.age)
                        }
                },
                None => r@.len() == 0,
            },
    {
        let mut r: Vec<(String, String, Option<String>)> = Vec::new();
        match self.base.get_selected_item() {
            Some(row) => {
                let mut i: usize = 0;
                while i < row.events.len()
                    invariant
                        i <= row.events@.len(),
                        r@.len() == i,
                        forall|j: int|
                            0 <= j < i ==> {
                                let e = #[trigger] row.events@[j];
                                &&& r@[j].0 == e.type_
                                &&& r@[j].1 == e.message
                                &&& r@[j].2 == Some(e.age)
                            },
                    decreases row.events.len() - i,
                {
                    let e = &row.events[i];
                    r.push((e.type_.clone(), e.message.clone(), Some(e.age.clone())));
                    i = i + 1;
                }
            },
            None => {},
        }
        r
    }

    /// Handles an event. With the YAML viewer shown, keys go to the viewer; while
    /// the filter is edited, keys edit it. Otherwise the common table keys apply
    /// (`q`/Esc leave), and `e` opens the events, `i` the ingresses of the
    /// selected workload, `n` the namespace picker, Enter its pods, `/` the
    /// filter, `y` its YAML. Fresh rows replace the listed ones.
    pub fn handle_event(self, event: Message, ctx: &Context) -> (r: Step)
        requires
            self.base.wf(),
            event matches Message::Rs(v) ==> v@.len() * 25 <= usize::MAX,
            rs_moves_down(self, event) ==> self.base.items@.len() > 0,
        ensures
            step_wf(r),
            self.base.yaml_editor.is_active ==> match event {
                Message::Key(Some(k)) => viewer_step(self, k, r),
                _ => shows(r, Apps::Rs { app: self }),
            },
            !self.base.yaml_editor.is_active && self.base.show_filter_edit ==> match event {
                Message::Key(Some(k)) => match filter_edit_of(k.code) {
                    Some(e) => match r {
                        Step::Show(Apps::Rs { app }) => self.base.filter_edited(app.base, e)
                            && app.has_network_activity == self.has_network_activity
                            && app.has_blocking_activity == self.has_blocking_activity,
                        _ => false,
                    },
                    None => shows(r, Apps::Rs { app: self }),
                },
                Message::Rs(v) => shows(r, with_base(self, self.base.with_items(v))),
                _ => shows(r, Apps::Rs { app: self }),
            },
            !self.base.yaml_editor.is_active && !self.base.show_filter_edit ==> match event {
                Message::Key(Some(k)) => table_step(self, k, ctx.namespace@, r),
                Message::Rs(v) => shows(
                    r,
                    Apps::Rs {
                        app: App {
                            base: self.base.with_items(v),
                            has_network_activity: ctx.has_network_activity,
                            has_blocking_activity: ctx.has_blocking_activity,
                        },
                    },
                ),
                _ => shows(r, Apps::Rs { app: self }),
            },
    {
        let mut app = self;
        if app.base.yaml_editor.is_active {
            return match event {
                Message::Key(Some(k)) => {
                    let args = app.base.viewer_key(&k);
                    match args {
                        Some(v) => Step::ShowAfterYaml(Apps::Rs { app }, v, true),
                        None => Step::Show(Apps::Rs { app }),
                    }
                },
                _ => Step::Show(Apps::Rs { app }),
            };
        }
        if app.base.show_filter_edit {
            return match event {
                Message::Key(Some(k)) => {
                    match handle_filter_editing_keys(&k) {
                        Some(e) => app.base.apply_filter_edit(e),
                        None => {},
                    }
                    Step::Show(Apps::Rs { app })
                },
                Message::Rs(v) => {
                    app.base.set_items(v);
                    Step::Show(Apps::Rs { app })
                },
                _ => Step::Show(Apps::Rs { app }),
            };
        }
        match event {
            Message::Key(Some(k)) => {
                match handle_common_keys(&k) {
                    CommonKeyAction::Quit => Step::Quit,
                    CommonKeyAction::NotHandled => app.handle_rs_specific_keys(k, ctx),
                    a => {
                        app.base.apply_common(a);
                        Step::Show(Apps::Rs { app })
                    },
                }
            },
            Message::Rs(v) => {
                app.base.set_items(v);
                app.update_activity_status(ctx.has_network_activity, ctx.has_blocking_activity);
                Step::Show(Apps::Rs { app })
            },
            _ => Step::Show(Apps::Rs { app }),
        }
    }

    fn handle_rs_specific_keys(self, k: KeyInput, ctx: &Context) -> (r: Step)
        requires
            self.base.wf(),
            common_action(k) == CommonKeyAction::NotHandled,
        ensures
            step_wf(r),
            specific_step(self, k, ctx.namespace@, r),
    {
        let mut app = self;
        match k.code {
            Key::Char('e') => Step::Show(Apps::Event { app: event_app::App::new() }),
            Key::Char('i') | Key::Char('I') => {
                let selector = match app.base.get_selected_item() {
                    Some(row) => match &row.selectors {
                        Some(s) => Some(s.clone()),
                        None => None,
                    },
                    None => None,
                };
                match selector {
                    Some(selector) => Step::Load(Load::Ingresses { selector }, Apps::Rs { app }),
                    None => Step::Show(Apps::Rs { app }),
                }
            },
            Key::Char('n') => Step::Load(Load::Namespaces, Apps::Rs { app }),
            Key::Enter => {
                let route = match app.base.get_selected_item() {
                    Some(row) => route_to_pods(row),
                    None => None,
                };
                match route {
                    Some(selector) => Step::Show(
                        Apps::Pod { app: pod_app::App::new(selector, Vec::new()) },
                    ),
                    None => Step::Show(Apps::Rs { app }),
                }
            },
            Key::Char('/') => {
                app.base.show_filter_edit = true;
                Step::Show(Apps::Rs { app })
            },
            Key::Char('y') | Key::Char('Y') => {
                let target = match app.base.get_selected_item() {
                    Some(row) => Some(
                        (yaml_resource_type(row.description.as_str()), row.name.clone()),
                    ),
                    None => None,
                };
                match target {
                    Some((kind, name)) => {
                        let args = app.base.open_viewer(kind, name, ctx.namespace.clone());
                        match args {
                            Some(v) => Step::ShowAfterYaml(Apps::Rs { app }, v, false),
                            None => Step::Show(Apps::Rs { app }),
                        }
                    },
                    None => Step::Show(Apps::Rs { app }),
                }
            },
            _ => Step::Show(Apps::Rs { app }),
        }
    }
}

/// The step of a key while the YAML viewer is shown: the viewer handles it,
/// and a refresh runs `kubectl` when its arguments are safe.
pub open spec fn viewer_step(a: App, k: KeyInput, r: Step) -> bool {
    match r {
        Step::Show(Apps::Rs { app }) => {
            &&& a.base.same_table(app.base)
            &&& app.has_network_activity == a.has_network_activity
            &&& app.has_blocking_activity == a.has_blocking_activity
            &&& if viewer_key_result(k.code) == YamlKeyResult::Refresh {
                fetch_prepared(a.base.yaml_editor, app.base.yaml_editor, None)
            } else {
                viewer_key_effect(a.base.yaml_editor, app.base.yaml_editor, k.code)
            }
        },
        Step::ShowAfterYaml(Apps::Rs { app }, args, fails_hard) => {
            &&& fails_hard
            &&& a.base.same_table(app.base)
            &&& app.has_network_activity == a.has_network_activity
            &&& app.has_blocking_activity == a.has_blocking_activity
            &&& viewer_key_result(k.code) == YamlKeyResult::Refresh
            &&& fetch_prepared(a.base.yaml_editor, app.base.yaml_editor, Some(args))
        },
        _ => false,
    }
}

/// The step of a key in the table of the workloads view.
pub open spec fn table_step(a: App, k: KeyInput, ns: Seq<char>, r: Step) -> bool {
    match common_action(k) {
        CommonKeyAction::Quit => r is Quit,
        CommonKeyAction::NotHandled => specific_step(a, k, ns, r),
        act => shows(r, with_base(a, a.base.after_common(act))),
    }
}

/// `after` is `a` after looking up the selection: unchanged when it lies within
/// the rows; otherwise with the first row selected again.
pub open spec fn looked_up(a: App, after: App) -> bool {
    &&& after.base.items == a.base.items
    &&& after.base.yaml_editor == a.base.yaml_editor
    &&& after.base.show_filter_edit == a.base.show_filter_edit
    &&& after.has_network_activity == a.has_network_activity
    &&& after.has_blocking_activity == a.has_blocking_activity
    &&& selected_of(a.base.items@, a.base.selected) is Some ==> after == a
    &&& selected_of(a.base.items@, a.base.selected) is None ==> after.base.selected == Some(0usize)
}

/// The step of a key that the common table keys do not handle.
pub open spec fn specific_step(a: App, k: KeyInput, ns: Seq<char>, r: Step) -> bool {
    let sel = selected_of(a.base.items@, a.base.selected);
    match k.code {
        Key::Char('e') => match r {
            Step::Show(Apps::Event { app }) => app.base.is_fresh(app.base.items)
                && app.base.items@.len() == 0,
            _ => false,
        },
        Key::Char('i') | Key::Char('I') => if sel is Some && sel.unwrap().selectors is Some {
            match r {
                Step::Load(Load::Ingresses { selector }, Apps::Rs { app }) => selector@
                    == sel.unwrap().selectors.unwrap()@ && app == a,
                _ => false,
            }
        } else {
            match r {
                Step::Show(Apps::Rs { app }) => looked_up(a, app),
                _ => false,
            }
        },
        Key::Char('n') => match r {
            Step::Load(Load::Namespaces, Apps::Rs { app }) => app == a,
            _ => false,
        },
        Key::Enter => if sel is Some && pod_route(sel.unwrap()) is Some {
            match r {
                Step::Show(Apps::Pod { app }) => same_selector(app.selector, pod_route(sel.unwrap()).unwrap())
                    && app.base.is_fresh(app.base.items) && app.base.items@.len() == 0,
                _ => false,
            }
        } else {
            match r {
                Step::Show(Apps::Rs { app }) => looked_up(a, app),
                _ => false,
            }
        },
        Key::Char('/') => shows(r, with_base(a, BaseTableState { show_filter_edit: true, ..a.base })),
        Key::Char('y') | Key::Char('Y') => match sel {
            Some(row) => match r {
                Step::Show(Apps::Rs { app }) => opened_for(a, app, row, ns, None),
                Step::ShowAfterYaml(Apps::Rs { app }, args, false) => opened_for(a, app, row, ns, Some(args)),
                _ => false,
            },
            None => match r {
                Step::Show(Apps::Rs { app }) => looked_up(a, app),
                _ => false,
            },
        },
        _ => shows(r, Apps::Rs { app: a }),
    }
}

/// `after` is `before` with its YAML viewer opened on the workload `row` in the
/// namespace `ns` and a fetch prepared with the result `args`.
pub open spec fn opened_for(before: App, after: App, row: Rs, ns: Seq<char>, args: Option<Vec<String>>) -> bool {
    &&& before.base.same_table(after.base)
    &&& after.has_network_activity == before.has_network_activity
    &&& after.has_blocking_activity == before.has_blocking_activity
    &&& viewer_opened(after.base.yaml_editor, yaml_kind(row.description@), row.name@, ns)
    &&& fetch_outcome(after.base.yaml_editor, args)
}


/// The lists a workloads stream emits when it is offered `reads` in turn,
/// starting from the last list `last` and whether its first read is done.
pub open spec fn workload_emissions(last: Seq<Rs>, started: bool, reads: Seq<Seq<Rs>>) -> Seq<Seq<Rs>>
    decreases reads.len(),
{
    if reads.len() == 0 {
        seq![]
    } else {
        let m = reads[0];
        let send = workload_sends(m, last, started);
        let next = if send || started {
            m
        } else {
            last
        };
        let rest = workload_emissions(next, true, reads.skip(1));
        if send {
            seq![m] + rest
        } else {
            rest
        }
    }
}

/// Two lists holding the same rows is an equivalence.
pub proof fn lemma_same_workloads_equivalence(a: Seq<Rs>, b: Seq<Rs>, c: Seq<Rs>)
    ensures
        same_rows(a, a),
        same_rows(a, b) ==> same_rows(b, a),
        same_rows(a, b) && same_rows(b, c) ==> same_rows(a, c),
{
    assert forall|k: int| 0 <= k < a.len() implies (#[trigger] a[k]).same_row(&a[k]) by {
        assert(same_rows(a[k].events@, a[k].events@));
    }
    if same_rows(a, b) {
        assert forall|k: int| 0 <= k < b.len() implies (#[trigger] b[k]).same_row(&a[k]) by {
            assert(a[k].same_row(&b[k]));
        }
    }
    if same_rows(a, b) && same_rows(b, c) {
        assert forall|k: int| 0 <= k < a.len() implies (#[trigger] a[k]).same_row(&c[k]) by {
            assert(a[k].same_row(&b[k]));
            assert(b[k].same_row(&c[k]));
            assert forall|e: int| 0 <= e < a[k].events@.len() implies (#[trigger] a[k].events@[e]).same_row(
                &c[k].events@[e],
            ) by {
                assert(a[k].events@[e].same_row(&b[k].events@[e]));
                assert(b[k].events@[e].same_row(&c[k].events@[e]));
            }
        }
    }
}

/// A workloads stream emits only lists it was offered, never the same list
/// twice in a row, and first a list that differs from the rows the view showed;
/// a list emitted by the first read has rows.
pub proof fn lemma_workload_stream_emits_changes(last: Seq<Rs>, started: bool, reads: Seq<Seq<Rs>>)
    ensures
        ({
            let e = workload_emissions(last, started, reads);
            &&& forall|k: int| 0 <= k < e.len() ==> exists|j: int| 0 <= j < reads.len() && #[trigger] e[k] == reads[j]
            &&& e.len() > 0 ==> !same_rows(e[0], last)
            &&& forall|k: int| 0 < k < e.len() ==> !same_rows(#[trigger] e[k], e[k - 1])
            &&& !started && reads.len() > 0 && workload_sends(reads[0], last, false) ==> reads[0].len() > 0
        }),
    decreases reads.len(),
{
    if reads.len() > 0 {
        let m = reads[0];
        let send = workload_sends(m, last, started);
        let next = if send || started {
            m
        } else {
            last
        };
        let rest = workload_emissions(next, true, reads.skip(1));
        lemma_workload_stream_emits_changes(next, true, reads.skip(1));
        let e = workload_emissions(last, started, reads);
        assert forall|k: int| 0 <= k < e.len() implies exists|j: int| 0 <= j < reads.len() && #[trigger] e[k] == reads[j] by {
            if send && k == 0 {
                assert(e[0] == reads[0]);
            } else {
                let r: int = if send { k - 1 } else { k };
                assert(e[k] == rest[r]);
                let j = choose|j: int| 0 <= j < reads.skip(1).len() && rest[r] == reads.skip(1)[j];
                assert(e[k] == reads[j + 1]);
            }
        }
        if !send && started && rest.len() > 0 {
            // The list not sent is the same as `last`, so what differs from it
            // differs from `last` too.
            lemma_same_workloads_equivalence(rest[0], m, last);
            lemma_same_workloads_equivalence(m, last, m);
        }
        assert forall|k: int| 0 < k < e.len() implies !same_rows(#[trigger] e[k], e[k - 1]) by {
            if send {
                if k == 1 {
                    assert(e[1] == rest[0]);
                    assert(e[0] == m);
                } else {
                    assert(e[k] == rest[k - 1]);
                    assert(e[k - 1] == rest[k - 2]);
                }
            } else {
                assert(e[k] == rest[k]);
                assert(e[k - 1] == rest[k - 1]);
            }
        }
    }
}

/// The lists among `reads` whose offer answered to send them, in order.
pub open spec fn sent_lists(reads: Seq<Seq<Rs>>, sends: Seq<bool>) -> Seq<Seq<Rs>>
    decreases reads.len(),
{
    if reads.len() == 0 || sends.len() == 0 {
        seq![]
    } else {
        let rest = sent_lists(reads.skip(1), sends.skip(1));
        if sends[0] {
            seq![reads[0]] + rest
        } else {
            rest
        }
    }
}

/// Offering a workloads stream the merged lists `reads` one after another,
/// where `states[i]` is the stream before the i-th offer and `sends[i]` that
/// offer's answer, sends exactly the lists `workload_emissions` gives from the
/// stream's first state.
pub proof fn lemma_offers_follow_emissions(states: Seq<WorkloadStream>, sends: Seq<bool>, reads: Seq<Seq<Rs>>)
    requires
        states.len() == reads.len() + 1,
        sends.len() == reads.len(),
        forall|i: int| 0 <= i < reads.len() ==> offered(#[trigger] states[i], reads[i], sends[i], states[i + 1]),
    ensures
        sent_lists(reads, sends) == workload_emissions(states[0].last_sent@, states[0].started, reads),
    decreases reads.len(),
{
    if reads.len() > 0 {
        let st = states.skip(1);
        assert forall|i: int| 0 <= i < reads.skip(1).len() implies offered(
            #[trigger] st[i],
            reads.skip(1)[i],
            sends.skip(1)[i],
            st[i + 1],
        ) by {
            assert(offered(states[i + 1], reads[i + 1], sends[i + 1], states[i + 2]));
        }
        lemma_offers_follow_emissions(st, sends.skip(1), reads.skip(1));
        assert(offered(states[0], reads[0], sends[0], states[1]));
    }
}

/// A workloads stream offered the merged lists `reads` one after another
/// (`states[i]` the stream before the i-th offer, `sends[i]` its answer) sends
/// only lists it was offered, never the same list twice in a row, and first a
/// list that differs from the rows the view showed when it started; a list the
/// first read sends has rows.
pub proof fn lemma_workload_stream_sends_changes(states: Seq<WorkloadStream>, sends: Seq<bool>, reads: Seq<Seq<Rs>>)
    requires
        states.len() == reads.len() + 1,
        sends.len() == reads.len(),
        forall|i: int| 0 <= i < reads.len() ==> offered(#[trigger] states[i], reads[i], sends[i], states[i + 1]),
    ensures
        ({
            let e = sent_lists(reads, sends);
            &&& forall|k: int| 0 <= k < e.len() ==> exists|j: int| 0 <= j < reads.len() && #[trigger] e[k] == reads[j]
            &&& e.len() > 0 ==> !same_rows(e[0], states[0].last_sent@)
            &&& forall|k: int| 0 < k < e.len() ==> !same_rows(#[trigger] e[k], e[k - 1])
            &&& !states[0].started && reads.len() > 0 && sends[0] ==> reads[0].len() > 0
        }),
{
    lemma_offers_follow_emissions(states, sends, reads);
    lemma_workload_stream_emits_changes(states[0].last_sent@, states[0].started, reads);
    if reads.len() > 0 {
        assert(offered(states[0], reads[0], sends[0], states[1]));
    }
}

} // verus!
