//! The log view: a bounded buffer of log lines that follows new lines (tails)
//! until the user scrolls away.
use crate::data::LogRec;
use crate::keys::{
    common_action, filter_edit_of, handle_common_keys, handle_filter_editing_keys, CommonKeyAction,
    Key, KeyInput,
};
use crate::pod_app::step_wf;
use crate::table::{last_index, BaseTableState, ITEM_HEIGHT};
use crate::text::chars_eq;
use crate::ui_loop::{shows, Apps, Message, Step};
use std::collections::BTreeMap;
use vstd::prelude::*;

verus! {

/// State of the log view.
#[derive(Clone, Debug)]
pub struct App {
    pub base: BaseTableState<LogRec>,
    pub selector: BTreeMap<String, String>,
    pub pod_name: String,
    pub container_name: String,
    /// Whether auto-tailing is enabled (the view follows new lines).
    pub is_tailing: bool,
    /// Whether the user has scrolled by hand.
    pub user_scrolled: bool,
    /// Maximum number of log lines kept in memory.
    pub max_log_lines: usize,
}

/// The selection is within three lines of the end (or there are no lines).
pub open spec fn at_bottom(len: nat, selected: Option<usize>) -> bool {
    let cur: int = match selected {
        Some(s) => s as int,
        None => 0,
    };
    len == 0 || len - cur <= 3
}

/// The keys that count as the user scrolling.
pub open spec fn is_navigation_key(k: Key) -> bool {
    match k {
        Key::Up | Key::Down | Key::PageUp | Key::PageDown | Key::Home | Key::End => true,
        Key::Char('k') | Key::Char('j') => true,
        _ => false,
    }
}

/// Two log lines read the same.
pub open spec fn same_line(a: LogRec, b: LogRec) -> bool {
    a.datetime@ == b.datetime@ && a.level@ == b.level@ && a.message@ == b.message@
}

/// Two lists of log lines read the same, line by line.
pub open spec fn same_lines(a: Seq<LogRec>, b: Seq<LogRec>) -> bool {
    a.len() == b.len() && forall|i: int| 0 <= i < a.len() ==> same_line(#[trigger] a[i], b[i])
}

/// Whether two lists of log lines read the same, line by line.
pub fn same_logs(a: &Vec<LogRec>, b: &Vec<LogRec>) -> (r: bool)
    ensures
        r == same_lines(a@, b@),
{
    if a.len() != b.len() {
        return false;
    }
    let mut i: usize = 0;
    while i < a.len()
        invariant
            i <= a@.len(),
            a@.len() == b@.len(),
            forall|j: int| 0 <= j < i ==> same_line(#[trigger] a@[j], b@[j]),
        decreases a.len() - i,
    {
        let x = &a[i];
        let y = &b[i];
        let d1 = crate::text::chars_of(x.datetime.as_str());
        let d2 = crate::text::chars_of(y.datetime.as_str());
        let l1 = crate::text::chars_of(x.level.as_str());
        let l2 = crate::text::chars_of(y.level.as_str());
        let m1 = crate::text::chars_of(x.message.as_str());
        let m2 = crate::text::chars_of(y.message.as_str());
        if !(chars_eq(d1.as_slice(), d2.as_slice()) && chars_eq(l1.as_slice(), l2.as_slice())
            && chars_eq(m1.as_slice(), m2.as_slice())) {
            return false;
        }
        i = i + 1;
    }
    true
}

/// What one poll of the whole log sends to the view, and the new count of lines
/// seen: the lines past those already seen (only the last 50 on the first
/// poll); nothing when no line was added, and a shrunken log resets the count.
pub open spec fn log_batch(all: Seq<LogRec>, last: nat) -> (Option<Seq<LogRec>>, nat) {
    if all.len() > last {
        let start: int = if last == 0 {
            if all.len() > 50 {
                all.len() - 50
            } else {
                0
            }
        } else {
            last as int
        };
        (Some(all.skip(start)), all.len())
    } else if all.len() < last {
        (None, all.len())
    } else {
        (None, last)
    }
}

/// One poll of the whole log `all` after `last` lines were seen: the count
/// becomes the log's length; on a later poll every line past those seen is
/// sent, however many; the first poll sends the last 50 lines, or all when
/// there are fewer; a log that did not grow sends nothing.
pub proof fn lemma_log_batch_sends_new_lines(all: Seq<LogRec>, last: nat)
    ensures
        log_batch(all, last).1 == all.len(),
        last > 0 && all.len() > last ==> log_batch(all, last).0 == Some(all.skip(last as int)),
        last == 0 && all.len() > 0 ==> ({
            let n: int = if all.len() < 50 { all.len() as int } else { 50 };
            log_batch(all, last).0 == Some(all.subrange(all.len() - n, all.len() as int))
        }),
        all.len() <= last ==> log_batch(all, last).0 is None,
{
    if last == 0 && all.len() > 0 {
        let n: int = if all.len() < 50 { all.len() as int } else { 50 };
        assert(all.skip(all.len() - n) =~= all.subrange(all.len() - n, all.len() as int));
    }
}

/// Two polls of a growing log, the second counting from what the first saw,
/// send between them every line past those seen before the first, each once
/// and in order.
pub proof fn lemma_log_polls_send_each_line_once(first: Seq<LogRec>, second: Seq<LogRec>, last: nat)
    requires
        0 < last < first.len() < second.len(),
        second.take(first.len() as int) == first,
    ensures
        log_batch(first, last).0.unwrap() + log_batch(second, log_batch(first, last).1).0.unwrap()
            == second.skip(last as int),
{
    lemma_log_batch_sends_new_lines(first, last);
    lemma_log_batch_sends_new_lines(second, first.len());
    assert(first.skip(last as int) + second.skip(first.len() as int) =~= second.skip(last as int)) by {
        assert forall|k: int| 0 <= k < second.len() - last implies (first.skip(last as int) + second.skip(
            first.len() as int,
        ))[k] == #[trigger] second.skip(last as int)[k] by {
            if k < first.len() - last {
                assert(second.take(first.len() as int)[k + last] == second[k + last]);
            }
        }
    }
}

/// Splits one poll of the whole log into the lines to send and the new count of
/// lines seen.
pub fn next_log_batch(all: Vec<LogRec>, last_count: usize) -> (r: (Option<Vec<LogRec>>, usize))
    ensures
        r.1 == all@.len(),
        last_count > 0 && all@.len() > last_count ==> (r.0 matches Some(v) && v@ == all@.skip(
            last_count as int,
        )),
        all@.len() <= last_count ==> r.0 is None,
        ({
            let (batch, seen) = log_batch(all@, last_count as nat);
            &&& r.1 == seen
            &&& match (r.0, batch) {
                (Some(v), Some(b)) => v@ == b,
                (None, None) => true,
                _ => false,
            }
        }),
{
    proof {
        lemma_log_batch_sends_new_lines(all@, last_count as nat);
    }
    let current = all.len();
    if current > last_count {
        let start: usize = if last_count == 0 {
            if current > 50 {
                current - 50
            } else {
                0
            }
        } else {
            last_count
        };
        let mut all = all;
        let tail = all.split_off(start);
        (Some(tail), current)
    } else if current < last_count {
        (None, current)
    } else {
        (None, last_count)
    }
}

/// The view after `set_tailing(enabled)`: enabling jumps to the last line and
/// forgets that the user scrolled.
pub open spec fn with_tailing(a: App, enabled: bool) -> App {
    if enabled {
        App { base: a.base.after_jump_to_bottom(), is_tailing: true, user_scrolled: false, ..a }
    } else {
        App { is_tailing: false, ..a }
    }
}

/// The view after the key `k` is tracked as a navigation key: a navigation key
/// marks that the user scrolled and, away from the end, stops tailing.
pub open spec fn after_navigation(a: App, k: Key) -> App {
    if is_navigation_key(k) {
        let b = App { user_scrolled: true, ..a };
        if at_bottom(a.base.items@.len(), a.base.selected) {
            b
        } else {
            with_tailing(b, false)
        }
    } else {
        a
    }
}

/// The view after a key press outside the filter editor, or `None` when the
/// key leaves the view.
pub open spec fn after_key(a: App, k: KeyInput) -> Option<App> {
    if k.code == Key::Esc {
        None
    } else {
        let n = after_navigation(a, k.code);
        match common_action(k) {
            CommonKeyAction::Quit => None,
            CommonKeyAction::NotHandled => Some(
                match k.code {
                    Key::Char('/') => App { base: BaseTableState { show_filter_edit: true, ..n.base }, ..n },
                    Key::Char('t') | Key::Char('T') => with_tailing(n, !n.is_tailing),
                    _ => n,
                },
            ),
            act => Some(App { base: n.base.after_common(act), ..n }),
        }
    }
}

/// `b` is `a` after `new` lines are appended: the oldest lines beyond
/// `max_log_lines` are dropped and the selection moves with its line (to the
/// first line when its own was dropped); the scrollbar is resized to the lines
/// and back at the top, unless the view follows the end, which it does when
/// tailing and either at the end before or never scrolled by hand. Nothing else
/// changes.
pub open spec fn entries_added(a: App, new: Seq<LogRec>, b: App) -> bool {
    let all = a.base.items@ + new;
    let excess: int = if all.len() > a.max_log_lines {
        all.len() - a.max_log_lines
    } else {
        0
    };
    let kept = all.subrange(excess, all.len() as int);
    let moved: Option<usize> = if excess > 0 {
        match a.base.selected {
            Some(c) => Some(
                (if c >= excess {
                    c - excess
                } else {
                    0
                }) as usize,
            ),
            None => None,
        }
    } else {
        a.base.selected
    };
    let follows = a.is_tailing && (at_bottom(a.base.items@.len(), a.base.selected)
        || !a.user_scrolled) && kept.len() > 0;
    &&& b.base.items@ == kept
    &&& b.base.selected == if follows {
        Some((kept.len() - 1) as usize)
    } else {
        moved
    }
    &&& b.base.scroll_content_length == (last_index(kept.len()) * ITEM_HEIGHT) as usize
    &&& b.base.scroll_position == if follows {
        (last_index(kept.len()) * ITEM_HEIGHT) as usize
    } else {
        0usize
    }
    &&& b.base.color_index == a.base.color_index
    &&& b.base.filter == a.base.filter
    &&& b.base.show_filter_edit == a.base.show_filter_edit
    &&& b.base.edit_filter_cursor_position == a.base.edit_filter_cursor_position
    &&& b.base.yaml_editor == a.base.yaml_editor
    &&& b.selector == a.selector
    &&& b.pod_name == a.pod_name
    &&& b.container_name == a.container_name
    &&& b.is_tailing == a.is_tailing
    &&& b.user_scrolled == a.user_scrolled
    &&& b.max_log_lines == a.max_log_lines
}

/// The key reaches the common table keys and asks them to move down.
pub open spec fn log_moves_down(a: App, m: Message) -> bool {
    &&& !a.base.show_filter_edit
    &&& m matches Message::Key(Some(k))
    &&& common_action(k) == CommonKeyAction::Next
}

impl App {
    /// The bounds that the view's handlers need: the table's, and a line limit
    /// small enough for the scrollbar arithmetic.
    pub open spec fn wf(&self) -> bool {
        self.base.wf() && self.max_log_lines * 25 <= usize::MAX
    }

    /// The view for a container's logs, tailing, with room for 1000 lines.
    pub fn new(selector: BTreeMap<String, String>, pod_name: String, container_name: String) -> (r:
        Self)
        ensures
            r.base.is_fresh(r.base.items),
            r.base.items@.len() == 0,
            r.base.selected == Some(0usize),
            r.selector == selector,
            r.pod_name == pod_name,
            r.container_name == container_name,
            r.is_tailing,
            !r.user_scrolled,
            r.wf(),
            r.max_log_lines == 1000,
    {
        Self {
            base: BaseTableState::new(Vec::new()),
            selector,
            pod_name,
            container_name,
            is_tailing: true,
            user_scrolled: false,
            max_log_lines: 1000,
        }
    }

    /// Whether the selection is at (within three lines of) the end of the log.
    pub fn is_at_bottom(&self) -> (b: bool)
        ensures
            b == at_bottom(self.base.items@.len(), self.base.selected),
    {
        if self.base.items.len() == 0 {
            return true;
        }
        let current_selection: usize = match self.base.selected {
            Some(s) => s,
            None => 0,
        };
        let total_items = self.base.items.len();
        let rest: usize = if total_items > current_selection {
            total_items - current_selection
        } else {
            0
        };
        rest <= 3
    }

    /// Selects the last line and scrolls to it.
    pub fn jump_to_bottom(&mut self)
        requires
            old(self).base.items@.len() * ITEM_HEIGHT <= usize::MAX,
        ensures
            old(self).wf() ==> final(self).wf(),
            *final(self) == (App { base: old(self).base.after_jump_to_bottom(), ..*old(self) }),
    {
        if self.base.items.len() > 0 {
            let last_index = self.base.items.len() - 1;
            self.base.selected = Some(last_index);
            self.base.scroll_content_length = last_index * ITEM_HEIGHT;
            self.base.scroll_position = last_index * ITEM_HEIGHT;
        }
    }

    /// Enables or disables auto-tailing; enabling it jumps to the bottom and
    /// forgets that the user scrolled.
    pub fn set_tailing(&mut self, enabled: bool)
        requires
            old(self).base.items@.len() * ITEM_HEIGHT <= usize::MAX,
        ensures
            old(self).wf() ==> final(self).wf(),
            *final(self) == with_tailing(*old(self), enabled),
    {
        self.is_tailing = enabled;
        if enabled {
            self.jump_to_bottom();
            self.user_scrolled = false;
        }
    }

    /// Appends new log lines, drops the oldest beyond `max_log_lines`, keeps the
    /// selection on the same line where it survives, and follows the end when
    /// tailing (unless the user scrolled away from it); see `entries_added`.
    pub fn add_log_entries(&mut self, new_logs: Vec<LogRec>)
        requires
            (old(self).base.items@.len() + new_logs@.len()) * ITEM_HEIGHT <= usize::MAX,
        ensures
            old(self).wf() && new_logs@.len() * 25 <= usize::MAX ==> final(self).wf(),
            entries_added(*old(self), new_logs@, *final(self)),
    {
        let ghost start = *self;
        let ghost added = new_logs@;
        let was_at_bottom = self.is_at_bottom();
        let mut new_logs = new_logs;
        self.base.items.append(&mut new_logs);
        let ghost all = self.base.items@;
        assert(all == start.base.items@ + added);
        if self.base.items.len() > self.max_log_lines {
            let excess = self.base.items.len() - self.max_log_lines;
            let kept = self.base.items.split_off(excess);
            assert(kept@ =~= all.subrange(excess as int, all.len() as int));
            self.base.items = kept;
            if let Some(current) = self.base.selected {
                if current >= excess {
                    self.base.selected = Some(current - excess);
                } else {
                    self.base.selected = Some(0);
                }
            }
        }
        let n = if self.base.items.len() == 0 {
            0
        } else {
            self.base.items.len() - 1
        };
        self.base.scroll_content_length = n * ITEM_HEIGHT;
        self.base.scroll_position = 0;
        proof {
            if all.len() <= start.max_log_lines {
                assert(self.base.items@ =~= all.subrange(0, all.len() as int));
            }
        }
        if self.is_tailing && (was_at_bottom || !self.user_scrolled) {
            self.jump_to_bottom();
        }
    }

    /// Handles an event. While the filter is edited, keys edit it and fresh
    /// lines replace the shown ones. Otherwise Esc and `q` leave, navigation keys
    /// stop tailing when away from the end, the common table keys apply, `/`
    /// opens the filter and `t` toggles tailing; fresh lines that differ from the
    /// shown ones are appended.
    pub fn handle_event(self, event: Message) -> (r: Step)
        requires
            self.wf(),
            event matches Message::Log(v) ==> v@.len() * 25 <= usize::MAX,
            log_moves_down(self, event) ==> self.base.items@.len() > 0,
        ensures
            step_wf(r),
            self.base.show_filter_edit ==> match event {
                Message::Key(Some(k)) => match filter_edit_of(k.code) {
                    Some(e) => match r {
                        Step::Show(Apps::Log { app }) => self.base.filter_edited(app.base, e)
                            && app.is_tailing == self.is_tailing && app.user_scrolled == self.user_scrolled,
                        _ => false,
                    },
                    None => shows(r, Apps::Log { app: self }),
                },
                Message::Log(v) => shows(r, Apps::Log { app: App { base: self.base.with_items(v), ..self } }),
                _ => shows(r, Apps::Log { app: self }),
            },
            !self.base.show_filter_edit ==> match event {
                Message::Key(Some(k)) => match after_key(self, k) {
                    None => r is Quit,
                    Some(b) => shows(r, Apps::Log { app: b }),
                },
                Message::Log(v) => match r {
                    Step::Show(Apps::Log { app }) => if same_lines(v@, self.base.items@) {
                        app == self
                    } else {
                        entries_added(self, v@, app)
                    },
                    _ => false,
                },
                _ => shows(r, Apps::Log { app: self }),
            },
    {
        let mut app = self;
        if app.base.show_filter_edit {
            return match event {
                Message::Key(Some(k)) => {
                    match handle_filter_editing_keys(&k) {
                        Some(e) => app.base.apply_filter_edit(e),
                        None => {},
                    }
                    Step::Show(Apps::Log { app })
                },
                Message::Log(v) => {
                    app.base.set_items(v);
                    Step::Show(Apps::Log { app })
                },
                _ => Step::Show(Apps::Log { app }),
            };
        }
        match event {
            Message::Key(Some(k)) => {
                if k.code == Key::Esc {
                    return Step::Quit;
                }
                app.handle_navigation_key(&k);
                match handle_common_keys(&k) {
                    CommonKeyAction::Quit => Step::Quit,
                    CommonKeyAction::NotHandled => {
                        match k.code {
                            Key::Char('/') => {
                                app.base.show_filter_edit = true;
                            },
                            Key::Char('t') | Key::Char('T') => {
                                let enabled = !app.is_tailing;
                                app.set_tailing(enabled);
                            },
                            _ => {},
                        }
                        Step::Show(Apps::Log { app })
                    },
                    a => {
                        if a == CommonKeyAction::Next {
                            assert(app.base.items@.len() > 0);
                        }
                        app.base.apply_common(a);
                        Step::Show(Apps::Log { app })
                    },
                }
            },
            Message::Log(v) => {
                if !same_logs(&v, &app.base.items) {
                    app.add_log_entries(v);
                }
                Step::Show(Apps::Log { app })
            },
            _ => Step::Show(Apps::Log { app }),
        }
    }

    /// Tracks the navigation keys: they mark that the user scrolled and stop
    /// tailing when the view is not at the bottom. Returns whether the key is a
    /// navigation key.
    pub fn handle_navigation_key(&mut self, key: &KeyInput) -> (b: bool)
        requires
            old(self).base.items@.len() * ITEM_HEIGHT <= usize::MAX,
        ensures
            old(self).wf() ==> final(self).wf(),
            b == is_navigation_key(key.code),
            *final(self) == after_navigation(*old(self), key.code),
    {
        let was_at_bottom = self.is_at_bottom();
        match key.code {
            Key::Up | Key::Char('k') | Key::Char('j') | Key::Down | Key::PageUp | Key::PageDown
            | Key::Home | Key::End => {
                self.user_scrolled = true;
                if !was_at_bottom || !self.is_at_bottom() {
                    self.set_tailing(false);
                }
                true
            },
            _ => false,
        }
    }
}

/// Appending lines never leaves more than `max_log_lines` lines, and keeps the
/// newest: the lines shown end with the new ones (or are their last
/// `max_log_lines`), and come right after each other as they were appended. The
/// tailing flags stay, and a view that tails and was at the end (or never
/// scrolled by hand) selects the last line.
pub proof fn lemma_log_buffer_bounded(a: App, new: Seq<LogRec>, b: App)
    requires
        entries_added(a, new, b),
    ensures
        b.base.items@.len() <= b.max_log_lines,
        b.max_log_lines == a.max_log_lines,
        new.len() <= a.max_log_lines ==> b.base.items@.skip(b.base.items@.len() - new.len()) == new,
        new.len() > a.max_log_lines ==> b.base.items@ == new.skip(new.len() - a.max_log_lines),
        b.base.items@ == (a.base.items@ + new).skip((a.base.items@ + new).len() - b.base.items@.len()),
        b.base.items@ == (a.base.items@ + new).skip(
            if (a.base.items@ + new).len() > a.max_log_lines {
                (a.base.items@ + new).len() - a.max_log_lines
            } else {
                0
            },
        ),
        b.is_tailing == a.is_tailing,
        b.user_scrolled == a.user_scrolled,
        a.is_tailing && (at_bottom(a.base.items@.len(), a.base.selected) || !a.user_scrolled)
            && b.base.items@.len() > 0 ==> b.base.selected == Some((b.base.items@.len() - 1) as usize),
{
    let all = a.base.items@ + new;
    let excess: int = if all.len() > a.max_log_lines {
        all.len() - a.max_log_lines
    } else {
        0
    };
    assert(b.base.items@ =~= all.skip(excess));
    if new.len() <= a.max_log_lines {
        assert(b.base.items@.skip(b.base.items@.len() - new.len()) =~= new);
    } else {
        assert(b.base.items@ =~= new.skip(new.len() - a.max_log_lines));
    }
}

} // verus!
