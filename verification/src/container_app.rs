//! The container view's panels: focus cycling, navigation inside the mounts,
//! environment and probe panels, and the probe result popup.
use crate::data::Container;
use crate::keys::{common_action, handle_common_keys, CommonKeyAction, Key, KeyInput};
use crate::log_app;
use crate::pod_app::{self, step_wf, PodSelector};
use crate::table::{selected_of, BaseTableState};
use crate::text::{chars_of, lines, split_lines};
use crate::ui_loop::{shows, Apps, Message, Step};
use std::collections::BTreeMap;
use vstd::prelude::*;

verus! {

/// The panel that has the keyboard focus.
#[derive(Clone, Copy, Debug, PartialEq, Eq, Structural)]
pub enum FocusedPanel {
    ContainerList,
    Mounts,
    EnvVars,
    Probes,
}

/// The outcome of a probe execution.
#[derive(Clone, Copy, Debug, PartialEq, Eq, Structural)]
pub enum ProbeStatus {
    Success,
    Failure,
    Timeout,
    Error,
}

/// The result of executing a container probe.
#[derive(Clone, Debug)]
pub struct ProbeResult {
    pub probe_type: String,
    pub handler_type: String,
    pub status: ProbeStatus,
    pub response_time_ms: u64,
    pub status_code: Option<u16>,
    pub response_body: String,
    pub error_message: Option<String>,
    pub timestamp: String,
}

/// The number of lines the probe popup shows for a result.
pub open spec fn probe_popup_lines(r: ProbeResult) -> nat {
    7 + (if r.status_code is Some {
        1nat
    } else {
        0
    }) + (if r.error_message is Some {
        2nat
    } else {
        0
    }) + (if r.response_body@.len() > 0 {
        2 + (if lines(r.response_body@).len() < 100 {
            lines(r.response_body@).len()
        } else {
            100
        })
    } else {
        0
    })
}

/// Counts the lines of the probe popup: header, timing and timestamp, the status
/// code and error when present, and at most 100 lines of the response body.
pub fn count_probe_popup_lines(result: &ProbeResult) -> (n: usize)
    ensures
        n == probe_popup_lines(*result),
{
    let mut lines_count: usize = 7;
    if result.status_code.is_some() {
        lines_count = lines_count + 1;
    }
    if result.error_message.is_some() {
        lines_count = lines_count + 2;
    }
    let body = chars_of(result.response_body.as_str());
    if body.len() > 0 {
        let ls = split_lines(body.as_slice());
        let shown = if ls.len() < 100 {
            ls.len()
        } else {
            100
        };
        lines_count = lines_count + 2 + shown;
    }
    lines_count
}

/// Number of detail rows visible at once in a panel.
pub const VISIBLE_ITEMS: usize = 10;

/// What a key press in the container view leads to.
#[derive(Clone, Copy, Debug, PartialEq, Eq, Structural)]
pub enum ContainerKeyOutcome {
    /// Stay in the container view.
    Stay,
    /// Close the probe popup and quit the whole application.
    ForceQuit,
    /// Go back to the pod view.
    BackToPods,
    /// Open the logs of the selected container.
    OpenLogs,
    /// Execute the selected probe and show its result.
    ExecuteProbe,
}

/// The sizes of the detail panels of the selected container.
#[derive(Clone, Copy, Debug)]
pub struct PanelCounts {
    pub mounts: usize,
    pub env_vars: usize,
    pub probes: usize,
    /// A container is selected and has label selectors to find its logs with.
    pub can_open_logs: bool,
}

/// The navigation state of the container view.
#[derive(Clone, Copy, Debug, PartialEq, Eq, Structural)]
pub struct PanelState {
    pub focused_panel: FocusedPanel,
    /// Selected row of the focused detail panel.
    pub detail_selection: usize,
    /// First visible row of the focused detail panel.
    pub detail_scroll_offset: usize,
    pub show_probe_popup: bool,
    /// Lines of the probe result shown in the popup, when there is one.
    pub probe_result_lines: Option<usize>,
    pub probe_popup_scroll: usize,
    /// The last key was consumed by the container view.
    pub key_was_handled_by_container: bool,
}

/// The panel after `p` in Tab order.
pub open spec fn next_panel(p: FocusedPanel) -> FocusedPanel {
    match p {
        FocusedPanel::ContainerList => FocusedPanel::Mounts,
        FocusedPanel::Mounts => FocusedPanel::EnvVars,
        FocusedPanel::EnvVars => FocusedPanel::Probes,
        FocusedPanel::Probes => FocusedPanel::ContainerList,
    }
}

/// The panel before `p` in Tab order.
pub open spec fn previous_panel(p: FocusedPanel) -> FocusedPanel {
    match p {
        FocusedPanel::ContainerList => FocusedPanel::Probes,
        FocusedPanel::Mounts => FocusedPanel::ContainerList,
        FocusedPanel::EnvVars => FocusedPanel::Mounts,
        FocusedPanel::Probes => FocusedPanel::EnvVars,
    }
}

/// The number of rows of the focused detail panel.
pub open spec fn panel_size(p: FocusedPanel, c: PanelCounts) -> nat {
    match p {
        FocusedPanel::ContainerList => 0,
        FocusedPanel::Mounts => c.mounts as nat,
        FocusedPanel::EnvVars => c.env_vars as nat,
        FocusedPanel::Probes => c.probes as nat,
    }
}

/// The selection is a row of the panel and lies in the visible window.
pub open spec fn selection_visible(s: PanelState, size: nat) -> bool {
    &&& s.detail_selection < size
    &&& s.detail_scroll_offset <= s.detail_selection
    &&& s.detail_selection < s.detail_scroll_offset + VISIBLE_ITEMS
    &&& size <= VISIBLE_ITEMS ==> s.detail_scroll_offset == 0
}

/// The state after moving the selection of the focused detail panel one row down
/// (`down`) or up, keeping it in the window of visible rows.
pub open spec fn detail_step(s: PanelState, c: PanelCounts, down: bool) -> PanelState {
    let max = panel_size(s.focused_panel, c);
    if s.focused_panel == FocusedPanel::ContainerList || max == 0 {
        s
    } else {
        let sel: nat = if down {
            if s.detail_selection + 1 < max {
                (s.detail_selection + 1) as nat
            } else {
                s.detail_selection as nat
            }
        } else if s.detail_selection > 0 {
            (s.detail_selection - 1) as nat
        } else {
            s.detail_selection as nat
        };
        let off: nat = if max > VISIBLE_ITEMS {
            if sel >= s.detail_scroll_offset + VISIBLE_ITEMS {
                (sel - VISIBLE_ITEMS + 1) as nat
            } else if sel < s.detail_scroll_offset {
                sel
            } else {
                s.detail_scroll_offset as nat
            }
        } else {
            0
        };
        PanelState { detail_selection: sel as usize, detail_scroll_offset: off as usize, ..s }
    }
}

/// The popup's scroll after a key while the probe popup is shown: one line down
/// or up, the top or the last line, or a page down or up with Ctrl alone.
pub open spec fn popup_scroll(s: PanelState, k: KeyInput) -> usize {
    let scroll = s.probe_popup_scroll;
    let ctrl_only = k.ctrl && !k.other_modifiers;
    match k.code {
        Key::Down | Key::Char('j') => match s.probe_result_lines {
            Some(n) => if scroll + 1 < n {
                (scroll + 1) as usize
            } else {
                scroll
            },
            None => scroll,
        },
        Key::Up | Key::Char('k') => if scroll > 0 {
            (scroll - 1) as usize
        } else {
            scroll
        },
        Key::Char('g') => 0,
        Key::Char('G') => match s.probe_result_lines {
            Some(n) => if n > 0 {
                (n - 1) as usize
            } else {
                0
            },
            None => scroll,
        },
        Key::PageDown | Key::Char('f') => if ctrl_only {
            match s.probe_result_lines {
                Some(n) => {
                    let last: int = if n > 0 {
                        n - 1
                    } else {
                        0
                    };
                    if scroll + 10 < last {
                        (scroll + 10) as usize
                    } else {
                        last as usize
                    }
                },
                None => scroll,
            }
        } else {
            scroll
        },
        Key::PageUp | Key::Char('b') => if ctrl_only {
            if scroll > 10 {
                (scroll - 10) as usize
            } else {
                0
            }
        } else {
            scroll
        },
        _ => scroll,
    }
}

/// The state and outcome of a key while the probe popup is shown: the popup
/// takes every key; Esc closes it, `q` closes it and quits, the others scroll it.
pub open spec fn popup_key_step(s: PanelState, k: KeyInput) -> (PanelState, ContainerKeyOutcome) {
    let h = PanelState { key_was_handled_by_container: true, ..s };
    let closed = PanelState {
        show_probe_popup: false,
        probe_result_lines: None,
        probe_popup_scroll: 0,
        ..h
    };
    match k.code {
        Key::Esc => (closed, ContainerKeyOutcome::Stay),
        Key::Char('q') => (closed, ContainerKeyOutcome::ForceQuit),
        _ => (PanelState { probe_popup_scroll: popup_scroll(s, k), ..h }, ContainerKeyOutcome::Stay),
    }
}

/// The state and outcome of a key while no popup is shown. Esc, Tab and
/// Shift-Tab are always the container view's: Esc leaves a detail panel for the
/// container list, or from the list goes back to the pods; Tab and Shift-Tab
/// move the focus and reset the panel's selection and scroll. The arrows and
/// `j`/`k` move within a focused detail panel. Enter opens the logs from the
/// list (when the container has selectors) or runs the selected probe. Every
/// other key is left to the common table keys.
pub open spec fn panel_key_step(s: PanelState, k: KeyInput, c: PanelCounts) -> (PanelState, ContainerKeyOutcome) {
    let untouched = PanelState { key_was_handled_by_container: false, ..s };
    let h = PanelState { key_was_handled_by_container: true, ..s };
    match k.code {
        Key::Esc => if s.focused_panel == FocusedPanel::ContainerList {
            (h, ContainerKeyOutcome::BackToPods)
        } else {
            (
                PanelState { focused_panel: FocusedPanel::ContainerList, detail_selection: 0, ..h },
                ContainerKeyOutcome::Stay,
            )
        },
        Key::Tab => (
            PanelState {
                focused_panel: next_panel(s.focused_panel),
                detail_selection: 0,
                detail_scroll_offset: 0,
                ..h
            },
            ContainerKeyOutcome::Stay,
        ),
        Key::BackTab => (
            PanelState {
                focused_panel: previous_panel(s.focused_panel),
                detail_selection: 0,
                detail_scroll_offset: 0,
                ..h
            },
            ContainerKeyOutcome::Stay,
        ),
        Key::Up | Key::Down | Key::Char('j') | Key::Char('k') => if s.focused_panel
            != FocusedPanel::ContainerList {
            (
                PanelState {
                    key_was_handled_by_container: true,
                    ..detail_step(s, c, k.code == Key::Down || k.code == Key::Char('j'))
                },
                ContainerKeyOutcome::Stay,
            )
        } else {
            (untouched, ContainerKeyOutcome::Stay)
        },
        Key::Enter => match s.focused_panel {
            FocusedPanel::ContainerList => (
                untouched,
                if c.can_open_logs {
                    ContainerKeyOutcome::OpenLogs
                } else {
                    ContainerKeyOutcome::Stay
                },
            ),
            FocusedPanel::Probes => (h, ContainerKeyOutcome::ExecuteProbe),
            _ => (untouched, ContainerKeyOutcome::Stay),
        },
        _ => (untouched, ContainerKeyOutcome::Stay),
    }
}

/// The panel state stays within the bounds its navigation arithmetic needs.
pub open spec fn panels_ok(s: PanelState) -> bool {
    &&& s.detail_selection < usize::MAX
    &&& s.detail_scroll_offset <= usize::MAX - VISIBLE_ITEMS
    &&& s.probe_popup_scroll <= usize::MAX - VISIBLE_ITEMS
    &&& s.probe_result_lines matches Some(n) ==> n <= usize::MAX - VISIBLE_ITEMS
}

impl PanelState {
    /// The state of a freshly opened container view.
    pub fn new() -> (r: Self)
        ensures
            panels_ok(r),
            r.focused_panel == FocusedPanel::ContainerList,
            r.detail_selection == 0,
            r.detail_scroll_offset == 0,
            !r.show_probe_popup,
            r.probe_result_lines is None,
            r.probe_popup_scroll == 0,
            !r.key_was_handled_by_container,
    {
        PanelState {
            focused_panel: FocusedPanel::ContainerList,
            detail_selection: 0,
            detail_scroll_offset: 0,
            show_probe_popup: false,
            probe_result_lines: None,
            probe_popup_scroll: 0,
            key_was_handled_by_container: false,
        }
    }

    /// Moves the selection inside the focused detail panel and scrolls it into view.
    pub fn handle_detail_navigation(&mut self, down: bool, counts: &PanelCounts)
        requires
            old(self).detail_selection < usize::MAX,
            old(self).detail_scroll_offset <= usize::MAX - VISIBLE_ITEMS,
        ensures
            *final(self) == detail_step(*old(self), *counts, down),
    {
        let max_items: usize = match self.focused_panel {
            FocusedPanel::ContainerList => {
                return ;
            },
            FocusedPanel::Mounts => counts.mounts,
            FocusedPanel::EnvVars => counts.env_vars,
            FocusedPanel::Probes => counts.probes,
        };
        if max_items == 0 {
            return ;
        }
        if down {
            if self.detail_selection + 1 < max_items {
                self.detail_selection = self.detail_selection + 1;
            }
        } else {
            if self.detail_selection > 0 {
                self.detail_selection = self.detail_selection - 1;
            }
        }
        if max_items > VISIBLE_ITEMS {
            if self.detail_selection >= self.detail_scroll_offset + VISIBLE_ITEMS {
                self.detail_scroll_offset = self.detail_selection - VISIBLE_ITEMS + 1;
            } else if self.detail_selection < self.detail_scroll_offset {
                self.detail_scroll_offset = self.detail_selection;
            }
        } else {
            self.detail_scroll_offset = 0;
        }
    }

    /// Closes the probe popup.
    fn close_popup(&mut self)
        ensures
            *final(self) == (PanelState {
                show_probe_popup: false,
                probe_result_lines: None,
                probe_popup_scroll: 0,
                ..*old(self)
            }),
    {
        self.show_probe_popup = false;
        self.probe_result_lines = None;
        self.probe_popup_scroll = 0;
    }

    /// Opens the probe popup on a probe's result, scrolled to its top; the popup
    /// scrolls over the result's lines. Nothing else changes.
    pub fn show_probe_result(&mut self, result: &ProbeResult)
        ensures
            *final(self) == (PanelState {
                show_probe_popup: true,
                probe_result_lines: Some(probe_popup_lines(*result) as usize),
                probe_popup_scroll: 0,
                ..*old(self)
            }),
            probe_popup_lines(*result) <= 112,
            panels_ok(*old(self)) ==> panels_ok(*final(self)),
    {
        let n = count_probe_popup_lines(result);
        self.show_probe_popup = true;
        self.probe_result_lines = Some(n);
        self.probe_popup_scroll = 0;
    }

    /// Handles the keys of the container view before the common table keys: the
    /// probe popup takes all keys while it is shown; otherwise Tab and Shift-Tab
    /// cycle the focus, the arrows and `j`/`k` move within a focused detail panel,
    /// Esc leaves a detail panel (or the view), and Enter opens the logs or runs
    /// the selected probe.
    pub fn handle_container_specific_keys(&mut self, key: &KeyInput, counts: &PanelCounts) -> (o:
        ContainerKeyOutcome)
        requires
            old(self).detail_selection < usize::MAX,
            old(self).detail_scroll_offset <= usize::MAX - VISIBLE_ITEMS,
            old(self).probe_popup_scroll <= usize::MAX - VISIBLE_ITEMS,
        ensures
            (*final(self), o) == if old(self).show_probe_popup {
                popup_key_step(*old(self), *key)
            } else {
                panel_key_step(*old(self), *key, *counts)
            },
            !old(self).show_probe_popup && (key.code == Key::Esc || key.code == Key::Tab || key.code
                == Key::BackTab) ==> final(self).key_was_handled_by_container,
            !old(self).show_probe_popup && old(self).focused_panel == FocusedPanel::ContainerList
                && key.code != Key::Esc && key.code != Key::Enter ==> o == ContainerKeyOutcome::Stay,
            panels_ok(*old(self)) ==> panels_ok(*final(self)),
            old(self).show_probe_popup ==> final(self).key_was_handled_by_container && final(self).focused_panel == old(self).focused_panel,
            old(self).show_probe_popup && key.code == Key::Esc ==> o == ContainerKeyOutcome::Stay
                && !final(self).show_probe_popup && final(self).probe_popup_scroll == 0,
            old(self).show_probe_popup && key.code == Key::Char('q') ==> o
                == ContainerKeyOutcome::ForceQuit && !final(self).show_probe_popup,
            old(self).show_probe_popup && key.code != Key::Char('q') ==> o
                == ContainerKeyOutcome::Stay,
            old(self).show_probe_popup ==> (final(self).probe_result_lines matches Some(n)
                ==> final(self).probe_popup_scroll <= old(self).probe_popup_scroll || final(self).probe_popup_scroll < n),
            !old(self).show_probe_popup && key.code == Key::Tab ==> final(self).focused_panel
                == next_panel(old(self).focused_panel) && final(self).detail_selection == 0
                && final(self).detail_scroll_offset == 0 && o == ContainerKeyOutcome::Stay,
            !old(self).show_probe_popup && key.code == Key::BackTab ==> final(self).focused_panel
                == previous_panel(old(self).focused_panel) && final(self).detail_selection == 0
                && final(self).detail_scroll_offset == 0 && o == ContainerKeyOutcome::Stay,
            !old(self).show_probe_popup && key.code == Key::Esc ==> if old(self).focused_panel
                == FocusedPanel::ContainerList {
                o == ContainerKeyOutcome::BackToPods
            } else {
                o == ContainerKeyOutcome::Stay && final(self).focused_panel
                    == FocusedPanel::ContainerList && final(self).detail_selection == 0
            },
            !old(self).show_probe_popup && old(self).focused_panel != FocusedPanel::ContainerList
                && (key.code == Key::Down || key.code == Key::Char('j')) ==> *final(self)
                == (PanelState {
                key_was_handled_by_container: true,
                ..detail_step(*old(self), *counts, true)
            }) && o == ContainerKeyOutcome::Stay,
            !old(self).show_probe_popup && old(self).focused_panel != FocusedPanel::ContainerList
                && (key.code == Key::Up || key.code == Key::Char('k')) ==> *final(self)
                == (PanelState {
                key_was_handled_by_container: true,
                ..detail_step(*old(self), *counts, false)
            }) && o == ContainerKeyOutcome::Stay,
            !old(self).show_probe_popup && key.code == Key::Enter ==> o == (match old(self).focused_panel {
                FocusedPanel::ContainerList => if counts.can_open_logs {
                    ContainerKeyOutcome::OpenLogs
                } else {
                    ContainerKeyOutcome::Stay
                },
                FocusedPanel::Probes => ContainerKeyOutcome::ExecuteProbe,
                _ => ContainerKeyOutcome::Stay,
            }),
            !old(self).show_probe_popup && old(self).focused_panel == FocusedPanel::ContainerList
                && key.code != Key::Esc && key.code != Key::Tab && key.code != Key::BackTab
                ==> !final(self).key_was_handled_by_container,
    {
        self.key_was_handled_by_container = false;
        if self.show_probe_popup {
            self.key_was_handled_by_container = true;
            let is_ctrl_only = key.ctrl && !key.other_modifiers;
            match key.code {
                Key::Esc => {
                    self.close_popup();
                },
                Key::Char('q') => {
                    self.close_popup();
                    return ContainerKeyOutcome::ForceQuit;
                },
                Key::Down | Key::Char('j') => {
                    if let Some(content_lines) = self.probe_result_lines {
                        if self.probe_popup_scroll + 1 < content_lines {
                            self.probe_popup_scroll = self.probe_popup_scroll + 1;
                        }
                    }
                },
                Key::Up | Key::Char('k') => {
                    if self.probe_popup_scroll > 0 {
                        self.probe_popup_scroll = self.probe_popup_scroll - 1;
                    }
                },
                Key::Char('g') => {
                    self.probe_popup_scroll = 0;
                },
                Key::Char('G') => {
                    if let Some(content_lines) = self.probe_result_lines {
                        self.probe_popup_scroll = if content_lines > 0 {
                            content_lines - 1
                        } else {
                            0
                        };
                    }
                },
                Key::PageDown | Key::Char('f') => {
                    if is_ctrl_only {
                        if let Some(content_lines) = self.probe_result_lines {
                            let last = if content_lines > 0 {
                                content_lines - 1
                            } else {
                                0
                            };
                            let target = self.probe_popup_scroll + 10;
                            self.probe_popup_scroll = if target < last {
                                target
                            } else {
                                last
                            };
                        }
                    }
                },
                Key::PageUp | Key::Char('b') => {
                    if is_ctrl_only {
                        self.probe_popup_scroll = if self.probe_popup_scroll > 10 {
                            self.probe_popup_scroll - 10
                        } else {
                            0
                        };
                    }
                },
                _ => {},
            }
            return ContainerKeyOutcome::Stay;
        }
        match key.code {
            Key::Esc => {
                self.key_was_handled_by_container = true;
                if self.focused_panel == FocusedPanel::ContainerList {
                    return ContainerKeyOutcome::BackToPods;
                }
                self.focused_panel = FocusedPanel::ContainerList;
                self.detail_selection = 0;
            },
            Key::Tab => {
                self.key_was_handled_by_container = true;
                self.focused_panel = match self.focused_panel {
                    FocusedPanel::ContainerList => FocusedPanel::Mounts,
                    FocusedPanel::Mounts => FocusedPanel::EnvVars,
                    FocusedPanel::EnvVars => FocusedPanel::Probes,
                    FocusedPanel::Probes => FocusedPanel::ContainerList,
                };
                self.detail_selection = 0;
                self.detail_scroll_offset = 0;
            },
            Key::BackTab => {
                self.key_was_handled_by_container = true;
                self.focused_panel = match self.focused_panel {
                    FocusedPanel::ContainerList => FocusedPanel::Probes,
                    FocusedPanel::Mounts => FocusedPanel::ContainerList,
                    FocusedPanel::EnvVars => FocusedPanel::Mounts,
                    FocusedPanel::Probes => FocusedPanel::EnvVars,
                };
                self.detail_selection = 0;
                self.detail_scroll_offset = 0;
            },
            Key::Up | Key::Down | Key::Char('j') | Key::Char('k') => {
                if self.focused_panel != FocusedPanel::ContainerList {
                    self.key_was_handled_by_container = true;
                    let down = match key.code {
                        Key::Down | Key::Char('j') => true,
                        _ => false,
                    };
                    self.handle_detail_navigation(down, counts);
                    return ContainerKeyOutcome::Stay;
                }
            },
            Key::Enter => {
                match self.focused_panel {
                    FocusedPanel::ContainerList => {
                        if counts.can_open_logs {
                            return ContainerKeyOutcome::OpenLogs;
                        }
                    },
                    FocusedPanel::Probes => {
                        self.key_was_handled_by_container = true;
                        return ContainerKeyOutcome::ExecuteProbe;
                    },
                    _ => {},
                }
            },
            _ => {},
        }
        ContainerKeyOutcome::Stay
    }
}

/// State of the container view.
#[derive(Clone, Debug)]
pub struct App {
    pub base: BaseTableState<Container>,
    pub panels: PanelState,
}

/// The panel sizes of the selected container: its mounts and environment
/// variables; no probes are listed; logs open for a container with selectors.
pub open spec fn counts_of(sel: Option<Container>) -> PanelCounts {
    match sel {
        Some(c) => PanelCounts {
            mounts: c.mounts@.len() as usize,
            env_vars: c.envvars@.len() as usize,
            probes: 0,
            can_open_logs: c.selectors is Some,
        },
        None => PanelCounts { mounts: 0, env_vars: 0, probes: 0, can_open_logs: false },
    }
}

/// The panel state and outcome of key `k` in the container view `a`: the probe
/// popup's step while it is shown, otherwise the panels' step with the sizes of
/// the selected container.
pub open spec fn container_key_step(a: App, k: KeyInput) -> (PanelState, ContainerKeyOutcome) {
    if a.panels.show_probe_popup {
        popup_key_step(a.panels, k)
    } else {
        panel_key_step(a.panels, k, counts_of(selected_of(a.base.items@, a.base.selected)))
    }
}

/// The key reaches the common table keys and asks them to move down.
pub open spec fn container_moves_down(a: App, m: Message) -> bool {
    &&& m matches Message::Key(Some(k))
    &&& common_action(k) == CommonKeyAction::Next
}

impl App {
    /// The bounds that the view's handlers need.
    pub open spec fn wf(&self) -> bool {
        self.base.wf() && panels_ok(self.panels)
    }

    /// A container view over `data_vec`, focused on the container list.
    pub fn new(data_vec: Vec<Container>) -> (r: Self)
        ensures
            r.base.is_fresh(data_vec),
            r.panels.focused_panel == FocusedPanel::ContainerList,
            !r.panels.show_probe_popup,
            panels_ok(r.panels),
    {
        App { base: BaseTableState::new(data_vec), panels: PanelState::new() }
    }

    /// The mounts of the selected container as (name, path) rows; none when
    /// nothing is selected.
    pub fn get_left_details(&mut self) -> (r: Vec<(String, String, Option<String>)>)
        requires
            old(self).base.items@.len() * 25 <= usize::MAX,
        ensures
            final(self).base == old(self).base.after_lookup(),
            final(self).panels == old(self).panels,
            match selected_of(old(self).base.items@, old(self).base.selected) {
                Some(c) => {
                    &&& r@.len() == c.mounts@.len()
                    &&& forall|i: int|
                        0 <= i < r@.len() ==> {
                            let m = #[trigger] c.mounts@[i];
                            &&& r@[i].0 == m.name
                            &&& r@[i].1 == m.value
                            &&& r@[i].2 is None
                        }
                },
                None => r@.len() == 0,
            },
    {
        let mut r: Vec<(String, String, Option<String>)> = Vec::new();
        match self.base.get_selected_item() {
            Some(c) => {
                let mut i: usize = 0;
                while i < c.mounts.len()
                    invariant
                        i <= c.mounts@.len(),
                        r@.len() == i,
                        forall|j: int|
                            0 <= j < i ==> {
                                let m = #[trigger] c.mounts@[j];
                                &&& r@[j].0 == m.name
                                &&& r@[j].1 == m.value
                                &&& r@[j].2 is None
                            },
                    decreases c.mounts.len() - i,
                {
                    let m = &c.mounts[i];
                    r.push((m.name.clone(), m.value.clone(), None));
                    i = i + 1;
                }
            },
            None => {},
        }
        r
    }

    /// The environment variables of the selected container as (name, value)
    /// rows; none when nothing is selected.
    pub fn get_right_details(&mut self) -> (r: Vec<(String, String, Option<String>)>)
        requires
            old(self).base.items@.len() * 25 <= usize::MAX,
        ensures
            final(self).base == old(self).base.after_lookup(),
            final(self).panels == old(self).panels,
            match selected_of(old(self).base.items@, old(self).base.selected) {
                Some(c) => {
                    &&& r@.len() == c.envvars@.len()
                    &&& forall|i: int|
                        0 <= i < r@.len() ==> {
                            let v = #[trigger] c.envvars@[i];
                            &&& r@[i].0 == v.name
                            &&& r@[i].1 == v.value
                            &&& r@[i].2 is None
                        }
                },
                None => r@.len() == 0,
            },
    {
        let mut r: Vec<(String, String, Option<String>)> = Vec::new();
        match self.base.get_selected_item() {
            Some(c) => {
                let mut i: usize = 0;
                while i < c.envvars.len()
                    invariant
                        i <= c.envvars@.len(),
                        r@.len() == i,
                        forall|j: int|
                            0 <= j < i ==> {
                                let v = #[trigger] c.envvars@[j];
                                &&& r@[j].0 == v.name
                                &&& r@[j].1 == v.value
                                &&& r@[j].2 is None
                            },
                    decreases c.envvars.len() - i,
                {
                    let v = &c.envvars[i];
                    r.push((v.name.clone(), v.value.clone(), None));
                    i = i + 1;
                }
            },
            None => {},
        }
        r
    }

    /// Handles an event. The panel keys come first (see
    /// `PanelState::handle_container_specific_keys`); a key they leave alone goes
    /// to the common table keys. Esc on the container list opens an empty pods
    /// view, Enter there the logs of the selected container. Fresh containers
    /// replace the listed ones.
    pub fn handle_event(self, event: Message) -> (r: Step)
        requires
            self.wf(),
            event matches Message::Container(v) ==> v@.len() * 25 <= usize::MAX,
            container_moves_down(self, event) ==> self.base.items@.len() > 0,
        ensures
            step_wf(r),
            match event {
                Message::Key(Some(k)) => {
                    let sel = selected_of(self.base.items@, self.base.selected);
                    let (p, o) = container_key_step(self, k);
                    match o {
                        ContainerKeyOutcome::BackToPods => match r {
                            Step::Show(Apps::Pod { app }) => app.base.is_fresh(app.base.items)
                                && app.base.items@.len() == 0 && (match app.selector {
                                PodSelector::ByLabels(m) => m@.len() == 0,
                                _ => false,
                            }),
                            _ => false,
                        },
                        ContainerKeyOutcome::OpenLogs => match r {
                            Step::Show(Apps::Log { app }) => app.selector@ == sel.unwrap().selectors.unwrap()@
                                && app.pod_name@ == sel.unwrap().pod_name@
                                && app.container_name@ == sel.unwrap().name@
                                && app.base.is_fresh(app.base.items) && app.base.items@.len() == 0
                                && app.is_tailing && !app.user_scrolled && app.max_log_lines == 1000,
                            _ => false,
                        },
                        ContainerKeyOutcome::ForceQuit => r is QuitAll,
                        ContainerKeyOutcome::ExecuteProbe => shows(r, Apps::Container { app: App { panels: p, ..self } }),
                        ContainerKeyOutcome::Stay => if p.key_was_handled_by_container {
                            shows(r, Apps::Container { app: App { panels: p, ..self } })
                        } else {
                            match common_action(k) {
                                CommonKeyAction::Quit => r is Quit,
                                act => shows(r, Apps::Container { app: App { base: self.base.after_common(act), panels: p } }),
                            }
                        },
                    }
                },
                Message::Container(v) => shows(r, Apps::Container { app: App { base: self.base.with_items(v), ..self } }),
                _ => shows(r, Apps::Container { app: self }),
            },
    {
        let mut app = self;
        match event {
            Message::Key(Some(k)) => {
                let counts = match app.base.selected_item() {
                    Some(c) => PanelCounts {
                        mounts: c.mounts.len(),
                        env_vars: c.envvars.len(),
                        probes: 0,
                        can_open_logs: c.selectors.is_some(),
                    },
                    None => PanelCounts { mounts: 0, env_vars: 0, probes: 0, can_open_logs: false },
                };
                let outcome = app.panels.handle_container_specific_keys(&k, &counts);
                match outcome {
                    ContainerKeyOutcome::BackToPods => Step::Show(
                        Apps::Pod {
                            app: pod_app::App::new(PodSelector::ByLabels(BTreeMap::new()), Vec::new()),
                        },
                    ),
                    ContainerKeyOutcome::OpenLogs => {
                        let target = match app.base.selected_item() {
                            Some(c) => match &c.selectors {
                                Some(sel) => Some((sel.clone(), c.pod_name.clone(), c.name.clone())),
                                None => None,
                            },
                            None => None,
                        };
                        match target {
                            Some((selector, pod_name, container_name)) => Step::Show(
                                Apps::Log { app: log_app::App::new(selector, pod_name, container_name) },
                            ),
                            None => Step::Show(Apps::Container { app }),
                        }
                    },
                    ContainerKeyOutcome::Stay => {
                        if app.panels.key_was_handled_by_container {
                            Step::Show(Apps::Container { app })
                        } else {
                            match handle_common_keys(&k) {
                                CommonKeyAction::Quit => Step::Quit,
                                a => {
                                    app.base.apply_common(a);
                                    Step::Show(Apps::Container { app })
                                },
                            }
                        }
                    },
                    ContainerKeyOutcome::ForceQuit => Step::QuitAll,
                    _ => Step::Show(Apps::Container { app }),
                }
            },
            Message::Container(v) => {
                app.base.set_items(v);
                Step::Show(Apps::Container { app })
            },
            _ => Step::Show(Apps::Container { app }),
        }
    }
}

/// Tab cycles through all four panels.
pub proof fn lemma_tab_cycle(p: FocusedPanel)
    ensures
        next_panel(next_panel(next_panel(next_panel(p)))) == p,
        previous_panel(next_panel(p)) == p,
        next_panel(previous_panel(p)) == p,
{
}

/// Moving within a panel keeps the selection a visible row of the panel.
pub proof fn lemma_detail_step_keeps_visible(s: PanelState, c: PanelCounts, down: bool)
    requires
        s.focused_panel != FocusedPanel::ContainerList,
        panel_size(s.focused_panel, c) > 0,
        s.detail_selection < panel_size(s.focused_panel, c),
        s.detail_scroll_offset <= s.detail_selection,
        panel_size(s.focused_panel, c) <= VISIBLE_ITEMS ==> s.detail_scroll_offset == 0,
        s.detail_selection < s.detail_scroll_offset + VISIBLE_ITEMS,
    ensures
        selection_visible(detail_step(s, c, down), panel_size(s.focused_panel, c)),
{
}

/// Moving within a focused detail panel moves the selection one row down when a
/// row follows it, or one row up when one precedes it, and leaves it in the
/// window of rows shown: with more than ten rows the scroll offset is at most
/// the selection and less than ten rows behind it, otherwise the offset is 0.
/// Without a focused detail panel, or with an empty one, nothing moves. Only the
/// selection and the offset ever change.
pub proof fn lemma_detail_navigation(s: PanelState, c: PanelCounts, down: bool)
    ensures
        ({
            let t = detail_step(s, c, down);
            let m = panel_size(s.focused_panel, c);
            let idle = s.focused_panel == FocusedPanel::ContainerList || m == 0;
            &&& idle ==> t == s
            &&& !idle ==> t.detail_selection == (if down {
                if s.detail_selection + 1 < m {
                    s.detail_selection + 1
                } else {
                    s.detail_selection as int
                }
            } else if s.detail_selection > 0 {
                s.detail_selection - 1
            } else {
                0
            })
            &&& !idle && m > VISIBLE_ITEMS ==> t.detail_scroll_offset <= t.detail_selection
                < t.detail_scroll_offset + VISIBLE_ITEMS
            &&& !idle && m <= VISIBLE_ITEMS ==> t.detail_scroll_offset == 0
            &&& t == (PanelState {
                detail_selection: t.detail_selection,
                detail_scroll_offset: t.detail_scroll_offset,
                ..s
            })
        }),
{
}

} // verus!
