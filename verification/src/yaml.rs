//! The read-only YAML viewer: its state, scrolling, the validation of the
//! `kubectl` arguments, and the tokens that its syntax highlighting is built from.
use crate::keys::{Key, KeyInput};
use crate::text::{
    owned,
    byte_len, chars_eq_str, chars_of, find, find_chars, find_char, find_seq, is_alphanumeric,
    lines, lines_from, push_chars, push_str, split_lines, starts_with, starts_with_chars, sub_chars,
    trim, trim_chars, trim_start, trim_start_chars, unicode_alphanumeric, char_bytes,
};
use vstd::prelude::*;

verus! {

/// The viewer's mode (it only views).
#[derive(Debug, Clone, PartialEq, Eq, Structural)]
pub enum ViewerMode {
    /// Read-only YAML viewer.
    View,
}

/// State and content of the YAML viewer.
#[derive(Debug, Clone)]
pub struct YamlEditor {
    pub mode: ViewerMode,
    /// The YAML text shown.
    pub content: String,
    /// Kubernetes resource type, as `kubectl` names it.
    pub resource_type: String,
    pub resource_name: String,
    pub namespace: Option<String>,
    /// First line shown.
    pub scroll_offset: u16,
    /// Whether the viewer is shown.
    pub is_active: bool,
    /// The last error, if any.
    pub error_message: Option<String>,
}

/// A character allowed in a `kubectl` argument.
pub open spec fn safe_arg_char(c: char) -> bool {
    unicode_alphanumeric(c) || c == '-' || c == '_' || c == '.' || c == ':'
}

/// An argument that can be passed to `kubectl` without being taken for a flag or
/// anything but a name: non-empty, not starting with `-`, made of alphanumeric
/// characters and `-`, `_`, `.`, `:`.
pub open spec fn safe_kubectl_arg(a: Seq<char>) -> bool {
    &&& forall|k: int| 0 <= k < a.len() ==> safe_arg_char(#[trigger] a[k])
    &&& a.len() > 0
    &&& a[0] != '-'
}

/// The viewport height used when none is given.
pub const DEFAULT_VIEWPORT_HEIGHT: u16 = 17;

/// The largest scroll offset for `content` in a viewport of `height` lines.
pub open spec fn max_scroll(content: Seq<char>, height: u16) -> int {
    let n: int = if lines(content).len() <= u16::MAX {
        lines(content).len() as int
    } else {
        u16::MAX as int
    };
    if n > height {
        n - height
    } else {
        0
    }
}

/// The largest scroll offset leaves a full viewport below it.
pub proof fn lemma_max_scroll_bound(content: Seq<char>, height: u16)
    ensures
        0 <= max_scroll(content, height) <= u16::MAX - height,
{
}

/// The viewport height that a scroll uses.
pub open spec fn effective_height(viewport_height: Option<u16>) -> u16 {
    match viewport_height {
        Some(h) => h,
        None => DEFAULT_VIEWPORT_HEIGHT,
    }
}

/// The scroll offset lies within the range that scrolling with the default
/// viewport keeps it in.
pub open spec fn viewer_ok(e: YamlEditor) -> bool {
    e.scroll_offset <= u16::MAX - DEFAULT_VIEWPORT_HEIGHT
}

/// A closed viewer with no resource, content or error.
pub open spec fn is_default_viewer(e: YamlEditor) -> bool {
    &&& e.mode == ViewerMode::View
    &&& e.content@.len() == 0
    &&& e.resource_type@.len() == 0
    &&& e.resource_name@.len() == 0
    &&& e.namespace is None
    &&& e.scroll_offset == 0
    &&& !e.is_active
    &&& e.error_message is None
}

impl Default for YamlEditor {
    fn default() -> (r: Self)
        ensures
            is_default_viewer(r),
    {
        Self {
            mode: ViewerMode::View,
            content: String::new(),
            resource_type: String::new(),
            resource_name: String::new(),
            namespace: None,
            scroll_offset: 0,
            is_active: false,
            error_message: None,
        }
    }
}

impl YamlEditor {
    /// An active viewer for the given resource, with no content yet.
    pub fn new(resource_type: String, resource_name: String, namespace: Option<String>) -> (r: Self)
        ensures
            r.mode == ViewerMode::View,
            r.resource_type == resource_type,
            r.resource_name == resource_name,
            r.namespace == namespace,
            r.is_active,
            r.content@.len() == 0,
            r.scroll_offset == 0,
            r.error_message is None,
    {
        Self {
            mode: ViewerMode::View,
            content: String::new(),
            resource_type,
            resource_name,
            namespace,
            scroll_offset: 0,
            is_active: true,
            error_message: None,
        }
    }

    /// Whether `arg` is safe to pass to `kubectl`.
    pub fn is_safe_kubectl_arg(arg: &str) -> (b: bool)
        ensures
            b == safe_kubectl_arg(arg@),
    {
        let v = chars_of(arg);
        let mut k: usize = 0;
        while k < v.len()
            invariant
                k <= v@.len(),
                v@ == arg@,
                forall|m: int| 0 <= m < k ==> safe_arg_char(#[trigger] v@[m]),
            decreases v.len() - k,
        {
            let c = v[k];
            if !(is_alphanumeric(c) || c == '-' || c == '_' || c == '.' || c == ':') {
                return false;
            }
            k = k + 1;
        }
        v.len() > 0 && v[0] != '-'
    }

    /// Scrolls up by `amount` lines, stopping at the top.
    pub fn scroll_up(&mut self, amount: u16)
        ensures
            final(self).mode == old(self).mode,
            final(self).scroll_offset == if old(self).scroll_offset > amount {
                old(self).scroll_offset - amount
            } else {
                0
            },
            final(self).content == old(self).content,
            final(self).is_active == old(self).is_active,
            final(self).resource_type == old(self).resource_type,
            final(self).resource_name == old(self).resource_name,
            final(self).namespace == old(self).namespace,
            final(self).error_message == old(self).error_message,
    {
        self.scroll_offset = if self.scroll_offset > amount {
            self.scroll_offset - amount
        } else {
            0
        };
    }

    /// The number of lines of the content, capped at `u16::MAX`.
    fn content_lines(&self) -> (n: u16)
        ensures
            n == (if lines(self.content@).len() <= u16::MAX {
                lines(self.content@).len() as int
            } else {
                u16::MAX as int
            }),
    {
        let v = chars_of(self.content.as_str());
        let ls = split_lines(v.as_slice());
        if ls.len() <= 65535 {
            ls.len() as u16
        } else {
            u16::MAX
        }
    }

    /// Scrolls down by `amount` lines, stopping where the last line reaches the
    /// bottom of the viewport.
    pub fn scroll_down(&mut self, amount: u16, viewport_height: Option<u16>)
        requires
            old(self).scroll_offset + amount <= u16::MAX,
        ensures
            final(self).mode == old(self).mode,
            final(self).scroll_offset == if old(self).scroll_offset + amount < max_scroll(
                old(self).content@,
                effective_height(viewport_height),
            ) {
                old(self).scroll_offset + amount
            } else {
                max_scroll(old(self).content@, effective_height(viewport_height))
            },
            final(self).content == old(self).content,
            final(self).is_active == old(self).is_active,
            final(self).resource_type == old(self).resource_type,
            final(self).resource_name == old(self).resource_name,
            final(self).namespace == old(self).namespace,
            final(self).error_message == old(self).error_message,
    {
        let content_lines = self.content_lines();
        let effective_height: u16 = match viewport_height {
            Some(h) => h,
            None => DEFAULT_VIEWPORT_HEIGHT,
        };
        let max_scroll: u16 = if content_lines > effective_height {
            content_lines - effective_height
        } else {
            0
        };
        let target: u16 = self.scroll_offset + amount;
        self.scroll_offset = if target < max_scroll {
            target
        } else {
            max_scroll
        };
    }

    /// Jumps to the first line.
    pub fn jump_to_top(&mut self)
        ensures
            final(self).mode == old(self).mode,
            final(self).scroll_offset == 0,
            final(self).content == old(self).content,
            final(self).is_active == old(self).is_active,
            final(self).resource_type == old(self).resource_type,
            final(self).resource_name == old(self).resource_name,
            final(self).namespace == old(self).namespace,
            final(self).error_message == old(self).error_message,
    {
        self.scroll_offset = 0;
    }

    /// Jumps to where the last line reaches the bottom of the viewport.
    pub fn jump_to_bottom(&mut self, viewport_height: Option<u16>)
        ensures
            final(self).mode == old(self).mode,
            final(self).scroll_offset == max_scroll(
                old(self).content@,
                effective_height(viewport_height),
            ),
            final(self).content == old(self).content,
            final(self).is_active == old(self).is_active,
            final(self).resource_type == old(self).resource_type,
            final(self).resource_name == old(self).resource_name,
            final(self).namespace == old(self).namespace,
            final(self).error_message == old(self).error_message,
    {
        let content_lines = self.content_lines();
        let effective_height: u16 = match viewport_height {
            Some(h) => h,
            None => DEFAULT_VIEWPORT_HEIGHT,
        };
        self.scroll_offset = if content_lines > effective_height {
            content_lines - effective_height
        } else {
            0
        };
    }

    /// Closes the viewer and clears its content, error and scroll position.
    pub fn close(&mut self)
        ensures
            final(self).mode == old(self).mode,
            !final(self).is_active,
            final(self).content@.len() == 0,
            final(self).error_message is None,
            final(self).scroll_offset == 0,
            final(self).resource_type == old(self).resource_type,
            final(self).resource_name == old(self).resource_name,
            final(self).namespace == old(self).namespace,
    {
        self.is_active = false;
        self.content = String::new();
        self.error_message = None;
        self.scroll_offset = 0;
    }
}


/// The error that stops a fetch, when one of the arguments is unsafe.
pub open spec fn fetch_error(e: YamlEditor) -> Option<Seq<char>> {
    if !safe_kubectl_arg(e.resource_type@) {
        Some("Invalid resource type: contains unsafe characters"@)
    } else if !safe_kubectl_arg(e.resource_name@) {
        Some("Invalid resource name: contains unsafe characters"@)
    } else if e.namespace matches Some(ns) && !safe_kubectl_arg(ns@) {
        Some("Invalid namespace: contains unsafe characters"@)
    } else {
        None
    }
}

/// The arguments of `kubectl` that print the resource as YAML.
pub open spec fn kubectl_args(e: YamlEditor) -> Seq<Seq<char>> {
    let base = seq!["get"@, e.resource_type@, e.resource_name@, "-o"@, "yaml"@];
    match e.namespace {
        Some(ns) => base + seq!["-n"@, ns@],
        None => base,
    }
}

/// The outcome of preparing a fetch for the viewer `e`: when an argument is
/// unsafe, no arguments and the error recorded; otherwise the `kubectl`
/// arguments and no error.
pub open spec fn fetch_outcome(e: YamlEditor, args: Option<Vec<String>>) -> bool {
    match fetch_error(e) {
        Some(msg) => {
            &&& args is None
            &&& e.error_message is Some
            &&& e.error_message.unwrap()@ == msg
        },
        None => {
            &&& e.error_message is None
            &&& args is Some
            &&& args.unwrap()@.map_values(|x: String| x@) == kubectl_args(e)
        },
    }
}

/// `after` is `before` once a fetch was prepared with the result `args`: only the
/// error message changes.
pub open spec fn fetch_prepared(before: YamlEditor, after: YamlEditor, args: Option<Vec<String>>) -> bool {
    &&& after.mode == before.mode
    &&& after.content == before.content
    &&& after.resource_type == before.resource_type
    &&& after.resource_name == before.resource_name
    &&& after.namespace == before.namespace
    &&& after.scroll_offset == before.scroll_offset
    &&& after.is_active == before.is_active
    &&& fetch_outcome(after, args)
}

/// `e` is a freshly opened viewer for the resource `name` of type `kind` in the
/// namespace `ns`, with no content yet, scrolled to the top.
pub open spec fn viewer_opened(e: YamlEditor, kind: Seq<char>, name: Seq<char>, ns: Seq<char>) -> bool {
    &&& e.mode == ViewerMode::View
    &&& e.resource_type@ == kind
    &&& e.resource_name@ == name
    &&& e.namespace is Some
    &&& e.namespace.unwrap()@ == ns
    &&& e.is_active
    &&& e.content@.len() == 0
    &&& e.scroll_offset == 0
}

/// What a key does in the YAML viewer.
#[derive(Clone, Copy, Debug, PartialEq, Eq, Structural)]
pub enum YamlKeyResult {
    /// The key is not one of the viewer's.
    NotHandled,
    /// The key was applied to the viewer.
    Handled,
    /// The content should be fetched again.
    Refresh,
}

impl YamlEditor {
    /// Validates the arguments of a fetch. On success the error is cleared and the
    /// `kubectl` arguments are returned; otherwise the error is recorded and there
    /// are none.
    pub fn fetch_yaml_command(&mut self) -> (r: Option<Vec<String>>)
        ensures
            fetch_prepared(*old(self), *final(self), r),
    {
        self.error_message = None;
        if !Self::is_safe_kubectl_arg(self.resource_type.as_str()) {
            self.error_message = Some(owned("Invalid resource type: contains unsafe characters"));
            return None;
        }
        if !Self::is_safe_kubectl_arg(self.resource_name.as_str()) {
            self.error_message = Some(owned("Invalid resource name: contains unsafe characters"));
            return None;
        }
        match &self.namespace {
            Some(namespace) => {
                if !Self::is_safe_kubectl_arg(namespace.as_str()) {
                    self.error_message = Some(
                        owned("Invalid namespace: contains unsafe characters"),
                    );
                    return None;
                }
            },
            None => {},
        }
        let mut args: Vec<String> = Vec::new();
        args.push(owned("get"));
        args.push(self.resource_type.clone());
        args.push(self.resource_name.clone());
        args.push(owned("-o"));
        args.push(owned("yaml"));
        match &self.namespace {
            Some(namespace) => {
                args.push(owned("-n"));
                args.push(namespace.clone());
            },
            None => {},
        }
        assert(args@.map_values(|a: String| a@) =~= kubectl_args(*old(self)));
        Some(args)
    }

    /// Records the output of a finished `kubectl` run: the YAML on success,
    /// otherwise the error text (see `output_recorded`). A run that failed is
    /// an error, carrying the message recorded.
    pub fn apply_fetch_output(&mut self, success: bool, stdout: &str, stderr: &str) -> (r: Result<(), String>)
        ensures
            output_recorded(*old(self), *final(self), success, stdout@, stderr@),
            r is Ok <==> success,
            r matches Err(m) ==> m@ == "kubectl error: "@ + stderr@,
    {
        if success {
            self.content = owned(stdout);
            Ok(())
        } else {
            let mut msg = owned("kubectl error: ");
            push_str(&mut msg, stderr);
            let err = msg.clone();
            self.error_message = Some(msg);
            let mut content = owned("Error fetching YAML:\n");
            push_str(&mut content, stderr);
            self.content = content;
            Err(err)
        }
    }

    /// Records that `kubectl` could not be run, with the error's text (see
    /// `failure_recorded`), and fails with the message recorded.
    pub fn apply_fetch_failure(&mut self, error: &str) -> (r: Result<(), String>)
        ensures
            failure_recorded(*old(self), *final(self), error@),
            r matches Err(m) && final(self).error_message == Some(m),
    {
        let mut msg = owned("Failed to run kubectl command 'kubectl get ");
        push_str(&mut msg, self.resource_type.as_str());
        push_str(&mut msg, " ");
        push_str(&mut msg, self.resource_name.as_str());
        push_str(&mut msg, " -o yaml': ");
        push_str(&mut msg, error);
        let err = msg.clone();
        self.error_message = Some(msg);
        let mut content = owned("Error: kubectl command failed\n");
        push_str(&mut content, error);
        self.content = content;
        Err(err)
    }
}

/// Nothing but the content and the error message differs between `before` and
/// `after`.
pub open spec fn same_viewer_target(before: YamlEditor, after: YamlEditor) -> bool {
    &&& after.mode == before.mode
    &&& after.resource_type == before.resource_type
    &&& after.resource_name == before.resource_name
    &&& after.namespace == before.namespace
    &&& after.scroll_offset == before.scroll_offset
    &&& after.is_active == before.is_active
}

/// `after` is `before` with the output of a `kubectl` run recorded: on success
/// the content is `stdout` and the error message stays; otherwise the error
/// message and the content carry `stderr`.
pub open spec fn output_recorded(
    before: YamlEditor,
    after: YamlEditor,
    success: bool,
    stdout: Seq<char>,
    stderr: Seq<char>,
) -> bool {
    &&& same_viewer_target(before, after)
    &&& if success {
        after.content@ == stdout && after.error_message == before.error_message
    } else {
        &&& after.error_message matches Some(m) && m@ == "kubectl error: "@ + stderr
        &&& after.content@ == "Error fetching YAML:\n"@ + stderr
    }
}

/// `after` is `before` with the failure to run `kubectl` recorded: the error
/// message names the command and the error, the content the error.
pub open spec fn failure_recorded(before: YamlEditor, after: YamlEditor, error: Seq<char>) -> bool {
    &&& same_viewer_target(before, after)
    &&& after.error_message matches Some(m) && m@ == "Failed to run kubectl command 'kubectl get "@
        + before.resource_type@ + " "@ + before.resource_name@ + " -o yaml': "@ + error
    &&& after.content@ == "Error: kubectl command failed\n"@ + error
}

/// Whether a key is one of the viewer's, or asks for a refresh.
pub open spec fn viewer_key_result(k: Key) -> YamlKeyResult {
    match k {
        Key::Char('q') | Key::Esc | Key::Up | Key::Char('k') | Key::Down | Key::Char('j')
        | Key::Char('G') | Key::Char('g') => YamlKeyResult::Handled,
        Key::Char('r') | Key::Char('R') => YamlKeyResult::Refresh,
        _ => YamlKeyResult::NotHandled,
    }
}

/// `after` differs from `before` in the scroll offset alone, which is `offset`.
pub open spec fn scrolled_to(before: YamlEditor, after: YamlEditor, offset: int) -> bool {
    &&& after.scroll_offset == offset
    &&& after.mode == before.mode
    &&& after.content == before.content
    &&& after.resource_type == before.resource_type
    &&& after.resource_name == before.resource_name
    &&& after.namespace == before.namespace
    &&& after.is_active == before.is_active
    &&& after.error_message == before.error_message
}

/// `after` is the viewer `before` after the key `k`: `q`/Esc close it (clearing
/// content, error and scroll position), the arrows and `j`/`k` scroll by three
/// lines, `g`/`G` jump to the top or the bottom; any other key, the refresh keys
/// among them, leaves it as it is.
pub open spec fn viewer_key_effect(before: YamlEditor, after: YamlEditor, k: Key) -> bool {
    let bottom = max_scroll(before.content@, DEFAULT_VIEWPORT_HEIGHT);
    match k {
        Key::Char('q') | Key::Esc => {
            &&& !after.is_active
            &&& after.content@.len() == 0
            &&& after.error_message is None
            &&& after.scroll_offset == 0
            &&& after.mode == before.mode
            &&& after.resource_type == before.resource_type
            &&& after.resource_name == before.resource_name
            &&& after.namespace == before.namespace
        },
        Key::Up | Key::Char('k') => scrolled_to(
            before,
            after,
            if before.scroll_offset > 3 {
                before.scroll_offset - 3
            } else {
                0
            },
        ),
        Key::Down | Key::Char('j') => scrolled_to(
            before,
            after,
            if before.scroll_offset + 3 < bottom {
                before.scroll_offset + 3
            } else {
                bottom
            },
        ),
        Key::Char('G') => scrolled_to(before, after, bottom),
        Key::Char('g') => scrolled_to(before, after, 0),
        _ => after == before,
    }
}

/// Handles the keys of the YAML viewer: `q`/Esc close it, `r`/`R` ask for a
/// refresh, the arrows and `j`/`k` scroll by three lines, `g`/`G` jump to the top
/// or the bottom.
pub fn handle_yaml_editor_keys(key_event: &KeyInput, yaml_editor: &mut YamlEditor) -> (r:
    YamlKeyResult)
    requires
        old(yaml_editor).scroll_offset + 3 <= u16::MAX,
    ensures
        r == viewer_key_result(key_event.code),
        viewer_key_effect(*old(yaml_editor), *final(yaml_editor), key_event.code),
        r != YamlKeyResult::Handled ==> *final(yaml_editor) == *old(yaml_editor),
        viewer_ok(*old(yaml_editor)) ==> viewer_ok(*final(yaml_editor)),
{
    proof {
        lemma_max_scroll_bound(yaml_editor.content@, DEFAULT_VIEWPORT_HEIGHT);
    }
    match key_event.code {
        Key::Char('q') | Key::Esc => {
            yaml_editor.close();
            YamlKeyResult::Handled
        },
        Key::Char('r') | Key::Char('R') => YamlKeyResult::Refresh,
        Key::Up | Key::Char('k') => {
            yaml_editor.scroll_up(3);
            YamlKeyResult::Handled
        },
        Key::Down | Key::Char('j') => {
            yaml_editor.scroll_down(3, None);
            YamlKeyResult::Handled
        },
        Key::Char('G') => {
            yaml_editor.jump_to_bottom(None);
            YamlKeyResult::Handled
        },
        Key::Char('g') => {
            yaml_editor.jump_to_top();
            YamlKeyResult::Handled
        },
        _ => YamlKeyResult::NotHandled,
    }
}


// ---------------------------------------------------------------------------
// Syntax highlighting tokens
// ---------------------------------------------------------------------------

/// How a piece of a YAML line is highlighted.
#[derive(Clone, Copy, Debug, PartialEq, Eq, Structural)]
pub enum YamlTokenStyle {
    /// Indentation and blank values: background only.
    Background,
    /// Comments, document separators, list markers and `null`.
    Muted,
    /// Mapping keys and their colon.
    Key,
    /// `true` and `false`.
    Boolean,
    /// Single- or double-quoted strings.
    Quoted,
    /// Numbers (digits, dots and minus signs).
    Number,
    /// Any other value.
    Value,
}

/// A piece of a line and its style.
pub type YamlToken = (String, YamlTokenStyle);

/// The view of a token.
pub open spec fn token_view(t: YamlToken) -> (Seq<char>, YamlTokenStyle) {
    (t.0@, t.1)
}

/// The views of tokens.
pub open spec fn tokens_view(v: Seq<YamlToken>) -> Seq<(Seq<char>, YamlTokenStyle)> {
    v.map_values(|t: YamlToken| token_view(t))
}

/// A number as the viewer recognises it: only ASCII digits, dots and minus signs.
pub open spec fn number_like(t: Seq<char>) -> bool {
    forall|k: int| 0 <= k < t.len() ==> ('0' <= #[trigger] t[k] <= '9' || t[k] == '.' || t[k] == '-')
}

/// The style of a value whose trimmed text is `t`.
pub open spec fn value_style(t: Seq<char>) -> YamlTokenStyle {
    if t == "null"@ || t == "~"@ {
        YamlTokenStyle::Muted
    } else if t == "true"@ || t == "false"@ {
        YamlTokenStyle::Boolean
    } else if starts_with(t, "\""@) && crate::text::ends_with(t, "\""@) {
        YamlTokenStyle::Quoted
    } else if starts_with(t, "'"@) && crate::text::ends_with(t, "'"@) {
        YamlTokenStyle::Quoted
    } else if number_like(t) {
        YamlTokenStyle::Number
    } else {
        YamlTokenStyle::Value
    }
}

/// A value as one token, styled by its trimmed text.
pub open spec fn value_tokens(v: Seq<char>) -> Seq<(Seq<char>, YamlTokenStyle)> {
    if trim(v).len() == 0 {
        seq![(v, YamlTokenStyle::Background)]
    } else {
        seq![(v, value_style(trim(v)))]
    }
}

/// A value, split off a trailing ` #` comment if there is one.
pub open spec fn yaml_value_tokens(v: Seq<char>) -> Seq<(Seq<char>, YamlTokenStyle)> {
    match find_seq(v, " #"@) {
        Some(p) => {
            let value_part = v.take(p as int);
            let comment = v.skip(p as int);
            (if trim(value_part).len() > 0 {
                value_tokens(value_part)
            } else {
                seq![]
            }) + seq![(comment, YamlTokenStyle::Muted)]
        },
        None => value_tokens(v),
    }
}

/// `n` spaces.
pub open spec fn spaces(n: nat) -> Seq<char> {
    Seq::new(n, |i: int| ' ')
}

/// The tokens of a YAML line: its indentation (as many spaces as the leading
/// whitespace has bytes), then a comment, a separator, a list item, a key and its
/// value, or a bare value.
pub open spec fn yaml_line_tokens(line: Seq<char>) -> Seq<(Seq<char>, YamlTokenStyle)> {
    let lead = byte_len(line.take(crate::text::lead_from(line, 0)));
    let indent = if lead > 0 {
        seq![(spaces(lead), YamlTokenStyle::Background)]
    } else {
        seq![]
    };
    let t = trim_start(line);
    indent + if t.len() == 0 {
        seq![(Seq::<char>::empty(), YamlTokenStyle::Background)]
    } else if t[0] == '#' {
        seq![(t, YamlTokenStyle::Muted)]
    } else if t == "---"@ || t == "..."@ {
        seq![(t, YamlTokenStyle::Muted)]
    } else if starts_with(t, "- "@) {
        seq![("- "@, YamlTokenStyle::Muted)] + yaml_value_tokens(t.skip(2))
    } else {
        match find_char(t, ':') {
            Some(p) => seq![(t.take(p as int), YamlTokenStyle::Key), (":"@, YamlTokenStyle::Key)]
                + if t.len() - p > 1 {
                yaml_value_tokens(t.skip(p as int + 1))
            } else {
                seq![]
            },
            None => yaml_value_tokens(t),
        }
    }
}

/// Whether the characters look like a number.
fn is_number_like(t: &[char]) -> (b: bool)
    ensures
        b == number_like(t@),
{
    let mut k: usize = 0;
    while k < t.len()
        invariant
            k <= t@.len(),
            forall|m: int| 0 <= m < k ==> ('0' <= #[trigger] t@[m] <= '9' || t@[m] == '.' || t@[m] == '-'),
        decreases t.len() - k,
    {
        let c = t[k];
        if !(('0' <= c && c <= '9') || c == '.' || c == '-') {
            return false;
        }
        k = k + 1;
    }
    true
}

/// The style of a value whose trimmed text is `t`.
fn style_of_value(t: &[char]) -> (st: YamlTokenStyle)
    ensures
        st == value_style(t@),
{
    let dq = chars_of("\"");
    let sq = chars_of("'");
    if chars_eq_str(t, "null") || chars_eq_str(t, "~") {
        YamlTokenStyle::Muted
    } else if chars_eq_str(t, "true") || chars_eq_str(t, "false") {
        YamlTokenStyle::Boolean
    } else if starts_with_chars(t, dq.as_slice()) && crate::text::ends_with_chars(t, dq.as_slice()) {
        YamlTokenStyle::Quoted
    } else if starts_with_chars(t, sq.as_slice()) && crate::text::ends_with_chars(t, sq.as_slice()) {
        YamlTokenStyle::Quoted
    } else if is_number_like(t) {
        YamlTokenStyle::Number
    } else {
        YamlTokenStyle::Value
    }
}

/// A value as one token, styled by its trimmed text.
fn parse_value_tokens(value: &[char]) -> (r: Vec<YamlToken>)
    ensures
        tokens_view(r@) == value_tokens(value@),
{
    let t = trim_chars(value);
    let style = if t.len() == 0 {
        YamlTokenStyle::Background
    } else {
        style_of_value(t.as_slice())
    };
    let mut r: Vec<YamlToken> = Vec::new();
    r.push((crate::text::string_of(value), style));
    assert(tokens_view(r@) =~= value_tokens(value@));
    r
}

/// A value, split off a trailing ` #` comment if there is one.
fn parse_yaml_value(value: &[char]) -> (r: Vec<YamlToken>)
    ensures
        tokens_view(r@) == yaml_value_tokens(value@),
{
    let pat = chars_of(" #");
    match find_chars(value, pat.as_slice()) {
        Some(p) => {
            proof {
                crate::text::lemma_occurrence_from(value@, " #"@, 0);
            }
            let value_part = sub_chars(value, 0, p);
            let comment = sub_chars(value, p, value.len());
            let trimmed = trim_chars(value_part.as_slice());
            let mut r: Vec<YamlToken> = if trimmed.len() > 0 {
                parse_value_tokens(value_part.as_slice())
            } else {
                Vec::new()
            };
            let ghost before = r@;
            r.push((crate::text::string_of(comment.as_slice()), YamlTokenStyle::Muted));
            proof {
                assert(value_part@ =~= value@.take(p as int));
                assert(comment@ =~= value@.skip(p as int));
                assert(tokens_view(r@) =~= tokens_view(before) + seq![
                    (value@.skip(p as int), YamlTokenStyle::Muted),
                ]);
                if trimmed@.len() == 0 {
                    assert(tokens_view(before) =~= Seq::<(Seq<char>, YamlTokenStyle)>::empty());
                }
            }
            r
        },
        None => parse_value_tokens(value),
    }
}

/// Appends `tail` to `r`.
fn append_tokens(r: &mut Vec<YamlToken>, tail: Vec<YamlToken>)
    ensures
        tokens_view(final(r)@) == tokens_view(old(r)@) + tokens_view(tail@),
{
    let ghost t = tail@;
    let mut tail = tail;
    r.append(&mut tail);
    assert(tokens_view(r@) =~= tokens_view(old(r)@) + tokens_view(t));
}

/// Splits a YAML line into highlighted tokens.
pub fn parse_yaml_line(line: &str) -> (r: Vec<YamlToken>)
    ensures
        tokens_view(r@) == yaml_line_tokens(line@),
{
    let v = chars_of(line);
    let (lo, _hi) = crate::text::trim_bounds(v.as_slice());
    proof {
        crate::text::lemma_lead_from_bounds(v@, 0);
    }
    let mut lead_bytes: u128 = 0;
    let mut k: usize = 0;
    while k < lo
        invariant
            k <= lo <= v@.len(),
            lead_bytes == byte_len(v@.take(k as int)),
            lead_bytes <= 4 * k,
        decreases lo - k,
    {
        let w = char_bytes(v[k]);
        assert(v@.take(k + 1).drop_last() =~= v@.take(k as int));
        lead_bytes = lead_bytes + w as u128;
        k = k + 1;
    }
    let mut r: Vec<YamlToken> = Vec::new();
    if lead_bytes > 0 {
        let mut sp = String::new();
        let mut m: u128 = 0;
        while m < lead_bytes
            invariant
                m <= lead_bytes,
                sp@ == spaces(m as nat),
            decreases lead_bytes - m,
        {
            sp.push(' ');
            assert(sp@ =~= spaces((m + 1) as nat));
            m = m + 1;
        }
        r.push((sp, YamlTokenStyle::Background));
    }
    let ghost indent = tokens_view(r@);
    let t = trim_start_chars(v.as_slice());
    let mut rest: Vec<YamlToken> = Vec::new();
    let colon = find(t.as_slice(), ':');
    proof {
        reveal_strlit("---");
        reveal_strlit("...");
        reveal_strlit("- ");
        reveal_strlit(":");
    }
    if t.len() == 0 {
        rest.push((String::new(), YamlTokenStyle::Background));
    } else if t[0] == '#' {
        rest.push((crate::text::string_of(t.as_slice()), YamlTokenStyle::Muted));
    } else if chars_eq_str(t.as_slice(), "---") || chars_eq_str(t.as_slice(), "...") {
        rest.push((crate::text::string_of(t.as_slice()), YamlTokenStyle::Muted));
    } else if t.len() >= 2 && t[0] == '-' && t[1] == ' ' {
        assert(starts_with(t@, "- "@)) by {
            assert(t@.take(2) =~= "- "@);
        }
        rest.push((owned("- "), YamlTokenStyle::Muted));
        let after = sub_chars(t.as_slice(), 2, t.len());
        assert(after@ =~= t@.skip(2));
        let vt = parse_yaml_value(after.as_slice());
        append_tokens(&mut rest, vt);
    } else {
        proof {
            if starts_with(t@, "- "@) {
                assert(t@.take(2) =~= "- "@);
                assert(t@[0] == "- "@[0]);
                assert(t@[1] == "- "@[1]);
            }
        }
        match colon {
            Some(p) => {
                proof {
                    crate::text::lemma_next_index_of(t@, ':', 0);
                }
                let key = sub_chars(t.as_slice(), 0, p);
                assert(key@ =~= t@.take(p as int));
                rest.push((crate::text::string_of(key.as_slice()), YamlTokenStyle::Key));
                rest.push((owned(":"), YamlTokenStyle::Key));
                if t.len() - p > 1 {
                    let after = sub_chars(t.as_slice(), p + 1, t.len());
                    assert(after@ =~= t@.skip(p + 1));
                    let vt = parse_yaml_value(after.as_slice());
                    append_tokens(&mut rest, vt);
                }
            },
            None => {
                let vt = parse_yaml_value(t.as_slice());
                append_tokens(&mut rest, vt);
            },
        }
    }
    let ghost rest_view = tokens_view(rest@);
    append_tokens(&mut r, rest);
    proof {
        assert(v@.take(lo as int) =~= v@.take(crate::text::lead_from(v@, 0)));
        if lead_bytes > 0 {
            assert(indent =~= seq![(spaces(lead_bytes as nat), YamlTokenStyle::Background)]);
        } else {
            assert(indent =~= Seq::<(Seq<char>, YamlTokenStyle)>::empty());
        }
    }
    r
}

} // verus!
