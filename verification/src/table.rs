//! Selection and scrolling state shared by the table views.
use crate::keys::{CommonKeyAction, FilterEdit, KeyInput};
use crate::text::{chars_of, string_of};
use crate::yaml::{
    fetch_outcome, fetch_prepared, handle_yaml_editor_keys, is_default_viewer, viewer_key_effect,
    viewer_key_result, viewer_ok, viewer_opened, YamlEditor, YamlKeyResult,
};
use vstd::prelude::*;

verus! {

/// Rows of terminal space that one table item takes.
pub const ITEM_HEIGHT: usize = 4;

/// The number of colour palettes a table cycles through.
pub const PALETTE_COUNT: usize = 4;

/// The state common to all table views: the items, the selection, the scrollbar
/// and the filter being edited.
#[derive(Clone, Debug)]
pub struct BaseTableState<T> {
    pub items: Vec<T>,
    /// The selected row of the table, if any.
    pub selected: Option<usize>,
    /// Length of the scrollbar's content.
    pub scroll_content_length: usize,
    /// Position of the scrollbar's thumb.
    pub scroll_position: usize,
    pub color_index: usize,
    pub filter: String,
    pub show_filter_edit: bool,
    pub edit_filter_cursor_position: usize,
    /// The YAML viewer of the selected resource.
    pub yaml_editor: YamlEditor,
}

/// The item at the selection, if the selection lies within the items.
pub open spec fn selected_of<T>(items: Seq<T>, selected: Option<usize>) -> Option<T> {
    match selected {
        Some(s) => if s < items.len() {
            Some(items[s as int])
        } else {
            None
        },
        None => None,
    }
}

/// The index of the last of `n` rows, or 0 when there are none.
pub open spec fn last_index(n: nat) -> int {
    if n == 0 {
        0
    } else {
        n - 1
    }
}

/// A cursor position kept within the text (at most its length).
pub open spec fn clamp_cursor(s: Seq<char>, c: int) -> int {
    if c < s.len() {
        c
    } else {
        s.len() as int
    }
}

impl<T> BaseTableState<T> {
    /// The sizes stay within what the scrollbar arithmetic can hold, and the YAML
    /// viewer's scroll offset within the range its scrolling keeps.
    pub open spec fn wf(&self) -> bool {
        &&& self.items@.len() * 25 <= usize::MAX
        &&& self.selected matches Some(p) ==> p * 25 <= usize::MAX
        &&& viewer_ok(self.yaml_editor)
    }


    /// The table after moving the selection one row down (not past the last row).
    pub open spec fn after_next(self) -> Self {
        let pos: int = match self.selected {
            Some(p) => p as int,
            None => 0,
        };
        if pos < self.items@.len() - 1 {
            BaseTableState {
                selected: Some((pos + 1) as usize),
                scroll_position: ((pos + 1) * ITEM_HEIGHT) as usize,
                ..self
            }
        } else {
            self
        }
    }

    /// The table after moving the selection one row up (not past the first row).
    pub open spec fn after_previous(self) -> Self {
        let pos: int = match self.selected {
            Some(p) => p as int,
            None => 0,
        };
        if pos > 0 {
            BaseTableState {
                selected: Some((pos - 1) as usize),
                scroll_position: ((pos - 1) * ITEM_HEIGHT) as usize,
                ..self
            }
        } else {
            self
        }
    }

    /// The table after switching to the next colour palette.
    pub open spec fn after_next_color(self) -> Self {
        BaseTableState { color_index: ((self.color_index + 1) % (PALETTE_COUNT as int)) as usize, ..self }
    }

    /// The table after selecting its first row (when it has one).
    pub open spec fn after_jump_to_top(self) -> Self {
        if self.items@.len() > 0 {
            BaseTableState {
                selected: Some(0usize),
                scroll_content_length: (last_index(self.items@.len()) * ITEM_HEIGHT) as usize,
                scroll_position: 0usize,
                ..self
            }
        } else {
            self
        }
    }

    /// The table after selecting its last row (when it has one).
    pub open spec fn after_jump_to_bottom(self) -> Self {
        if self.items@.len() > 0 {
            BaseTableState {
                selected: Some((self.items@.len() - 1) as usize),
                scroll_content_length: (last_index(self.items@.len()) * ITEM_HEIGHT) as usize,
                scroll_position: (last_index(self.items@.len()) * ITEM_HEIGHT) as usize,
                ..self
            }
        } else {
            self
        }
    }

    /// The table with its first row selected again and the scrollbar reset to
    /// the items.
    pub open spec fn after_reset(self) -> Self {
        BaseTableState {
            selected: Some(0usize),
            scroll_content_length: (last_index(self.items@.len()) * 25) as usize,
            scroll_position: 0usize,
            ..self
        }
    }

    /// The table after its selected item is looked up: unchanged when the
    /// selection lies within the items, with the selection reset otherwise.
    pub open spec fn after_lookup(self) -> Self {
        if selected_of(self.items@, self.selected) is Some {
            self
        } else {
            self.after_reset()
        }
    }

    /// The table after a common key action. The paging keys leave it as it is.
    pub open spec fn after_common(self, a: CommonKeyAction) -> Self {
        match a {
            CommonKeyAction::Next => self.after_next(),
            CommonKeyAction::Previous => self.after_previous(),
            CommonKeyAction::NextColor => self.after_next_color(),
            CommonKeyAction::JumpToBottom => self.after_jump_to_bottom(),
            CommonKeyAction::JumpToTop => self.after_jump_to_top(),
            _ => self,
        }
    }

    /// The table with fresh items: the scrollbar is resized to them and returns
    /// to the top, everything else stays.
    pub open spec fn with_items(self, items: Vec<T>) -> Self {
        BaseTableState {
            items,
            scroll_content_length: (last_index(items@.len()) * ITEM_HEIGHT) as usize,
            scroll_position: 0usize,
            ..self
        }
    }

    /// `after` is this table after the filter edit `e`: a character inserted at
    /// the cursor, the character before the cursor deleted, the cursor moved, or
    /// the editor closed. Nothing but the filter, its cursor and whether it is
    /// edited changes.
    pub open spec fn filter_edited(self, after: Self, e: FilterEdit) -> bool {
        let s = self.filter@;
        let c = self.edit_filter_cursor_position as int;
        &&& after.items == self.items
        &&& after.selected == self.selected
        &&& after.scroll_content_length == self.scroll_content_length
        &&& after.scroll_position == self.scroll_position
        &&& after.color_index == self.color_index
        &&& after.yaml_editor == self.yaml_editor
        &&& match e {
            FilterEdit::Insert(ch) => {
                let k = clamp_cursor(s, c);
                &&& after.filter@ == s.take(k) + seq![ch] + s.skip(k)
                &&& after.edit_filter_cursor_position == clamp_cursor(
                    after.filter@,
                    if c < usize::MAX { c + 1 } else { c },
                )
                &&& after.show_filter_edit == self.show_filter_edit
            },
            FilterEdit::DeleteChar => {
                &&& c == 0 ==> after.filter == self.filter && after.edit_filter_cursor_position == 0
                &&& (c > 0 && c <= s.len()) ==> after.filter@ == s.take(c - 1) + s.skip(c)
                &&& c > s.len() ==> after.filter@ == s
                &&& c > 0 ==> after.edit_filter_cursor_position == clamp_cursor(after.filter@, c - 1)
                &&& after.show_filter_edit == self.show_filter_edit
            },
            FilterEdit::CursorLeft => {
                &&& after.filter == self.filter
                &&& after.edit_filter_cursor_position == clamp_cursor(s, if c > 0 { c - 1 } else { 0 })
                &&& after.show_filter_edit == self.show_filter_edit
            },
            FilterEdit::CursorRight => {
                &&& after.filter == self.filter
                &&& after.edit_filter_cursor_position == clamp_cursor(
                    s,
                    if c < usize::MAX { c + 1 } else { c },
                )
                &&& after.show_filter_edit == self.show_filter_edit
            },
            FilterEdit::Close => {
                &&& after.filter == self.filter
                &&& after.edit_filter_cursor_position == self.edit_filter_cursor_position
                &&& !after.show_filter_edit
            },
        }
    }

    /// `self` is a fresh table over `items`: first row selected, first palette,
    /// scrollbar at the top, empty filter not being edited, closed YAML viewer.
    pub open spec fn is_fresh(self, items: Vec<T>) -> bool {
        &&& self.items == items
        &&& self.selected == Some(0usize)
        &&& self.scroll_content_length == 0
        &&& self.scroll_position == 0
        &&& self.color_index == 0
        &&& self.filter@.len() == 0
        &&& !self.show_filter_edit
        &&& self.edit_filter_cursor_position == 0
        &&& is_default_viewer(self.yaml_editor)
    }

    /// A table over `items` with the first row selected and the first palette.
    pub fn new(items: Vec<T>) -> (r: Self)
        ensures
            r.is_fresh(items),
            r.items == items,
            r.selected == Some(0usize),
            r.scroll_content_length == 0,
            r.scroll_position == 0,
            r.color_index == 0,
            r.filter@.len() == 0,
            !r.show_filter_edit,
            r.edit_filter_cursor_position == 0,
            is_default_viewer(r.yaml_editor),
    {
        Self {
            items,
            selected: Some(0),
            scroll_content_length: 0,
            scroll_position: 0,
            color_index: 0,
            filter: String::new(),
            show_filter_edit: false,
            edit_filter_cursor_position: 0,
            yaml_editor: YamlEditor::default(),
        }
    }

    /// Moves the selection one row down, without wrapping past the last row.
    pub fn next(&mut self)
        requires
            old(self).items@.len() > 0,
            old(self).items@.len() * ITEM_HEIGHT <= usize::MAX,
        ensures
            old(self).wf() ==> final(self).wf(),
            ({
                let pos: int = match old(self).selected {
                    Some(p) => p as int,
                    None => 0,
                };
                if pos < old(self).items@.len() - 1 {
                    &&& final(self).selected == Some((pos + 1) as usize)
                    &&& final(self).scroll_position == (pos + 1) * ITEM_HEIGHT
                } else {
                    &&& final(self).selected == old(self).selected
                    &&& final(self).scroll_position == old(self).scroll_position
                }
            }),
            final(self).items == old(self).items,
            final(self).scroll_content_length == old(self).scroll_content_length,
            final(self).color_index == old(self).color_index,
            *final(self) == old(self).after_next(),
    {
        let pos: usize = match self.selected {
            Some(p) => p,
            None => 0,
        };
        if pos < self.items.len() - 1 {
            let new_pos = pos + 1;
            self.selected = Some(new_pos);
            self.scroll_position = new_pos * ITEM_HEIGHT;
        }
    }

    /// Moves the selection one row up, without wrapping past the first row.
    pub fn previous(&mut self)
        requires
            old(self).items@.len() * ITEM_HEIGHT <= usize::MAX,
            old(self).selected matches Some(p) ==> p * ITEM_HEIGHT <= usize::MAX,
        ensures
            old(self).wf() ==> final(self).wf(),
            ({
                let pos: int = match old(self).selected {
                    Some(p) => p as int,
                    None => 0,
                };
                if pos > 0 {
                    &&& final(self).selected == Some((pos - 1) as usize)
                    &&& final(self).scroll_position == (pos - 1) * ITEM_HEIGHT
                } else {
                    &&& final(self).selected == old(self).selected
                    &&& final(self).scroll_position == old(self).scroll_position
                }
            }),
            final(self).items == old(self).items,
            final(self).scroll_content_length == old(self).scroll_content_length,
            final(self).color_index == old(self).color_index,
            *final(self) == old(self).after_previous(),
    {
        let pos: usize = match self.selected {
            Some(p) => p,
            None => 0,
        };
        if pos > 0 {
            let new_pos = pos - 1;
            self.selected = Some(new_pos);
            self.scroll_position = new_pos * ITEM_HEIGHT;
        }
    }

    /// Switches to the next colour palette, cycling through all of them.
    pub fn next_color(&mut self)
        ensures
            old(self).wf() ==> final(self).wf(),
            final(self).color_index == (old(self).color_index + 1) % (PALETTE_COUNT as int),
            final(self).items == old(self).items,
            final(self).selected == old(self).selected,
            *final(self) == old(self).after_next_color(),
    {
        self.color_index = (self.color_index % PALETTE_COUNT + 1) % PALETTE_COUNT;
    }

    /// Selects the first row again and resets the scrollbar to the item count.
    pub fn reset_selection_state(&mut self)
        requires
            old(self).items@.len() * 25 <= usize::MAX,
        ensures
            *final(self) == old(self).after_reset(),
            final(self).selected == Some(0usize),
            final(self).items == old(self).items,
    {
        self.selected = Some(0);
        let n = if self.items.len() == 0 {
            0
        } else {
            self.items.len() - 1
        };
        self.scroll_content_length = n * 25;
        self.scroll_position = 0;
    }

    /// Applies a common key action to the table.
    pub fn apply_common(&mut self, a: CommonKeyAction)
        requires
            old(self).wf(),
            a == CommonKeyAction::Next ==> old(self).items@.len() > 0,
        ensures
            *final(self) == old(self).after_common(a),
            final(self).wf(),
    {
        match a {
            CommonKeyAction::Next => self.next(),
            CommonKeyAction::Previous => self.previous(),
            CommonKeyAction::NextColor => self.next_color(),
            CommonKeyAction::JumpToBottom => self.jump_to_bottom(),
            CommonKeyAction::JumpToTop => self.jump_to_top(),
            _ => {},
        }
    }

    /// Applies an edit to the filter.
    pub fn apply_filter_edit(&mut self, e: FilterEdit)
        requires
            old(self).wf(),
        ensures
            old(self).filter_edited(*final(self), e),
            final(self).wf(),
    {
        match e {
            FilterEdit::Insert(c) => self.enter_char(c),
            FilterEdit::DeleteChar => self.delete_char(),
            FilterEdit::CursorLeft => self.move_cursor_left(),
            FilterEdit::CursorRight => self.move_cursor_right(),
            FilterEdit::Close => {
                self.show_filter_edit = false;
            },
        }
    }

    /// Everything but the YAML viewer is the same in both tables.
    pub open spec fn same_table(self, other: Self) -> bool {
        &&& other.items == self.items
        &&& other.selected == self.selected
        &&& other.scroll_content_length == self.scroll_content_length
        &&& other.scroll_position == self.scroll_position
        &&& other.color_index == self.color_index
        &&& other.filter == self.filter
        &&& other.show_filter_edit == self.show_filter_edit
        &&& other.edit_filter_cursor_position == self.edit_filter_cursor_position
    }

    /// Handles a key while the YAML viewer is shown. A refresh key prepares a new
    /// fetch and returns its `kubectl` arguments; running them is the caller's part.
    pub fn viewer_key(&mut self, key: &KeyInput) -> (args: Option<Vec<String>>)
        requires
            old(self).wf(),
        ensures
            final(self).wf(),
            old(self).same_table(*final(self)),
            viewer_key_result(key.code) == YamlKeyResult::Refresh ==> fetch_prepared(
                old(self).yaml_editor,
                final(self).yaml_editor,
                args,
            ),
            viewer_key_result(key.code) != YamlKeyResult::Refresh ==> args is None
                && viewer_key_effect(old(self).yaml_editor, final(self).yaml_editor, key.code),
    {
        let r = handle_yaml_editor_keys(key, &mut self.yaml_editor);
        match r {
            YamlKeyResult::Refresh => self.yaml_editor.fetch_yaml_command(),
            _ => None,
        }
    }

    /// Opens the YAML viewer on a resource and prepares its fetch, returning the
    /// `kubectl` arguments when they are safe.
    pub fn open_viewer(&mut self, resource_type: String, resource_name: String, namespace: String) -> (args:
        Option<Vec<String>>)
        requires
            old(self).wf(),
        ensures
            final(self).wf(),
            old(self).same_table(*final(self)),
            viewer_opened(final(self).yaml_editor, resource_type@, resource_name@, namespace@),
            fetch_outcome(final(self).yaml_editor, args),
    {
        self.yaml_editor = YamlEditor::new(resource_type, resource_name, Some(namespace));
        self.yaml_editor.fetch_yaml_command()
    }

    /// The selected item, if the selection lies within the items.
    pub fn selected_item(&self) -> (r: Option<&T>)
        ensures
            match r {
                Some(x) => selected_of(self.items@, self.selected) == Some(*x),
                None => selected_of(self.items@, self.selected) is None,
            },
    {
        match self.selected {
            Some(s) => if s < self.items.len() {
                Some(&self.items[s])
            } else {
                None
            },
            None => None,
        }
    }

    /// Replaces the items with fresh data; the scrollbar is resized to them and
    /// returns to the top, the selection stays.
    pub fn set_items(&mut self, items: Vec<T>)
        requires
            items@.len() * ITEM_HEIGHT <= usize::MAX,
        ensures
            old(self).wf() && items@.len() * 25 <= usize::MAX ==> final(self).wf(),
            final(self).items == items,
            final(self).scroll_content_length == last_index(items@.len()) * ITEM_HEIGHT,
            final(self).scroll_position == 0,
            final(self).selected == old(self).selected,
            final(self).color_index == old(self).color_index,
            final(self).filter == old(self).filter,
            final(self).show_filter_edit == old(self).show_filter_edit,
            final(self).edit_filter_cursor_position == old(self).edit_filter_cursor_position,
            final(self).yaml_editor == old(self).yaml_editor,
            *final(self) == old(self).with_items(items),
    {
        let n = if items.len() == 0 {
            0
        } else {
            items.len() - 1
        };
        self.items = items;
        self.scroll_content_length = n * ITEM_HEIGHT;
        self.scroll_position = 0;
    }

    /// Selects the first row (when there is one).
    pub fn jump_to_top(&mut self)
        requires
            old(self).items@.len() * ITEM_HEIGHT <= usize::MAX,
        ensures
            old(self).wf() ==> final(self).wf(),
            old(self).items@.len() > 0 ==> {
                &&& final(self).selected == Some(0usize)
                &&& final(self).scroll_content_length == last_index(old(self).items@.len()) * ITEM_HEIGHT
                &&& final(self).scroll_position == 0
            },
            old(self).items@.len() == 0 ==> final(self).selected == old(self).selected
                && final(self).scroll_content_length == old(self).scroll_content_length
                && final(self).scroll_position == old(self).scroll_position,
            final(self).items == old(self).items,
            final(self).color_index == old(self).color_index,
            final(self).filter == old(self).filter,
            final(self).show_filter_edit == old(self).show_filter_edit,
            final(self).edit_filter_cursor_position == old(self).edit_filter_cursor_position,
            final(self).yaml_editor == old(self).yaml_editor,
            *final(self) == old(self).after_jump_to_top(),
    {
        if self.items.len() > 0 {
            self.selected = Some(0);
            self.scroll_content_length = (self.items.len() - 1) * ITEM_HEIGHT;
            self.scroll_position = 0;
        }
    }

    /// Selects the last row (when there is one).
    pub fn jump_to_bottom(&mut self)
        requires
            old(self).items@.len() * ITEM_HEIGHT <= usize::MAX,
        ensures
            old(self).wf() ==> final(self).wf(),
            old(self).items@.len() > 0 ==> {
                &&& final(self).selected == Some((old(self).items@.len() - 1) as usize)
                &&& final(self).scroll_content_length == last_index(old(self).items@.len()) * ITEM_HEIGHT
                &&& final(self).scroll_position == last_index(old(self).items@.len()) * ITEM_HEIGHT
            },
            old(self).items@.len() == 0 ==> final(self).selected == old(self).selected
                && final(self).scroll_content_length == old(self).scroll_content_length
                && final(self).scroll_position == old(self).scroll_position,
            final(self).items == old(self).items,
            final(self).color_index == old(self).color_index,
            final(self).filter == old(self).filter,
            final(self).show_filter_edit == old(self).show_filter_edit,
            final(self).edit_filter_cursor_position == old(self).edit_filter_cursor_position,
            final(self).yaml_editor == old(self).yaml_editor,
            *final(self) == old(self).after_jump_to_bottom(),
    {
        if self.items.len() > 0 {
            let last = self.items.len() - 1;
            self.selected = Some(last);
            self.scroll_content_length = last * ITEM_HEIGHT;
            self.scroll_position = last * ITEM_HEIGHT;
        }
    }

    /// Moves the filter cursor one character left, staying within the filter.
    pub fn move_cursor_left(&mut self)
        ensures
            final(self).edit_filter_cursor_position == clamp_cursor(
                old(self).filter@,
                if old(self).edit_filter_cursor_position > 0 {
                    old(self).edit_filter_cursor_position - 1
                } else {
                    0
                },
            ),
            final(self).filter == old(self).filter,
            final(self).items == old(self).items,
            final(self).selected == old(self).selected,
            final(self).show_filter_edit == old(self).show_filter_edit,
            final(self).yaml_editor == old(self).yaml_editor,
            final(self).scroll_content_length == old(self).scroll_content_length,
            final(self).scroll_position == old(self).scroll_position,
            final(self).color_index == old(self).color_index,
    {
        let c = if self.edit_filter_cursor_position > 0 {
            self.edit_filter_cursor_position - 1
        } else {
            0
        };
        self.edit_filter_cursor_position = self.clamped(c);
    }

    /// Moves the filter cursor one character right, staying within the filter.
    pub fn move_cursor_right(&mut self)
        ensures
            final(self).edit_filter_cursor_position == clamp_cursor(
                old(self).filter@,
                if old(self).edit_filter_cursor_position < usize::MAX {
                    old(self).edit_filter_cursor_position + 1
                } else {
                    usize::MAX as int
                },
            ),
            final(self).filter == old(self).filter,
            final(self).items == old(self).items,
            final(self).selected == old(self).selected,
            final(self).show_filter_edit == old(self).show_filter_edit,
            final(self).yaml_editor == old(self).yaml_editor,
            final(self).scroll_content_length == old(self).scroll_content_length,
            final(self).scroll_position == old(self).scroll_position,
            final(self).color_index == old(self).color_index,
    {
        let c = if self.edit_filter_cursor_position < usize::MAX {
            self.edit_filter_cursor_position + 1
        } else {
            usize::MAX
        };
        self.edit_filter_cursor_position = self.clamped(c);
    }

    /// The cursor position `c`, kept within the filter.
    fn clamped(&self, c: usize) -> (r: usize)
        ensures
            r == clamp_cursor(self.filter@, c as int),
    {
        let n = chars_of(self.filter.as_str()).len();
        if c < n {
            c
        } else {
            n
        }
    }

    /// Inserts a character into the filter at the cursor and moves the cursor
    /// past it.
    pub fn enter_char(&mut self, new_char: char)
        ensures
            ({
                let k = clamp_cursor(old(self).filter@, old(self).edit_filter_cursor_position as int);
                &&& final(self).filter@ == old(self).filter@.take(k) + seq![new_char]
                    + old(self).filter@.skip(k)
                &&& final(self).edit_filter_cursor_position == clamp_cursor(
                    final(self).filter@,
                    if old(self).edit_filter_cursor_position < usize::MAX {
                        old(self).edit_filter_cursor_position + 1
                    } else {
                        usize::MAX as int
                    },
                )
            }),
            final(self).items == old(self).items,
            final(self).selected == old(self).selected,
            final(self).show_filter_edit == old(self).show_filter_edit,
            final(self).yaml_editor == old(self).yaml_editor,
            final(self).scroll_content_length == old(self).scroll_content_length,
            final(self).scroll_position == old(self).scroll_position,
            final(self).color_index == old(self).color_index,
    {
        let v = chars_of(self.filter.as_str());
        let k = self.clamped(self.edit_filter_cursor_position);
        let mut out: Vec<char> = Vec::new();
        let mut i: usize = 0;
        while i < v.len()
            invariant
                i <= v@.len(),
                k <= v@.len(),
                out@ == (if i <= k {
                    v@.take(i as int)
                } else {
                    v@.take(k as int) + seq![new_char] + v@.subrange(k as int, i as int)
                }),
            decreases v.len() - i,
        {
            if i == k {
                out.push(new_char);
            }
            out.push(v[i]);
            proof {
                if i + 1 <= k {
                    assert(v@.take(i + 1) =~= v@.take(i as int).push(v@[i as int]));
                } else if i == k {
                    assert(out@ =~= v@.take(k as int) + seq![new_char] + v@.subrange(k as int, i + 1));
                } else {
                    assert(out@ =~= v@.take(k as int) + seq![new_char] + v@.subrange(k as int, i + 1));
                }
            }
            i = i + 1;
        }
        if k == v.len() {
            out.push(new_char);
        }
        assert(out@ =~= v@.take(k as int) + seq![new_char] + v@.skip(k as int));
        self.filter = string_of(out.as_slice());
        self.move_cursor_right();
    }

    /// Deletes the character before the filter cursor and moves the cursor back
    /// over it; nothing happens at the start of the filter.
    pub fn delete_char(&mut self)
        ensures
            old(self).edit_filter_cursor_position == 0 ==> *final(self) == *old(self),
            old(self).edit_filter_cursor_position > 0 ==> {
                let c = old(self).edit_filter_cursor_position as int;
                let s = old(self).filter@;
                &&& c <= s.len() ==> final(self).filter@ == s.take(c - 1) + s.skip(c)
                &&& c > s.len() ==> final(self).filter@ == s
                &&& final(self).edit_filter_cursor_position == clamp_cursor(final(self).filter@, c - 1)
            },
            final(self).items == old(self).items,
            final(self).selected == old(self).selected,
            final(self).show_filter_edit == old(self).show_filter_edit,
            final(self).yaml_editor == old(self).yaml_editor,
            final(self).scroll_content_length == old(self).scroll_content_length,
            final(self).scroll_position == old(self).scroll_position,
            final(self).color_index == old(self).color_index,
    {
        if self.edit_filter_cursor_position == 0 {
            return;
        }
        let c = self.edit_filter_cursor_position;
        let v = chars_of(self.filter.as_str());
        let mut out: Vec<char> = Vec::new();
        let mut i: usize = 0;
        while i < v.len()
            invariant
                i <= v@.len(),
                c > 0,
                out@ == (if i < c {
                    v@.take(i as int)
                } else {
                    v@.take(c - 1) + v@.subrange(c as int, i as int)
                }),
            decreases v.len() - i,
        {
            if i + 1 != c {
                out.push(v[i]);
            }
            proof {
                if i + 1 < c {
                    assert(v@.take(i + 1) =~= v@.take(i as int).push(v@[i as int]));
                } else if i + 1 == c {
                    assert(v@.subrange(c as int, i + 1) =~= Seq::<char>::empty());
                    assert(out@ =~= v@.take(c - 1) + v@.subrange(c as int, i + 1));
                } else {
                    assert(out@ =~= v@.take(c - 1) + v@.subrange(c as int, i + 1));
                }
            }
            i = i + 1;
        }
        proof {
            if c <= v@.len() {
                assert(out@ =~= v@.take(c - 1) + v@.skip(c as int));
            } else {
                assert(out@ =~= v@);
            }
        }
        self.filter = string_of(out.as_slice());
        self.edit_filter_cursor_position = self.clamped(c - 1);
    }

    /// The selected item; when the selection lies outside the items, the
    /// selection is reset and there is none.
    pub fn get_selected_item(&mut self) -> (r: Option<&T>)
        requires
            old(self).items@.len() * 25 <= usize::MAX,
        ensures
            old(self).wf() ==> final(self).wf(),
            final(self).items == old(self).items,
            match old(self).selected {
                Some(s) => if s < old(self).items@.len() {
                    r == Some(&old(self).items@[s as int]) && *final(self) == *old(self)
                } else {
                    r is None && *final(self) == old(self).after_reset()
                },
                None => r is None && *final(self) == old(self).after_reset(),
            },
    {
        match self.selected {
            Some(s) => {
                if s < self.items.len() {
                    return Some(&self.items[s]);
                }
            },
            None => {},
        }
        self.reset_selection_state();
        None
    }
}

/// Four palette switches bring a table back to its palette, and change nothing
/// else.
pub proof fn lemma_colors_cycle<T>(b: BaseTableState<T>)
    requires
        b.color_index < PALETTE_COUNT,
    ensures
        b.after_next_color().after_next_color().after_next_color().after_next_color() == b,
{
}

/// Moving down and back up returns the selection to its row, with the scrollbar
/// at that row, when there was a row below.
pub proof fn lemma_next_then_previous<T>(b: BaseTableState<T>)
    requires
        b.wf(),
        b.selected is Some,
        b.selected.unwrap() + 1 < b.items@.len(),
    ensures
        b.after_next().after_previous().selected == b.selected,
        b.after_next().after_previous().scroll_position == b.selected.unwrap() * ITEM_HEIGHT,
        b.after_next().after_previous().items == b.items,
{
}

/// Moving up and back down returns the selection to its row, with the scrollbar
/// at that row, when there was a row above.
pub proof fn lemma_previous_then_next<T>(b: BaseTableState<T>)
    requires
        b.wf(),
        b.selected is Some,
        0 < b.selected.unwrap() < b.items@.len(),
    ensures
        b.after_previous().after_next().selected == b.selected,
        b.after_previous().after_next().scroll_position == b.selected.unwrap() * ITEM_HEIGHT,
{
}

/// Typing a character into the filter and deleting it again gives back the
/// filter and the cursor.
pub proof fn lemma_insert_then_delete<T>(a: BaseTableState<T>, b: BaseTableState<T>, c: BaseTableState<T>, ch: char)
    requires
        a.edit_filter_cursor_position <= a.filter@.len(),
        a.edit_filter_cursor_position < usize::MAX,
        a.filter_edited(b, FilterEdit::Insert(ch)),
        b.filter_edited(c, FilterEdit::DeleteChar),
    ensures
        c.filter@ == a.filter@,
        c.edit_filter_cursor_position == a.edit_filter_cursor_position,
{
    let s = a.filter@;
    let k = a.edit_filter_cursor_position as int;
    assert(b.filter@ == s.take(k) + seq![ch] + s.skip(k));
    assert(b.filter@.len() == s.len() + 1);
    assert(b.edit_filter_cursor_position == k + 1);
    assert(b.filter@.take(k) =~= s.take(k));
    assert(b.filter@.skip(k + 1) =~= s.skip(k));
    assert(s.take(k) + s.skip(k) =~= s);
}

/// Moving the filter cursor left and then right puts it back, when it was not
/// at the start.
pub proof fn lemma_cursor_left_then_right<T>(a: BaseTableState<T>, b: BaseTableState<T>, c: BaseTableState<T>)
    requires
        0 < a.edit_filter_cursor_position <= a.filter@.len(),
        a.filter_edited(b, FilterEdit::CursorLeft),
        b.filter_edited(c, FilterEdit::CursorRight),
    ensures
        c.edit_filter_cursor_position == a.edit_filter_cursor_position,
        c.filter == a.filter,
{
}

/// The common table keys keep a selection that lies within the rows within
/// them, and never change the rows.
pub proof fn lemma_common_keys_keep_selection_in_rows<T>(b: BaseTableState<T>, a: CommonKeyAction)
    requires
        b.selected matches Some(p) && p < b.items@.len(),
    ensures
        b.after_common(a).selected matches Some(q) && q < b.items@.len(),
        b.after_common(a).items == b.items,
{
}

/// Jumping to the bottom or to the top twice is jumping once.
pub proof fn lemma_jumps_are_idempotent<T>(b: BaseTableState<T>)
    ensures
        b.after_jump_to_bottom().after_jump_to_bottom() == b.after_jump_to_bottom(),
        b.after_jump_to_top().after_jump_to_top() == b.after_jump_to_top(),
{
}

} // verus!
