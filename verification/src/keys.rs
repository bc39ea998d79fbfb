//! Key events and the decisions of the shared key handlers.
use vstd::prelude::*;

verus! {

/// The key of a key event.
#[derive(Clone, Copy, Debug, PartialEq, Eq, Structural)]
pub enum Key {
    Char(char),
    Up,
    Down,
    Left,
    Right,
    PageUp,
    PageDown,
    Home,
    End,
    Enter,
    Esc,
    Tab,
    BackTab,
    Backspace,
    /// Any other key.
    Other,
}

/// A key press with its modifiers.
#[derive(Clone, Copy, Debug, PartialEq, Eq, Structural)]
pub struct KeyInput {
    pub code: Key,
    /// The control modifier is held.
    pub ctrl: bool,
    /// Some modifier other than control is held.
    pub other_modifiers: bool,
}

/// What the common table keys ask for.
#[derive(Clone, Copy, Debug, PartialEq, Eq, Structural)]
pub enum CommonKeyAction {
    Quit,
    Next,
    Previous,
    NextColor,
    PageForward,
    PageBackward,
    JumpToBottom,
    JumpToTop,
    NotHandled,
}

/// The action of a key in the common key map of the table views.
pub open spec fn common_action(k: KeyInput) -> CommonKeyAction {
    match k.code {
        Key::Char('q') | Key::Esc => CommonKeyAction::Quit,
        Key::Char('j') | Key::Down => CommonKeyAction::Next,
        Key::Char('k') | Key::Up => CommonKeyAction::Previous,
        Key::Char('c') | Key::Char('C') => CommonKeyAction::NextColor,
        Key::Char('f') | Key::Char('F') => if k.ctrl {
            CommonKeyAction::PageForward
        } else {
            CommonKeyAction::NotHandled
        },
        Key::Char('b') | Key::Char('B') => if k.ctrl {
            CommonKeyAction::PageBackward
        } else {
            CommonKeyAction::NotHandled
        },
        Key::Char('G') => CommonKeyAction::JumpToBottom,
        Key::Char('g') => CommonKeyAction::JumpToTop,
        _ => CommonKeyAction::NotHandled,
    }
}

/// Decides what a key does among the keys shared by all table views: quit,
/// move, cycle colours, page, or jump to the top or bottom.
pub fn handle_common_keys(key_event: &KeyInput) -> (a: CommonKeyAction)
    ensures
        a == common_action(*key_event),
{
    match key_event.code {
        Key::Char('q') | Key::Esc => CommonKeyAction::Quit,
        Key::Char('j') | Key::Down => CommonKeyAction::Next,
        Key::Char('k') | Key::Up => CommonKeyAction::Previous,
        Key::Char('c') | Key::Char('C') => CommonKeyAction::NextColor,
        Key::Char('f') | Key::Char('F') => if key_event.ctrl {
            CommonKeyAction::PageForward
        } else {
            CommonKeyAction::NotHandled
        },
        Key::Char('b') | Key::Char('B') => if key_event.ctrl {
            CommonKeyAction::PageBackward
        } else {
            CommonKeyAction::NotHandled
        },
        Key::Char('G') => CommonKeyAction::JumpToBottom,
        Key::Char('g') => CommonKeyAction::JumpToTop,
        _ => CommonKeyAction::NotHandled,
    }
}

/// Vim-style navigation of a table: the movement a key asks for, if any.
pub fn handle_vim_navigation(key_event: &KeyInput) -> (a: CommonKeyAction)
    ensures
        a == (match common_action(*key_event) {
            CommonKeyAction::Quit | CommonKeyAction::NextColor => CommonKeyAction::NotHandled,
            other => other,
        }),
{
    match handle_common_keys(key_event) {
        CommonKeyAction::Quit | CommonKeyAction::NextColor => CommonKeyAction::NotHandled,
        other => other,
    }
}

/// Whether the key cycles the colour palette (`c` or `C`).
pub fn handle_color_cycling(key_event: &KeyInput) -> (b: bool)
    ensures
        b == (key_event.code == Key::Char('c') || key_event.code == Key::Char('C')),
{
    match key_event.code {
        Key::Char('c') | Key::Char('C') => true,
        _ => false,
    }
}

/// Whether the key opens the filter editor (`/`).
pub fn handle_filter_activation(key_event: &KeyInput) -> (b: bool)
    ensures
        b == (key_event.code == Key::Char('/')),
{
    match key_event.code {
        Key::Char('/') => true,
        _ => false,
    }
}

/// An edit of the filter text.
#[derive(Clone, Copy, Debug, PartialEq, Eq, Structural)]
pub enum FilterEdit {
    Insert(char),
    DeleteChar,
    CursorLeft,
    CursorRight,
    Close,
}

/// The edit a key makes while the filter is being edited: a character is
/// inserted, Backspace deletes, the left and right arrows move the cursor, Esc
/// and Enter close the editor.
pub open spec fn filter_edit_of(k: Key) -> Option<FilterEdit> {
    match k {
        Key::Char(c) => Some(FilterEdit::Insert(c)),
        Key::Backspace => Some(FilterEdit::DeleteChar),
        Key::Left => Some(FilterEdit::CursorLeft),
        Key::Right => Some(FilterEdit::CursorRight),
        Key::Esc | Key::Enter => Some(FilterEdit::Close),
        _ => None,
    }
}

/// The edit a key makes while the filter is being edited, if any.
pub fn handle_filter_editing_keys(key_event: &KeyInput) -> (e: Option<FilterEdit>)
    ensures
        e == filter_edit_of(key_event.code),
{
    match key_event.code {
        Key::Char(c) => Some(FilterEdit::Insert(c)),
        Key::Backspace => Some(FilterEdit::DeleteChar),
        Key::Left => Some(FilterEdit::CursorLeft),
        Key::Right => Some(FilterEdit::CursorRight),
        Key::Esc | Key::Enter => Some(FilterEdit::Close),
        _ => None,
    }
}

} // verus!
