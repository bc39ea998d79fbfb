use navipod::keys::{
    handle_color_cycling, handle_common_keys, handle_filter_activation, handle_filter_editing_keys,
    handle_vim_navigation, CommonKeyAction, FilterEdit, Key, KeyInput,
};

fn key(code: Key) -> KeyInput {
    KeyInput { code, ctrl: false, other_modifiers: false }
}

fn ctrl(code: Key) -> KeyInput {
    KeyInput { code, ctrl: true, other_modifiers: false }
}

#[test]
fn test_quit_key_handling() {
    assert_eq!(handle_common_keys(&key(Key::Char('q'))), CommonKeyAction::Quit);
    assert_eq!(handle_common_keys(&key(Key::Esc)), CommonKeyAction::Quit);
}

#[test]
fn test_navigation_key_handling() {
    assert_eq!(handle_common_keys(&key(Key::Char('G'))), CommonKeyAction::JumpToBottom);
    assert_eq!(handle_common_keys(&key(Key::Char('g'))), CommonKeyAction::JumpToTop);
    assert_eq!(handle_common_keys(&key(Key::Char('j'))), CommonKeyAction::Next);
    assert_eq!(handle_common_keys(&key(Key::Up)), CommonKeyAction::Previous);
}

#[test]
fn test_color_cycling() {
    assert!(handle_color_cycling(&key(Key::Char('c'))));
    assert!(handle_color_cycling(&key(Key::Char('C'))));
    assert!(!handle_color_cycling(&key(Key::Char('x'))));
    assert_eq!(handle_common_keys(&key(Key::Char('c'))), CommonKeyAction::NextColor);
}

#[test]
fn paging_needs_control() {
    assert_eq!(handle_common_keys(&ctrl(Key::Char('f'))), CommonKeyAction::PageForward);
    assert_eq!(handle_common_keys(&ctrl(Key::Char('B'))), CommonKeyAction::PageBackward);
    assert_eq!(handle_common_keys(&key(Key::Char('f'))), CommonKeyAction::NotHandled);
}

#[test]
fn vim_navigation_ignores_quit_and_colours() {
    assert_eq!(handle_vim_navigation(&key(Key::Char('q'))), CommonKeyAction::NotHandled);
    assert_eq!(handle_vim_navigation(&key(Key::Char('c'))), CommonKeyAction::NotHandled);
    assert_eq!(handle_vim_navigation(&key(Key::Down)), CommonKeyAction::Next);
}

#[test]
fn filter_keys() {
    assert!(handle_filter_activation(&key(Key::Char('/'))));
    assert!(!handle_filter_activation(&key(Key::Char('?'))));
    assert_eq!(handle_filter_editing_keys(&key(Key::Char('x'))), Some(FilterEdit::Insert('x')));
    assert_eq!(handle_filter_editing_keys(&key(Key::Backspace)), Some(FilterEdit::DeleteChar));
    assert_eq!(handle_filter_editing_keys(&key(Key::Enter)), Some(FilterEdit::Close));
    assert_eq!(handle_filter_editing_keys(&key(Key::Tab)), None);
}
