use navipod::container_app::{ContainerKeyOutcome, FocusedPanel, PanelCounts, PanelState};
use navipod::keys::{Key, KeyInput};
use navipod::table::BaseTableState;
use navipod::yaml::{handle_yaml_editor_keys, YamlEditor, YamlKeyResult};

fn key(code: Key) -> KeyInput {
    KeyInput { code, ctrl: false, other_modifiers: false }
}

#[test]
fn selection_moves_within_the_rows() {
    let mut t = BaseTableState::new(vec![1, 2, 3]);
    t.next();
    t.next();
    t.next();
    assert_eq!(t.selected, Some(2));
    assert_eq!(t.scroll_position, 8);
    t.previous();
    assert_eq!(t.selected, Some(1));
    t.jump_to_top();
    assert_eq!(t.selected, Some(0));
    t.previous();
    assert_eq!(t.selected, Some(0));
    t.jump_to_bottom();
    assert_eq!(t.selected, Some(2));
    assert_eq!(t.scroll_content_length, 8);
}

#[test]
fn colours_cycle_through_four_palettes() {
    let mut t = BaseTableState::new(vec![1]);
    for _ in 0..4 {
        t.next_color();
    }
    assert_eq!(t.color_index, 0);
    t.next_color();
    assert_eq!(t.color_index, 1);
}

#[test]
fn an_out_of_range_selection_is_reset() {
    let mut t = BaseTableState::new(vec![1, 2]);
    t.selected = Some(5);
    assert_eq!(t.get_selected_item(), None);
    assert_eq!(t.selected, Some(0));
    assert_eq!(t.get_selected_item(), Some(&1));
    t.set_items(vec![7, 8, 9]);
    assert_eq!(t.scroll_content_length, 8);
    assert_eq!(t.selected_item(), Some(&7));
}

#[test]
fn filter_text_editing() {
    let mut t = BaseTableState::new(Vec::<u8>::new());
    t.enter_char('x');
    t.enter_char('z');
    t.move_cursor_left();
    t.enter_char('y');
    assert_eq!(t.filter, "xyz");
    assert_eq!(t.edit_filter_cursor_position, 2);
    t.move_cursor_right();
    t.move_cursor_right();
    assert_eq!(t.edit_filter_cursor_position, 3);
    t.delete_char();
    assert_eq!(t.filter, "xy");
    t.edit_filter_cursor_position = 0;
    t.delete_char();
    assert_eq!(t.filter, "xy");
}

#[test]
fn yaml_viewer_scrolls_within_its_content() {
    let mut e = YamlEditor::new("pod".to_string(), "web".to_string(), None);
    e.content = (0..30).map(|i| format!("line{i}\n")).collect();
    assert_eq!(handle_yaml_editor_keys(&key(Key::Char('G')), &mut e), YamlKeyResult::Handled);
    assert_eq!(e.scroll_offset, 13);
    handle_yaml_editor_keys(&key(Key::Down), &mut e);
    assert_eq!(e.scroll_offset, 13);
    handle_yaml_editor_keys(&key(Key::Up), &mut e);
    assert_eq!(e.scroll_offset, 10);
    assert_eq!(handle_yaml_editor_keys(&key(Key::Char('r')), &mut e), YamlKeyResult::Refresh);
    assert_eq!(handle_yaml_editor_keys(&key(Key::Char('x')), &mut e), YamlKeyResult::NotHandled);
    handle_yaml_editor_keys(&key(Key::Esc), &mut e);
    assert!(!e.is_active);
    assert!(e.content.is_empty());
}

#[test]
fn tab_cycles_the_container_panels() {
    let mut p = PanelState::new();
    let counts = PanelCounts { mounts: 2, env_vars: 0, probes: 0, can_open_logs: false };
    for _ in 0..4 {
        p.handle_container_specific_keys(&key(Key::Tab), &counts);
    }
    assert_eq!(p.focused_panel, FocusedPanel::ContainerList);
    p.handle_container_specific_keys(&key(Key::Tab), &counts);
    assert_eq!(p.focused_panel, FocusedPanel::Mounts);
    p.handle_container_specific_keys(&key(Key::Down), &counts);
    p.handle_container_specific_keys(&key(Key::Down), &counts);
    assert_eq!(p.detail_selection, 1);
}

#[test]
fn jumping_twice_is_jumping_once() {
    let mut t = BaseTableState::new(vec![1, 2, 3, 4]);
    t.jump_to_bottom();
    let (selected, length, position) = (t.selected, t.scroll_content_length, t.scroll_position);
    t.jump_to_bottom();
    assert_eq!((t.selected, t.scroll_content_length, t.scroll_position), (selected, length, position));
    assert_eq!(selected, Some(3));
    t.jump_to_top();
    t.jump_to_top();
    assert_eq!((t.selected, t.scroll_position), (Some(0), 0));
}

#[test]
fn the_container_view_consumes_esc_and_the_tab_keys() {
    let counts = PanelCounts { mounts: 2, env_vars: 0, probes: 0, can_open_logs: false };
    let mut p = PanelState::new();
    let back = KeyInput { code: Key::BackTab, ctrl: false, other_modifiers: true };
    assert_eq!(p.handle_container_specific_keys(&back, &counts), ContainerKeyOutcome::Stay);
    assert_eq!(p.focused_panel, FocusedPanel::Probes);
    assert_eq!((p.detail_selection, p.detail_scroll_offset), (0, 0));
    assert!(p.key_was_handled_by_container);
    assert_eq!(p.handle_container_specific_keys(&key(Key::Char('x')), &counts), ContainerKeyOutcome::Stay);
    assert!(!p.key_was_handled_by_container);
    assert_eq!(p.handle_container_specific_keys(&key(Key::Esc), &counts), ContainerKeyOutcome::Stay);
    assert_eq!(p.focused_panel, FocusedPanel::ContainerList);
    assert!(p.key_was_handled_by_container);
    assert_eq!(p.handle_container_specific_keys(&key(Key::Esc), &counts), ContainerKeyOutcome::BackToPods);
    assert!(p.key_was_handled_by_container);
}

#[test]
fn detail_navigation_keeps_the_selection_in_the_window() {
    let counts = PanelCounts { mounts: 15, env_vars: 0, probes: 0, can_open_logs: false };
    let mut p = PanelState::new();
    p.handle_container_specific_keys(&key(Key::Tab), &counts);
    for _ in 0..12 {
        p.handle_container_specific_keys(&key(Key::Down), &counts);
    }
    assert_eq!((p.detail_selection, p.detail_scroll_offset), (12, 3));
    for _ in 0..20 {
        p.handle_container_specific_keys(&key(Key::Down), &counts);
    }
    assert_eq!((p.detail_selection, p.detail_scroll_offset), (14, 5));
    for _ in 0..10 {
        p.handle_container_specific_keys(&key(Key::Up), &counts);
    }
    assert_eq!((p.detail_selection, p.detail_scroll_offset), (4, 4));
}
