use keyring_tui::tui::components::confirm_dialog::dialog_area;
use keyring_tui::tui::components::detail_panel::{field_line_texts, password_display};
use keyring_tui::tui::components::confirm_dialog::ConfirmDialog;
use keyring_tui::tui::components::detail_panel::{DetailCommand, DetailPanel};
use keyring_tui::tui::components::filter_panel::{FilterItem, FilterPanel, FilterState, FilterType};
use keyring_tui::tui::components::form_example::SampleForm;
use keyring_tui::tui::components::group_picker::GroupPicker;
use keyring_tui::tui::components::search_bar::SearchBar;
use keyring_tui::tui::components::status_bar::{StatusBar, StatusMessageType};
use keyring_tui::tui::components::tag_editor::TagEditor;
use keyring_tui::tui::components::tree_panel::TreePanel;
use keyring_tui::{Action, ComponentId, ConfirmAction, HandleResult, KeyCode, KeyEvent, KeyModifiers, TextInput};

fn key(code: KeyCode) -> KeyEvent {
    KeyEvent::new(code, KeyModifiers::empty())
}

// ---------------------------------------------------------------- confirm dialog

#[test]
fn test_confirm_dialog_creation() {
    let dialog = ConfirmDialog::new();
    assert!(!dialog.is_visible());
    assert!(!dialog.is_confirm_focused());
}

#[test]
fn test_delete_confirmation() {
    let dialog = ConfirmDialog::delete_confirmation("My Password", "id-123");
    assert!(dialog.is_visible());
    assert_eq!(dialog.title(), "⚠️  Confirm Delete");
    assert!(matches!(dialog.action(), ConfirmAction::DeletePassword { password_id, .. } if password_id == "id-123"));
}

#[test]
fn test_permanent_delete_confirmation() {
    let dialog = ConfirmDialog::permanent_delete_confirmation("My Password", "id-456");
    assert!(dialog.is_visible());
    assert!(matches!(dialog.action(), ConfirmAction::PermanentDelete(id) if id == "id-456"));
}

#[test]
fn test_empty_trash_confirmation() {
    let dialog = ConfirmDialog::empty_trash_confirmation(5);
    assert!(dialog.is_visible());
    assert!(matches!(dialog.action(), ConfirmAction::EmptyTrash));
}

#[test]
fn test_toggle_focus() {
    let mut dialog = ConfirmDialog::new();
    assert!(!dialog.is_confirm_focused());
    dialog.toggle_focus();
    assert!(dialog.is_confirm_focused());
    dialog.toggle_focus();
    assert!(!dialog.is_confirm_focused());
}

#[test]
fn test_show_hide() {
    let mut dialog = ConfirmDialog::new();
    assert!(!dialog.is_visible());
    dialog.show();
    assert!(dialog.is_visible());
    dialog.hide_dialog();
    assert!(!dialog.is_visible());
}

#[test]
fn test_handle_key_tab() {
    let mut dialog = ConfirmDialog::new();
    dialog.show();
    let result = dialog.handle_key(key(KeyCode::Tab));
    assert!(matches!(result, HandleResult::Consumed));
    assert!(dialog.is_confirm_focused());
}

#[test]
fn test_handle_key_escape() {
    let mut dialog = ConfirmDialog::new();
    dialog.show();
    let result = dialog.handle_key(key(KeyCode::Esc));
    assert!(matches!(result, HandleResult::Action(Action::CloseScreen)));
}

#[test]
fn test_handle_key_enter() {
    let mut dialog = ConfirmDialog::new();
    dialog.show();
    dialog.toggle_focus();
    let result = dialog.handle_key(key(KeyCode::Enter));
    assert!(matches!(result, HandleResult::Action(Action::ConfirmDialog(ConfirmAction::Generic))));
}

#[test]
fn test_handle_key_y_yes() {
    let mut dialog = ConfirmDialog::new();
    dialog.show();
    let result = dialog.handle_key(key(KeyCode::Char('y')));
    assert!(matches!(result, HandleResult::Action(Action::ConfirmDialog(ConfirmAction::Generic))));
}

#[test]
fn test_handle_key_n_no() {
    let mut dialog = ConfirmDialog::new();
    dialog.show();
    let result = dialog.handle_key(key(KeyCode::Char('n')));
    assert!(matches!(result, HandleResult::Action(Action::CloseScreen)));
}

#[test]
fn confirm_dialog_messages() {
    let d = ConfirmDialog::delete_confirmation("Mail", "x");
    assert_eq!(d.message(), "Move \"Mail\" to trash?");
    let p = ConfirmDialog::permanent_delete_confirmation("Mail", "x");
    assert_eq!(p.title(), "⚠️  Permanent Delete");
    assert_eq!(p.message(), "Permanently delete \"Mail\"?");
    let e = ConfirmDialog::empty_trash_confirmation(12);
    assert_eq!(e.title(), "⚠️  Empty Trash");
    assert_eq!(e.message(), "Permanently delete 12 item(s)?");
}

#[test]
fn confirm_dialog_enter_on_cancel_closes_and_tab_twice_restores() {
    let mut dialog = ConfirmDialog::delete_confirmation("Mail", "id-9");
    assert!(matches!(dialog.handle_key(key(KeyCode::Enter)), HandleResult::Action(Action::CloseScreen)));
    dialog.handle_key(key(KeyCode::Left));
    dialog.handle_key(key(KeyCode::Right));
    assert!(!dialog.is_confirm_focused());
    dialog.handle_key(key(KeyCode::Right));
    match dialog.handle_key(key(KeyCode::Enter)) {
        HandleResult::Action(Action::ConfirmDialog(ConfirmAction::DeletePassword { password_id, password_name })) => {
            assert_eq!(password_id, "id-9");
            assert_eq!(password_name, "Mail");
        }
        _ => panic!("expected the delete action"),
    }
    assert!(matches!(dialog.handle_key(key(KeyCode::Char('x'))), HandleResult::Ignored));
    assert!(dialog.can_focus());
    assert!(dialog.is_confirmed());
}

// ---------------------------------------------------------------- status bar

#[test]
fn test_status_bar_creation() {
    let bar = StatusBar::new("Test Message");
    assert_eq!(bar.message(), "Test Message");
}

#[test]
fn test_status_bar_cannot_focus() {
    let bar = StatusBar::new("Test");
    assert!(!bar.can_focus());
}

#[test]
fn test_status_bar_set_message() {
    let mut bar = StatusBar::new("Initial");
    bar.set_message("Updated");
    assert_eq!(bar.message(), "Updated");
}

#[test]
fn test_status_bar_shortcuts() {
    let mut bar = StatusBar::new("Test");
    bar.add_shortcut("q", "Quit");
    bar.add_shortcut("h", "Help");
    assert_eq!(bar.shortcut_count(), 2);
    bar.clear_shortcuts();
    assert_eq!(bar.shortcut_count(), 0);
}

#[test]
fn test_status_bar_message_types() {
    let mut bar = StatusBar::new("Test");
    bar.set_message_type(StatusMessageType::Info);
    bar.set_message_type(StatusMessageType::Success);
    bar.set_message_type(StatusMessageType::Warning);
    bar.set_message_type(StatusMessageType::Error);
    assert_eq!(bar.message_type(), StatusMessageType::Error);
}

#[test]
fn test_status_bar_default() {
    let bar = StatusBar::default();
    assert_eq!(bar.message(), "Ready");
}

#[test]
fn status_bar_ignores_keys() {
    let mut bar = StatusBar::new("x").with_id(ComponentId::new(4));
    assert!(matches!(bar.handle_key(key(KeyCode::Enter)), HandleResult::Ignored));
    assert_eq!(bar.id().value(), 4);
    assert_eq!(bar.message_type(), StatusMessageType::Info);
}

// ---------------------------------------------------------------- search bar

#[test]
fn test_search_bar_new() {
    let bar = SearchBar::new();
    assert!(!bar.is_visible());
    assert_eq!(bar.query(), "");
}

#[test]
fn test_search_bar_show_hide() {
    let mut bar = SearchBar::new();
    bar.show();
    assert!(bar.is_visible());

    bar.hide_bar();
    assert!(!bar.is_visible());
    assert_eq!(bar.query(), "");
}

#[test]
fn test_search_bar_input() {
    let mut bar = SearchBar::new();
    bar.show();
    bar.handle_key(key(KeyCode::Char('t')));
    bar.handle_key(key(KeyCode::Char('e')));
    bar.handle_key(key(KeyCode::Char('s')));
    bar.handle_key(key(KeyCode::Char('t')));
    assert_eq!(bar.query(), "test");
}

#[test]
fn test_search_bar_backspace() {
    let mut bar = SearchBar::new();
    bar.show();
    bar.handle_key(key(KeyCode::Char('h')));
    bar.handle_key(key(KeyCode::Char('i')));
    bar.handle_key(key(KeyCode::Backspace));
    assert_eq!(bar.query(), "h");
}

#[test]
fn test_search_bar_esc_closes() {
    let mut bar = SearchBar::new();
    bar.show();
    bar.handle_key(key(KeyCode::Char('t')));
    bar.handle_key(key(KeyCode::Esc));
    assert!(!bar.is_visible());
}

#[test]
fn test_search_bar_enter_keeps_query() {
    let mut bar = SearchBar::new();
    bar.show();
    bar.handle_key(key(KeyCode::Char('t')));
    bar.handle_key(key(KeyCode::Char('e')));
    bar.handle_key(key(KeyCode::Char('s')));
    bar.handle_key(key(KeyCode::Char('t')));
    bar.handle_key(key(KeyCode::Enter));
    assert!(!bar.is_visible());
    assert_eq!(bar.query(), "test");
}

#[test]
fn test_search_bar_cursor_navigation() {
    let mut bar = SearchBar::new();
    bar.show();
    bar.handle_key(key(KeyCode::Char('a')));
    bar.handle_key(key(KeyCode::Char('b')));
    bar.handle_key(key(KeyCode::Char('c')));
    assert_eq!(bar.query(), "abc");
    assert_eq!(bar.cursor_position(), 3);

    bar.handle_key(key(KeyCode::Left));
    assert_eq!(bar.cursor_position(), 2);

    bar.handle_key(key(KeyCode::Delete));
    assert_eq!(bar.query(), "ab");
}

#[test]
fn search_bar_edges_and_hidden() {
    let mut bar = SearchBar::new();
    assert!(matches!(bar.handle_key(key(KeyCode::Char('a'))), HandleResult::Ignored));
    bar.show();
    assert!(matches!(bar.handle_key(key(KeyCode::Backspace)), HandleResult::Ignored));
    assert!(matches!(bar.handle_key(key(KeyCode::Left)), HandleResult::Ignored));
    assert!(matches!(bar.handle_key(key(KeyCode::Right)), HandleResult::Ignored));
    assert!(matches!(bar.handle_key(key(KeyCode::Char('x'))), HandleResult::NeedsRender));
    assert!(matches!(bar.handle_key(key(KeyCode::Delete)), HandleResult::Ignored));
    assert!(matches!(bar.handle_key(key(KeyCode::Home)), HandleResult::Ignored));
}

// ---------------------------------------------------------------- group picker

#[test]
fn test_group_picker_new() {
    let picker = GroupPicker::new();
    assert!(!picker.is_visible());
    assert_eq!(picker.password_id(), "");
    assert!(picker.selected_group_id().is_none());
}

#[test]
fn test_group_picker_show_hide() {
    let mut picker = GroupPicker::new();
    let groups = vec![(None, "Ungrouped".to_string()), (Some("g1".to_string()), "Work".to_string())];
    picker.show("pw-123".to_string(), groups);

    assert!(picker.is_visible());
    assert_eq!(picker.password_id(), "pw-123");
    assert!(picker.selected_group_id().is_none());

    picker.hide_picker();
    assert!(!picker.is_visible());
}

#[test]
fn test_group_picker_navigation() {
    let mut picker = GroupPicker::new();
    let groups = vec![
        (None, "Ungrouped".to_string()),
        (Some("g1".to_string()), "Work".to_string()),
        (Some("g2".to_string()), "Personal".to_string()),
    ];
    picker.show("pw-1".to_string(), groups);

    let down = key(KeyCode::Down);
    let up = key(KeyCode::Up);

    picker.handle_key(down);
    assert_eq!(picker.selected_group_id(), Some("g1"));

    picker.handle_key(down);
    assert_eq!(picker.selected_group_id(), Some("g2"));

    picker.handle_key(down);
    assert_eq!(picker.selected_group_id(), Some("g2"));

    picker.handle_key(up);
    assert_eq!(picker.selected_group_id(), Some("g1"));

    picker.handle_key(up);
    assert!(picker.selected_group_id().is_none());
}

#[test]
fn test_group_picker_esc_hides() {
    let mut picker = GroupPicker::new();
    picker.show("pw-1".to_string(), vec![(None, "Ungrouped".to_string())]);
    assert!(picker.is_visible());

    let result = picker.handle_key(key(KeyCode::Esc));
    assert!(matches!(result, HandleResult::Consumed));
    assert!(!picker.is_visible());
}

#[test]
fn test_group_picker_ignores_keys_when_hidden() {
    let mut picker = GroupPicker::new();
    let result = picker.handle_key(key(KeyCode::Down));
    assert!(matches!(result, HandleResult::Ignored));
}

#[test]
fn group_picker_absorbs_other_keys_and_has_id_200() {
    let mut picker = GroupPicker::new();
    assert_eq!(picker.id().value(), 200);
    picker.show("p".to_string(), vec![(Some("a".to_string()), "A".to_string())]);
    assert!(matches!(picker.handle_key(key(KeyCode::Char('z'))), HandleResult::Consumed));
    assert!(matches!(picker.handle_key(key(KeyCode::Enter)), HandleResult::Consumed));
    assert_eq!(picker.selected_group_id(), Some("a"));
}

// ---------------------------------------------------------------- detail panel

fn detail_creation() {
    let panel = DetailPanel::new();
    assert!(!panel.is_focused());
    assert!(!panel.is_password_visible());
}

fn detail_visibility_toggle() {
    let mut panel = DetailPanel::new();
    assert!(!panel.is_password_visible());
    panel.toggle_password_visibility();
    assert!(panel.is_password_visible());
    panel.toggle_password_visibility();
    assert!(!panel.is_password_visible());
}

fn detail_focus_state() {
    let mut panel = DetailPanel::new();
    assert!(!panel.is_focused());
    panel.on_focus_gain().unwrap();
    assert!(panel.is_focused());
    panel.on_focus_loss().unwrap();
    assert!(!panel.is_focused());
}

fn detail_hides_on_focus_loss() {
    let mut panel = DetailPanel::new();
    panel.toggle_password_visibility();
    assert!(panel.is_password_visible());
    panel.on_focus_loss().unwrap();
    assert!(!panel.is_password_visible());
}

fn detail_component_trait() {
    let panel = DetailPanel::new();
    assert!(panel.can_focus());
}

fn detail_handle_key_toggle() {
    let mut panel = DetailPanel::new();
    let result = panel.handle_key(key(KeyCode::Char(' ')));
    assert!(matches!(result, HandleResult::Consumed));
    assert!(panel.is_password_visible());
}

#[test]
fn detail_panel_test_detail_panel_creation() {
    detail_creation();
}

#[test]
fn detail_panel_test_password_visibility_toggle() {
    detail_visibility_toggle();
}

#[test]
fn detail_panel_test_focus_state() {
    detail_focus_state();
}

#[test]
fn detail_panel_test_password_hides_on_focus_loss() {
    detail_hides_on_focus_loss();
}

#[test]
fn detail_panel_test_component_trait() {
    detail_component_trait();
}

#[test]
fn detail_panel_test_handle_key_toggle_password() {
    detail_handle_key_toggle();
}

#[test]
fn tests_test_detail_panel_creation() {
    detail_creation();
}

#[test]
fn tests_test_password_visibility_toggle() {
    detail_visibility_toggle();
}

#[test]
fn tests_test_focus_state() {
    // Two suites share this name: the detail panel's and the tree panel's.
    detail_focus_state();
    let mut panel = TreePanel::new();
    assert!(!panel.is_focused());
    panel.on_focus_gain().unwrap();
    assert!(panel.is_focused());
    panel.on_focus_loss().unwrap();
    assert!(!panel.is_focused());
}

#[test]
fn tests_test_password_hides_on_focus_loss() {
    detail_hides_on_focus_loss();
}

#[test]
fn tests_test_component_trait() {
    detail_component_trait();
}

#[test]
fn tests_test_handle_key_toggle_password() {
    detail_handle_key_toggle();
}

#[test]
fn detail_panel_key_commands() {
    let mut panel = DetailPanel::new();
    let (r, c) = panel.handle_key_command(key(KeyCode::Char('C')));
    assert!(matches!(r, HandleResult::Consumed));
    assert_eq!(c, DetailCommand::CopyPassword);
    let (_, c) = panel.handle_key_command(key(KeyCode::Char('c')));
    assert_eq!(c, DetailCommand::CopyUsername);
    let (_, c) = panel.handle_key_command(key(KeyCode::Char('o')));
    assert_eq!(c, DetailCommand::OpenUrl);
    let (r, c) = panel.handle_key_command(key(KeyCode::Char('z')));
    assert!(matches!(r, HandleResult::Ignored));
    assert_eq!(c, DetailCommand::Nothing);
    let (_, c) = panel.handle_key_command(key(KeyCode::Char(' ')));
    assert_eq!(c, DetailCommand::Nothing);
    assert!(panel.is_password_visible());
}

// ---------------------------------------------------------------- filter panel

#[test]
fn test_filter_panel_creation() {
    let panel = FilterPanel::new();
    assert_eq!(panel.items().len(), 3);
    assert_eq!(panel.highlighted_index(), 0);
    assert!(!panel.is_focused());
}

#[test]
fn test_filter_item_creation() {
    let item = FilterItem::new(FilterType::Trash, "Test", "X");
    assert_eq!(item.label, "Test");
    assert_eq!(item.icon, "X");
    assert_eq!(item.count, 0);
}

#[test]
fn test_navigation_down() {
    let mut panel = FilterPanel::new();
    panel.handle_key(key(KeyCode::Char('j')));
    assert_eq!(panel.highlighted_index(), 1);
    panel.handle_key(key(KeyCode::Char('j')));
    assert_eq!(panel.highlighted_index(), 2);
    panel.handle_key(key(KeyCode::Char('j')));
    assert_eq!(panel.highlighted_index(), 0);
}

#[test]
fn test_navigation_up() {
    let mut panel = FilterPanel::new();
    panel.handle_key(key(KeyCode::Char('k')));
    assert_eq!(panel.highlighted_index(), 2);
    panel.handle_key(key(KeyCode::Char('k')));
    assert_eq!(panel.highlighted_index(), 1);
}

#[test]
fn test_toggle_filter() {
    let mut panel = FilterPanel::new();
    let mut state = FilterState::new();

    panel.toggle_highlighted(&mut state);
    assert!(state.is_active(&FilterType::Trash));

    panel.toggle_highlighted(&mut state);
    assert!(!state.is_active(&FilterType::Trash));
}

#[test]
fn test_handle_key_with_state() {
    let mut panel = FilterPanel::new();
    let mut state = FilterState::new();

    let result = panel.handle_key_with_state(key(KeyCode::Enter), &mut state);
    assert!(matches!(result, HandleResult::Consumed));
    assert!(state.is_active(&FilterType::Trash));

    let result = panel.handle_key_with_state(key(KeyCode::Char('j')), &mut state);
    assert!(matches!(result, HandleResult::Consumed));
    assert_eq!(panel.highlighted_index(), 1);
}

#[test]
fn test_update_counts() {
    let mut panel = FilterPanel::new();
    panel.update_counts(vec![(FilterType::Trash, 5), (FilterType::Expired, 3), (FilterType::Favorite, 10)]);
    assert_eq!(panel.items()[0].count, 5);
    assert_eq!(panel.items()[1].count, 3);
    assert_eq!(panel.items()[2].count, 10);
}

#[test]
fn test_highlighted_item() {
    let panel = FilterPanel::new();
    let item = panel.highlighted_item();
    assert!(item.is_some());
    assert_eq!(item.unwrap().filter_type, FilterType::Trash);
}

#[test]
fn filter_panel_test_focus_state() {
    let mut panel = FilterPanel::new();
    assert!(!panel.is_focused());
    panel.on_focus_gain().unwrap();
    assert!(panel.is_focused());
    panel.on_focus_loss().unwrap();
    assert!(!panel.is_focused());
}

#[test]
fn test_custom_items() {
    let items = vec![FilterItem::new(FilterType::Favorite, "Favorites", "*")];
    let panel = FilterPanel::with_items(items);
    assert_eq!(panel.items().len(), 1);
    assert_eq!(panel.items()[0].label, "Favorites");
}

#[test]
fn filter_panel_defaults_and_empty_list() {
    let panel = FilterPanel::new();
    assert_eq!(panel.items()[0].label, "Trash");
    assert_eq!(panel.items()[0].icon, "🗑");
    assert_eq!(panel.items()[1].filter_type, FilterType::Expired);
    assert_eq!(panel.items()[2].icon, "⭐");
    let mut empty = FilterPanel::with_items(Vec::new());
    empty.handle_key(key(KeyCode::Char('j')));
    assert_eq!(empty.highlighted_index(), 0);
    assert!(empty.highlighted_item().is_none());
    let mut state = FilterState::new();
    empty.toggle_highlighted(&mut state);
    assert!(!state.is_active(&FilterType::Trash));
    assert_eq!(FilterItem::default().label, "Trash");
    assert_eq!(FilterItem::new(FilterType::Trash, "a", "b").with_count(7).count, 7);
}

// ---------------------------------------------------------------- sample form

#[test]
fn test_sample_form_creation() {
    let form = SampleForm::new();
    assert_eq!(form.id().value(), 0);
    assert!(form.can_focus());
}

#[test]
fn test_sample_form_getters() {
    let form = SampleForm::new();
    assert_eq!(form.username(), "");
    assert_eq!(form.description(), "");
    assert_eq!(form.role(), None);
}

// ---------------------------------------------------------------- tag editor

#[test]
fn test_tag_editor_new() {
    let editor = TagEditor::new(vec!["work".to_string()]);
    assert_eq!(editor.tags().len(), 1);
    assert_eq!(editor.tags()[0], "work");
}

#[test]
fn test_tag_editor_add_tag() {
    let mut editor = TagEditor::new(Vec::new());
    editor.on_focus_gain().unwrap();
    for c in "email".chars() {
        editor.handle_key(key(KeyCode::Char(c)));
    }
    editor.handle_key(key(KeyCode::Enter));
    assert_eq!(editor.tags().len(), 1);
    assert_eq!(editor.tags()[0], "email");
}

#[test]
fn test_tag_editor_backspace_remove_last() {
    let mut editor = TagEditor::new(vec!["a".to_string(), "b".to_string()]);
    editor.on_focus_gain().unwrap();
    editor.handle_key(key(KeyCode::Backspace));
    assert_eq!(editor.tags().len(), 1);
    assert_eq!(editor.tags()[0], "a");
}

#[test]
fn test_tag_editor_no_duplicate() {
    let mut editor = TagEditor::new(vec!["work".to_string()]);
    editor.on_focus_gain().unwrap();
    for c in "work".chars() {
        editor.handle_key(key(KeyCode::Char(c)));
    }
    editor.handle_key(key(KeyCode::Enter));
    assert_eq!(editor.tags().len(), 1);
}

#[test]
fn test_tag_editor_comma_separator() {
    let mut editor = TagEditor::new(Vec::new());
    editor.on_focus_gain().unwrap();
    for c in "tag".chars() {
        editor.handle_key(key(KeyCode::Char(c)));
    }
    editor.handle_key(key(KeyCode::Char(',')));
    assert_eq!(editor.tags().len(), 1);
    assert_eq!(editor.tags()[0], "tag");
    assert!(editor.input().is_empty());
}

#[test]
fn test_tag_editor_autocomplete() {
    let mut editor = TagEditor::new(Vec::new());
    editor.on_focus_gain().unwrap();
    editor.set_all_tags(vec!["work".to_string(), "personal".to_string(), "finance".to_string()]);

    editor.handle_key(key(KeyCode::Char('f')));
    assert_eq!(editor.suggestions().len(), 1);
    assert_eq!(editor.suggestions()[0], "finance");

    editor.handle_key(key(KeyCode::Tab));
    assert_eq!(editor.tags().len(), 1);
    assert_eq!(editor.tags()[0], "finance");
}

#[test]
fn test_tag_editor_navigation() {
    let mut editor = TagEditor::new(Vec::new());
    editor.on_focus_gain().unwrap();
    editor.set_all_tags(vec![
        "work".to_string(),
        "personal".to_string(),
        "finance".to_string(),
        "social".to_string(),
    ]);
    editor.handle_key(key(KeyCode::Char('a')));
    assert!(!editor.suggestions().is_empty());
    editor.handle_key(key(KeyCode::Down));
    assert_eq!(editor.selected_suggestion(), Some(1));
    editor.handle_key(key(KeyCode::Up));
    assert_eq!(editor.selected_suggestion(), Some(0));
}

#[test]
fn tag_editor_suggestions_are_limited_and_case_insensitive() {
    let mut editor = TagEditor::new(vec!["Alpha".to_string()]);
    editor.set_all_tags(vec![
        "Alpha".to_string(),
        "ALPINE".to_string(),
        "al1".to_string(),
        "al2".to_string(),
        "al3".to_string(),
        "al4".to_string(),
        "al5".to_string(),
        "beta".to_string(),
    ]);
    editor.handle_key(key(KeyCode::Char('A')));
    editor.handle_key(key(KeyCode::Char('l')));
    let s: Vec<String> = editor.suggestions().to_vec();
    assert_eq!(s, vec!["ALPINE", "al1", "al2", "al3", "al4"]);
    editor.handle_key(key(KeyCode::Backspace));
    editor.handle_key(key(KeyCode::Backspace));
    assert!(editor.suggestions().is_empty());
    assert_eq!(editor.selected_suggestion(), None);
    assert!(matches!(editor.handle_key(key(KeyCode::Tab)), HandleResult::Ignored));
}

#[test]
fn tag_editor_focus_loss_commits_trimmed_input() {
    let mut editor = TagEditor::new(Vec::new());
    for c in "  home ".chars() {
        editor.handle_key(key(KeyCode::Char(c)));
    }
    editor.on_focus_loss().unwrap();
    assert_eq!(editor.tags().to_vec(), vec!["home".to_string()]);
    assert!(editor.input().is_empty());
    editor.handle_key(key(KeyCode::Enter));
    assert_eq!(editor.tags().len(), 1);
    let taken = editor.take_tags();
    assert_eq!(taken, vec!["home".to_string()]);
}

// ---------------------------------------------------------------- several components

#[test]
fn test_multiple_components_independently() {
    let mut status = StatusBar::new("Status");
    let mut input = TextInput::new("Input");

    status.set_message("Updated");
    assert_eq!(status.message(), "Updated");

    input.set_text("test".to_string());
    assert_eq!(input.text(), "test");
}

#[test]
fn detail_panel_password_masking() {
    assert_eq!(password_display("secret", true), "secret");
    assert_eq!(password_display("secret", false), "******");
    assert_eq!(password_display("é", false), "**");
    assert_eq!(password_display("abcdefghijklmnopqrstuvwxyz", false), "*".repeat(20));
    assert_eq!(password_display("", false), "");
    assert_eq!(field_line_texts("URL:", "x.org", "[o] open"), vec!["URL:", " ", "x.org", "  ", "[o] open"]);
    assert_eq!(field_line_texts("Tags:", "a, b", ""), vec!["Tags:", " ", "a, b"]);
}

#[test]
fn status_bar_shortcut_hints() {
    let mut bar = StatusBar::new("Ready");
    assert_eq!(bar.shortcuts_text(), "");
    bar.add_shortcut("q", "Quit");
    assert_eq!(bar.shortcuts_text(), "[q]Quit");
    bar.add_shortcut("?", "Help");
    assert_eq!(bar.shortcuts_text(), "[q]Quit [?]Help");
}

#[test]
fn confirm_dialog_area_is_centered() {
    assert_eq!(dialog_area(80, 24), (15, 8, 50, 8));
    assert_eq!(dialog_area(40, 5), (0, 0, 40, 5));
    assert_eq!(dialog_area(51, 9), (0, 0, 50, 8));
}

#[test]
fn filter_and_tag_editor_display_text() {
    let mut item = FilterItem::new(FilterType::Trash, "Trash", "🗑");
    assert_eq!(item.row_text(false), "[ ] 🗑 Trash");
    item.count = 5;
    assert_eq!(item.row_text(true), "[x] 🗑 Trash (5)");

    let mut editor = TagEditor::new(Vec::new());
    assert_eq!(editor.display_pieces(), vec!["Press Enter to add tags..."]);
    editor.set_tags(vec!["work".to_string(), "mail".to_string()]);
    assert_eq!(editor.display_pieces(), vec!["[work]", " ", "[mail]", " "]);
    editor.on_focus_gain().unwrap();
    editor.handle_key(key(KeyCode::Char('x')));
    assert_eq!(editor.display_pieces(), vec!["[work]", " ", "[mail]", " ", "x_"]);
}

#[test]
fn group_picker_rows_and_area() {
    let mut picker = GroupPicker::new();
    picker.show("p1".to_string(), vec![(Some("g1".to_string()), "Work".to_string()), (None, "Ungrouped".to_string())]);
    assert_eq!(picker.row_texts(), vec!["  Work  ", "  Ungrouped  "]);
    assert_eq!(picker.popup_area(100, 30), (30, 12, 40, 6));
    assert_eq!(picker.popup_area(30, 8), (0, 2, 30, 4));
    assert_eq!(picker.popup_area(10, 2), (0, 1, 10, 0));
}

fn detail_copy_username() {
    let mut panel = DetailPanel::new();
    let (result, command) = panel.handle_key_command(key(KeyCode::Char('c')));
    assert!(matches!(result, HandleResult::Consumed));
    assert_eq!(command, DetailCommand::CopyUsername);
}

fn detail_copy_password() {
    let mut panel = DetailPanel::new();
    let (result, command) = panel.handle_key_command(key(KeyCode::Char('C')));
    assert!(matches!(result, HandleResult::Consumed));
    assert_eq!(command, DetailCommand::CopyPassword);
}

fn detail_toggle_password() {
    let mut panel = DetailPanel::new();
    let (result, _) = panel.handle_key_command(key(KeyCode::Char(' ')));
    assert!(matches!(result, HandleResult::Consumed));
    assert!(panel.is_password_visible());
}

#[test]
fn detail_panel_test_handle_key_with_state_copy_username() {
    detail_copy_username();
}

#[test]
fn tests_test_handle_key_with_state_copy_username() {
    detail_copy_username();
}

#[test]
fn detail_panel_test_handle_key_with_state_copy_password() {
    detail_copy_password();
}

#[test]
fn tests_test_handle_key_with_state_copy_password() {
    detail_copy_password();
}

#[test]
fn detail_panel_test_handle_key_with_state_toggle_password() {
    detail_toggle_password();
}

#[test]
fn tests_test_handle_key_with_state_toggle_password() {
    detail_toggle_password();
}

#[test]
fn group_picker_can_always_focus() {
    let picker = GroupPicker::new();
    assert!(picker.can_focus());
}

#[test]
fn search_bar_can_always_focus() {
    let bar = SearchBar::new();
    assert!(bar.can_focus());
}
