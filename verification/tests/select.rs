use keyring_tui::{BuiltinValidator, FieldValidation, HandleResult, KeyCode, KeyEvent, KeyModifiers, Select, SelectItem, ValidationTrigger};

#[test]
fn test_select_creation() {
    let items = vec![SelectItem::new("选项1", "value1"), SelectItem::new("选项2", "value2")];
    let select = Select::new(items);
    assert_eq!(select.items().len(), 2);
}

#[test]
fn test_select_selection_by_index() {
    let items = vec![SelectItem::new("选项1", "value1"), SelectItem::new("选项2", "value2")];
    let mut select = Select::new(items);

    select.set_selected_by_index(0);
    assert_eq!(select.selected_value(), Some("value1"));
    assert_eq!(select.selected_label(), Some("选项1"));
}

#[test]
fn test_select_selection_by_value() {
    let items = vec![SelectItem::new("选项1", "value1"), SelectItem::new("选项2", "value2")];
    let mut select = Select::new(items);

    select.set_selected_by_value("value2");
    assert_eq!(select.selected_value(), Some("value2"));
    assert_eq!(select.selected_label(), Some("选项2"));
}

#[test]
fn test_select_navigation() {
    let items = vec![
        SelectItem::new("选项1", "value1"),
        SelectItem::new("选项2", "value2"),
        SelectItem::new("选项3", "value3"),
    ];
    let mut select = Select::new(items);

    assert_eq!(select.selected_index(), None);

    select.move_down();
    assert_eq!(select.selected_index(), Some(0));

    select.move_down();
    assert_eq!(select.selected_index(), Some(1));

    select.move_up();
    assert_eq!(select.selected_index(), Some(0));
}

#[test]
fn test_select_with_disabled_item() {
    let items = vec![
        SelectItem::new("选项1", "value1"),
        SelectItem::new("选项2", "value2").with_disabled(true),
        SelectItem::new("选项3", "value3"),
    ];
    let mut select = Select::new(items);

    select.move_down();
    assert_eq!(select.selected_index(), Some(0));

    select.move_down();
    assert_eq!(select.selected_index(), Some(2));
}

#[test]
fn test_select_expansion() {
    let items = vec![SelectItem::new("选项1", "value1"), SelectItem::new("选项2", "value2")];
    let mut select = Select::new(items);

    assert!(!select.is_expanded());
    let r = select.handle_key(KeyEvent::new(KeyCode::Enter, KeyModifiers::empty()));
    assert!(!matches!(r, HandleResult::Ignored));
    assert!(select.is_expanded());
}

#[test]
fn test_select_validation() {
    let items = vec![SelectItem::new("选项1", "value1"), SelectItem::new("选项2", "value2")];
    let validation = FieldValidation::new()
        .with_validator(BuiltinValidator::Required)
        .with_trigger(ValidationTrigger::OnBlur);

    let mut select = Select::new(items).with_validation(validation);

    select.set_selected_by_index(0);
    assert_eq!(select.selected_value(), Some("value1"));

    let result = select.validate();
    assert!(result.is_valid);

    select.clear_selection();

    let result = select.validate();
    assert!(!result.is_valid);
}

#[test]
fn select_set_by_unknown_value_keeps_selection() {
    let items = vec![SelectItem::new("a", "x"), SelectItem::new("b", "y")];
    let mut select = Select::new(items);
    select.set_selected_by_index(1);
    select.set_selected_by_value("nothing");
    assert_eq!(select.selected_value(), Some("y"));
}

#[test]
fn select_move_up_from_top_stays() {
    let items = vec![SelectItem::new("a", "x"), SelectItem::new("b", "y")];
    let mut select = Select::new(items);
    select.move_down();
    select.move_up();
    assert_eq!(select.selected_index(), Some(0));
}
