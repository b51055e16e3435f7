use keyring_tui::{HandleResult, KeyCode, KeyEvent, KeyModifiers, TextInput};

fn create_key_event(code: KeyCode) -> KeyEvent {
    KeyEvent::new(code, KeyModifiers::empty())
}

#[test]
fn test_text_input_creation() {
    let input = TextInput::new("placeholder");
    assert_eq!(input.placeholder(), "placeholder");
    assert!(input.text().is_empty());
}

#[test]
fn test_text_input_can_focus() {
    let input = TextInput::new("test");
    assert!(input.can_focus());
}

#[test]
fn test_text_input_type_chars() {
    let mut input = TextInput::new("test");

    let result = input.handle_key(create_key_event(KeyCode::Char('a')));
    assert!(matches!(result, HandleResult::Consumed));
    assert_eq!(input.text(), "a");

    input.handle_key(create_key_event(KeyCode::Char('b')));
    input.handle_key(create_key_event(KeyCode::Char('c')));
    assert_eq!(input.text(), "abc");
}

#[test]
fn test_text_input_backspace() {
    let mut input = TextInput::new("test");
    input.set_text("hello".to_string());

    input.handle_key(create_key_event(KeyCode::Backspace));
    assert_eq!(input.text(), "hell");
}

#[test]
fn test_text_input_clear() {
    let mut input = TextInput::new("test");
    input.set_text("hello".to_string());

    input.clear();
    assert!(input.text().is_empty());
}

#[test]
fn test_text_input_component_trait() {
    fn assert_component<T: Send + Sync>() {}
    assert_component::<TextInput>();
}

#[test]
fn test_text_input_focus_handling() {
    let mut input = TextInput::new("test");

    input.on_focus_gain().unwrap();
    assert!(input.is_focused());

    input.handle_key(create_key_event(KeyCode::Char('X')));
    assert_eq!(input.text(), "X");

    input.on_focus_loss().unwrap();
    assert!(!input.is_focused());
}

#[test]
fn test_text_input_password_mode() {
    let mut input = TextInput::new("password");
    input.set_text("secret123".to_string());
    input = input.with_password_mode(true);

    assert_eq!(input.display_text(), "*********");
}

#[test]
fn test_text_input_cursor_movement() {
    let mut input = TextInput::new("test");
    input.set_text("hello".to_string());

    assert_eq!(input.cursor(), 5);

    input.move_left();
    assert_eq!(input.cursor(), 4);

    input.move_right();
    assert_eq!(input.cursor(), 5);

    input.move_home();
    assert_eq!(input.cursor(), 0);

    input.move_end();
    assert_eq!(input.cursor(), 5);
}

#[test]
fn test_text_input_focus_integration() {
    let mut input = TextInput::new("Enter text");
    assert!(input.can_focus());
    input.on_focus_gain().unwrap();
    let result = input.handle_key(create_key_event(KeyCode::Char('H')));
    assert!(matches!(result, HandleResult::Consumed));
    input.handle_key(create_key_event(KeyCode::Char('i')));
    assert_eq!(input.text(), "Hi");
    input.on_focus_loss().unwrap();
}

#[test]
fn test_component_lifecycle_hooks() {
    let mut input = TextInput::new("test");
    assert!(input.on_mount().is_ok());
    assert!(input.on_focus_gain().is_ok());
    assert!(input.on_focus_loss().is_ok());
    assert!(input.on_unmount().is_ok());
}

#[test]
fn test_text_input_keyboard_events() {
    let mut input = TextInput::new("placeholder");
    for c in ['h', 'e', 'l', 'l', 'o'] {
        input.handle_key(create_key_event(KeyCode::Char(c)));
    }
    assert_eq!(input.text(), "hello");

    input.handle_key(create_key_event(KeyCode::Backspace));
    assert_eq!(input.text(), "hell");

    input.handle_key(create_key_event(KeyCode::Left));
    input.handle_key(create_key_event(KeyCode::Left));
    input.handle_key(create_key_event(KeyCode::Delete));
    assert_eq!(input.text(), "hel");
}

#[test]
fn insert_then_backspace_restores_text() {
    let mut input = TextInput::new("");
    input.set_text("abc".to_string());
    input.move_left();
    input.insert_char('Z');
    assert_eq!(input.text(), "abZc");
    input.backspace();
    assert_eq!(input.text(), "abc");
    assert_eq!(input.cursor(), 2);
}

#[test]
fn max_length_counts_bytes() {
    let mut input = TextInput::new("").with_max_length(3);
    input.insert_char('é');
    input.insert_char('a');
    assert_eq!(input.text(), "éa");
    input.insert_char('b');
    assert_eq!(input.text(), "éa");
}

#[test]
fn release_events_are_ignored() {
    let mut input = TextInput::new("");
    let mut key = create_key_event(KeyCode::Char('a'));
    key.kind = keyring_tui::KeyEventKind::Release;
    assert!(matches!(input.handle_key(key), HandleResult::Ignored));
    assert_eq!(input.text(), "");
    assert!(matches!(input.handle_key(create_key_event(KeyCode::Esc)), HandleResult::Ignored));
}
