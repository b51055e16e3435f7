use keyring_tui::{BuiltinValidator, FieldValidation, KeyCode, KeyEvent, KeyModifiers, TextArea, ValidationTrigger};

#[test]
fn text_area_test_text_area_creation() {
    let textarea = TextArea::new("placeholder");
    assert_eq!(textarea.placeholder(), "placeholder");
    assert_eq!(textarea.text(), "");
}

#[test]
fn text_area_test_text_area_set_text() {
    let mut textarea = TextArea::new("placeholder");
    textarea.set_text("Hello\nWorld\nTest".to_string());

    assert_eq!(textarea.text(), "Hello\nWorld\nTest");
    assert_eq!(textarea.lines().len(), 3);
}

#[test]
fn text_area_test_text_area_insert_char() {
    let mut textarea = TextArea::new("placeholder");
    textarea.insert_char('H');
    textarea.insert_char('i');

    assert_eq!(textarea.text(), "Hi");
}

#[test]
fn text_area_test_text_area_newline() {
    let mut textarea = TextArea::new("placeholder");
    textarea.insert_char('H');
    textarea.insert_char('i');
    textarea.insert_newline();
    textarea.insert_char('Y');
    textarea.insert_char('o');
    textarea.insert_char('u');

    assert_eq!(textarea.text(), "Hi\nYou");
}

#[test]
fn text_area_test_text_area_cursor_movement() {
    let mut textarea = TextArea::new("placeholder");
    textarea.set_text("Line1\nLine2\nLine3".to_string());

    // The cursor starts at the end of the last line.
    assert_eq!(textarea.cursor_row(), 2);
    assert_eq!(textarea.cursor_col(), 5);

    textarea.move_up();
    assert_eq!(textarea.cursor_row(), 1);
    assert_eq!(textarea.cursor_col(), 5);

    textarea.move_down();
    assert_eq!(textarea.cursor_row(), 2);
}

#[test]
fn text_area_test_text_area_backspace() {
    let mut textarea = TextArea::new("placeholder");
    textarea.set_text("Hello World".to_string());
    // Put the cursor on "W".
    for _ in 0..5 {
        textarea.move_left();
    }
    assert_eq!(textarea.cursor_col(), 6);

    textarea.backspace();

    assert_eq!(textarea.text(), "HelloWorld");
}

#[test]
fn text_area_test_text_area_clear() {
    let mut textarea = TextArea::new("placeholder");
    textarea.set_text("Some text\nMore text".to_string());

    textarea.clear();

    assert_eq!(textarea.text(), "");
    assert_eq!(textarea.lines().len(), 1);
    assert!(textarea.lines()[0].is_empty());
}

#[test]
fn text_area_test_text_area_validation() {
    let validation = FieldValidation::new()
        .with_validator(BuiltinValidator::Required)
        .with_trigger(ValidationTrigger::OnBlur);

    let mut textarea = TextArea::new("placeholder").with_validation(validation);

    textarea.set_text("".to_string());
    let result = textarea.validate();

    assert!(!result.is_valid);
    assert!(result.has_errors());
}

#[test]
fn text_area_test_text_area_max_lines() {
    let mut textarea = TextArea::new("placeholder").with_max_lines(2);

    textarea.insert_char('A');
    textarea.insert_newline();
    textarea.insert_char('B');
    textarea.insert_newline();
    textarea.insert_char('C');

    let text = textarea.text();
    let lines: Vec<&str> = text.lines().collect();
    assert!(lines.len() <= 2);
}

#[test]
fn tests_test_text_area_creation() {
    let textarea = TextArea::new("placeholder");
    assert_eq!(textarea.placeholder(), "placeholder");
    assert_eq!(textarea.text(), "");
}

#[test]
fn tests_test_text_area_set_text() {
    let mut textarea = TextArea::new("placeholder");
    textarea.set_text("Hello\nWorld\nTest".to_string());

    assert_eq!(textarea.text(), "Hello\nWorld\nTest");
    assert_eq!(textarea.lines().len(), 3);
}

#[test]
fn tests_test_text_area_insert_char() {
    let mut textarea = TextArea::new("placeholder");
    textarea.insert_char('H');
    textarea.insert_char('i');

    assert_eq!(textarea.text(), "Hi");
}

#[test]
fn tests_test_text_area_newline() {
    let mut textarea = TextArea::new("placeholder");
    textarea.insert_char('H');
    textarea.insert_char('i');
    textarea.insert_newline();
    textarea.insert_char('Y');
    textarea.insert_char('o');
    textarea.insert_char('u');

    assert_eq!(textarea.text(), "Hi\nYou");
}

#[test]
fn tests_test_text_area_cursor_movement() {
    let mut textarea = TextArea::new("placeholder");
    textarea.set_text("Line1\nLine2\nLine3".to_string());

    // The cursor starts at the end of the last line.
    assert_eq!(textarea.cursor_row(), 2);
    assert_eq!(textarea.cursor_col(), 5);

    textarea.move_up();
    assert_eq!(textarea.cursor_row(), 1);
    assert_eq!(textarea.cursor_col(), 5);

    textarea.move_down();
    assert_eq!(textarea.cursor_row(), 2);
}

#[test]
fn tests_test_text_area_backspace() {
    let mut textarea = TextArea::new("placeholder");
    textarea.set_text("Hello World".to_string());
    // Put the cursor on "W".
    for _ in 0..5 {
        textarea.move_left();
    }
    assert_eq!(textarea.cursor_col(), 6);

    textarea.backspace();

    assert_eq!(textarea.text(), "HelloWorld");
}

#[test]
fn tests_test_text_area_clear() {
    let mut textarea = TextArea::new("placeholder");
    textarea.set_text("Some text\nMore text".to_string());

    textarea.clear();

    assert_eq!(textarea.text(), "");
    assert_eq!(textarea.lines().len(), 1);
    assert!(textarea.lines()[0].is_empty());
}

#[test]
fn tests_test_text_area_validation() {
    let validation = FieldValidation::new()
        .with_validator(BuiltinValidator::Required)
        .with_trigger(ValidationTrigger::OnBlur);

    let mut textarea = TextArea::new("placeholder").with_validation(validation);

    textarea.set_text("".to_string());
    let result = textarea.validate();

    assert!(!result.is_valid);
    assert!(result.has_errors());
}

#[test]
fn tests_test_text_area_max_lines() {
    let mut textarea = TextArea::new("placeholder").with_max_lines(2);

    textarea.insert_char('A');
    textarea.insert_newline();
    textarea.insert_char('B');
    textarea.insert_newline();
    textarea.insert_char('C');

    let text = textarea.text();
    let lines: Vec<&str> = text.lines().collect();
    assert!(lines.len() <= 2);
}

#[test]
fn text_area_max_lines_keeps_two_lines_exactly() {
    let mut textarea = TextArea::new("placeholder").with_max_lines(2);
    textarea.insert_char('A');
    textarea.insert_newline();
    textarea.insert_char('B');
    textarea.insert_newline();
    textarea.insert_char('C');
    assert_eq!(textarea.text(), "A\nBC");
}

#[test]
fn text_area_delete_joins_lines() {
    let mut textarea = TextArea::new("p");
    textarea.set_text("ab\ncd".to_string());
    textarea.move_up();
    textarea.move_end();
    textarea.delete();
    assert_eq!(textarea.text(), "abcd");
    assert_eq!(textarea.lines().len(), 1);
}

#[test]
fn text_area_backspace_at_line_start_joins() {
    let mut textarea = TextArea::new("p");
    textarea.set_text("ab\ncd".to_string());
    textarea.move_home();
    textarea.backspace();
    assert_eq!(textarea.text(), "abcd");
    assert_eq!(textarea.cursor_row(), 0);
    assert_eq!(textarea.cursor_col(), 2);
}

fn pieces(rows: &[Vec<(String, bool)>]) -> Vec<Vec<(&str, bool)>> {
    rows.iter().map(|r| r.iter().map(|(t, c)| (t.as_str(), *c)).collect()).collect()
}

#[test]
fn text_area_rows_show_placeholder_and_cursor() {
    let mut area = TextArea::new("type here");
    assert_eq!(pieces(&area.render_rows(5)), vec![vec![("type here", false)]]);
    area.on_focus_gain().unwrap();
    assert_eq!(pieces(&area.render_rows(5)), vec![vec![("t", true), ("ype here", false)]]);
    area.set_text("ab\ncd".to_string());
    area.move_document_start();
    assert_eq!(
        pieces(&area.render_rows(5)),
        vec![vec![("a", true), ("b", false)], vec![("cd", false)]]
    );
    area.move_document_end();
    assert_eq!(
        pieces(&area.render_rows(5)),
        vec![vec![("ab", false)], vec![("cd", false), (" ", true)]]
    );
    assert_eq!(pieces(&area.render_rows(1)), vec![vec![("ab", false)]]);
    assert!(area.render_rows(0).is_empty());
}

#[test]
fn text_area_validation_gives_the_rule_messages() {
    let validation = FieldValidation::new()
        .with_validator(BuiltinValidator::Required)
        .with_validator(BuiltinValidator::MinLength(3))
        .with_validator(BuiltinValidator::MaxLength(10))
        .with_trigger(ValidationTrigger::OnBlur);
    let mut textarea = TextArea::new("placeholder").with_validation(validation.clone());
    textarea.set_text("".to_string());
    let result = textarea.validate();
    assert!(!result.is_valid);
    assert_eq!(result.errors, vec!["This field is required".to_string(), "Value is too short".to_string()]);
    let direct = validation.validate_chars(&Vec::new());
    assert_eq!(direct.errors, result.errors);

    textarea.set_text("abcdefghijkl".to_string());
    let result = textarea.validate();
    assert_eq!(result.errors, vec!["Value is too long".to_string()]);

    textarea.set_text("abcd".to_string());
    let result = textarea.validate();
    assert!(result.is_valid);
    assert!(result.errors.is_empty());
}

#[test]
fn text_area_set_text_round_trip() {
    for s in ["", "one", "a\n\nb", "\nstart", "mid\nline\nend", "é\nü"] {
        let mut textarea = TextArea::new("p");
        textarea.set_text(s.to_string());
        assert_eq!(textarea.text(), s);
    }
    // A trailing newline is dropped, as `str::lines` drops it.
    let mut textarea = TextArea::new("p");
    textarea.set_text("x\n".to_string());
    assert_eq!(textarea.text(), "x");
    assert_eq!(textarea.lines().len(), 1);
}

#[test]
fn text_area_placeholder_survives_calls() {
    let mut textarea = TextArea::new("type here")
        .with_title("Notes")
        .with_max_lines(5)
        .with_max_length(100);
    textarea.set_text("abc\ndef".to_string());
    textarea.handle_key(KeyEvent::new(KeyCode::Char('x'), KeyModifiers::empty()));
    textarea.handle_key(KeyEvent::new(KeyCode::Enter, KeyModifiers::empty()));
    textarea.handle_key(KeyEvent::new(KeyCode::Backspace, KeyModifiers::empty()));
    textarea.clear();
    let _ = textarea.on_focus_gain();
    let _ = textarea.on_focus_loss();
    assert_eq!(textarea.placeholder(), "type here");
}

#[test]
fn text_area_move_up_keeps_the_byte_offset() {
    let mut textarea = TextArea::new("p");
    // The second line is ASCII; the first takes two bytes per character.
    textarea.set_text("éé\nab".to_string());
    assert_eq!(textarea.cursor_row(), 1);
    assert_eq!(textarea.cursor_col(), 2);
    // Byte offset 2 on "éé" lies after its first character.
    textarea.move_up();
    assert_eq!(textarea.cursor_row(), 0);
    assert_eq!(textarea.cursor_col(), 1);
    // Back down: byte offset 2 on "ab" is its end.
    textarea.move_down();
    assert_eq!(textarea.cursor_row(), 1);
    assert_eq!(textarea.cursor_col(), 2);
    // From the end of "éé" (byte 4), "ab" is shorter: the cursor goes to its end.
    textarea.move_up();
    textarea.move_right();
    assert_eq!(textarea.cursor_col(), 2);
    textarea.move_down();
    assert_eq!(textarea.cursor_col(), 2);
}

#[test]
fn text_area_update_scroll_small_view() {
    let mut textarea = TextArea::new("p");
    textarea.set_text("a\nb\nc\nd\ne".to_string());
    // A view of five rows shows three lines between its borders.
    textarea.update_scroll_if_needed(5);
    assert_eq!(textarea.scroll_offset(), 2);
    // With the cursor above the first line shown, two rows are enough.
    for _ in 0..4 {
        textarea.move_up();
    }
    assert_eq!(textarea.cursor_row(), 0);
    assert_eq!(textarea.scroll_offset(), 2);
    textarea.update_scroll_if_needed(2);
    assert_eq!(textarea.scroll_offset(), 0);
}

#[test]
fn text_area_ascii_keys_never_fail() {
    let mut textarea = TextArea::new("p");
    textarea.set_text("short\na much longer line\nmid".to_string());
    let keys = [
        KeyCode::Up, KeyCode::Up, KeyCode::End, KeyCode::Down, KeyCode::Down, KeyCode::Char('x'),
        KeyCode::Enter, KeyCode::Up, KeyCode::Backspace, KeyCode::Delete, KeyCode::PageUp, KeyCode::Down,
    ];
    for code in keys {
        textarea.handle_key(KeyEvent::new(code, KeyModifiers::empty()));
        assert!(textarea.cursor_row() < textarea.lines().len());
        assert!(textarea.cursor_col() <= textarea.lines()[textarea.cursor_row()].len());
    }
}
