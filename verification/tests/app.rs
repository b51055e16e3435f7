use keyring_tui::tui::app::{CommandRequest, HandlerCommand, Shortcut, ShortcutAction, TuiApp};
use keyring_tui::tui::app_types::Screen;
use keyring_tui::tui::commands::config::{config_get_lines, config_list_lines, handle_config, ConfigRequest, ConfigSnapshot};
use keyring_tui::tui::commands::delete::handle_delete;
use keyring_tui::tui::commands::health::{handle_health, HealthStep};
use keyring_tui::tui::commands::list::handle_list;
use keyring_tui::tui::commands::new::handle_new;
use keyring_tui::tui::commands::search::handle_search;
use keyring_tui::tui::commands::show::handle_show;
use keyring_tui::tui::commands::update::handle_update;
use keyring_tui::KeyCode;

fn snapshot() -> ConfigSnapshot {
    ConfigSnapshot {
        database_path: "/tmp/keyring.db".to_string(),
        encryption_enabled: true,
        sync_enabled: false,
        sync_provider: "icloud".to_string(),
        sync_remote_path: "/OpenKeyring".to_string(),
        sync_auto: false,
        sync_conflict_resolution: "newer".to_string(),
        clipboard_timeout_seconds: 30,
        clipboard_clear_after_copy: true,
        clipboard_max_content_length: 1024,
    }
}

/// Runs what the console asks for the way the application does, over an
/// empty vault.
fn run(app: &mut TuiApp, req: CommandRequest) {
    if let CommandRequest::Run { command, args } = req {
        let a: Vec<&str> = args.iter().map(|s| s.as_str()).collect();
        let outcome: Result<Vec<String>, String> = match command {
            HandlerCommand::Delete => Ok(handle_delete(a, None)),
            HandlerCommand::List => Ok(handle_list(a, &[])),
            HandlerCommand::Show => Ok(handle_show(a, &[])),
            HandlerCommand::New => handle_new().map_err(|e| format!("{:?}", e)),
            HandlerCommand::Update => Ok(handle_update(a, None)),
            HandlerCommand::Search => Ok(handle_search(a, &[])),
            HandlerCommand::Config => match handle_config(a) {
                ConfigRequest::List => Ok(config_list_lines(&snapshot())),
                ConfigRequest::Get(key) => Ok(config_get_lines(&key, &snapshot(), None)),
                ConfigRequest::Reply(lines) => Ok(lines),
                _ => Ok(Vec::new()),
            },
            HandlerCommand::Health => match handle_health(a) {
                HealthStep::Done(lines) => Ok(lines),
                HealthStep::Run { lines, .. } => Ok(lines),
            },
        };
        app.apply_command_result(outcome);
    }
}

fn process(app: &mut TuiApp, cmd: &str) {
    let req = app.process_command(cmd);
    run(app, req);
}

#[test]
fn test_app_creation() {
    let app = TuiApp::new();
    assert!(app.is_running());
    assert_eq!(app.input_buffer, "");
}

#[test]
fn test_app_quit() {
    let mut app = TuiApp::new();
    app.quit();
    assert!(!app.is_running());
}

#[test]
fn test_handle_char() {
    let mut app = TuiApp::new();
    app.handle_char('t');
    app.handle_char('e');
    app.handle_char('s');
    app.handle_char('t');
    assert_eq!(app.input_buffer, "test");
}

#[test]
fn test_handle_backspace() {
    let mut app = TuiApp::new();
    app.handle_char('t');
    app.handle_char('e');
    app.handle_backspace();
    assert_eq!(app.input_buffer, "t");
}

#[test]
fn test_submit_command() {
    let mut app = TuiApp::new();
    app.handle_char('/');
    app.handle_char('h');
    app.handle_char('e');
    app.handle_char('l');
    app.handle_char('p');
    let req = app.handle_char('\n');
    run(&mut app, req);
    assert_eq!(app.input_buffer, "");
    assert!(app.output_lines.iter().any(|l| l.contains("Keyboard Shortcuts") || l.contains("Commands:")));
}

#[test]
fn test_exit_command() {
    let mut app = TuiApp::new();
    app.handle_char('/');
    app.handle_char('e');
    app.handle_char('x');
    app.handle_char('i');
    app.handle_char('t');
    app.handle_char('\n');
    assert!(!app.is_running());
}

#[test]
fn test_process_delete_command() {
    let mut app = TuiApp::new();
    process(&mut app, "/delete test");
    assert!(app.output_lines.iter().any(|l| l.contains("Delete") || l.contains("Confirm")));
}

#[test]
fn test_process_list_command() {
    let mut app = TuiApp::new();
    process(&mut app, "/list");
    let has_output = !app.output_lines.is_empty();
    assert!(has_output, "Should have output content");
}

#[test]
fn test_process_show_command() {
    let mut app = TuiApp::new();
    process(&mut app, "/show test");
    assert!(app
        .output_lines
        .iter()
        .any(|l| l.contains("Error") || l.contains("not found") || l.contains("test")));
}

#[test]
fn test_process_new_command() {
    let mut app = TuiApp::new();
    process(&mut app, "/new");
    assert!(app.output_lines.iter().any(|l| l.contains("New") || l.contains("Create") || l.contains("record")));
}

#[test]
fn test_process_update_command() {
    let mut app = TuiApp::new();
    process(&mut app, "/update test");
    assert!(app
        .output_lines
        .iter()
        .any(|l| l.contains("Update") || l.contains("Error") || l.contains("not found")));
}

#[test]
fn test_process_search_command() {
    let mut app = TuiApp::new();
    process(&mut app, "/search test");
    assert!(app
        .output_lines
        .iter()
        .any(|l| l.contains("Search") || l.contains("No results") || l.contains("Error")));
}

#[test]
fn test_process_config_command() {
    let mut app = TuiApp::new();
    process(&mut app, "/config");
    assert!(app
        .output_lines
        .iter()
        .any(|l| l.contains("Configuration") || l.contains("[Database]") || l.contains("Error")));
}

#[test]
fn test_process_config_get_command() {
    let mut app = TuiApp::new();
    process(&mut app, "/config get sync.enabled");
    assert!(app.output_lines.iter().any(|l| l.contains("=") || l.contains("Error")));
}

#[test]
fn test_process_unknown_command() {
    let mut app = TuiApp::new();
    process(&mut app, "/unknown");
    assert!(app.output_lines.iter().any(|l| l.contains("Unknown") || l.contains("unknown")));
}

#[test]
fn test_process_command_with_args() {
    let mut app = TuiApp::new();
    process(&mut app, "/delete my record name");
    assert!(app.output_lines.iter().any(|l| l.contains("> /delete")));
}

#[test]
fn test_statusline_render_full_width() {
    let app = TuiApp::new();
    let statusline = app.statusline_texts(80, 0);
    assert!(statusline.iter().any(|s| s.contains("v0.1") || s.contains("0.1.0")));
}

#[test]
fn test_statusline_render_narrow_width() {
    let app = TuiApp::new();
    let statusline = app.statusline_texts(40, 0);
    assert!(!statusline.is_empty());
}

#[test]
fn test_statusline_shows_lock_icon() {
    let app = TuiApp::new();
    let statusline = app.statusline_texts(80, 0);
    assert!(statusline.iter().any(|s| s.contains("🔓") || s.contains("🔒")));
}

#[test]
fn app_banner_and_statusline_pieces() {
    let app = TuiApp::new();
    assert_eq!(app.output_lines, vec!["OpenKeyring TUI v0.1.0", "Type /help for available commands", ""]);
    assert_eq!(app.statusline_texts(40, 0), vec![" Unsynced"]);
    assert_eq!(
        app.statusline_texts(100, 0),
        vec!["🔓 0 rec", " | ", "Unsynced", " | ", "v0.1.0", " | ", "Ctrl+N new | Ctrl+L list | Ctrl+Q quit"]
    );
    assert_eq!(app.statusline_texts(85, 0)[6], "Ctrl+N new | Ctrl+Q quit");
    assert_eq!(app.statusline_texts(60, 0)[6], "Ctrl+Q quit");
}

#[test]
fn app_output_keeps_last_lines() {
    let mut app = TuiApp::new();
    for i in 0..600 {
        app.add_output(format!("line {}", i));
    }
    assert_eq!(app.output_lines.len(), 500);
    assert_eq!(app.output_lines[499], "line 599");
    assert_eq!(app.output_lines[0], "line 100");
    app.add_outputs(vec!["a".to_string(), "b".to_string()]);
    assert_eq!(app.output_lines.len(), 500);
    assert_eq!(app.output_lines[499], "b");
}

#[test]
fn app_autocomplete_single_and_many() {
    let mut app = TuiApp::new();
    app.handle_char('/');
    app.handle_char('h');
    app.handle_char('\t');
    assert_eq!(app.input_buffer, "/help ");

    let mut app = TuiApp::new();
    app.handle_char('/');
    app.handle_char('c');
    app.handle_char('\t');
    assert_eq!(app.input_buffer, "/config ");

    let mut app = TuiApp::new();
    app.handle_char('/');
    app.handle_char('s');
    app.handle_char('\t');
    assert_eq!(app.input_buffer, "/search ");
    assert_eq!(app.output_lines.last().unwrap(), "Matching commands: /search, /show, /sync");

    let mut app = TuiApp::new();
    app.handle_char('/');
    app.handle_char('z');
    app.handle_char('\t');
    assert_eq!(app.input_buffer, "/z");
}

#[test]
fn app_control_characters_are_ignored() {
    let mut app = TuiApp::new();
    app.handle_char('a');
    app.handle_char('\u{7}');
    app.handle_char('\u{7f}');
    assert_eq!(app.input_buffer, "a");
    app.handle_backspace();
    app.handle_backspace();
    assert_eq!(app.input_buffer, "");
}

#[test]
fn app_unknown_commands() {
    let mut app = TuiApp::new();
    process(&mut app, "/frobnicate now");
    assert_eq!(app.output_lines.last().unwrap(), "Unknown command '/frobnicate'. Type /help for available commands.");
    process(&mut app, "hello");
    assert_eq!(app.output_lines.last().unwrap(), "Unknown command. Type /help for available commands.");
}

#[test]
fn app_command_request_carries_arguments() {
    let mut app = TuiApp::new();
    match app.process_command("/delete my record name") {
        CommandRequest::Run { command, args } => {
            assert_eq!(command, HandlerCommand::Delete);
            assert_eq!(args, vec!["my", "record", "name"]);
        }
        CommandRequest::Nothing => panic!("expected a handler"),
    }
    app.apply_command_result(Err("boom".to_string()));
    assert_eq!(app.output_lines.last().unwrap(), "Error: boom");
}

#[test]
fn app_history_is_bounded() {
    let mut app = TuiApp::new();
    for _ in 0..1005 {
        app.handle_char('x');
        app.handle_char('\n');
    }
    assert_eq!(app.input_buffer, "");
    assert_eq!(app.output_lines.last().unwrap(), "Unknown command. Type /help for available commands.");
    assert!(app.is_running());
}

#[test]
fn app_navigation_keys() {
    let mut app = TuiApp::new();
    assert!(app.handle_navigation_key(KeyCode::F(2)));
    assert_eq!(app.current_screen(), Screen::Settings);
    assert_eq!(app.output_lines.last().unwrap(), "Navigated to: Settings");
    assert!(app.handle_navigation_key(KeyCode::Esc));
    assert_eq!(app.current_screen(), Screen::Main);
    assert_eq!(app.output_lines.last().unwrap(), "Returned to main screen");
    assert!(!app.handle_navigation_key(KeyCode::Char('x')));
    assert!(app.is_running());
    assert!(app.handle_navigation_key(KeyCode::Esc));
    assert!(!app.is_running());
}

#[test]
fn app_shortcut_actions() {
    let mut app = TuiApp::new().with_shortcuts(vec![Shortcut {
        key: "Ctrl+Q".to_string(),
        description: "Quit".to_string(),
    }]);
    app.execute_action(ShortcutAction::Help);
    assert!(app.output_lines.iter().any(|l| l == &format!("  {:20} - {}", "Ctrl+Q", "Quit")));
    app.execute_action(ShortcutAction::Clear);
    assert!(app.output_lines.is_empty());
    match app.execute_action(ShortcutAction::List) {
        CommandRequest::Run { command, args } => {
            assert_eq!(command, HandlerCommand::List);
            assert!(args.is_empty());
        }
        CommandRequest::Nothing => panic!("expected a handler"),
    }
    assert_eq!(app.output_lines, vec!["> /list"]);
    app.execute_action(ShortcutAction::Quit);
    assert!(!app.is_running());
    assert_eq!(app.output_lines.last().unwrap(), "Goodbye!");
}

#[test]
fn app_autocomplete_with_vault() {
    let mut app = TuiApp::new();
    app.handle_char('/');
    app.handle_char('e');
    app.handle_autocomplete_with_db(true);
    assert_eq!(app.input_buffer, "/exit ");
    let mut app = TuiApp::new();
    app.handle_char('g');
    app.handle_autocomplete_with_db(true);
    assert_eq!(app.input_buffer, "g");
    app.handle_autocomplete_with_db(false);
    assert_eq!(app.input_buffer, "g");
}

fn ctrl(c: char) -> keyring_tui::KeyEvent {
    keyring_tui::KeyEvent::new(
        KeyCode::Char(c),
        keyring_tui::KeyModifiers { control: true, shift: false, alt: false },
    )
}

#[test]
fn test_keybinding_ctrl_q_triggers_quit() {
    let mut app = TuiApp::new();
    app.handle_key_event(ctrl('q'));
    assert!(!app.is_running());
}

#[test]
fn test_keybinding_f1_triggers_help() {
    let mut app = TuiApp::new();
    let f1 = keyring_tui::KeyEvent::new(KeyCode::F(1), keyring_tui::KeyModifiers::empty());
    app.handle_key_event(f1);
    assert!(app
        .output_lines
        .iter()
        .any(|l| l.contains("Keyboard Shortcuts") || l.contains("Available Commands")));
}

#[test]
fn test_keybinding_ctrl_l_triggers_list() {
    let mut app = TuiApp::new();
    app.handle_key_event(ctrl('l'));
    assert!(app.output_lines.iter().any(|l| l.contains("> /list")));
}

#[test]
fn test_keybinding_ctrl_k_clears_output() {
    let mut app = TuiApp::new();
    app.output_lines.push("test line".to_string());
    assert!(app.output_lines.len() > 3);
    app.handle_key_event(ctrl('k'));
    assert!(app.output_lines.is_empty() || app.output_lines.len() <= 3);
}

#[test]
fn key_event_ctrl_l_asks_for_the_list_handler() {
    let mut app = TuiApp::new();
    match app.handle_key_event(ctrl('l')) {
        CommandRequest::Run { command, args } => {
            assert_eq!(command, HandlerCommand::List);
            assert!(args.is_empty());
        }
        CommandRequest::Nothing => panic!("expected a handler request"),
    }
}

#[test]
fn key_event_unbound_key_changes_nothing() {
    let mut app = TuiApp::new();
    let before = app.output_lines.clone();
    let r = app.handle_key_event(ctrl('z'));
    assert!(matches!(r, CommandRequest::Nothing));
    assert_eq!(app.output_lines, before);
    assert!(app.is_running());
    // Without Ctrl, Q is no shortcut.
    let q = keyring_tui::KeyEvent::new(KeyCode::Char('q'), keyring_tui::KeyModifiers::empty());
    app.handle_key_event(q);
    assert!(app.is_running());
}

#[test]
fn key_event_navigation_comes_first() {
    let mut app = TuiApp::new();
    let f2 = keyring_tui::KeyEvent::new(KeyCode::F(2), keyring_tui::KeyModifiers::empty());
    app.handle_key_event(f2);
    assert_eq!(app.current_screen(), Screen::Settings);
    let esc = keyring_tui::KeyEvent::new(KeyCode::Esc, keyring_tui::KeyModifiers::empty());
    app.handle_key_event(esc);
    assert_eq!(app.current_screen(), Screen::Main);
    assert!(app.is_running());
    app.handle_key_event(esc);
    assert!(!app.is_running());
}
