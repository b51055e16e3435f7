use keyring_tui::tui::commands::update::{split_tags, update_field, update_password};
use keyring_tui::tui::commands::new::{create_record, new_stored_record, PasswordType};
use keyring_tui::sync::records::Timestamp;
use keyring_tui::sync::records::RecordType;
use keyring_tui::tui::commands::config::{
    config_get_lines, config_list_lines, config_reset_lines, config_set_lines, handle_config, is_known_key, ConfigRequest,
    ConfigSnapshot,
};
use keyring_tui::tui::commands::delete::{execute_delete, handle_delete};
use keyring_tui::tui::commands::list::{handle_list, ListEntry};
use keyring_tui::tui::commands::new::handle_new;
use keyring_tui::tui::commands::search::handle_search;
use keyring_tui::tui::commands::show::handle_show;
use keyring_tui::tui::commands::update::handle_update;
use keyring_tui::tui::commands::{parse_command, RecordPayload};

fn payload(name: &str) -> RecordPayload {
    RecordPayload {
        name: name.to_string(),
        username: Some("alice@example.com".to_string()),
        password: "s3cret".to_string(),
        url: Some("https://mail.example.com".to_string()),
        notes: Some(String::new()),
        tags: vec!["work".to_string(), "Email".to_string()],
    }
}

#[test]
fn parse_command_splits_name_and_words() {
    let (name, args) = parse_command("  /config   set  sync.auto true ").unwrap();
    assert_eq!(name, "/config");
    assert_eq!(args, vec!["set", "sync.auto", "true"]);
    let (name, args) = parse_command("/list").unwrap();
    assert_eq!(name, "/list");
    assert!(args.is_empty());
    assert!(parse_command("list").is_none());
    assert!(parse_command("   ").is_none());
    let (name, args) = parse_command("/show\tx y").unwrap();
    assert_eq!(name, "/show\tx");
    assert_eq!(args, vec!["y"]);
}

#[test]
fn new_help_lines() {
    let lines = handle_new().unwrap();
    assert_eq!(lines.len(), 23);
    assert_eq!(lines[0], "📝 Create New Password Record");
    assert_eq!(lines[22], "For full help: ok new --help");
}

#[test]
fn show_finds_record_by_name() {
    let records = vec![payload("Other"), payload("Mail")];
    let lines = handle_show(vec!["Mail"], &records);
    assert_eq!(
        lines,
        vec![
            "🔑 Record: Mail",
            "",
            "👤 Username: alice@example.com",
            "🔐 Password: *** (shown in popup)",
            "🔗 URL: https://mail.example.com",
            "🏷️  Tags: work, Email",
            "",
            "(Password copied to clipboard - auto-clears in 30s)",
        ]
    );
    assert!(!lines.iter().any(|l| l.contains("s3cret")));
    assert_eq!(handle_show(vec!["Nope"], &records), vec!["❌ Record 'Nope' not found", "Use /list to see all records."]);
    assert_eq!(handle_show(vec![], &records), vec!["❌ Error: Record name required", "Usage: /show <name>"]);
}

#[test]
fn search_matches_in_order() {
    let mut other = payload("Bank");
    other.username = None;
    other.url = None;
    other.tags = vec!["finance".to_string()];
    let records = vec![payload("Mail"), other];
    let lines = handle_search(vec!["EMAIL"], &records);
    assert_eq!(lines[0], "🔍 Found 1 results for 'email':");
    assert_eq!(lines[2], "• Mail (matched by: tag: Email)");
    let lines = handle_search(vec!["fin"], &records);
    assert_eq!(lines[2], "• Bank (matched by: tag: finance)");
    assert_eq!(lines.len(), 4);
    let lines = handle_search(vec!["zzz", "Q"], &records);
    assert_eq!(lines[0], "🔍 No results found for 'zzz q'");
    assert_eq!(lines.len(), 6);
    assert_eq!(handle_search(vec![], &records).len(), 2);
}

#[test]
fn list_filters_by_name() {
    let entries = vec![
        ListEntry { id: "id-1".to_string(), record_type: RecordType::Password, name: Some("GitHub".to_string()) },
        ListEntry { id: "id-2".to_string(), record_type: RecordType::SshKey, name: None },
        ListEntry { id: "id-3".to_string(), record_type: RecordType::SshKey, name: Some("Server".to_string()) },
    ];
    let all = handle_list(vec![], &entries);
    assert_eq!(all[2], "Found 3 records:");
    assert_eq!(all[4], "  • GitHub (password)");
    assert_eq!(all[5], "  • id-2 (unknown)");
    assert_eq!(all[6], "  • Server (sshkey)");
    let some = handle_list(vec!["git"], &entries);
    assert_eq!(some.len(), 5);
    let none = handle_list(vec!["zz", "top"], &entries);
    assert_eq!(none, vec!["📋 Password Records", "", "No records found.", "No records matching 'zz top'"]);
    let empty = handle_list(vec![], &[]);
    assert_eq!(empty[3], "Use /new to create a record.");
}

#[test]
fn delete_prompt_and_outcome() {
    let lines = handle_delete(vec!["bank"], None);
    assert_eq!(lines[2], "Are you sure you want to delete 'bank'?");
    assert_eq!(lines.len(), 9);
    let lines = handle_delete(vec!["bank"], Some("Bank Account".to_string()));
    assert_eq!(lines[2], "Are you sure you want to delete 'Bank Account'?");
    assert_eq!(handle_delete(vec![], None).len(), 2);
    assert_eq!(execute_delete("bank", true), vec!["✅ Record 'bank' deleted successfully", ""]);
    assert_eq!(execute_delete("bank", false), vec!["❌ Record 'bank' not found"]);
}

#[test]
fn update_shows_current_values() {
    let lines = handle_update(vec!["Mail"], Some(payload("Mail")));
    assert_eq!(lines[2], "Name: Mail");
    assert_eq!(lines[3], "Username: alice@example.com");
    assert_eq!(lines[4], "URL: https://mail.example.com");
    assert_eq!(lines[5], "Notes: ");
    assert_eq!(lines[6], "Tags: work, Email");
    assert_eq!(lines.len(), 18);
    let lines = handle_update(vec!["x"], None);
    assert_eq!(lines[2], "Name: x");
    assert_eq!(lines.len(), 14);
}

#[test]
fn config_requests() {
    assert!(matches!(handle_config(vec![]), ConfigRequest::List));
    assert!(matches!(handle_config(vec!["ls"]), ConfigRequest::List));
    match handle_config(vec!["set", "sync.provider", "web", "dav"]) {
        ConfigRequest::Store { key, value } => {
            assert_eq!(key, "sync.provider");
            assert_eq!(value, "web dav");
        }
        _ => panic!("expected a store request"),
    }
    match handle_config(vec!["set", "nope", "1"]) {
        ConfigRequest::Reply(lines) => {
            assert_eq!(lines[0], "❌ Invalid configuration key 'nope'");
            assert!(lines[3].starts_with("  sync.path\n  sync.enabled"));
        }
        _ => panic!("expected a reply"),
    }
    assert!(matches!(handle_config(vec!["get", "a.b"]), ConfigRequest::Get(k) if k == "a.b"));
    assert!(matches!(handle_config(vec!["reset", "-f"]), ConfigRequest::Reset));
    assert!(matches!(handle_config(vec!["reset"]), ConfigRequest::Reply(l) if l.len() == 5));
    assert!(matches!(handle_config(vec!["frob"]), ConfigRequest::Reply(l) if l[0] == "❌ Unknown config subcommand"));
    assert!(matches!(handle_config(vec!["set", "x"]), ConfigRequest::Reply(l) if l.len() == 9));
}

#[test]
fn config_replies() {
    let c = ConfigSnapshot {
        database_path: "/db".to_string(),
        encryption_enabled: true,
        sync_enabled: false,
        sync_provider: "icloud".to_string(),
        sync_remote_path: "/OpenKeyring".to_string(),
        sync_auto: false,
        sync_conflict_resolution: "newer".to_string(),
        clipboard_timeout_seconds: 45,
        clipboard_clear_after_copy: true,
        clipboard_max_content_length: 1024,
    };
    let list = config_list_lines(&c);
    assert_eq!(list.len(), 18);
    assert_eq!(list[5], "  database.encryption_enabled = true");
    assert_eq!(list[15], "  clipboard.timeout = 45 seconds");
    assert_eq!(list[17], "  clipboard.max_content_length = 1024");
    assert_eq!(config_get_lines("sync.auto", &c, None), vec!["sync.auto = false"]);
    assert_eq!(config_get_lines("custom.x", &c, Some("7".to_string())), vec!["custom.x = 7"]);
    assert_eq!(config_get_lines("custom.y", &c, None).len(), 6);
    assert!(is_known_key("database.path"));
    assert!(!is_known_key("device_id"));
    assert_eq!(config_set_lines("device_id", "d1")[0], "⚙️  Set: device_id = d1");
    assert_eq!(config_reset_lines(0)[1], "   No custom configuration to clear");
    assert_eq!(config_reset_lines(2)[1], "   ✓ Cleared 2 custom configuration value(s)");
}

// ---------------------------------------------------------------- /health

use keyring_tui::error::KeyringError;
use keyring_tui::tui::commands::health::{
    finish_health, format_health_report, handle_health, parse_health_flags, HealthChecks, HealthIssue, HealthOutcome,
    HealthReport, HealthStep, Severity,
};

fn issue(severity: Severity, names: &[&str], description: &str) -> HealthIssue {
    HealthIssue {
        severity,
        record_names: names.iter().map(|s| s.to_string()).collect(),
        description: description.to_string(),
    }
}

#[test]
fn health_without_flags_shows_usage() {
    match handle_health(vec!["--bogus"]) {
        HealthStep::Done(lines) => {
            assert_eq!(lines[0], "Password Health Check");
            assert_eq!(lines[2], "No checks selected. Use one or more flags:");
            assert_eq!(lines.last().unwrap(), "Example: /health --all");
            assert_eq!(lines.len(), 9);
        }
        HealthStep::Run { .. } => panic!("no check was selected"),
    }
}

#[test]
fn health_flags_select_checks() {
    assert_eq!(
        parse_health_flags(&vec!["-w", "--leaks"]),
        HealthChecks { weak: true, duplicates: false, leaks: true }
    );
    assert_eq!(parse_health_flags(&vec!["-a"]), HealthChecks { weak: true, duplicates: true, leaks: true });
    match handle_health(vec!["--duplicate"]) {
        HealthStep::Run { lines, checks } => {
            assert_eq!(lines, vec!["Password Health Check", ""]);
            assert_eq!(checks, HealthChecks { weak: false, duplicates: true, leaks: false });
        }
        HealthStep::Done(_) => panic!("a check was selected"),
    }
}

#[test]
fn health_report_healthy() {
    let report = HealthReport {
        total_records: 3,
        weak_password_count: 0,
        duplicate_password_count: 0,
        compromised_password_count: 0,
        issues: Vec::new(),
    };
    assert!(report.is_healthy());
    assert_eq!(
        format_health_report(&report, true, false, true),
        vec![
            "--------------------------------------------------",
            "Total records checked: 3",
            "",
            "Weak passwords:       0",
            "Compromised:          0",
            "",
            "All passwords are healthy!",
        ]
    );
}

#[test]
fn health_report_groups_issues_by_severity() {
    let report = HealthReport {
        total_records: 12,
        weak_password_count: 1,
        duplicate_password_count: 2,
        compromised_password_count: 0,
        issues: vec![
            issue(Severity::Low, &["a"], "short"),
            issue(Severity::Critical, &["b", "c"], "reused"),
            issue(Severity::Low, &["d"], "old"),
        ],
    };
    assert_eq!(
        format_health_report(&report, true, true, false),
        vec![
            "--------------------------------------------------",
            "Total records checked: 12",
            "",
            "Weak passwords:       1",
            "Duplicate passwords:  2",
            "",
            "Critical Issues:",
            "  [!] b, c - reused",
            "",
            "Low Issues:",
            "  [.] a - short",
            "  [.] d - old",
            "",
            "Recommendations:",
            "  - Update weak passwords to improve security",
            "    Use: /new to create strong passwords",
            "  - Use unique passwords for each account",
        ]
    );
}

#[test]
fn health_outcomes() {
    let start = vec!["Password Health Check".to_string(), "".to_string()];
    let checks = HealthChecks { weak: true, duplicates: false, leaks: false };
    let lines = finish_health(start.clone(), checks, HealthOutcome::VaultMissing).unwrap();
    assert_eq!(&lines[2..], &["Vault not initialized.", "   Run 'ok init' first."]);
    let lines = finish_health(start.clone(), checks, HealthOutcome::DatabaseOpenFailed("locked".to_string())).unwrap();
    assert_eq!(lines[2], "Error: Unable to open database: locked");
    let lines = finish_health(start.clone(), checks, HealthOutcome::NoRecordsTable).unwrap();
    assert_eq!(lines[2], "No records found.");
    let empty = HealthReport {
        total_records: 0,
        weak_password_count: 0,
        duplicate_password_count: 0,
        compromised_password_count: 0,
        issues: Vec::new(),
    };
    let lines = finish_health(start.clone(), checks, HealthOutcome::Checked(empty)).unwrap();
    assert_eq!(lines[2], "No passwords found in vault.");
    let one = HealthReport {
        total_records: 1,
        weak_password_count: 0,
        duplicate_password_count: 0,
        compromised_password_count: 0,
        issues: Vec::new(),
    };
    let lines = finish_health(start.clone(), checks, HealthOutcome::Checked(one)).unwrap();
    assert_eq!(lines[2], "Checking 1 records...");
    assert_eq!(lines.last().unwrap(), "All passwords are healthy!");
    let err = finish_health(start, checks, HealthOutcome::Failed(KeyringError::IoError("disk".to_string())));
    assert!(matches!(err, Err(KeyringError::IoError(m)) if m == "disk"));
}

// ---------------------------------------------------------------- field updates

#[test]
fn update_field_sets_and_clears() {
    let (lines, p) = update_field("mail", "username", "bob", Some(payload("mail")));
    assert_eq!(lines, vec!["✅ Updated username for 'mail'", ""]);
    assert_eq!(p.unwrap().username, Some("bob".to_string()));
    let (_, p) = update_field("mail", "url", "", Some(payload("mail")));
    assert_eq!(p.unwrap().url, None);
    let (_, p) = update_field("mail", "tags", " a, b ,,c ", Some(payload("mail")));
    assert_eq!(p.unwrap().tags, vec!["a", "b", "", "c"]);
    let (lines, p) = update_field("mail", "color", "red", Some(payload("mail")));
    assert_eq!(lines, vec!["❌ Unknown field: color"]);
    assert!(p.is_none());
    let (lines, p) = update_field("ghost", "url", "x", None);
    assert_eq!(lines, vec!["❌ Record 'ghost' not found"]);
    assert!(p.is_none());
}

#[test]
fn split_tags_keeps_empty_pieces() {
    assert_eq!(split_tags(""), vec![""]);
    assert_eq!(split_tags("work"), vec!["work"]);
    assert_eq!(split_tags("a,b"), vec!["a", "b"]);
}

#[test]
fn update_password_replaces_only_the_password() {
    let before = payload("bank");
    let name = before.name.clone();
    let (lines, p) = update_password("bank", "n3w", Some(before));
    assert_eq!(lines, vec!["✅ Password updated for 'bank'", ""]);
    let p = p.unwrap();
    assert_eq!(p.password, "n3w");
    assert_eq!(p.name, name);
    let (lines, p) = update_password("none", "x", None);
    assert_eq!(lines, vec!["❌ Record 'none' not found"]);
    assert!(p.is_none());
}

#[test]
fn create_record_lines_and_payload() {
    let (p, lines) = create_record(
        "github",
        PasswordType::Memorable,
        "correct-horse",
        Some("me".to_string()),
        None,
        None,
        vec!["dev".to_string()],
    );
    assert_eq!(p.name, "github");
    assert_eq!(p.password, "correct-horse");
    assert_eq!(p.username, Some("me".to_string()));
    assert_eq!(p.tags, vec!["dev"]);
    assert_eq!(
        lines,
        vec![
            "✅ Record created successfully!",
            "",
            "Name: github",
            "Password: correct-horse",
            "Type: Memorable",
            "",
        ]
    );
    let now = Timestamp { secs: 5, nanos: 0 };
    let r = new_stored_record(9, vec![1, 2], [0u8; 12], vec!["dev".to_string()], now);
    assert_eq!(r.version, 1);
    assert_eq!(r.id, 9);
    assert_eq!(r.created_at, now);
}
