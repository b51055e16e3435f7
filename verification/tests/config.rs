use keyring_tui::tui::app_types::{Screen, SyncStatus, TuiError};
use keyring_tui::tui::config::{PasswordPolicyConfig, PasswordTypeConfig, ThemeConfig, ThemeVariant, TuiConfig};

#[test]
fn test_default_config() {
    let config = TuiConfig::default();
    assert_eq!(config.clipboard_timeout_seconds, 30);
    assert_eq!(config.trash_retention_days, 30);
    assert_eq!(config.auto_lock_seconds, 300);
    assert!(config.show_password_strength);
    assert!(config.confirm_delete);
}

#[test]
fn test_config_builder() {
    let config = TuiConfig::new().with_clipboard_timeout(60).with_trash_retention(7).with_auto_lock(600);
    assert_eq!(config.clipboard_timeout_seconds, 60);
    assert_eq!(config.trash_retention_days, 7);
    assert_eq!(config.auto_lock_seconds, 600);
}

#[test]
fn test_password_policy_default() {
    let policy = PasswordPolicyConfig::default();
    assert_eq!(policy.length, 16);
    assert_eq!(policy.min_digits, 2);
    assert_eq!(policy.min_special, 1);
    assert_eq!(policy.min_lowercase, 1);
    assert_eq!(policy.min_uppercase, 1);
    assert_eq!(policy.password_type, PasswordTypeConfig::Random);
}

#[test]
fn test_theme_config_default() {
    let theme = ThemeConfig::default();
    assert_eq!(theme.variant, ThemeVariant::Dark);
    assert!(theme.colorful_icons);
    assert!(!theme.compact_mode);
}

#[test]
fn config_path_joins_file_name() {
    assert_eq!(TuiConfig::config_path("/home/u/.config/ok"), "/home/u/.config/ok/tui_config.json");
}

#[test]
fn screen_names() {
    assert_eq!(Screen::Main.name(), "Main");
    assert_eq!(Screen::ProviderSelect.name(), "Provider Select");
    assert_eq!(Screen::Wizard.name(), "Onboarding Wizard");
    assert_eq!(Screen::EditPassword.name(), "Edit Password");
}

#[test]
fn sync_status_texts() {
    let s = SyncStatus::Synced(0);
    assert_eq!(s.display(0), "Just now");
    assert_eq!(s.display(-3), "Just now");
    assert_eq!(s.display(59), "59m ago");
    assert_eq!(s.display(60), "1h ago");
    assert_eq!(s.display(24 * 60 - 1), "23h ago");
    assert_eq!(s.display(24 * 60), "1d ago");
    assert_eq!(s.display(3 * 24 * 60 + 5), "3d ago");
    assert_eq!(SyncStatus::Unsynced.display(0), "Unsynced");
    assert_eq!(SyncStatus::Syncing.display(0), "Syncing...");
    assert_eq!(SyncStatus::Failed("net".to_string()).display(0), "Sync failed: net");
    assert_eq!(TuiError::IoError("x".to_string()).message(), "TUI I/O error: x");
}
