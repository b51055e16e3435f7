//! Settings of the terminal interface: clipboard timeout, trash retention,
//! password policy defaults and theme.
use vstd::prelude::*;
use std::path::Path;

verus! {

/// Kind of password generated by default.
#[derive(Debug, Clone, Copy, PartialEq, Eq, Structural)]
pub enum PasswordTypeConfig {
    Random,
    Memorable,
    Pin,
}

/// Defaults for generated passwords.
#[derive(Debug, Clone, Copy, PartialEq, Eq, Structural)]
pub struct PasswordPolicyConfig {
    pub length: u8,
    pub min_digits: u8,
    pub min_special: u8,
    pub min_lowercase: u8,
    pub min_uppercase: u8,
    pub password_type: PasswordTypeConfig,
}

impl Default for PasswordPolicyConfig {
    /// Random passwords of 16 characters with at least two digits and one
    /// special, lower-case and upper-case character each.
    fn default() -> (r: Self)
        ensures
            r == (PasswordPolicyConfig {
                length: 16,
                min_digits: 2,
                min_special: 1,
                min_lowercase: 1,
                min_uppercase: 1,
                password_type: PasswordTypeConfig::Random,
            }),
    {
        PasswordPolicyConfig {
            length: 16,
            min_digits: 2,
            min_special: 1,
            min_lowercase: 1,
            min_uppercase: 1,
            password_type: PasswordTypeConfig::Random,
        }
    }
}

/// Color scheme.
#[derive(Debug, Clone, Copy, PartialEq, Eq, Structural)]
pub enum ThemeVariant {
    Dark,
    Light,
    HighContrast,
}

/// Appearance settings.
#[derive(Debug, Clone, Copy, PartialEq, Eq, Structural)]
pub struct ThemeConfig {
    pub variant: ThemeVariant,
    pub colorful_icons: bool,
    pub compact_mode: bool,
}

impl Default for ThemeConfig {
    /// Dark, with colorful icons, not compact.
    fn default() -> (r: Self)
        ensures
            r == (ThemeConfig { variant: ThemeVariant::Dark, colorful_icons: true, compact_mode: false }),
    {
        ThemeConfig { variant: ThemeVariant::Dark, colorful_icons: true, compact_mode: false }
    }
}

/// Settings of the terminal interface.
#[derive(Debug, Clone, Copy, PartialEq, Eq, Structural)]
pub struct TuiConfig {
    pub clipboard_timeout_seconds: u64,
    pub trash_retention_days: u32,
    pub default_password_policy: PasswordPolicyConfig,
    pub theme: ThemeConfig,
    pub auto_lock_seconds: u64,
    pub show_password_strength: bool,
    pub confirm_delete: bool,
}

/// The default settings.
pub open spec fn default_tui_config() -> TuiConfig {
    TuiConfig {
        clipboard_timeout_seconds: 30,
        trash_retention_days: 30,
        default_password_policy: PasswordPolicyConfig {
            length: 16,
            min_digits: 2,
            min_special: 1,
            min_lowercase: 1,
            min_uppercase: 1,
            password_type: PasswordTypeConfig::Random,
        },
        theme: ThemeConfig { variant: ThemeVariant::Dark, colorful_icons: true, compact_mode: false },
        auto_lock_seconds: 300,
        show_password_strength: true,
        confirm_delete: true,
    }
}

impl Default for TuiConfig {
    /// Clipboard cleared after 30 s, trash kept 30 days, locking after 5
    /// minutes, strength shown, deletions confirmed.
    fn default() -> (r: Self)
        ensures
            r == default_tui_config(),
    {
        TuiConfig {
            clipboard_timeout_seconds: 30,
            trash_retention_days: 30,
            default_password_policy: PasswordPolicyConfig::default(),
            theme: ThemeConfig::default(),
            auto_lock_seconds: 300,
            show_password_strength: true,
            confirm_delete: true,
        }
    }
}

/// The path of the file `name` in the directory `dir`, as `Path::join` forms it.
pub uninterp spec fn joined_path(dir: Seq<char>, name: Seq<char>) -> Seq<char>;

/// Calls `Path::join` on `dir` with `name` and turns the result into text
/// (`to_string_lossy`). Claimed: the result is the named joined path.
#[verifier::external_body]
fn path_join(dir: &str, name: &str) -> (r: String)
    ensures
        r@ == joined_path(dir@, name@),
{
    Path::new(dir).join(name).to_string_lossy().into_owned()
}

impl TuiConfig {
    /// The default settings.
    pub fn new() -> (r: Self)
        ensures
            r == default_tui_config(),
    {
        TuiConfig::default()
    }

    /// The settings file in the configuration directory `config_dir`.
    pub fn config_path(config_dir: &str) -> (r: String)
        ensures
            r@ == joined_path(config_dir@, "tui_config.json"@),
    {
        path_join(config_dir, "tui_config.json")
    }

    /// Sets how long copied secrets stay on the clipboard.
    pub fn with_clipboard_timeout(self, seconds: u64) -> (r: Self)
        ensures
            r == (TuiConfig { clipboard_timeout_seconds: seconds, ..self }),
    {
        let mut s = self;
        s.clipboard_timeout_seconds = seconds;
        s
    }

    /// Sets how long deleted entries stay in the trash.
    pub fn with_trash_retention(self, days: u32) -> (r: Self)
        ensures
            r == (TuiConfig { trash_retention_days: days, ..self }),
    {
        let mut s = self;
        s.trash_retention_days = days;
        s
    }

    /// Sets after how long without activity the vault locks.
    pub fn with_auto_lock(self, seconds: u64) -> (r: Self)
        ensures
            r == (TuiConfig { auto_lock_seconds: seconds, ..self }),
    {
        let mut s = self;
        s.auto_lock_seconds = seconds;
        s
    }
}

} // verus!
