//! Error type, screens and sync status shown by the terminal interface.
use vstd::prelude::*;
use vstd::string::StringExecFns;
use crate::text::{decimal, push_decimal_u64, push_str};

verus! {

/// Errors of the terminal interface.
#[derive(Debug)]
pub enum TuiError {
    /// Terminal initialization failed.
    InitFailed(String),
    /// Terminal restore failed.
    RestoreFailed(String),
    /// I/O error.
    IoError(String),
}

impl TuiError {
    /// The message shown for this error.
    pub fn message(&self) -> (r: String)
        ensures
            r@ == (match self {
                TuiError::InitFailed(m) => "TUI init failed: "@ + m@,
                TuiError::RestoreFailed(m) => "TUI restore failed: "@ + m@,
                TuiError::IoError(m) => "TUI I/O error: "@ + m@,
            }),
    {
        match self {
            TuiError::InitFailed(m) => {
                let mut s = String::from_str("TUI init failed: ");
                push_str(&mut s, m.as_str());
                s
            },
            TuiError::RestoreFailed(m) => {
                let mut s = String::from_str("TUI restore failed: ");
                push_str(&mut s, m.as_str());
                s
            },
            TuiError::IoError(m) => {
                let mut s = String::from_str("TUI I/O error: ");
                push_str(&mut s, m.as_str());
                s
            },
        }
    }
}

/// Result type of the terminal interface.
pub type TuiResult<T> = Result<T, TuiError>;

/// The screen shown.
#[derive(Debug, Clone, Copy, PartialEq, Eq, Structural)]
pub enum Screen {
    Main,
    Settings,
    ProviderSelect,
    ProviderConfig,
    Help,
    ConflictResolution,
    Sync,
    Trash,
    Wizard,
    Unlock,
    NewPassword,
    EditPassword,
}

/// The display name of a screen.
pub open spec fn screen_name(s: Screen) -> Seq<char> {
    match s {
        Screen::Main => "Main"@,
        Screen::Settings => "Settings"@,
        Screen::ProviderSelect => "Provider Select"@,
        Screen::ProviderConfig => "Provider Config"@,
        Screen::Help => "Help"@,
        Screen::ConflictResolution => "Conflict Resolution"@,
        Screen::Sync => "Sync"@,
        Screen::Trash => "Trash"@,
        Screen::Wizard => "Onboarding Wizard"@,
        Screen::Unlock => "Unlock"@,
        Screen::NewPassword => "New Password"@,
        Screen::EditPassword => "Edit Password"@,
    }
}

impl Screen {
    /// The display name of this screen.
    pub fn name(&self) -> (r: &'static str)
        ensures
            r@ == screen_name(*self),
    {
        match self {
            Screen::Main => "Main",
            Screen::Settings => "Settings",
            Screen::ProviderSelect => "Provider Select",
            Screen::ProviderConfig => "Provider Config",
            Screen::Help => "Help",
            Screen::ConflictResolution => "Conflict Resolution",
            Screen::Sync => "Sync",
            Screen::Trash => "Trash",
            Screen::Wizard => "Onboarding Wizard",
            Screen::Unlock => "Unlock",
            Screen::NewPassword => "New Password",
            Screen::EditPassword => "Edit Password",
        }
    }
}

/// Sync status shown in the status line.
#[derive(Debug, Clone)]
pub enum SyncStatus {
    /// Synced at the given time, in seconds since the Unix epoch.
    Synced(i64),
    /// Not synced.
    Unsynced,
    /// Sync in progress.
    Syncing,
    /// Sync failed with the given message.
    Failed(String),
}

/// How long ago a sync happened, from the whole minutes elapsed since.
pub open spec fn elapsed_text(mins: int) -> Seq<char> {
    if mins < 1 {
        "Just now"@
    } else if mins < 60 {
        decimal(mins as nat) + "m ago"@
    } else if mins / 60 < 24 {
        decimal((mins / 60) as nat) + "h ago"@
    } else {
        decimal((mins / 60 / 24) as nat) + "d ago"@
    }
}

/// The text shown for a sync status, `mins` whole minutes after a sync.
pub open spec fn sync_text(s: SyncStatus, mins: int) -> Seq<char> {
    match s {
        SyncStatus::Synced(_) => elapsed_text(mins),
        SyncStatus::Unsynced => "Unsynced"@,
        SyncStatus::Syncing => "Syncing..."@,
        SyncStatus::Failed(m) => "Sync failed: "@ + m@,
    }
}

impl SyncStatus {
    /// The text shown for this status; `minutes_since_sync` is the number of
    /// whole minutes elapsed since the sync time of a synced status.
    pub fn display(&self, minutes_since_sync: i64) -> (r: String)
        ensures
            r@ == sync_text(*self, minutes_since_sync as int),
    {
        match self {
            SyncStatus::Synced(_) => {
                let mins = minutes_since_sync;
                if mins < 1 {
                    String::from_str("Just now")
                } else if mins < 60 {
                    let mut s = String::new();
                    push_decimal_u64(&mut s, mins as u64);
                    push_str(&mut s, "m ago");
                    assert(s@ =~= decimal(mins as nat) + "m ago"@);
                    s
                } else {
                    let hours = mins / 60;
                    if hours < 24 {
                        let mut s = String::new();
                        push_decimal_u64(&mut s, hours as u64);
                        push_str(&mut s, "h ago");
                        assert(s@ =~= decimal(hours as nat) + "h ago"@);
                        s
                    } else {
                        let days = hours / 24;
                        let mut s = String::new();
                        push_decimal_u64(&mut s, days as u64);
                        push_str(&mut s, "d ago");
                        assert(s@ =~= decimal(days as nat) + "d ago"@);
                        s
                    }
                }
            },
            SyncStatus::Unsynced => String::from_str("Unsynced"),
            SyncStatus::Syncing => String::from_str("Syncing..."),
            SyncStatus::Failed(m) => {
                let mut s = String::from_str("Sync failed: ");
                push_str(&mut s, m.as_str());
                s
            },
        }
    }
}

} // verus!
