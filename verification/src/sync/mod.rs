//! Synchronization of vault records between devices through a shared directory.
use vstd::prelude::*;
use vstd::string::StringExecFns;
use crate::sync::conflict::ConflictResolution;

pub mod records;
pub mod encoding;
pub mod conflict;
pub mod export;
pub mod import;
pub mod nonce_validator;
pub mod vault;
pub mod service;
pub mod cloud_service;
pub mod watcher;

verus! {

/// Progress of a synchronization.
#[derive(Debug)]
pub enum SyncStatus {
    Idle,
    Syncing,
    Completed,
    Error(String),
}

/// Settings of synchronization.
#[derive(Debug)]
pub struct SyncConfig {
    pub enabled: bool,
    pub provider: String,
    pub remote_path: String,
    pub auto_sync: bool,
    pub conflict_resolution: ConflictResolution,
}

impl Default for SyncConfig {
    /// Disabled, through iCloud under `/OpenKeyring`, manual, keeping the newer record.
    fn default() -> (r: Self)
        ensures
            !r.enabled,
            r.provider@ == "icloud"@,
            r.remote_path@ == "/OpenKeyring"@,
            !r.auto_sync,
            r.conflict_resolution == ConflictResolution::Newer,
    {
        SyncConfig {
            enabled: false,
            provider: String::from_str("icloud"),
            remote_path: String::from_str("/OpenKeyring"),
            auto_sync: false,
            conflict_resolution: ConflictResolution::Newer,
        }
    }
}

} // verus!
