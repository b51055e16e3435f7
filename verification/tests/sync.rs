use keyring_tui::sync::import::{is_sync_file, SyncImporterService};
use keyring_tui::sync::cloud_service::SyncDirection;
use keyring_tui::error::KeyringError;
use keyring_tui::sync::cloud_service::CloudSyncService;
use keyring_tui::sync::conflict::{Conflict, ConflictResolution, ConflictResolver, DefaultConflictResolver};
use keyring_tui::sync::export::{JsonSyncExporter, SyncExporter};
use keyring_tui::sync::import::{decode_nonce, JsonSyncImporter, SyncImporter};
use keyring_tui::sync::nonce_validator::{NonceStatus, NonceValidator, RecoveryStrategy};
use keyring_tui::sync::records::{
    RecordMetadata, RecordType, SensitiveString, StoredRecord, SyncDecryptedRecord, SyncRecord, Timestamp,
};
use keyring_tui::sync::service::SyncService;
use keyring_tui::sync::vault::{RecordSyncStatus, Vault};
use keyring_tui::sync::watcher::{sync_event_for, SyncEvent, WatchEventKind};
use keyring_tui::sync::SyncConfig;

fn ts(secs: i64) -> Timestamp {
    Timestamp { secs, nanos: 0 }
}

fn create_test_sync_record(id: &str, version: u64) -> SyncRecord {
    SyncRecord {
        id: id.to_string(),
        version,
        record_type: RecordType::Password,
        encrypted_data: "encrypted".to_string(),
        nonce: "nonce123".to_string(),
        metadata: RecordMetadata {
            name: "test".to_string(),
            tags: vec![],
            platform: "test".to_string(),
            device_id: "device1".to_string(),
        },
        created_at: ts(1_700_000_000),
        updated_at: ts(1_700_000_000),
    }
}

fn uuid_value(s: &str) -> u128 {
    u128::from_str_radix(&s.replace('-', ""), 16).unwrap()
}

fn create_test_stored_record(id: &str, version: u64, encrypted_data: Vec<u8>) -> StoredRecord {
    StoredRecord {
        id: uuid_value(id),
        record_type: RecordType::Password,
        encrypted_data,
        nonce: [0u8; 12],
        tags: vec!["tag1".to_string(), "tag2".to_string()],
        created_at: ts(1_700_000_000),
        updated_at: ts(1_700_000_100),
        version,
    }
}

// ---------------------------------------------------------------- conflicts

#[test]
fn test_conflict_resolution_equality() {
    assert_eq!(ConflictResolution::Newer, ConflictResolution::Newer);
    assert_eq!(ConflictResolution::Older, ConflictResolution::Older);
    assert_eq!(ConflictResolution::Local, ConflictResolution::Local);
    assert_eq!(ConflictResolution::Remote, ConflictResolution::Remote);
    assert_eq!(ConflictResolution::Merge, ConflictResolution::Merge);
    assert_eq!(ConflictResolution::Interactive, ConflictResolution::Interactive);
}

#[test]
fn test_conflict_resolution_inequality() {
    assert_ne!(ConflictResolution::Newer, ConflictResolution::Older);
    assert_ne!(ConflictResolution::Local, ConflictResolution::Remote);
    assert_ne!(ConflictResolution::Merge, ConflictResolution::Interactive);
}

#[test]
fn test_detect_conflicts_with_different_versions() {
    let resolver = DefaultConflictResolver;
    let local = vec![create_test_sync_record("record-1", 2)];
    let remote = vec![create_test_sync_record("record-1", 1)];
    let conflicts = resolver.detect_conflicts(&local, &remote);
    assert_eq!(conflicts.len(), 1);
    assert!(conflicts[0].is_conflict());
    assert_eq!(conflicts[0].id, "record-1");
}

#[test]
fn test_detect_conflicts_with_same_versions() {
    let resolver = DefaultConflictResolver;
    let local = vec![create_test_sync_record("record-2", 1)];
    let remote = vec![create_test_sync_record("record-2", 1)];
    assert_eq!(resolver.detect_conflicts(&local, &remote).len(), 0);
}

#[test]
fn test_detect_conflicts_local_only() {
    let resolver = DefaultConflictResolver;
    let local = vec![create_test_sync_record("record-3", 1)];
    let remote = vec![];
    assert_eq!(resolver.detect_conflicts(&local, &remote).len(), 0);
}

#[test]
fn test_detect_conflicts_remote_only() {
    let resolver = DefaultConflictResolver;
    let local = vec![];
    let remote = vec![create_test_sync_record("record-4", 1)];
    assert_eq!(resolver.detect_conflicts(&local, &remote).len(), 0);
}

#[test]
fn test_detect_conflicts_multiple_records() {
    let resolver = DefaultConflictResolver;
    let local = vec![
        create_test_sync_record("record-5", 2),
        create_test_sync_record("record-6", 1),
        create_test_sync_record("record-7", 3),
    ];
    let remote = vec![
        create_test_sync_record("record-5", 1),
        create_test_sync_record("record-6", 1),
        create_test_sync_record("record-7", 2),
    ];
    let conflicts = resolver.detect_conflicts(&local, &remote);
    assert_eq!(conflicts.len(), 2);
    assert!(conflicts.iter().any(|c| c.id == "record-5"));
    assert!(conflicts.iter().any(|c| c.id == "record-7"));
}

#[test]
fn test_detect_conflicts_no_matching_ids() {
    let resolver = DefaultConflictResolver;
    let local = vec![create_test_sync_record("local-1", 1)];
    let remote = vec![create_test_sync_record("remote-1", 2)];
    assert_eq!(resolver.detect_conflicts(&local, &remote).len(), 0);
}

#[test]
fn test_get_newer_record_local_is_newer() {
    let resolver = DefaultConflictResolver;
    let local = create_test_sync_record("record-11", 3);
    let remote = create_test_sync_record("record-11", 1);
    let newer = resolver.get_newer_record(&local, &remote);
    assert_eq!(newer.id, local.id);
    assert_eq!(newer.version, 3);
}

#[test]
fn test_get_newer_record_remote_is_newer() {
    let resolver = DefaultConflictResolver;
    let local = create_test_sync_record("record-12", 1);
    let remote = create_test_sync_record("record-12", 3);
    let newer = resolver.get_newer_record(&local, &remote);
    assert_eq!(newer.id, remote.id);
    assert_eq!(newer.version, 3);
}

#[test]
fn test_get_newer_record_same_version_returns_local() {
    let resolver = DefaultConflictResolver;
    let local = create_test_sync_record("record-13", 2);
    let remote = create_test_sync_record("record-13", 2);
    let newer = resolver.get_newer_record(&local, &remote);
    assert_eq!(newer.id, local.id);
    assert!(std::ptr::eq(newer, &local));
    assert_eq!(newer.version, 2);
}

#[test]
fn conflicts_resolve_and_auto_resolve() {
    let resolver = DefaultConflictResolver;
    let conflicts = vec![
        Conflict::new("a".to_string(), Some(create_test_sync_record("a", 1)), Some(create_test_sync_record("a", 2))),
        Conflict::new("b".to_string(), None, None),
    ];
    assert!(!conflicts[1].is_conflict());
    let resolved = resolver.resolve_conflicts(&conflicts, ConflictResolution::Older);
    assert_eq!(resolved.len(), 2);
    assert_eq!(resolved[0].resolution, Some(ConflictResolution::Older));
    assert_eq!(resolved[1].resolution, Some(ConflictResolution::Older));
    assert_eq!(resolved[0].id, "a");
    let auto = resolver.auto_resolve_conflicts(&resolved);
    assert_eq!(auto[0].resolution, Some(ConflictResolution::Newer));
    assert_eq!(auto[0].remote_record.as_ref().unwrap().version, 2);
}

#[test]
fn conflicts_last_remote_with_an_id_counts() {
    let resolver = DefaultConflictResolver;
    let local = vec![create_test_sync_record("r", 1)];
    let remote = vec![create_test_sync_record("r", 5), create_test_sync_record("r", 1)];
    assert_eq!(resolver.detect_conflicts(&local, &remote).len(), 0);
    let remote = vec![create_test_sync_record("r", 1), create_test_sync_record("r", 5)];
    let c = resolver.detect_conflicts(&local, &remote);
    assert_eq!(c.len(), 1);
    assert_eq!(c[0].remote_record.as_ref().unwrap().version, 5);
}

// ---------------------------------------------------------------- records and export

#[test]
fn test_record_metadata_creation() {
    let metadata = RecordMetadata {
        name: "Test".to_string(),
        tags: vec!["tag1".to_string(), "tag2".to_string()],
        platform: "linux".to_string(),
        device_id: "device-123".to_string(),
    };
    assert_eq!(metadata.name, "Test");
    assert_eq!(metadata.tags.len(), 2);
    assert_eq!(metadata.platform, "linux");
    assert_eq!(metadata.device_id, "device-123");
}

#[test]
fn test_record_metadata_empty_tags() {
    let metadata = RecordMetadata {
        name: "Test".to_string(),
        tags: vec![],
        platform: "macos".to_string(),
        device_id: "device-456".to_string(),
    };
    assert!(metadata.tags.is_empty());
}

#[test]
fn test_sync_decrypted_record_creation() {
    let record = SyncDecryptedRecord {
        id: "test-id".to_string(),
        name: "Test Record".to_string(),
        record_type: "password".to_string(),
        username: Some("user@example.com".to_string()),
        password: SensitiveString::new("secret".to_string()),
        url: Some("https://example.com".to_string()),
        notes: Some("Test notes".to_string()),
    };
    assert_eq!(record.id, "test-id");
    assert_eq!(record.name, "Test Record");
    assert!(record.username.is_some());
    assert_eq!(record.password.get(), "secret");
}

#[test]
fn test_sync_decrypted_record_with_none_optional_fields() {
    let record = SyncDecryptedRecord {
        id: "test-id".to_string(),
        name: "Test".to_string(),
        record_type: "password".to_string(),
        username: None,
        password: SensitiveString::new("secret".to_string()),
        url: None,
        notes: None,
    };
    assert!(record.username.is_none());
    assert!(record.url.is_none());
    assert!(record.notes.is_none());
}

#[test]
fn test_get_device_id_returns_unknown_device() {
    let exporter = JsonSyncExporter;
    let device_id = exporter.get_device_id();
    assert!(device_id.is_ok());
    assert_eq!(device_id.unwrap(), "unknown-device");
}

#[test]
fn test_export_record_success() {
    let exporter = JsonSyncExporter;
    let stored = create_test_stored_record("550e8400-e29b-41d4-a716-446655440000", 1, vec![1, 2, 3, 4]);
    let result = exporter.export_record(&stored, "linux");
    assert!(result.is_ok());
    let sync_record = result.unwrap();
    assert_eq!(sync_record.id, "550e8400-e29b-41d4-a716-446655440000");
    assert_eq!(sync_record.version, 1);
    assert_eq!(sync_record.encrypted_data, "AQIDBA==");
    assert_eq!(sync_record.nonce, "AAAAAAAAAAAAAAAA");
    assert_eq!(sync_record.metadata.tags.len(), 2);
}

#[test]
fn test_export_record_base64_encoding() {
    let exporter = JsonSyncExporter;
    let stored = create_test_stored_record("550e8400-e29b-41d4-a716-446655440001", 1, vec![0x00, 0x01, 0x02, 0x03]);
    let result = exporter.export_record(&stored, "linux").unwrap();
    assert_eq!(result.encrypted_data, "AAECAw==");
}

#[test]
fn test_export_record_preserves_tags() {
    let exporter = JsonSyncExporter;
    let mut stored = create_test_stored_record("550e8400-e29b-41d4-a716-446655440002", 1, vec![1, 2, 3]);
    stored.tags = vec!["work".to_string(), "personal".to_string(), "important".to_string()];
    let result = exporter.export_record(&stored, "linux").unwrap();
    assert_eq!(result.metadata.tags.len(), 3);
    assert!(result.metadata.tags.contains(&"work".to_string()));
    assert!(result.metadata.tags.contains(&"personal".to_string()));
    assert!(result.metadata.tags.contains(&"important".to_string()));
}

#[test]
fn test_export_record_sets_device_id() {
    let exporter = JsonSyncExporter;
    let stored = create_test_stored_record("550e8400-e29b-41d4-a716-446655440004", 1, vec![1, 2, 3]);
    let result = exporter.export_record(&stored, "linux").unwrap();
    assert_eq!(result.metadata.device_id, "unknown-device");
    assert_eq!(result.metadata.platform, "linux");
    assert_eq!(result.metadata.name, "");
}

#[test]
fn test_export_multiple_empty_list() {
    let exporter = JsonSyncExporter;
    let records: Vec<StoredRecord> = vec![];
    let result = exporter.export_multiple(&records, "linux");
    assert!(result.is_ok());
    assert_eq!(result.unwrap().len(), 0);
}

#[test]
fn test_export_multiple_success() {
    let exporter = JsonSyncExporter;
    let records = vec![
        create_test_stored_record("550e8400-e29b-41d4-a716-446655440005", 1, vec![1, 2, 3]),
        create_test_stored_record("550e8400-e29b-41d4-a716-446655440006", 2, vec![4, 5, 6]),
        create_test_stored_record("550e8400-e29b-41d4-a716-446655440007", 3, vec![7, 8, 9]),
    ];
    let sync_records = exporter.export_multiple(&records, "linux").unwrap();
    assert_eq!(sync_records.len(), 3);
    assert_eq!(sync_records[0].version, 1);
    assert_eq!(sync_records[1].version, 2);
    assert_eq!(sync_records[2].version, 3);
}

#[test]
fn test_export_multiple_preserves_order() {
    let exporter = JsonSyncExporter;
    let id1 = "550e8400-e29b-41d4-a716-446655440008";
    let id2 = "550e8400-e29b-41d4-a716-446655440009";
    let id3 = "550e8400-e29b-41d4-a716-446655440010";
    let records = vec![
        create_test_stored_record(id1, 1, vec![1]),
        create_test_stored_record(id2, 1, vec![2]),
        create_test_stored_record(id3, 1, vec![3]),
    ];
    let result = exporter.export_multiple(&records, "linux").unwrap();
    assert_eq!(result[0].id, id1);
    assert_eq!(result[1].id, id2);
    assert_eq!(result[2].id, id3);
}

#[test]
fn test_export_record_with_record_type() {
    let exporter = JsonSyncExporter;
    let mut record = create_test_stored_record("550e8400-e29b-41d4-a716-446655440013", 1, vec![1]);
    record.record_type = RecordType::SshKey;
    let result = exporter.export_record(&record, "linux").unwrap();
    assert_eq!(result.record_type, RecordType::SshKey);
}

#[test]
fn test_export_record_preserves_timestamps() {
    let exporter = JsonSyncExporter;
    let mut record = create_test_stored_record("550e8400-e29b-41d4-a716-446655440014", 1, vec![1]);
    record.created_at = Timestamp { secs: 1_600_000_000, nanos: 5 };
    record.updated_at = Timestamp { secs: 1_600_003_600, nanos: 7 };
    let result = exporter.export_record(&record, "linux").unwrap();
    assert_eq!(result.created_at, record.created_at);
    assert_eq!(result.updated_at, record.updated_at);
}

#[test]
fn test_export_record_with_nonce_encoding() {
    let exporter = JsonSyncExporter;
    let mut record = create_test_stored_record("550e8400-e29b-41d4-a716-446655440015", 1, vec![1]);
    record.nonce = [1, 2, 3, 4, 5, 6, 7, 8, 9, 10, 11, 12];
    let result = exporter.export_record(&record, "linux").unwrap();
    assert_eq!(result.nonce, "AQIDBAUGBwgJCgsM");
}

// ---------------------------------------------------------------- import

#[test]
fn test_decode_nonce_valid_length() {
    let bytes = vec![0u8; 12];
    let result = decode_nonce(&bytes);
    assert!(result.is_ok());
    let nonce = result.unwrap();
    assert_eq!(nonce.len(), 12);
}

#[test]
fn test_decode_nonce_invalid_length_too_short() {
    let bytes = vec![0u8; 8];
    let result = decode_nonce(&bytes);
    assert!(result.is_err());
    assert!(matches!(result.unwrap_err(), KeyringError::Crypto { .. }));
}

#[test]
fn test_decode_nonce_invalid_length_too_long() {
    let bytes = vec![0u8; 16];
    let result = decode_nonce(&bytes);
    assert!(result.is_err());
    assert!(matches!(result.unwrap_err(), KeyringError::Crypto { .. }));
}

#[test]
fn test_decode_nonce_preserves_values() {
    let bytes = vec![1, 2, 3, 4, 5, 6, 7, 8, 9, 10, 11, 12];
    let result = decode_nonce(&bytes).unwrap();
    assert_eq!(result, [1, 2, 3, 4, 5, 6, 7, 8, 9, 10, 11, 12]);
}

#[test]
fn decode_nonce_error_message() {
    match decode_nonce(&[1u8, 2, 3]) {
        Err(KeyringError::Crypto { context }) => assert_eq!(context, "Invalid nonce length: 3"),
        _ => panic!("expected a crypto error"),
    }
}

fn sync_record_with(id: &str, data: &str, nonce: &str) -> SyncRecord {
    let mut r = create_test_sync_record(id, 1);
    r.encrypted_data = data.to_string();
    r.nonce = nonce.to_string();
    r.metadata.tags = vec!["tag1".to_string(), "tag2".to_string()];
    r
}

#[test]
fn test_sync_record_to_db_success() {
    let importer = JsonSyncImporter;
    let r = sync_record_with("550e8400-e29b-41d4-a716-446655440000", "AA==", "AAAAAAAAAAAAAAAA");
    let stored = importer.sync_record_to_db(r).unwrap();
    assert_eq!(stored.id, uuid_value("550e8400-e29b-41d4-a716-446655440000"));
    assert_eq!(stored.version, 1);
    assert_eq!(stored.encrypted_data, vec![0]);
    assert_eq!(stored.tags.len(), 2);
}

#[test]
fn test_sync_record_to_db_invalid_base64_encoding() {
    let importer = JsonSyncImporter;
    let r = sync_record_with("550e8400-e29b-41d4-a716-446655440000", "not base64!!", "AAAAAAAAAAAAAAAA");
    assert!(matches!(importer.sync_record_to_db(r).unwrap_err(), KeyringError::Crypto { .. }));
}

#[test]
fn test_sync_record_to_db_invalid_nonce_length() {
    let importer = JsonSyncImporter;
    let r = sync_record_with("550e8400-e29b-41d4-a716-446655440000", "AA==", "AAAA");
    assert!(matches!(importer.sync_record_to_db(r).unwrap_err(), KeyringError::Crypto { .. }));
}

#[test]
fn test_sync_record_to_db_invalid_nonce_encoding() {
    let importer = JsonSyncImporter;
    let r = sync_record_with("550e8400-e29b-41d4-a716-446655440000", "AA==", "@@@@");
    assert!(matches!(importer.sync_record_to_db(r).unwrap_err(), KeyringError::Crypto { .. }));
}

#[test]
fn test_sync_record_to_db_invalid_uuid() {
    let importer = JsonSyncImporter;
    let r = sync_record_with("not-a-uuid", "AA==", "AAAAAAAAAAAAAAAA");
    assert!(matches!(importer.sync_record_to_db(r).unwrap_err(), KeyringError::InvalidInput { .. }));
}

#[test]
fn test_sync_record_to_db_preserves_timestamps() {
    let importer = JsonSyncImporter;
    let mut r = sync_record_with("550e8400-e29b-41d4-a716-446655440000", "AA==", "AAAAAAAAAAAAAAAA");
    r.created_at = Timestamp { secs: 10, nanos: 1 };
    r.updated_at = Timestamp { secs: 20, nanos: 2 };
    let stored = importer.sync_record_to_db(r).unwrap();
    assert_eq!(stored.created_at, Timestamp { secs: 10, nanos: 1 });
    assert_eq!(stored.updated_at, Timestamp { secs: 20, nanos: 2 });
}

#[test]
fn test_import_export_roundtrip() {
    let exporter = JsonSyncExporter;
    let importer = JsonSyncImporter;
    let mut stored = create_test_stored_record("550e8400-e29b-41d4-a716-446655440099", 7, vec![9, 8, 7, 6, 5]);
    stored.nonce = [12, 11, 10, 9, 8, 7, 6, 5, 4, 3, 2, 1];
    let exported = exporter.export_record(&stored, "linux").unwrap();
    let imported = importer.sync_record_to_db(exported).unwrap();
    assert_eq!(imported.id, stored.id);
    assert_eq!(imported.version, stored.version);
    assert_eq!(imported.encrypted_data, stored.encrypted_data);
    assert_eq!(imported.nonce, stored.nonce);
    assert_eq!(imported.tags, stored.tags);
    assert_eq!(imported.created_at, stored.created_at);
}

// ---------------------------------------------------------------- nonce validation

#[test]
fn test_validator_creation() {
    let validator = NonceValidator::new();
    assert_eq!(validator.get_recovery_strategy(NonceStatus::Valid), RecoveryStrategy::NoAction);
}

#[test]
fn test_validator_default() {
    let validator = NonceValidator::default();
    assert_eq!(validator.get_recovery_strategy(NonceStatus::Mismatch), RecoveryStrategy::AskUser);
}

#[test]
fn nonce_validator_compares_nonces() {
    let validator = NonceValidator::new();
    let local = create_test_stored_record("550e8400-e29b-41d4-a716-446655440000", 1, vec![1]);
    let mut remote = create_test_sync_record("x", 1);
    remote.nonce = "AAAAAAAAAAAAAAAA".to_string();
    assert_eq!(validator.validate(&local, &remote).unwrap(), NonceStatus::Valid);
    remote.nonce = "AQIDBAUGBwgJCgsM".to_string();
    assert_eq!(validator.validate(&local, &remote).unwrap(), NonceStatus::Mismatch);
    remote.nonce = "AAAA".to_string();
    match validator.validate(&local, &remote) {
        Err(KeyringError::Crypto { context }) => assert_eq!(context, "Invalid remote nonce length: 3 (expected 12)"),
        _ => panic!("expected a crypto error"),
    }
    remote.nonce = "%%%".to_string();
    assert!(matches!(validator.validate(&local, &remote), Err(KeyringError::Crypto { .. })));
}

#[test]
fn nonce_validator_answers() {
    let validator = NonceValidator::new();
    assert_eq!(validator.resolution_from_answer("1\n").unwrap(), RecoveryStrategy::UseLocal);
    assert_eq!(validator.resolution_from_answer(" 2 ").unwrap(), RecoveryStrategy::UseRemote);
    assert_eq!(validator.resolution_from_answer("").unwrap(), RecoveryStrategy::UseLocal);
    assert_eq!(validator.resolution_from_answer("7").unwrap(), RecoveryStrategy::UseLocal);
    match validator.resolution_from_answer("3") {
        Err(KeyringError::AuthenticationFailed { reason }) => assert_eq!(reason, "Sync cancelled by user"),
        _ => panic!("expected a cancellation"),
    }
    let lines = validator.prompt_lines(&[0u8; 12], &[1, 2, 3, 4, 5, 6, 7, 8, 9, 10, 11, 12]);
    assert_eq!(lines.len(), 16);
    assert_eq!(lines[2], "Local nonce:  AAAAAAAAAAAAAAAA");
    assert_eq!(lines[3], "Remote nonce: AQIDBAUGBwgJCgsM");
    assert_eq!(NonceStatus::Mismatch.description(), "Nonce mismatch detected");
    assert_eq!(RecoveryStrategy::UseRemote.description(), "Use remote version");
}

// ---------------------------------------------------------------- watcher and cloud identity

#[test]
fn test_sync_event_creation() {
    let event = SyncEvent::FileCreated("/path/to/file.json".to_string());
    match event {
        SyncEvent::FileCreated(path) => assert_eq!(path, "/path/to/file.json"),
        _ => panic!("Expected FileCreated event"),
    }
}

#[test]
fn test_sync_event_clone() {
    let event = SyncEvent::FileModified("/path/to/file.json".to_string());
    let cloned = event.clone();
    match cloned {
        SyncEvent::FileModified(path) => assert_eq!(path, "/path/to/file.json"),
        _ => panic!("Expected FileModified event"),
    }
}

#[test]
fn sync_events_for_changes() {
    assert!(matches!(sync_event_for(WatchEventKind::Create, "a".to_string()), Some(SyncEvent::FileCreated(p)) if p == "a"));
    assert!(matches!(sync_event_for(WatchEventKind::Remove, "b".to_string()), Some(SyncEvent::FileDeleted(p)) if p == "b"));
    assert!(sync_event_for(WatchEventKind::Other, "c".to_string()).is_none());
}

#[test]
fn test_get_platform() {
    let platform = CloudSyncService::get_platform("linux");
    assert!(!platform.is_empty());
    assert!(platform == "macos" || platform == "ios" || platform == "windows" || platform == "linux" || platform == "cli");
    assert_eq!(CloudSyncService::get_platform("freebsd"), "cli");
    assert_eq!(CloudSyncService::get_platform("macos"), "macos");
}

#[test]
fn test_generate_device_id() {
    let device_id = CloudSyncService::generate_device_id("linux");
    assert!(device_id.contains("-local-"));
    assert!(device_id.len() > 10);
    assert_eq!(CloudSyncService::device_id_from("windows", &[0x00, 0xab, 0x10, 0xff]), "windows-local-00ab10ff");
    assert_eq!(CloudSyncService::get_device_name("plan9"), "cli Device");
    let service = CloudSyncService::new(&[1u8; 32], "linux");
    assert_eq!(service.kdf_nonce, [1u8; 32]);
    assert!(service.device_id.starts_with("linux-local-"));
}

#[test]
fn sync_config_default() {
    let c = SyncConfig::default();
    assert!(!c.enabled);
    assert_eq!(c.provider, "icloud");
    assert_eq!(c.remote_path, "/OpenKeyring");
    assert_eq!(c.conflict_resolution, ConflictResolution::Newer);
}

// ---------------------------------------------------------------- sync service

#[test]
fn sync_service_pending_and_status() {
    let service = SyncService::new();
    let mut vault = Vault::new();
    let a = create_test_stored_record("550e8400-e29b-41d4-a716-446655440001", 1, vec![1]);
    let b = create_test_stored_record("550e8400-e29b-41d4-a716-446655440002", 1, vec![2]);
    let c = create_test_stored_record("550e8400-e29b-41d4-a716-446655440003", 1, vec![3]);
    vault.add_record(&a).unwrap();
    vault.add_record(&b).unwrap();
    vault.add_record(&c).unwrap();
    assert!(vault.add_record(&a).is_err());
    vault.set_sync_state(b.id, Some(5), RecordSyncStatus::Synced).unwrap();
    vault.set_sync_state(c.id, None, RecordSyncStatus::Conflict).unwrap();
    let pending = service.get_pending_records(&vault).unwrap();
    assert_eq!(pending.len(), 1);
    assert_eq!(pending[0].id, a.id);
    let status = service.get_sync_status(&vault).unwrap();
    assert_eq!((status.total, status.pending, status.conflicts, status.synced), (3, 1, 1, 1));
}

#[test]
fn sync_service_import_from_directory() {
    let service = SyncService::new();
    let exporter = JsonSyncExporter;
    let mut vault = Vault::new();
    let local = create_test_stored_record("550e8400-e29b-41d4-a716-446655440001", 1, vec![1]);
    vault.add_record(&local).unwrap();

    let mut newer = create_test_stored_record("550e8400-e29b-41d4-a716-446655440001", 3, vec![9, 9]);
    newer.updated_at = ts(1_800_000_000);
    let fresh = create_test_stored_record("550e8400-e29b-41d4-a716-446655440002", 1, vec![7]);
    let remote = vec![
        exporter.export_record(&newer, "linux").unwrap(),
        exporter.export_record(&fresh, "linux").unwrap(),
    ];

    let stats = service.import_from_directory(&mut vault, Some(remote), ConflictResolution::Newer, "linux").unwrap();
    assert_eq!(stats.conflicts, 1);
    assert_eq!(stats.updated, 1);
    assert_eq!(stats.imported, 1);

    let records = vault.list_records();
    assert_eq!(records.len(), 2);
    assert_eq!(records[0].version, 3);
    assert_eq!(records[0].encrypted_data, vec![9, 9]);
    assert_eq!(records[1].id, fresh.id);
    for r in &records {
        assert_eq!(vault.get_sync_state(r.id).unwrap().sync_status, RecordSyncStatus::Synced);
    }
    assert_eq!(vault.get_sync_state(newer.id).unwrap().last_synced, Some(1_800_000_000));
    assert_eq!(service.get_pending_records(&vault).unwrap().len(), 0);

    let none = service.import_from_directory(&mut vault, None, ConflictResolution::Local, "linux").unwrap();
    assert_eq!((none.imported, none.updated, none.conflicts), (0, 0, 0));
}

#[test]
fn sync_service_import_keeps_local_when_asked() {
    let service = SyncService::new();
    let exporter = JsonSyncExporter;
    let mut vault = Vault::new();
    let local = create_test_stored_record("550e8400-e29b-41d4-a716-446655440001", 2, vec![1]);
    vault.add_record(&local).unwrap();
    let remote_rec = create_test_stored_record("550e8400-e29b-41d4-a716-446655440001", 5, vec![5]);
    let remote = vec![exporter.export_record(&remote_rec, "linux").unwrap()];
    let stats = service.import_from_directory(&mut vault, Some(remote), ConflictResolution::Local, "linux").unwrap();
    assert_eq!((stats.imported, stats.updated, stats.conflicts), (0, 1, 1));
    assert_eq!(vault.list_records()[0].version, 2);

    let bad = vec![create_test_sync_record("broken", 1)];
    assert!(service.import_from_directory(&mut vault, Some(bad), ConflictResolution::Newer, "linux").is_err());
}

#[test]
fn cloud_initial_metadata() {
    let service = CloudSyncService::new(&[0u8; 32], "linux");
    assert!(service.initialize_metadata(true, "linux", 100).is_none());
    let m = service.initialize_metadata(false, "linux", 100).unwrap();
    assert_eq!(m.format_version, "1.0");
    assert_eq!(m.kdf_nonce, format!("{}=", "A".repeat(43)));
    assert_eq!(m.created_at, 100);
    assert_eq!(m.updated_at, Some(100));
    assert_eq!(m.metadata_version, 1);
    assert_eq!(m.devices.len(), 1);
    assert_eq!(m.devices[0].device_id, service.device_id);
    assert_eq!(m.devices[0].platform, "linux");
    assert_eq!(m.devices[0].device_name, "linux Device");
    assert_eq!(m.devices[0].sync_count, 0);
    let stats = service.sync(SyncDirection::Both);
    assert_eq!((stats.uploaded, stats.downloaded, stats.conflicts), (0, 0, 0));
}

#[test]
fn sync_files_are_json_files() {
    assert!(is_sync_file("550e8400-e29b-41d4-a716-446655440000.json"));
    assert!(is_sync_file("x..json"));
    assert!(!is_sync_file(".json"));
    assert!(!is_sync_file("a.json.bak"));
    assert!(!is_sync_file("json"));
    assert!(!is_sync_file("a.JSON"));
    assert!(!is_sync_file(""));
}

#[test]
fn importer_service_converts_in_order() {
    let exporter = JsonSyncExporter;
    let a = create_test_stored_record("550e8400-e29b-41d4-a716-446655440001", 1, vec![1]);
    let b = create_test_stored_record("550e8400-e29b-41d4-a716-446655440002", 2, vec![2, 3]);
    let parsed = vec![exporter.export_record(&a, "linux").unwrap(), exporter.export_record(&b, "linux").unwrap()];
    let service = SyncImporterService::new();
    let stored = service.import_records_from_dir(parsed).unwrap();
    assert_eq!(stored.len(), 2);
    assert_eq!(stored[0].id, a.id);
    assert_eq!(stored[1].encrypted_data, vec![2, 3]);
    assert!(service.import_records_from_dir(Vec::new()).unwrap().is_empty());

    let bad = vec![
        exporter.export_record(&a, "linux").unwrap(),
        sync_record_with("not-a-uuid", "AA==", "AAAAAAAAAAAAAAAA"),
        sync_record_with("550e8400-e29b-41d4-a716-446655440003", "!!", "AAAAAAAAAAAAAAAA"),
    ];
    assert!(matches!(service.import_records_from_dir(bad), Err(KeyringError::InvalidInput { .. })));
}

#[test]
fn export_pending_records_names_files() {
    let service = SyncService::new();
    let mut vault = Vault::new();
    let a = create_test_stored_record("550e8400-e29b-41d4-a716-446655440001", 1, vec![1]);
    let b = create_test_stored_record("550e8400-e29b-41d4-a716-446655440002", 1, vec![2]);
    vault.add_record(&a).unwrap();
    vault.add_record(&b).unwrap();
    vault.set_sync_state(a.id, Some(5), RecordSyncStatus::Synced).unwrap();
    let files = service.export_pending_records(&vault, "linux").unwrap();
    assert_eq!(files.len(), 1);
    assert_eq!(files[0].0, "550e8400-e29b-41d4-a716-446655440002.json");
    assert_eq!(files[0].1.id, "550e8400-e29b-41d4-a716-446655440002");
    assert_eq!(files[0].1.metadata.platform, "linux");
}

// ---------------------------------------------------------------- conflicts, one by one

#[test]
fn test_conflict_new() {
    let local = create_test_sync_record("record-1", 1);
    let remote = create_test_sync_record("record-1", 2);
    let conflict = Conflict::new("record-1".to_string(), Some(local), Some(remote));
    assert_eq!(conflict.id, "record-1");
    assert!(conflict.local_record.is_some());
    assert!(conflict.remote_record.is_some());
    assert!(conflict.resolution.is_none());
}

#[test]
fn test_conflict_new_with_none_local() {
    let remote = create_test_sync_record("record-2", 1);
    let conflict = Conflict::new("record-2".to_string(), None, Some(remote));
    assert_eq!(conflict.id, "record-2");
    assert!(conflict.local_record.is_none());
    assert!(conflict.remote_record.is_some());
}

#[test]
fn test_conflict_new_with_none_remote() {
    let local = create_test_sync_record("record-3", 1);
    let conflict = Conflict::new("record-3".to_string(), Some(local), None);
    assert_eq!(conflict.id, "record-3");
    assert!(conflict.local_record.is_some());
    assert!(conflict.remote_record.is_none());
}

#[test]
fn test_conflict_is_conflict_true() {
    let local = create_test_sync_record("record-4", 1);
    let remote = create_test_sync_record("record-4", 2);
    let conflict = Conflict::new("record-4".to_string(), Some(local), Some(remote));
    assert!(conflict.is_conflict());
}

#[test]
fn test_conflict_is_conflict_false_local_only() {
    let local = create_test_sync_record("record-5", 1);
    let conflict = Conflict::new("record-5".to_string(), Some(local), None);
    assert!(!conflict.is_conflict());
}

#[test]
fn test_conflict_is_conflict_false_remote_only() {
    let remote = create_test_sync_record("record-6", 1);
    let conflict = Conflict::new("record-6".to_string(), None, Some(remote));
    assert!(!conflict.is_conflict());
}

#[test]
fn test_conflict_is_conflict_false_both_none() {
    let conflict = Conflict::new("record-7".to_string(), None, None);
    assert!(!conflict.is_conflict());
}

fn one_conflict(id: &str, local_version: u64, remote_version: u64) -> Vec<Conflict> {
    vec![Conflict::new(
        id.to_string(),
        Some(create_test_sync_record(id, local_version)),
        Some(create_test_sync_record(id, remote_version)),
    )]
}

#[test]
fn test_resolve_conflicts_with_resolution() {
    let resolver = DefaultConflictResolver;
    let resolved = resolver.resolve_conflicts(&one_conflict("record-1", 2, 1), ConflictResolution::Newer);
    assert_eq!(resolved.len(), 1);
    assert_eq!(resolved[0].resolution, Some(ConflictResolution::Newer));
}

#[test]
fn test_resolve_conflicts_with_local_resolution() {
    let resolver = DefaultConflictResolver;
    let resolved = resolver.resolve_conflicts(&one_conflict("record-2", 1, 2), ConflictResolution::Local);
    assert_eq!(resolved.len(), 1);
    assert_eq!(resolved[0].resolution, Some(ConflictResolution::Local));
}

#[test]
fn test_resolve_conflicts_with_remote_resolution() {
    let resolver = DefaultConflictResolver;
    let resolved = resolver.resolve_conflicts(&one_conflict("record-3", 1, 2), ConflictResolution::Remote);
    assert_eq!(resolved.len(), 1);
    assert_eq!(resolved[0].resolution, Some(ConflictResolution::Remote));
}

#[test]
fn test_resolve_conflicts_with_merge_resolution() {
    let resolver = DefaultConflictResolver;
    let resolved = resolver.resolve_conflicts(&one_conflict("record-4", 1, 2), ConflictResolution::Merge);
    assert_eq!(resolved.len(), 1);
    assert_eq!(resolved[0].resolution, Some(ConflictResolution::Merge));
}

#[test]
fn test_resolve_conflicts_with_interactive_resolution() {
    let resolver = DefaultConflictResolver;
    let resolved = resolver.resolve_conflicts(&one_conflict("record-5", 1, 2), ConflictResolution::Interactive);
    assert_eq!(resolved.len(), 1);
    assert_eq!(resolved[0].resolution, Some(ConflictResolution::Interactive));
}

#[test]
fn test_resolve_conflicts_multiple() {
    let resolver = DefaultConflictResolver;
    let mut conflicts = one_conflict("record-6", 1, 2);
    conflicts.extend(one_conflict("record-7", 3, 1));
    let resolved = resolver.resolve_conflicts(&conflicts, ConflictResolution::Older);
    assert_eq!(resolved.len(), 2);
    assert_eq!(resolved[0].resolution, Some(ConflictResolution::Older));
    assert_eq!(resolved[1].resolution, Some(ConflictResolution::Older));
}

#[test]
fn test_resolve_conflicts_empty_list() {
    let resolver = DefaultConflictResolver;
    let conflicts: Vec<Conflict> = vec![];
    let resolved = resolver.resolve_conflicts(&conflicts, ConflictResolution::Newer);
    assert_eq!(resolved.len(), 0);
}

#[test]
fn test_auto_resolve_conflicts_uses_newer_strategy() {
    let resolver = DefaultConflictResolver;
    let resolved = resolver.auto_resolve_conflicts(&one_conflict("record-8", 1, 2));
    assert_eq!(resolved.len(), 1);
    assert_eq!(resolved[0].resolution, Some(ConflictResolution::Newer));
}

#[test]
fn test_auto_resolve_conflicts_multiple() {
    let resolver = DefaultConflictResolver;
    let mut conflicts = one_conflict("record-9", 1, 2);
    conflicts.extend(one_conflict("record-10", 3, 1));
    let resolved = resolver.auto_resolve_conflicts(&conflicts);
    assert_eq!(resolved.len(), 2);
    assert_eq!(resolved[0].resolution, Some(ConflictResolution::Newer));
    assert_eq!(resolved[1].resolution, Some(ConflictResolution::Newer));
}

#[test]
fn test_full_conflict_detection_and_resolution_workflow() {
    let resolver = DefaultConflictResolver;
    let local = vec![create_test_sync_record("record-14", 2)];
    let remote = vec![create_test_sync_record("record-14", 1)];
    let conflicts = resolver.detect_conflicts(&local, &remote);
    assert_eq!(conflicts.len(), 1);
    let resolved = resolver.auto_resolve_conflicts(&conflicts);
    assert_eq!(resolved[0].resolution, Some(ConflictResolution::Newer));
    if let (Some(local_rec), Some(remote_rec)) = (&resolved[0].local_record, &resolved[0].remote_record) {
        let newer = resolver.get_newer_record(local_rec, remote_rec);
        assert_eq!(newer.version, 2);
    }
}

#[test]
fn test_conflict_clone_preserves_data() {
    let local = create_test_sync_record("record-15", 1);
    let remote = create_test_sync_record("record-15", 2);
    let conflict = Conflict::new("record-15".to_string(), Some(local.clone()), Some(remote.clone()));
    let cloned = conflict.clone();
    assert_eq!(cloned.id, conflict.id);
    assert_eq!(cloned.local_record.as_ref().unwrap().id, local.id);
    assert_eq!(cloned.remote_record.as_ref().unwrap().id, remote.id);
    assert_eq!(cloned.resolution, conflict.resolution);
}

#[test]
fn test_sync_record_creation() {
    let record = SyncRecord {
        id: "test-id".to_string(),
        version: 1,
        record_type: RecordType::Password,
        encrypted_data: "encrypted-data".to_string(),
        nonce: "nonce123".to_string(),
        metadata: RecordMetadata {
            name: "Test Record".to_string(),
            tags: vec!["tag1".to_string()],
            platform: "test".to_string(),
            device_id: "device-1".to_string(),
        },
        created_at: ts(1_700_000_000),
        updated_at: ts(1_700_000_000),
    };
    assert_eq!(record.id, "test-id");
    assert_eq!(record.version, 1);
    assert_eq!(record.metadata.name, "Test Record");
}

#[test]
fn test_sync_record_to_db_preserves_tags() {
    let importer = JsonSyncImporter;
    let sync_record = sync_record_with("550e8400-e29b-41d4-a716-446655440004", "AA==", "AAAAAAAAAAAAAAAA");
    let result = importer.sync_record_to_db(sync_record).unwrap();
    assert_eq!(result.tags.len(), 2);
    assert!(result.tags.contains(&"tag1".to_string()));
    assert!(result.tags.contains(&"tag2".to_string()));
}

#[test]
fn test_sync_record_to_db_preserves_record_type() {
    let importer = JsonSyncImporter;
    let mut sync_record = sync_record_with("550e8400-e29b-41d4-a716-446655440006", "AA==", "AAAAAAAAAAAAAAAA");
    sync_record.record_type = RecordType::SshKey;
    let result = importer.sync_record_to_db(sync_record).unwrap();
    assert_eq!(result.record_type, RecordType::SshKey);
}

#[test]
fn test_import_records_from_dir_empty() {
    let service = SyncImporterService::new();
    let result = service.import_records_from_dir(Vec::new());
    assert!(result.is_ok());
    assert_eq!(result.unwrap().len(), 0);
}
