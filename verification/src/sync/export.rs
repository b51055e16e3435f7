//! Conversion of stored records into sync records.
use vstd::prelude::*;
use crate::error::KeyringError;
use crate::sync::encoding::{base64_encode, base64_standard, uuid_text, uuid_to_string};
use crate::sync::records::{copy_strings, RecordMetadata, RecordMetadataView, StoredRecord, StoredRecordView, SyncRecord, SyncRecordView};

verus! {

/// The device identifier written into exported records.
pub open spec fn unknown_device() -> Seq<char> {
    seq!['u', 'n', 'k', 'n', 'o', 'w', 'n', '-', 'd', 'e', 'v', 'i', 'c', 'e']
}

/// The sync record exported from `r` on the given platform: identifier in
/// hyphenated text, payload and nonce in base64, an empty name, the record's
/// tags and timestamps.
pub open spec fn exported(r: StoredRecordView, platform: Seq<char>) -> SyncRecordView {
    SyncRecordView {
        id: uuid_text(r.id),
        version: r.version,
        record_type: r.record_type,
        encrypted_data: base64_standard(r.encrypted_data),
        nonce: base64_standard(r.nonce),
        metadata: RecordMetadataView {
            name: Seq::empty(),
            tags: r.tags,
            platform,
            device_id: unknown_device(),
        },
        created_at: r.created_at,
        updated_at: r.updated_at,
    }
}

/// Turns stored records into sync records; `platform` names the operating
/// system the export runs on. Writing a record to a file is left to the
/// application.
pub trait SyncExporter {
    /// The sync record for a stored record.
    fn export_record(&self, record: &StoredRecord, platform: &str) -> (r: Result<SyncRecord, KeyringError>);

    /// The sync records for a list of stored records, in the same order.
    fn export_multiple(&self, records: &[StoredRecord], platform: &str) -> (r: Result<Vec<SyncRecord>, KeyringError>);
}

/// Exports records in the JSON sync format.
pub struct JsonSyncExporter;

impl SyncExporter for JsonSyncExporter {
    /// The sync record for a stored record; `platform` names the operating
    /// system the export runs on.
    fn export_record(&self, record: &StoredRecord, platform: &str) -> (r: Result<SyncRecord, KeyringError>)
        ensures
            r is Ok,
            r->Ok_0@ == exported(record@, platform@),
    {
        let device_id = match self.get_device_id() {
            Ok(d) => d,
            Err(e) => {
                return Err(e);
            },
        };
        let r = SyncRecord {
            id: uuid_to_string(record.id),
            version: record.version,
            record_type: record.record_type,
            encrypted_data: base64_encode(record.encrypted_data.as_slice()),
            nonce: base64_encode(&record.nonce),
            metadata: RecordMetadata {
                name: String::new(),
                tags: copy_strings(&record.tags),
                platform: String::from_str(platform),
                device_id,
            },
            created_at: record.created_at,
            updated_at: record.updated_at,
        };
        assert(r@.metadata == exported(record@, platform@).metadata);
        Ok(r)
    }

    /// The sync records for a list of stored records, in the same order.
    fn export_multiple(&self, records: &[StoredRecord], platform: &str) -> (r: Result<Vec<SyncRecord>, KeyringError>)
        ensures
            r is Ok,
            r->Ok_0@.len() == records@.len(),
            forall|i: int| 0 <= i < records@.len() ==> #[trigger] r->Ok_0@[i]@ == exported(records@[i]@, platform@),
    {
        let mut out: Vec<SyncRecord> = Vec::new();
        let mut i: usize = 0;
        while i < records.len()
            invariant
                i <= records@.len(),
                out@.len() == i,
                forall|j: int| 0 <= j < i ==> #[trigger] out@[j]@ == exported(records@[j]@, platform@),
            decreases records@.len() - i,
        {
            match self.export_record(&records[i], platform) {
                Ok(s) => out.push(s),
                Err(e) => {
                    return Err(e);
                },
            }
            i = i + 1;
        }
        Ok(out)
    }
}

impl JsonSyncExporter {
    /// The identifier of this device as written into exported records.
    pub fn get_device_id(&self) -> (r: Result<String, KeyringError>)
        ensures
            r is Ok,
            r->Ok_0@ == unknown_device(),
    {
        let s = String::from_str("unknown-device");
        proof {
            reveal_strlit("unknown-device");
        }
        assert(s@ =~= unknown_device());
        Ok(s)
    }
}

} // verus!
