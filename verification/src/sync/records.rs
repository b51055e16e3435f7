//! Records as they are stored in the vault and as they travel between devices.
//!
//! A stored record keeps its identifier as the 128-bit value of its UUID and
//! its timestamps as seconds and nanoseconds since the Unix epoch; a sync
//! record carries the same data in text form.
use vstd::prelude::*;

verus! {

/// Kind of secret a record holds.
#[derive(Debug, Clone, Copy, PartialEq, Eq, Structural)]
pub enum RecordType {
    Password,
    SshKey,
    ApiCredential,
    Mnemonic,
    PrivateKey,
}

/// A point in time: seconds since the Unix epoch and the nanoseconds within that second.
#[derive(Debug, Clone, Copy, PartialEq, Eq, Structural)]
pub struct Timestamp {
    pub secs: i64,
    pub nanos: u32,
}

/// The characters of each string, in order.
pub open spec fn strings_view(v: Seq<String>) -> Seq<Seq<char>> {
    v.map_values(|s: String| s@)
}

/// Copies a list of strings.
pub fn copy_strings(v: &Vec<String>) -> (r: Vec<String>)
    ensures
        strings_view(r@) == strings_view(v@),
{
    let mut r: Vec<String> = Vec::new();
    let mut i: usize = 0;
    while i < v.len()
        invariant
            i <= v@.len(),
            r@.len() == i,
            forall|j: int| 0 <= j < i ==> #[trigger] r@[j]@ == v@[j]@,
        decreases v@.len() - i,
    {
        let s = v[i].clone();
        r.push(s);
        i = i + 1;
    }
    assert(strings_view(r@) =~= strings_view(v@));
    r
}

/// Copies a list of bytes.
pub fn copy_bytes(v: &Vec<u8>) -> (r: Vec<u8>)
    ensures
        r@ == v@,
{
    let mut r: Vec<u8> = Vec::new();
    let mut i: usize = 0;
    while i < v.len()
        invariant
            i <= v@.len(),
            r@ == v@.take(i as int),
        decreases v@.len() - i,
    {
        r.push(v[i]);
        i = i + 1;
        assert(r@ =~= v@.take(i as int));
    }
    assert(v@.take(i as int) =~= v@);
    r
}

/// Model of a stored record.
pub struct StoredRecordView {
    pub id: u128,
    pub record_type: RecordType,
    pub encrypted_data: Seq<u8>,
    pub nonce: Seq<u8>,
    pub tags: Seq<Seq<char>>,
    pub created_at: Timestamp,
    pub updated_at: Timestamp,
    pub version: u64,
}

/// A record as the vault stores it: encrypted payload, nonce and plain tags.
#[derive(Debug, Clone)]
pub struct StoredRecord {
    /// The record's UUID, as its 128-bit value.
    pub id: u128,
    pub record_type: RecordType,
    pub encrypted_data: Vec<u8>,
    /// The 12-byte nonce the payload was encrypted with.
    pub nonce: [u8; 12],
    pub tags: Vec<String>,
    pub created_at: Timestamp,
    pub updated_at: Timestamp,
    /// Version number, incremented on each update.
    pub version: u64,
}

impl View for StoredRecord {
    type V = StoredRecordView;

    open spec fn view(&self) -> StoredRecordView {
        StoredRecordView {
            id: self.id,
            record_type: self.record_type,
            encrypted_data: self.encrypted_data@,
            nonce: self.nonce@,
            tags: strings_view(self.tags@),
            created_at: self.created_at,
            updated_at: self.updated_at,
            version: self.version,
        }
    }
}

impl StoredRecord {
    /// A copy of this record.
    pub fn duplicate(&self) -> (r: Self)
        ensures
            r@ == self@,
    {
        StoredRecord {
            id: self.id,
            record_type: self.record_type,
            encrypted_data: copy_bytes(&self.encrypted_data),
            nonce: self.nonce,
            tags: copy_strings(&self.tags),
            created_at: self.created_at,
            updated_at: self.updated_at,
            version: self.version,
        }
    }
}

/// Model of record metadata.
pub struct RecordMetadataView {
    pub name: Seq<char>,
    pub tags: Seq<Seq<char>>,
    pub platform: Seq<char>,
    pub device_id: Seq<char>,
}

/// Plain metadata that travels with a sync record.
#[derive(Debug, Clone)]
pub struct RecordMetadata {
    pub name: String,
    pub tags: Vec<String>,
    pub platform: String,
    pub device_id: String,
}

impl View for RecordMetadata {
    type V = RecordMetadataView;

    open spec fn view(&self) -> RecordMetadataView {
        RecordMetadataView {
            name: self.name@,
            tags: strings_view(self.tags@),
            platform: self.platform@,
            device_id: self.device_id@,
        }
    }
}

impl RecordMetadata {
    /// A copy of this metadata.
    pub fn duplicate(&self) -> (r: Self)
        ensures
            r@ == self@,
    {
        RecordMetadata {
            name: self.name.clone(),
            tags: copy_strings(&self.tags),
            platform: self.platform.clone(),
            device_id: self.device_id.clone(),
        }
    }
}

/// Model of a sync record.
pub struct SyncRecordView {
    pub id: Seq<char>,
    pub version: u64,
    pub record_type: RecordType,
    pub encrypted_data: Seq<char>,
    pub nonce: Seq<char>,
    pub metadata: RecordMetadataView,
    pub created_at: Timestamp,
    pub updated_at: Timestamp,
}

/// A record in the form it is written to the sync directory: the payload and
/// nonce in base64, the identifier in text.
#[derive(Debug, Clone)]
pub struct SyncRecord {
    pub id: String,
    /// Version number for conflict detection (incremented on each update).
    pub version: u64,
    pub record_type: RecordType,
    pub encrypted_data: String,
    pub nonce: String,
    pub metadata: RecordMetadata,
    pub created_at: Timestamp,
    pub updated_at: Timestamp,
}

impl View for SyncRecord {
    type V = SyncRecordView;

    open spec fn view(&self) -> SyncRecordView {
        SyncRecordView {
            id: self.id@,
            version: self.version,
            record_type: self.record_type,
            encrypted_data: self.encrypted_data@,
            nonce: self.nonce@,
            metadata: self.metadata@,
            created_at: self.created_at,
            updated_at: self.updated_at,
        }
    }
}

impl SyncRecord {
    /// A copy of this record.
    pub fn duplicate(&self) -> (r: Self)
        ensures
            r@ == self@,
    {
        SyncRecord {
            id: self.id.clone(),
            version: self.version,
            record_type: self.record_type,
            encrypted_data: self.encrypted_data.clone(),
            nonce: self.nonce.clone(),
            metadata: self.metadata.duplicate(),
            created_at: self.created_at,
            updated_at: self.updated_at,
        }
    }
}

/// A secret string, kept apart from ordinary strings so that it is not shown by accident.
#[derive(Debug, Clone)]
pub struct SensitiveString {
    inner: String,
}

impl SensitiveString {
    pub closed spec fn secret(&self) -> Seq<char> {
        self.inner@
    }

    /// Wraps a secret.
    pub fn new(value: String) -> (r: Self)
        ensures
            r.secret() == value@,
    {
        SensitiveString { inner: value }
    }

    /// The secret itself.
    pub fn get(&self) -> (r: &String)
        ensures
            r@ == self.secret(),
    {
        &self.inner
    }
}

/// A decrypted record as sync operations handle it; the password stays wrapped.
#[derive(Debug, Clone)]
pub struct SyncDecryptedRecord {
    pub id: String,
    pub name: String,
    pub record_type: String,
    pub username: Option<String>,
    pub password: SensitiveString,
    pub url: Option<String>,
    pub notes: Option<String>,
}

} // verus!
