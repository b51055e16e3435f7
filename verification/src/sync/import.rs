//! Conversion of sync records back into stored records.
use vstd::prelude::*;
use vstd::string::StringExecFns;
use crate::error::KeyringError;
use crate::sync::encoding::{base64_decode, base64_standard_decoded, uuid_parse, uuid_parsed};
use crate::sync::export::exported;
use crate::sync::records::{StoredRecord, StoredRecordView, SyncRecord, SyncRecordView};
use crate::text::{chars_of, decimal, push_decimal, push_str, starts_with, str_eq};

verus! {

/// The message of a nonce of the wrong length.
pub open spec fn nonce_length_message(n: nat) -> Seq<char> {
    "Invalid nonce length: "@ + decimal(n)
}

/// Takes a 12-byte nonce out of a byte slice of that length.
pub fn decode_nonce(bytes: &[u8]) -> (r: Result<[u8; 12], KeyringError>)
    ensures
        r is Ok <==> bytes@.len() == 12,
        r is Ok ==> r->Ok_0@ == bytes@,
        r is Err ==> (r->Err_0 matches KeyringError::Crypto { context } && context@ == nonce_length_message(
            bytes@.len(),
        )),
{
    if bytes.len() != 12 {
        let mut context = String::from_str("Invalid nonce length: ");
        push_decimal(&mut context, bytes.len());
        return Err(KeyringError::Crypto { context });
    }
    let nonce: [u8; 12] = [
        bytes[0],
        bytes[1],
        bytes[2],
        bytes[3],
        bytes[4],
        bytes[5],
        bytes[6],
        bytes[7],
        bytes[8],
        bytes[9],
        bytes[10],
        bytes[11],
    ];
    assert(nonce@ =~= bytes@);
    Ok(nonce)
}

/// The stored record a sync record converts to, if its payload and nonce are
/// valid base64, its nonce takes 12 bytes and its identifier is a UUID.
pub open spec fn stored_of(s: SyncRecordView) -> Option<StoredRecordView> {
    let data = base64_standard_decoded(s.encrypted_data);
    let nonce = base64_standard_decoded(s.nonce);
    let id = uuid_parsed(s.id);
    if data is Some && nonce is Some && nonce->0.len() == 12 && id is Some {
        Some(
            StoredRecordView {
                id: id->0,
                record_type: s.record_type,
                encrypted_data: data->0,
                nonce: nonce->0,
                tags: s.metadata.tags,
                created_at: s.created_at,
                updated_at: s.updated_at,
                version: s.version,
            },
        )
    } else {
        None
    }
}

/// Whether converting `s` fails on its encoding (payload, nonce) rather than on its identifier.
pub open spec fn fails_on_encoding(s: SyncRecordView) -> bool {
    ||| base64_standard_decoded(s.encrypted_data) is None
    ||| base64_standard_decoded(s.nonce) is None
    ||| base64_standard_decoded(s.nonce)->0.len() != 12
}

/// Reads records in the JSON sync format.
pub struct JsonSyncImporter;

/// Turns sync records into stored records. Reading a record from a file or
/// from JSON text is left to the application.
pub trait SyncImporter {
    /// The stored record for a sync record.
    fn sync_record_to_db(&self, sync_record: SyncRecord) -> (r: Result<StoredRecord, KeyringError>);
}

impl SyncImporter for JsonSyncImporter {
    /// The stored record for a sync record: payload and nonce decoded from
    /// base64, identifier parsed as a UUID. A record exported from a stored
    /// record converts back to that record.
    fn sync_record_to_db(&self, sync_record: SyncRecord) -> (r: Result<StoredRecord, KeyringError>)
        ensures
            r is Ok <==> stored_of(sync_record@) is Some,
            r is Ok ==> r->Ok_0@ == stored_of(sync_record@)->0,
            r is Err && fails_on_encoding(sync_record@) ==> r->Err_0 is Crypto,
            r is Err && !fails_on_encoding(sync_record@) ==> r->Err_0 is InvalidInput,
            base64_standard_decoded(sync_record@.encrypted_data) is None ==> (r matches Err(
                KeyringError::Crypto { context },
            ) && starts_with(context@, "Invalid encrypted_data encoding: "@)),
            base64_standard_decoded(sync_record@.encrypted_data) is Some && base64_standard_decoded(
                sync_record@.nonce,
            ) is None ==> (r matches Err(KeyringError::Crypto { context }) && starts_with(
                context@,
                "Invalid nonce encoding: "@,
            )),
            base64_standard_decoded(sync_record@.encrypted_data) is Some && base64_standard_decoded(
                sync_record@.nonce,
            ) is Some && base64_standard_decoded(sync_record@.nonce)->0.len() != 12 ==> (r matches Err(
                KeyringError::Crypto { context },
            ) && context@ == nonce_length_message(base64_standard_decoded(sync_record@.nonce)->0.len())),
            !fails_on_encoding(sync_record@) && uuid_parsed(sync_record@.id) is None ==> (r matches Err(
                KeyringError::InvalidInput { context },
            ) && starts_with(context@, "Invalid record id: "@)),
            forall|rec: StoredRecordView, p: Seq<char>|
                sync_record@ == #[trigger] exported(rec, p) && rec.nonce.len() == 12 ==> r is Ok && r->Ok_0@ == rec,
    {
        let ghost sv = sync_record@;
        let encrypted_data = match base64_decode(sync_record.encrypted_data.as_str()) {
            Ok(v) => v,
            Err(e) => {
                let mut context = String::from_str("Invalid encrypted_data encoding: ");
                push_str(&mut context, e.as_str());
                assert(context@.take("Invalid encrypted_data encoding: "@.len() as int) =~= "Invalid encrypted_data encoding: "@);
                return Err(KeyringError::Crypto { context });
            },
        };
        let nonce_bytes = match base64_decode(sync_record.nonce.as_str()) {
            Ok(v) => v,
            Err(e) => {
                let mut context = String::from_str("Invalid nonce encoding: ");
                push_str(&mut context, e.as_str());
                assert(context@.take("Invalid nonce encoding: "@.len() as int) =~= "Invalid nonce encoding: "@);
                return Err(KeyringError::Crypto { context });
            },
        };
        let nonce = match decode_nonce(nonce_bytes.as_slice()) {
            Ok(n) => n,
            Err(e) => {
                return Err(e);
            },
        };
        let id = match uuid_parse(sync_record.id.as_str()) {
            Ok(id) => id,
            Err(e) => {
                let mut context = String::from_str("Invalid record id: ");
                push_str(&mut context, e.as_str());
                assert(context@.take("Invalid record id: "@.len() as int) =~= "Invalid record id: "@);
                return Err(KeyringError::InvalidInput { context });
            },
        };
        let r = StoredRecord {
            id,
            record_type: sync_record.record_type,
            encrypted_data,
            nonce,
            tags: sync_record.metadata.tags,
            created_at: sync_record.created_at,
            updated_at: sync_record.updated_at,
            version: sync_record.version,
        };
        assert(r@ == stored_of(sv)->0);
        Ok(r)
    }
}

/// Index of the last `.` in `s`.
pub open spec fn last_dot(s: Seq<char>) -> Option<int>
    decreases s.len(),
{
    if s.len() == 0 {
        None
    } else if s.last() == '.' {
        Some(s.len() - 1)
    } else {
        last_dot(s.drop_last())
    }
}

/// Whether a file name has the extension `json`: the text after its last
/// dot, where that dot is not the name's first character.
pub open spec fn is_json_name(name: Seq<char>) -> bool {
    match last_dot(name) {
        Some(i) => i > 0 && name.skip(i + 1) == "json"@,
        None => false,
    }
}

/// Whether a file in a sync directory holds a sync record, as
/// [`is_json_name`] says.
pub fn is_sync_file(file_name: &str) -> (b: bool)
    ensures
        b == is_json_name(file_name@),
{
    let v = chars_of(file_name);
    let mut i: usize = v.len();
    assert(v@.take(i as int) =~= v@);
    while i > 0 && v[i - 1] != '.'
        invariant
            i <= v@.len(),
            v@ == file_name@,
            last_dot(v@) == last_dot(v@.take(i as int)),
        decreases i,
    {
        assert(v@.take(i as int).drop_last() =~= v@.take(i - 1));
        i = i - 1;
    }
    if i == 0 {
        assert(v@.take(0) =~= Seq::<char>::empty());
        return false;
    }
    assert(v@.take(i as int).last() == '.');
    if i - 1 == 0 {
        return false;
    }
    let mut tail: Vec<char> = Vec::new();
    let mut k: usize = i;
    while k < v.len()
        invariant
            i <= k <= v@.len(),
            tail@ == v@.subrange(i as int, k as int),
        decreases v@.len() - k,
    {
        tail.push(v[k]);
        k = k + 1;
        assert(tail@ =~= v@.subrange(i as int, k as int));
    }
    assert(tail@ =~= v@.skip(i as int));
    let t = crate::text::string_from_chars(&tail);
    str_eq(t.as_str(), "json")
}

/// Whether every sync record of the list converts to a stored record.
pub open spec fn all_convert(rs: Seq<SyncRecordView>) -> bool {
    forall|i: int| 0 <= i < rs.len() ==> #[trigger] stored_of(rs[i]) is Some
}

/// Imports the sync records read from a directory.
pub struct SyncImporterService {
    importer: JsonSyncImporter,
}

impl SyncImporterService {
    /// A service with the JSON importer.
    pub fn new() -> (r: Self) {
        SyncImporterService { importer: JsonSyncImporter }
    }

    /// The stored records for the sync records read from the `.json` files of
    /// a sync directory, in the order they were read; the first record that
    /// does not convert ends the import with its error.
    pub fn import_records_from_dir(&self, parsed: Vec<SyncRecord>) -> (r: Result<Vec<StoredRecord>, KeyringError>)
        ensures
            r is Ok <==> all_convert(parsed@.map_values(|s: SyncRecord| s@)),
            r is Ok ==> r->Ok_0@.len() == parsed@.len() && forall|i: int|
                0 <= i < parsed@.len() ==> #[trigger] r->Ok_0@[i]@ == stored_of(parsed@[i]@)->0,
            r is Err ==> exists|k: int|
                0 <= k < parsed@.len() && stored_of(#[trigger] parsed@[k]@) is None && (forall|j: int|
                    0 <= j < k ==> stored_of(#[trigger] parsed@[j]@) is Some) && (if fails_on_encoding(parsed@[k]@) {
                    r->Err_0 is Crypto
                } else {
                    r->Err_0 is InvalidInput
                }),
    {
        let ghost pv = parsed@.map_values(|s: SyncRecord| s@);
        let ghost orig = parsed@;
        let mut out: Vec<StoredRecord> = Vec::new();
        let mut rest = parsed;
        let mut i: usize = 0;
        let n = rest.len();
        while rest.len() > 0
            invariant
                n == orig.len(),
                i + rest@.len() == n,
                forall|j: int| 0 <= j < rest@.len() ==> rest@[j] == orig[i + j],
                out@.len() == i,
                forall|j: int| 0 <= j < i ==> #[trigger] out@[j]@ == stored_of(orig[j]@)->0,
                forall|j: int| 0 <= j < i ==> stored_of(#[trigger] orig[j]@) is Some,
                pv == orig.map_values(|s: SyncRecord| s@),
                orig == parsed@,
            decreases rest@.len(),
        {
            let rec = rest.remove(0);
            assert(rec == orig[i as int]);
            match self.importer.sync_record_to_db(rec) {
                Ok(s) => {
                    out.push(s);
                },
                Err(e) => {
                    assert(pv[i as int] == orig[i as int]@);
                    assert(stored_of(orig[i as int]@) is None);
                    assert(!all_convert(pv));
                    assert(forall|j: int| 0 <= j < i ==> stored_of(#[trigger] orig[j]@) is Some);
                    return Err(e);
                },
            }
            i = i + 1;
        }
        assert forall|j: int| 0 <= j < pv.len() implies #[trigger] stored_of(pv[j]) is Some by {
            assert(pv[j] == orig[j]@);
        }
        Ok(out)
    }
}

} // verus!
