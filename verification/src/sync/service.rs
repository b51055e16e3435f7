//! Manual incremental synchronization of a vault with a sync directory.
use vstd::prelude::*;
use crate::error::KeyringError;
use crate::sync::conflict::{
    conflict_for, conflicts_between, conflicts_view, last_index_with_id, newer_of, records_view, settled, Conflict, ConflictResolution, ConflictView,
    ConflictResolver, DefaultConflictResolver,
};
use crate::sync::encoding::{base64_standard_decoded, uuid_text, uuid_to_string};
use crate::sync::export::{exported, JsonSyncExporter, SyncExporter};
use crate::sync::import::{stored_of, JsonSyncImporter, SyncImporter};
use crate::sync::records::{strings_view, StoredRecord, StoredRecordView, SyncRecord, SyncRecordView};
use crate::sync::vault::{index_of_id, lemma_index_of_id_found, lemma_with_state, RecordSyncStatus, SyncState, Vault, VaultView};
use crate::text::push_str;

verus! {

/// Statistics of one import.
#[derive(Debug, Clone, Copy, PartialEq, Eq, Structural)]
pub struct SyncStats {
    /// Records added to the vault.
    pub imported: usize,
    /// Records of the vault replaced.
    pub updated: usize,
    /// Conflicts detected.
    pub conflicts: usize,
}

/// How many records are in each sync status.
#[derive(Debug, Clone, Copy, PartialEq, Eq, Structural)]
pub struct SyncStatusInfo {
    pub total: usize,
    pub pending: usize,
    pub conflicts: usize,
    pub synced: usize,
}

/// A record is pending when it has no sync state yet or its state says so.
pub open spec fn is_pending(st: Option<SyncState>) -> bool {
    st is None || st->0.sync_status == RecordSyncStatus::Pending
}

/// The pending records among `rs`, in order.
pub open spec fn pending_in(v: VaultView, rs: Seq<StoredRecordView>) -> Seq<StoredRecordView>
    decreases rs.len(),
{
    if rs.len() == 0 {
        Seq::empty()
    } else {
        let rest = pending_in(v, rs.drop_last());
        if is_pending(v.state_of(rs.last().id)) {
            rest.push(rs.last())
        } else {
            rest
        }
    }
}

/// Number of records among `rs` whose recorded status is `status`.
pub open spec fn count_status(v: VaultView, rs: Seq<StoredRecordView>, status: RecordSyncStatus) -> nat
    decreases rs.len(),
{
    if rs.len() == 0 {
        0
    } else {
        count_status(v, rs.drop_last(), status) + if v.state_of(rs.last().id) == Some(
            SyncState { sync_status: status, last_synced: v.state_of(rs.last().id)->0.last_synced },
        ) {
            1nat
        } else {
            0nat
        }
    }
}

/// The synced state recorded for a record written at `r`'s update time.
pub open spec fn synced_at(r: StoredRecordView) -> SyncState {
    SyncState { sync_status: RecordSyncStatus::Synced, last_synced: Some(r.updated_at.secs) }
}

/// The record a settled conflict keeps, if its resolution keeps one.
pub open spec fn chosen(c: ConflictView) -> Option<SyncRecordView> {
    match c.resolution {
        Some(ConflictResolution::Newer) => if c.local is Some && c.remote is Some {
            Some(newer_of(c.local->0, c.remote->0))
        } else if c.local is Some {
            c.local
        } else {
            c.remote
        },
        Some(ConflictResolution::Local) => c.local,
        Some(ConflictResolution::Remote) => c.remote,
        _ => None,
    }
}

/// Whether one of `rs` carries identifier `id`.
pub open spec fn has_record_id(rs: Seq<SyncRecordView>, id: Seq<char>) -> bool {
    exists|k: int| 0 <= k < rs.len() && rs[k].id == id
}

/// The state of an import while it runs.
pub struct ImportState {
    pub vault: VaultView,
    pub processed: Seq<Seq<char>>,
    pub imported: nat,
    pub updated: nat,
}

/// One settled conflict applied: the kept record replaces the local one and is marked synced.
pub open spec fn step_conflict(s: ImportState, c: ConflictView) -> Option<ImportState> {
    match chosen(c) {
        None => Some(s),
        Some(rec) => match stored_of(rec) {
            None => None,
            Some(st) => Some(
                ImportState {
                    vault: s.vault.updated(st).with_state(st.id, synced_at(st)),
                    processed: s.processed.push(c.id),
                    updated: s.updated + 1,
                    ..s
                },
            ),
        },
    }
}

/// The settled conflicts applied in order; `None` once one fails.
pub open spec fn phase_conflicts(s: ImportState, cs: Seq<ConflictView>) -> Option<ImportState>
    decreases cs.len(),
{
    if cs.len() == 0 {
        Some(s)
    } else {
        match phase_conflicts(s, cs.drop_last()) {
            None => None,
            Some(t) => step_conflict(t, cs.last()),
        }
    }
}

/// One remote record applied, unless a conflict already covered its
/// identifier: it replaces the local record with its identifier, or is added.
pub open spec fn step_remote(s: ImportState, r: SyncRecordView, local: Seq<SyncRecordView>) -> Option<ImportState> {
    if s.processed.contains(r.id) {
        Some(s)
    } else {
        match stored_of(r) {
            None => None,
            Some(st) => if has_record_id(local, r.id) {
                Some(
                    ImportState {
                        vault: s.vault.updated(st).with_state(st.id, synced_at(st)),
                        updated: s.updated + 1,
                        ..s
                    },
                )
            } else {
                match s.vault.added(st) {
                    None => None,
                    Some(v2) => Some(
                        ImportState { vault: v2.with_state(st.id, synced_at(st)), imported: s.imported + 1, ..s },
                    ),
                }
            },
        }
    }
}

/// The remote records applied in order; `None` once one fails.
pub open spec fn phase_remote(s: ImportState, rs: Seq<SyncRecordView>, local: Seq<SyncRecordView>) -> Option<ImportState>
    decreases rs.len(),
{
    if rs.len() == 0 {
        Some(s)
    } else {
        match phase_remote(s, rs.drop_last(), local) {
            None => None,
            Some(t) => step_remote(t, rs.last(), local),
        }
    }
}

/// Each of `rs` marked synced at its update time.
pub open spec fn phase_mark(v: VaultView, rs: Seq<StoredRecordView>) -> VaultView
    decreases rs.len(),
{
    if rs.len() == 0 {
        v
    } else {
        let w = phase_mark(v, rs.drop_last());
        w.with_state(rs.last().id, synced_at(rs.last()))
    }
}

/// The local records as exported on `platform`.
pub open spec fn local_sync_of(v: VaultView, platform: Seq<char>) -> Seq<SyncRecordView> {
    v.records.map_values(|r: StoredRecordView| exported(r, platform))
}

/// The conflicts an import detects and settles.
pub open spec fn import_conflicts(
    v: VaultView,
    remote: Seq<SyncRecordView>,
    res: ConflictResolution,
    platform: Seq<char>,
) -> Seq<ConflictView> {
    settled(conflicts_between(local_sync_of(v, platform), remote), res)
}

/// The outcome of an import: the vault afterwards and the records added and
/// replaced, or `None` where a record to apply is malformed or an addition is refused.
pub open spec fn import_outcome(
    v: VaultView,
    remote: Seq<SyncRecordView>,
    res: ConflictResolution,
    platform: Seq<char>,
) -> Option<ImportState> {
    let local = local_sync_of(v, platform);
    let s0 = ImportState { vault: v, processed: Seq::empty(), imported: 0, updated: 0 };
    match phase_conflicts(s0, import_conflicts(v, remote, res, platform)) {
        None => None,
        Some(s1) => match phase_remote(s1, remote, local) {
            None => None,
            Some(s2) => Some(ImportState { vault: phase_mark(s2.vault, pending_in(s2.vault, s2.vault.records)), ..s2 }),
        },
    }
}

proof fn lemma_conflicts_len(local: Seq<SyncRecordView>, remote: Seq<SyncRecordView>)
    ensures
        conflicts_between(local, remote).len() <= local.len(),
    decreases local.len(),
{
    if local.len() > 0 {
        lemma_conflicts_len(local.drop_last(), remote);
    }
}

proof fn lemma_phase_conflicts_none(s: ImportState, cs: Seq<ConflictView>, n: int)
    requires
        0 <= n <= cs.len(),
        phase_conflicts(s, cs.take(n)) is None,
    ensures
        phase_conflicts(s, cs) is None,
    decreases cs.len() - n,
{
    if n < cs.len() {
        assert(cs.take(n + 1).drop_last() =~= cs.take(n));
        lemma_phase_conflicts_none(s, cs, n + 1);
    } else {
        assert(cs.take(n) =~= cs);
    }
}

proof fn lemma_phase_remote_none(s: ImportState, rs: Seq<SyncRecordView>, local: Seq<SyncRecordView>, n: int)
    requires
        0 <= n <= rs.len(),
        phase_remote(s, rs.take(n), local) is None,
    ensures
        phase_remote(s, rs, local) is None,
    decreases rs.len() - n,
{
    if n < rs.len() {
        assert(rs.take(n + 1).drop_last() =~= rs.take(n));
        lemma_phase_remote_none(s, rs, local, n + 1);
    } else {
        assert(rs.take(n) =~= rs);
    }
}

/// Marking records synced never makes a record pending.
proof fn lemma_mark_keeps_not_pending(v: VaultView, rs: Seq<StoredRecordView>, id: u128)
    requires
        !is_pending(v.state_of(id)),
    ensures
        !is_pending(phase_mark(v, rs).state_of(id)),
        phase_mark(v, rs).records == v.records,
    decreases rs.len(),
{
    if rs.len() > 0 {
        lemma_mark_keeps_not_pending(v, rs.drop_last(), id);
        lemma_with_state(phase_mark(v, rs.drop_last()), rs.last().id, synced_at(rs.last()), id);
    }
}

proof fn lemma_mark_records(v: VaultView, rs: Seq<StoredRecordView>)
    ensures
        phase_mark(v, rs).records == v.records,
    decreases rs.len(),
{
    if rs.len() > 0 {
        lemma_mark_records(v, rs.drop_last());
        lemma_with_state(phase_mark(v, rs.drop_last()), rs.last().id, synced_at(rs.last()), 0);
    }
}

/// After marking the pending ones among the first `n` records, none of those `n` records is pending.
proof fn lemma_mark_clears_prefix(v: VaultView, n: int, k: int)
    requires
        0 <= k < n <= v.records.len(),
    ensures
        !is_pending(phase_mark(v, pending_in(v, v.records.take(n))).state_of(v.records[k].id)),
    decreases n,
{
    let pre = v.records.take(n - 1);
    assert(v.records.take(n).drop_last() =~= pre);
    let last = v.records[n - 1];
    let p0 = pending_in(v, pre);
    let w = phase_mark(v, p0);
    if is_pending(v.state_of(last.id)) {
        let ps = p0.push(last);
        assert(ps.drop_last() =~= p0);
        lemma_with_state(w, last.id, synced_at(last), v.records[k].id);
        if k < n - 1 {
            lemma_mark_clears_prefix(v, n - 1, k);
        }
    } else {
        if k < n - 1 {
            lemma_mark_clears_prefix(v, n - 1, k);
        } else {
            lemma_mark_keeps_not_pending(v, p0, last.id);
        }
    }
}

/// After a successful import, no record of the vault is pending.
pub proof fn law_import_leaves_nothing_pending(
    v: VaultView,
    remote: Seq<SyncRecordView>,
    res: ConflictResolution,
    platform: Seq<char>,
    k: int,
)
    requires
        import_outcome(v, remote, res, platform) is Some,
        0 <= k < import_outcome(v, remote, res, platform)->0.vault.records.len(),
    ensures
        ({
            let w = import_outcome(v, remote, res, platform)->0.vault;
            !is_pending(w.state_of(w.records[k].id))
        }),
{
    let local = local_sync_of(v, platform);
    let s0 = ImportState { vault: v, processed: Seq::empty(), imported: 0, updated: 0 };
    let s1 = phase_conflicts(s0, import_conflicts(v, remote, res, platform))->0;
    let s2 = phase_remote(s1, remote, local)->0;
    let u = s2.vault;
    lemma_mark_records(u, pending_in(u, u.records));
    assert(u.records.take(u.records.len() as int) =~= u.records);
    lemma_mark_clears_prefix(u, u.records.len() as int, k);
}

/// A conflict settled with `Remote` replaces the local record with its
/// remote record: the vault's record with that identifier becomes the
/// remote record, with the remote version and data, and counts as updated.
pub proof fn law_remote_settlement_keeps_remote(s: ImportState, c: ConflictView)
    requires
        c.resolution == Some(ConflictResolution::Remote),
        c.remote is Some,
        stored_of(c.remote->0) is Some,
        index_of_id(s.vault.records, stored_of(c.remote->0)->0.id) is Some,
    ensures
        ({
            let rm = c.remote->0;
            let i = index_of_id(s.vault.records, stored_of(rm)->0.id)->0;
            &&& step_conflict(s, c) is Some
            &&& step_conflict(s, c)->0.vault.records.len() == s.vault.records.len()
            &&& step_conflict(s, c)->0.vault.records[i] == stored_of(rm)->0
            &&& step_conflict(s, c)->0.vault.records[i].version == rm.version
            &&& step_conflict(s, c)->0.vault.records[i].encrypted_data == base64_standard_decoded(rm.encrypted_data)->0
            &&& step_conflict(s, c)->0.updated == s.updated + 1
        }),
{
    let st = stored_of(c.remote->0)->0;
    assert(chosen(c) == c.remote);
    lemma_index_of_id_found(s.vault.records, st.id);
    let v1 = s.vault.updated(st);
    lemma_with_state(v1, st.id, synced_at(st), st.id);
}

/// Importing one remote record whose identifier is that of the vault's only
/// record, at another version, with `Remote` settling the conflict: the
/// import succeeds with one conflict and one record updated, none added,
/// and the vault then holds the remote record in place of its own.
pub proof fn law_import_remote_replaces(
    l: StoredRecordView,
    states: Seq<(u128, SyncState)>,
    r: SyncRecordView,
    platform: Seq<char>,
)
    requires
        r.id == uuid_text(l.id),
        r.version != l.version,
        stored_of(r) is Some,
        stored_of(r)->0.id == l.id,
    ensures
        ({
            let v = VaultView { records: seq![l], states };
            let o = import_outcome(v, seq![r], ConflictResolution::Remote, platform);
            &&& import_conflicts(v, seq![r], ConflictResolution::Remote, platform).len() == 1
            &&& o is Some
            &&& o->0.vault.records == seq![stored_of(r)->0]
            &&& o->0.vault.records[0].version == r.version
            &&& o->0.updated == 1
            &&& o->0.imported == 0
        }),
{
    let v = VaultView { records: seq![l], states };
    let rs = seq![r];
    let e = exported(l, platform);
    let local = local_sync_of(v, platform);
    assert(local =~= seq![e]);
    assert(rs.drop_last() =~= Seq::<SyncRecordView>::empty());
    assert(last_index_with_id(rs, e.id) == Some(0int));
    let c = ConflictView { id: e.id, local: Some(e), remote: Some(r), resolution: None };
    assert(conflict_for(e, rs) == Some(c));
    assert(local.drop_last() =~= Seq::<SyncRecordView>::empty());
    assert(local.last() == e);
    assert(conflicts_between(local.drop_last(), rs) == Seq::<ConflictView>::empty());
    assert(conflicts_between(local, rs) =~= seq![c]);
    let c2 = ConflictView { resolution: Some(ConflictResolution::Remote), ..c };
    let cs = import_conflicts(v, rs, ConflictResolution::Remote, platform);
    assert(cs =~= seq![c2]);
    assert(cs.drop_last() =~= Seq::<ConflictView>::empty());
    let s0 = ImportState { vault: v, processed: Seq::empty(), imported: 0, updated: 0 };
    let st = stored_of(r)->0;
    assert(index_of_id(seq![l], l.id) == Some(0int)) by {
        assert(seq![l].drop_last() =~= Seq::<StoredRecordView>::empty());
        assert(index_of_id(Seq::<StoredRecordView>::empty(), l.id) is None);
        assert(seq![l].last() == l);
    }
    let v1 = v.updated(st).with_state(st.id, synced_at(st));
    lemma_with_state(v.updated(st), st.id, synced_at(st), st.id);
    assert(v.updated(st).records =~= seq![st]);
    let s1 = ImportState { vault: v1, processed: s0.processed.push(c2.id), updated: 1, ..s0 };
    assert(phase_conflicts(s0, cs.drop_last()) == Some(s0));
    assert(cs.last() == c2);
    assert(chosen(c2) == Some(r));
    assert(step_conflict(s0, c2) == Some(s1));
    assert(phase_conflicts(s0, cs) == Some(s1));
    assert(s1.processed.contains(r.id)) by {
        assert(s1.processed[0] == r.id);
    }
    assert(phase_remote(s1, rs.drop_last(), local) == Some(s1));
    assert(rs.last() == r);
    assert(step_remote(s1, r, local) == Some(s1));
    assert(phase_remote(s1, rs, local) == Some(s1));
    lemma_mark_records(s1.vault, pending_in(s1.vault, s1.vault.records));
}

/// Synchronizes a vault with the records of a sync directory.
pub struct SyncService {
    exporter: JsonSyncExporter,
    importer: JsonSyncImporter,
    conflict_resolver: DefaultConflictResolver,
}

impl Default for SyncService {
    fn default() -> (r: Self) {
        SyncService::new()
    }
}

fn contains_id(ids: &Vec<String>, id: &String) -> (b: bool)
    ensures
        b == strings_view(ids@).contains(id@),
{
    let mut i: usize = 0;
    while i < ids.len()
        invariant
            i <= ids@.len(),
            forall|k: int| 0 <= k < i ==> ids@[k]@ != id@,
        decreases ids@.len() - i,
    {
        if ids[i] == *id {
            assert(strings_view(ids@)[i as int] == id@);
            return true;
        }
        i = i + 1;
    }
    assert forall|k: int| 0 <= k < strings_view(ids@).len() implies strings_view(ids@)[k] != id@ by {
        assert(strings_view(ids@)[k] == ids@[k]@);
    }
    false
}

fn has_id(rs: &Vec<SyncRecord>, id: &String) -> (b: bool)
    ensures
        b == has_record_id(records_view(rs@), id@),
{
    let mut i: usize = 0;
    while i < rs.len()
        invariant
            i <= rs@.len(),
            forall|k: int| 0 <= k < i ==> rs@[k]@.id != id@,
        decreases rs@.len() - i,
    {
        if rs[i].id == *id {
            assert(records_view(rs@)[i as int].id == id@);
            return true;
        }
        i = i + 1;
    }
    assert forall|k: int| 0 <= k < records_view(rs@).len() implies records_view(rs@)[k].id != id@ by {
        assert(records_view(rs@)[k] == rs@[k]@);
    }
    false
}

impl SyncService {
    /// A sync service with the JSON exporter and importer and the version-based resolver.
    pub fn new() -> (r: Self) {
        SyncService { exporter: JsonSyncExporter, importer: JsonSyncImporter, conflict_resolver: DefaultConflictResolver }
    }

    /// The records that still have to be synced: those without a sync state
    /// and those whose state is pending, in the vault's order.
    pub fn get_pending_records(&self, vault: &Vault) -> (r: Result<Vec<StoredRecord>, KeyringError>)
        ensures
            r is Ok,
            r->Ok_0@.map_values(|x: StoredRecord| x@) == pending_in(vault@, vault@.records),
    {
        let all_records = vault.list_records();
        let mut pending: Vec<StoredRecord> = Vec::new();
        let mut i: usize = 0;
        while i < all_records.len()
            invariant
                i <= all_records@.len(),
                all_records@.map_values(|x: StoredRecord| x@) == vault@.records,
                pending@.map_values(|x: StoredRecord| x@) == pending_in(vault@, vault@.records.take(i as int)),
            decreases all_records@.len() - i,
        {
            assert(vault@.records.take(i + 1).drop_last() =~= vault@.records.take(i as int));
            assert(vault@.records.take(i + 1).last() == all_records@[i as int]@);
            let record = &all_records[i];
            let st = vault.get_sync_state(record.id);
            let ghost before = pending@;
            let p = match st {
                Some(s) => s.sync_status == RecordSyncStatus::Pending,
                None => true,
            };
            if p {
                pending.push(record.duplicate());
                assert(pending@.map_values(|x: StoredRecord| x@) =~= before.map_values(|x: StoredRecord| x@).push(
                    record@,
                ));
            }
            i = i + 1;
        }
        assert(vault@.records.take(i as int) =~= vault@.records);
        Ok(pending)
    }

    /// Counts the records of the vault by sync status; a record without a sync
    /// state counts as pending.
    pub fn get_sync_status(&self, vault: &Vault) -> (r: Result<SyncStatusInfo, KeyringError>)
        ensures
            r is Ok,
            r->Ok_0.total == vault@.records.len(),
            r->Ok_0.pending == pending_in(vault@, vault@.records).len(),
            r->Ok_0.conflicts == count_status(vault@, vault@.records, RecordSyncStatus::Conflict),
            r->Ok_0.synced == count_status(vault@, vault@.records, RecordSyncStatus::Synced),
    {
        let all_records = vault.list_records();
        let mut pending: usize = 0;
        let mut conflicts: usize = 0;
        let mut synced: usize = 0;
        let mut i: usize = 0;
        while i < all_records.len()
            invariant
                i <= all_records@.len(),
                all_records@.map_values(|x: StoredRecord| x@) == vault@.records,
                pending == pending_in(vault@, vault@.records.take(i as int)).len(),
                conflicts == count_status(vault@, vault@.records.take(i as int), RecordSyncStatus::Conflict),
                synced == count_status(vault@, vault@.records.take(i as int), RecordSyncStatus::Synced),
                pending + conflicts + synced == i,
            decreases all_records@.len() - i,
        {
            assert(vault@.records.take(i + 1).drop_last() =~= vault@.records.take(i as int));
            assert(vault@.records.take(i + 1).last() == all_records@[i as int]@);
            let record = &all_records[i];
            match vault.get_sync_state(record.id) {
                Some(s) => match s.sync_status {
                    RecordSyncStatus::Pending => pending = pending + 1,
                    RecordSyncStatus::Conflict => conflicts = conflicts + 1,
                    RecordSyncStatus::Synced => synced = synced + 1,
                },
                None => pending = pending + 1,
            }
            i = i + 1;
        }
        assert(vault@.records.take(i as int) =~= vault@.records);
        Ok(SyncStatusInfo { total: all_records.len(), pending, conflicts, synced })
    }

    /// The pending records exported for a sync directory, in the vault's
    /// order, each with the name of the file to write it to: the record's
    /// UUID followed by `.json`.
    pub fn export_pending_records(&self, vault: &Vault, platform: &str) -> (r: Result<
        Vec<(String, SyncRecord)>,
        KeyringError,
    >)
        ensures
            r is Ok,
            r->Ok_0@.len() == pending_in(vault@, vault@.records).len(),
            forall|i: int|
                0 <= i < r->Ok_0@.len() ==> {
                    let p = pending_in(vault@, vault@.records)[i];
                    &&& (#[trigger] r->Ok_0@[i]).0@ == uuid_text(p.id) + ".json"@
                    &&& r->Ok_0@[i].1@ == exported(p, platform@)
                },
    {
        let pending = match self.get_pending_records(vault) {
            Ok(p) => p,
            Err(e) => {
                return Err(e);
            },
        };
        let ghost pv = pending@.map_values(|x: StoredRecord| x@);
        let mut out: Vec<(String, SyncRecord)> = Vec::new();
        let mut i: usize = 0;
        while i < pending.len()
            invariant
                i <= pending@.len(),
                pv == pending@.map_values(|x: StoredRecord| x@),
                out@.len() == i,
                forall|j: int|
                    0 <= j < i ==> {
                        &&& (#[trigger] out@[j]).0@ == uuid_text(pv[j].id) + ".json"@
                        &&& out@[j].1@ == exported(pv[j], platform@)
                    },
            decreases pending@.len() - i,
        {
            let record = &pending[i];
            assert(pv[i as int] == record@);
            let sync_record = match self.exporter.export_record(record, platform) {
                Ok(s) => s,
                Err(e) => {
                    return Err(e);
                },
            };
            let mut file_name = uuid_to_string(record.id);
            push_str(&mut file_name, ".json");
            out.push((file_name, sync_record));
            i = i + 1;
        }
        Ok(out)
    }
}

impl SyncService {
    fn apply_record(&self, vault: &mut Vault, record: SyncRecord, add: bool) -> (r: Result<(), KeyringError>)
        ensures
            r is Ok <==> stored_of(record@) is Some && (add ==> old(vault)@.added(stored_of(record@)->0) is Some),
            r is Ok ==> final(vault)@ == (if add {
                old(vault)@.added(stored_of(record@)->0)->0
            } else {
                old(vault)@.updated(stored_of(record@)->0)
            }).with_state(stored_of(record@)->0.id, synced_at(stored_of(record@)->0)),
    {
        let ghost rv = record@;
        let stored = match self.importer.sync_record_to_db(record) {
            Ok(s) => s,
            Err(e) => {
                return Err(e);
            },
        };
        if add {
            match vault.add_record(&stored) {
                Ok(()) => {},
                Err(e) => {
                    return Err(e);
                },
            }
        } else {
            match vault.update_record(&stored) {
                Ok(()) => {},
                Err(e) => {
                    return Err(e);
                },
            }
        }
        match vault.set_sync_state(stored.id, Some(stored.updated_at.secs), RecordSyncStatus::Synced) {
            Ok(()) => {},
            Err(e) => {
                return Err(e);
            },
        }
        Ok(())
    }

    /// Imports the records read from a sync directory into the vault.
    ///
    /// `remote_records` is `None` where the directory does not exist; the
    /// vault then stays as it is. Otherwise conflicts between the local records
    /// (as exported on `platform`) and the remote ones are detected and settled
    /// with `conflict_resolution`; the records the settlement keeps replace the
    /// local ones, the other remote records replace the local record with
    /// their identifier or are added, each written record is marked synced,
    /// and finally every pending record is marked synced.
    pub fn import_from_directory(
        &self,
        vault: &mut Vault,
        remote_records: Option<Vec<SyncRecord>>,
        conflict_resolution: ConflictResolution,
        platform: &str,
    ) -> (r: Result<SyncStats, KeyringError>)
        requires
            remote_records is Some ==> old(vault)@.records.len() + remote_records->0@.len() <= usize::MAX,
        ensures
            remote_records is None ==> r is Ok && r->Ok_0 == (SyncStats { imported: 0, updated: 0, conflicts: 0 })
                && final(vault)@ == old(vault)@,
            remote_records is Some ==> {
                let remote = records_view(remote_records->0@);
                let out = import_outcome(old(vault)@, remote, conflict_resolution, platform@);
                &&& r is Ok <==> out is Some
                &&& r is Ok ==> final(vault)@ == out->0.vault
                &&& r is Ok ==> r->Ok_0.imported == out->0.imported
                &&& r is Ok ==> r->Ok_0.updated == out->0.updated
                &&& r is Ok ==> r->Ok_0.conflicts == import_conflicts(old(vault)@, remote, conflict_resolution, platform@).len()
            },
    {
        match remote_records {
            None => Ok(SyncStats { imported: 0, updated: 0, conflicts: 0 }),
            Some(rs) => self.import_records(vault, rs, conflict_resolution, platform),
        }
    }

    fn import_records(
        &self,
        vault: &mut Vault,
        remote_records: Vec<SyncRecord>,
        conflict_resolution: ConflictResolution,
        platform: &str,
    ) -> (r: Result<SyncStats, KeyringError>)
        requires
            old(vault)@.records.len() + remote_records@.len() <= usize::MAX,
        ensures
            ({
                let remote = records_view(remote_records@);
                let out = import_outcome(old(vault)@, remote, conflict_resolution, platform@);
                &&& r is Ok <==> out is Some
                &&& r is Ok ==> final(vault)@ == out->0.vault
                &&& r is Ok ==> r->Ok_0.imported == out->0.imported
                &&& r is Ok ==> r->Ok_0.updated == out->0.updated
                &&& r is Ok ==> r->Ok_0.conflicts == import_conflicts(old(vault)@, remote, conflict_resolution, platform@).len()
            }),
    {
        let ghost v0 = vault@;
        let ghost remote = records_view(remote_records@);
        let local_records = vault.list_records();
        let mut local_sync_records: Vec<SyncRecord> = Vec::new();
        let mut i: usize = 0;
        while i < local_records.len()
            invariant
                i <= local_records@.len(),
                local_records@.map_values(|x: StoredRecord| x@) == v0.records,
                local_sync_records@.len() == i,
                forall|k: int| 0 <= k < i ==> #[trigger] local_sync_records@[k]@ == exported(v0.records[k], platform@),
            decreases local_records@.len() - i,
        {
            assert(local_records@.map_values(|x: StoredRecord| x@)[i as int] == local_records@[i as int]@);
            match self.exporter.export_record(&local_records[i], platform) {
                Ok(s) => local_sync_records.push(s),
                Err(_) => {},
            }
            i = i + 1;
        }
        let ghost local = local_sync_of(v0, platform@);
        assert(records_view(local_sync_records@) =~= local);
        let conflicts = self.conflict_resolver.detect_conflicts(local_sync_records.as_slice(), remote_records.as_slice());
        let resolved = match conflict_resolution {
            ConflictResolution::Newer => self.conflict_resolver.auto_resolve_conflicts(conflicts.as_slice()),
            _ => self.conflict_resolver.resolve_conflicts(conflicts.as_slice(), conflict_resolution),
        };
        let ghost cs = import_conflicts(v0, remote, conflict_resolution, platform@);
        assert(conflicts_view(resolved@) == cs);
        proof {
            lemma_conflicts_len(local, remote);
        }
        let ghost s0 = ImportState { vault: v0, processed: Seq::empty(), imported: 0, updated: 0 };
        let n_conflicts = conflicts.len();
        let mut updated: usize = 0;
        let mut imported: usize = 0;
        let mut processed: Vec<String> = Vec::new();
        let mut j: usize = 0;
        assert(cs.take(0) =~= Seq::<ConflictView>::empty());
        assert(strings_view(processed@) =~= Seq::<Seq<char>>::empty());
        while j < resolved.len()
            invariant
                j <= resolved@.len(),
                conflicts_view(resolved@) == cs,
                old(vault)@ == v0,
                remote == records_view(remote_records@),
                cs == import_conflicts(v0, remote, conflict_resolution, platform@),
                local == local_sync_of(v0, platform@),
                s0 == (ImportState { vault: v0, processed: Seq::empty(), imported: 0, updated: 0 }),
                updated <= j,
                imported == 0,
                phase_conflicts(s0, cs.take(j as int)) == Some(
                    ImportState { vault: vault@, processed: strings_view(processed@), imported: 0, updated: updated as nat },
                ),
            decreases resolved@.len() - j,
        {
            let conflict = &resolved[j];
            assert(cs.take(j + 1).drop_last() =~= cs.take(j as int));
            assert(cs.take(j + 1).last() == conflict@);
            assert(conflicts_view(resolved@)[j as int] == conflict@);
            let ghost t = ImportState { vault: vault@, processed: strings_view(processed@), imported: 0, updated: updated as nat };
            let chosen_record: Option<SyncRecord> = match conflict.resolution {
                Some(ConflictResolution::Newer) => {
                    match (&conflict.local_record, &conflict.remote_record) {
                        (Some(l), Some(rm)) => if l.version >= rm.version {
                            Some(l.duplicate())
                        } else {
                            Some(rm.duplicate())
                        },
                        (Some(l), None) => Some(l.duplicate()),
                        (None, Some(rm)) => Some(rm.duplicate()),
                        (None, None) => None,
                    }
                },
                Some(ConflictResolution::Local) => match &conflict.local_record {
                    Some(l) => Some(l.duplicate()),
                    None => None,
                },
                Some(ConflictResolution::Remote) => match &conflict.remote_record {
                    Some(rm) => Some(rm.duplicate()),
                    None => None,
                },
                _ => None,
            };
            match chosen_record {
                Some(rec) => {
                    assert(chosen(conflict@) == Some(rec@));
                    let res = self.apply_record(vault, rec, false);
                    match res {
                        Ok(()) => {},
                        Err(e) => {
                            proof {
                                lemma_phase_conflicts_none(s0, cs, j + 1);
                            }
                            return Err(e);
                        },
                    }
                    let ghost before = processed@;
                    processed.push(conflict.id.clone());
                    assert(strings_view(processed@) =~= strings_view(before).push(conflict@.id));
                    updated = updated + 1;
                },
                None => {
                    assert(chosen(conflict@) is None);
                },
            }
            j = j + 1;
        }
        assert(cs.take(j as int) =~= cs);
        let ghost s1 = phase_conflicts(s0, cs)->0;
        let mut k: usize = 0;
        assert(remote.take(0) =~= Seq::<SyncRecordView>::empty());
        while k < remote_records.len()
            invariant
                k <= remote_records@.len(),
                remote == records_view(remote_records@),
                records_view(local_sync_records@) == local,
                old(vault)@ == v0,
                cs == import_conflicts(v0, remote, conflict_resolution, platform@),
                local == local_sync_of(v0, platform@),
                s0 == (ImportState { vault: v0, processed: Seq::empty(), imported: 0, updated: 0 }),
                s1 == phase_conflicts(s0, cs)->0,
                phase_conflicts(s0, cs) is Some,
                updated + imported <= j + k,
                j <= resolved@.len(),
                resolved@.len() <= v0.records.len(),
                v0.records.len() + remote_records@.len() <= usize::MAX,
                phase_remote(s1, remote.take(k as int), local) == Some(
                    ImportState {
                        vault: vault@,
                        processed: strings_view(processed@),
                        imported: imported as nat,
                        updated: updated as nat,
                    },
                ),
            decreases remote_records@.len() - k,
        {
            let remote_record = &remote_records[k];
            assert(remote.take(k + 1).drop_last() =~= remote.take(k as int));
            assert(remote.take(k + 1).last() == remote_record@);
            if contains_id(&processed, &remote_record.id) {
                k = k + 1;
                continue;
            }
            let exists_locally = has_id(&local_sync_records, &remote_record.id);
            let rec = remote_record.duplicate();
            match self.apply_record(vault, rec, !exists_locally) {
                Ok(()) => {},
                Err(e) => {
                    proof {
                        lemma_phase_remote_none(s1, remote, local, k + 1);
                    }
                    return Err(e);
                },
            }
            if exists_locally {
                updated = updated + 1;
            } else {
                imported = imported + 1;
            }
            k = k + 1;
        }
        assert(remote.take(k as int) =~= remote);
        let pending = match self.get_pending_records(vault) {
            Ok(p) => p,
            Err(e) => {
                return Err(e);
            },
        };
        let ghost s2v = vault@;
        let ghost pv = pending_in(s2v, s2v.records);
        let mut m: usize = 0;
        assert(pv.take(0) =~= Seq::<StoredRecordView>::empty());
        while m < pending.len()
            invariant
                m <= pending@.len(),
                pending@.map_values(|x: StoredRecord| x@) == pv,
                vault@ == phase_mark(s2v, pv.take(m as int)),
            decreases pending@.len() - m,
        {
            let record = &pending[m];
            assert(pv.take(m + 1).drop_last() =~= pv.take(m as int));
            assert(pv.take(m + 1).last() == record@);
            match vault.set_sync_state(record.id, Some(record.updated_at.secs), RecordSyncStatus::Synced) {
                Ok(()) => {},
                Err(e) => {
                    return Err(e);
                },
            }
            m = m + 1;
        }
        assert(pv.take(m as int) =~= pv);
        Ok(SyncStats { imported, updated, conflicts: n_conflicts })
    }
}

} // verus!
