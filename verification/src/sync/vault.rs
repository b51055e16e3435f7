//! The records and sync states of a vault, as the sync logic reads and writes them.
//!
//! The application loads a vault's records and their sync states from the
//! database into this structure, runs the sync logic on it, and writes the
//! result back.
use vstd::prelude::*;
use vstd::string::StringExecFns;
use crate::error::KeyringError;
use crate::sync::records::{StoredRecord, StoredRecordView};

verus! {

/// Sync status of one record.
#[derive(Debug, Clone, Copy, PartialEq, Eq, Structural)]
pub enum RecordSyncStatus {
    /// Changed locally since the last sync.
    Pending,
    /// Equal to the synced copy.
    Synced,
    /// In conflict with the remote copy.
    Conflict,
}

/// Sync state of one record.
#[derive(Debug, Clone, Copy, PartialEq, Eq, Structural)]
pub struct SyncState {
    pub sync_status: RecordSyncStatus,
    /// When the record was last synced, in seconds since the Unix epoch.
    pub last_synced: Option<i64>,
}

/// Model of a vault: its records in order, and the sync state recorded per identifier.
pub struct VaultView {
    pub records: Seq<StoredRecordView>,
    pub states: Seq<(u128, SyncState)>,
}

/// Index of the first record with identifier `id`.
pub open spec fn index_of_id(rs: Seq<StoredRecordView>, id: u128) -> Option<int>
    decreases rs.len(),
{
    if rs.len() == 0 {
        None
    } else {
        match index_of_id(rs.drop_last(), id) {
            Some(i) => Some(i),
            None => if rs.last().id == id {
                Some(rs.len() - 1)
            } else {
                None
            },
        }
    }
}

/// Index of the last sync state recorded for `id`.
pub open spec fn state_index(states: Seq<(u128, SyncState)>, id: u128) -> Option<int>
    decreases states.len(),
{
    if states.len() == 0 {
        None
    } else if states.last().0 == id {
        Some(states.len() - 1)
    } else {
        state_index(states.drop_last(), id)
    }
}

impl VaultView {
    /// The sync state recorded for `id`, if any.
    pub open spec fn state_of(self, id: u128) -> Option<SyncState> {
        match state_index(self.states, id) {
            Some(i) => Some(self.states[i].1),
            None => None,
        }
    }

    /// The vault after replacing the record with the same identifier as `r`;
    /// unchanged where there is none.
    pub open spec fn updated(self, r: StoredRecordView) -> VaultView {
        match index_of_id(self.records, r.id) {
            Some(i) => VaultView { records: self.records.update(i, r), ..self },
            None => self,
        }
    }

    /// The vault after adding `r`, or `None` where a record with its identifier exists.
    pub open spec fn added(self, r: StoredRecordView) -> Option<VaultView> {
        match index_of_id(self.records, r.id) {
            Some(_) => None,
            None => Some(VaultView { records: self.records.push(r), ..self }),
        }
    }

    /// The vault after recording `st` as the sync state of `id`.
    pub open spec fn with_state(self, id: u128, st: SyncState) -> VaultView {
        match state_index(self.states, id) {
            Some(i) => VaultView { states: self.states.update(i, (id, st)), ..self },
            None => VaultView { states: self.states.push((id, st)), ..self },
        }
    }
}

/// After recording a state for `id`, that is the state of `id`, and every
/// other identifier keeps its state.
pub proof fn lemma_with_state(v: VaultView, id: u128, st: SyncState, other: u128)
    ensures
        v.with_state(id, st).state_of(id) == Some(st),
        other != id ==> v.with_state(id, st).state_of(other) == v.state_of(other),
        v.with_state(id, st).records == v.records,
{
    lemma_state_index(v.states, id);
    lemma_state_index(v.states, other);
    lemma_state_index_update(v.states, id, st, other);
}

proof fn lemma_state_index(states: Seq<(u128, SyncState)>, id: u128)
    ensures
        state_index(states, id) matches Some(i) ==> 0 <= i < states.len() && states[i].0 == id,
        state_index(states, id) is None ==> forall|k: int| 0 <= k < states.len() ==> states[k].0 != id,
    decreases states.len(),
{
    if states.len() > 0 {
        lemma_state_index(states.drop_last(), id);
        if states.last().0 != id {
            assert forall|k: int| 0 <= k < states.len() - 1 implies states[k] == states.drop_last()[k] by {}
        }
    }
}

proof fn lemma_state_index_same_ids(a: Seq<(u128, SyncState)>, b: Seq<(u128, SyncState)>, x: u128)
    requires
        a.len() == b.len(),
        forall|k: int| 0 <= k < a.len() ==> #[trigger] a[k].0 == b[k].0,
    ensures
        state_index(a, x) == state_index(b, x),
    decreases a.len(),
{
    if a.len() > 0 {
        lemma_state_index_same_ids(a.drop_last(), b.drop_last(), x);
        assert(a.last().0 == b.last().0);
    }
}

proof fn lemma_state_index_update(states: Seq<(u128, SyncState)>, id: u128, st: SyncState, other: u128)
    ensures
        ({
            let s2 = match state_index(states, id) {
                Some(i) => states.update(i, (id, st)),
                None => states.push((id, st)),
            };
            &&& state_index(s2, id) is Some
            &&& s2[state_index(s2, id)->0].1 == st
            &&& other != id ==> state_index(s2, other) == state_index(states, other)
        }),
{
    lemma_state_index(states, id);
    match state_index(states, id) {
        Some(i) => {
            let s2 = states.update(i, (id, st));
            assert forall|k: int| 0 <= k < s2.len() implies #[trigger] s2[k].0 == states[k].0 by {}
            lemma_state_index_same_ids(s2, states, id);
            lemma_state_index_same_ids(s2, states, other);
        },
        None => {
            let s2 = states.push((id, st));
            assert(s2.drop_last() =~= states);
        },
    }
}

/// The records and sync states of a vault.
#[derive(Debug)]
pub struct Vault {
    records: Vec<StoredRecord>,
    sync_states: Vec<(u128, SyncState)>,
}

impl View for Vault {
    type V = VaultView;

    closed spec fn view(&self) -> VaultView {
        VaultView { records: self.records@.map_values(|r: StoredRecord| r@), states: self.sync_states@ }
    }
}

impl Vault {
    /// An empty vault.
    pub fn new() -> (r: Self)
        ensures
            r@.records == Seq::<StoredRecordView>::empty(),
            r@.states == Seq::<(u128, SyncState)>::empty(),
    {
        let r = Vault { records: Vec::new(), sync_states: Vec::new() };
        assert(r@.records =~= Seq::<StoredRecordView>::empty());
        r
    }

    /// Copies of the records, in order.
    pub fn list_records(&self) -> (r: Vec<StoredRecord>)
        ensures
            r@.map_values(|x: StoredRecord| x@) == self@.records,
    {
        let mut out: Vec<StoredRecord> = Vec::new();
        let mut i: usize = 0;
        while i < self.records.len()
            invariant
                i <= self.records@.len(),
                out@.len() == i,
                forall|k: int| 0 <= k < i ==> #[trigger] out@[k]@ == self.records@[k]@,
            decreases self.records@.len() - i,
        {
            out.push(self.records[i].duplicate());
            i = i + 1;
        }
        assert(out@.map_values(|x: StoredRecord| x@) =~= self@.records);
        out
    }

    fn find_record(&self, id: u128) -> (r: Option<usize>)
        ensures
            r matches Some(i) ==> index_of_id(self@.records, id) == Some(i as int) && i < self@.records.len(),
            r is None ==> index_of_id(self@.records, id) is None,
    {
        let mut i: usize = 0;
        while i < self.records.len()
            invariant
                i <= self.records@.len(),
                index_of_id(self@.records.take(i as int), id) is None,
            decreases self.records@.len() - i,
        {
            assert(self@.records.take(i + 1).drop_last() =~= self@.records.take(i as int));
            if self.records[i].id == id {
                proof {
                    lemma_index_of_id_prefix(self@.records, id, i + 1);
                }
                return Some(i);
            }
            i = i + 1;
        }
        assert(self@.records.take(i as int) =~= self@.records);
        None
    }

    /// Replaces the record with the same identifier; does nothing where there is none.
    pub fn update_record(&mut self, record: &StoredRecord) -> (r: Result<(), KeyringError>)
        ensures
            r is Ok,
            final(self)@ == old(self)@.updated(record@),
    {
        match self.find_record(record.id) {
            Some(i) => {
                let ghost before = self@;
                self.records.set(i, record.duplicate());
                assert(self@.records =~= before.records.update(i as int, record@));
            },
            None => {},
        }
        Ok(())
    }

    /// Adds a record; refused where a record with its identifier exists.
    pub fn add_record(&mut self, record: &StoredRecord) -> (r: Result<(), KeyringError>)
        ensures
            r is Ok <==> old(self)@.added(record@) is Some,
            r is Ok ==> final(self)@ == old(self)@.added(record@)->0,
            r is Err ==> final(self)@ == old(self)@,
    {
        match self.find_record(record.id) {
            Some(_) => Err(KeyringError::InvalidInput { context: String::from_str("A record with this id already exists") }),
            None => {
                let ghost before = self@;
                self.records.push(record.duplicate());
                assert(self@.records =~= before.records.push(record@));
                Ok(())
            },
        }
    }

    /// The sync state recorded for a record.
    pub fn get_sync_state(&self, id: u128) -> (r: Option<SyncState>)
        ensures
            r == self@.state_of(id),
    {
        let mut i: usize = self.sync_states.len();
        assert(self.sync_states@.take(i as int) =~= self.sync_states@);
        while i > 0
            invariant
                i <= self.sync_states@.len(),
                state_index(self.sync_states@, id) == state_index(self.sync_states@.take(i as int), id),
            decreases i,
        {
            assert(self.sync_states@.take(i as int).drop_last() =~= self.sync_states@.take(i - 1));
            if self.sync_states[i - 1].0 == id {
                return Some(self.sync_states[i - 1].1);
            }
            i = i - 1;
        }
        None
    }

    /// Records the sync state of a record.
    pub fn set_sync_state(&mut self, id: u128, last_synced: Option<i64>, status: RecordSyncStatus) -> (r: Result<(), KeyringError>)
        ensures
            r is Ok,
            final(self)@ == old(self)@.with_state(id, SyncState { sync_status: status, last_synced }),
    {
        let st = SyncState { sync_status: status, last_synced };
        let ghost before = self@;
        let mut i: usize = self.sync_states.len();
        assert(self.sync_states@.take(i as int) =~= self.sync_states@);
        while i > 0
            invariant
                i <= self.sync_states@.len(),
                self@ == before,
                before == old(self)@,
                st == (SyncState { sync_status: status, last_synced }),
                state_index(self.sync_states@, id) == state_index(self.sync_states@.take(i as int), id),
            decreases i,
        {
            assert(self.sync_states@.take(i as int).drop_last() =~= self.sync_states@.take(i - 1));
            if self.sync_states[i - 1].0 == id {
                assert(self.sync_states@.take(i as int).last().0 == id);
                assert(state_index(self.sync_states@.take(i as int), id) == Some(i - 1));
                self.sync_states.set(i - 1, (id, st));
                assert(self@.states =~= before.states.update(i - 1, (id, st)));
                assert(self@.records =~= before.records);
                assert(state_index(before.states, id) == Some(i - 1));
                assert(self@ == before.with_state(id, st));
                return Ok(());
            }
            i = i - 1;
        }
        self.sync_states.push((id, st));
        assert(self@.states =~= before.states.push((id, st)));
        assert(self@.records =~= before.records);
        Ok(())
    }
}

/// A found index lies in the sequence and holds a record with the identifier.
pub proof fn lemma_index_of_id_found(rs: Seq<StoredRecordView>, id: u128)
    ensures
        index_of_id(rs, id) matches Some(i) ==> 0 <= i < rs.len() && rs[i].id == id,
    decreases rs.len(),
{
    if rs.len() > 0 {
        lemma_index_of_id_found(rs.drop_last(), id);
    }
}

proof fn lemma_index_of_id_prefix(rs: Seq<StoredRecordView>, id: u128, n: int)
    requires
        0 < n <= rs.len(),
        rs[n - 1].id == id,
        index_of_id(rs.take(n - 1), id) is None,
    ensures
        index_of_id(rs, id) == Some(n - 1),
    decreases rs.len(),
{
    if n < rs.len() {
        assert(rs.drop_last().take(n - 1) =~= rs.take(n - 1));
        lemma_index_of_id_prefix(rs.drop_last(), id, n);
    } else {
        assert(rs.drop_last() =~= rs.take(n - 1));
    }
}

} // verus!
