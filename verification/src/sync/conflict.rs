//! Detection and resolution of conflicts between local and remote records.
use vstd::prelude::*;
use crate::sync::records::{SyncRecord, SyncRecordView};

verus! {

/// How a conflict between a local and a remote record is settled.
#[derive(Debug, Clone, Copy, PartialEq, Eq, Structural)]
pub enum ConflictResolution {
    /// Keep the record with the higher version.
    Newer,
    /// Keep the record with the lower version.
    Older,
    /// Keep the local record.
    Local,
    /// Keep the remote record.
    Remote,
    /// Merge both records.
    Merge,
    /// Ask the user.
    Interactive,
}

/// The records of a slice, each by its model.
pub open spec fn records_view(rs: Seq<SyncRecord>) -> Seq<SyncRecordView> {
    rs.map_values(|r: SyncRecord| r@)
}

/// Model of an optional record.
pub open spec fn opt_record_view(o: Option<SyncRecord>) -> Option<SyncRecordView> {
    match o {
        Some(r) => Some(r@),
        None => None,
    }
}

/// Model of a conflict.
pub struct ConflictView {
    pub id: Seq<char>,
    pub local: Option<SyncRecordView>,
    pub remote: Option<SyncRecordView>,
    pub resolution: Option<ConflictResolution>,
}

/// A record identifier with its local and remote versions, and how it was settled.
#[derive(Debug, Clone)]
pub struct Conflict {
    pub id: String,
    pub local_record: Option<SyncRecord>,
    pub remote_record: Option<SyncRecord>,
    pub resolution: Option<ConflictResolution>,
}

impl View for Conflict {
    type V = ConflictView;

    open spec fn view(&self) -> ConflictView {
        ConflictView {
            id: self.id@,
            local: opt_record_view(self.local_record),
            remote: opt_record_view(self.remote_record),
            resolution: self.resolution,
        }
    }
}

/// The conflicts of a list, each by its model.
pub open spec fn conflicts_view(cs: Seq<Conflict>) -> Seq<ConflictView> {
    cs.map_values(|c: Conflict| c@)
}

fn copy_opt_record(o: &Option<SyncRecord>) -> (r: Option<SyncRecord>)
    ensures
        opt_record_view(r) == opt_record_view(*o),
{
    match o {
        Some(x) => Some(x.duplicate()),
        None => None,
    }
}

impl Conflict {
    /// A conflict not settled yet.
    pub fn new(id: String, local: Option<SyncRecord>, remote: Option<SyncRecord>) -> (r: Self)
        ensures
            r@ == (ConflictView {
                id: id@,
                local: opt_record_view(local),
                remote: opt_record_view(remote),
                resolution: None,
            }),
    {
        Conflict { id, local_record: local, remote_record: remote, resolution: None }
    }

    /// Whether both a local and a remote record are present.
    pub fn is_conflict(&self) -> (b: bool)
        ensures
            b == (self.local_record is Some && self.remote_record is Some),
    {
        self.local_record.is_some() && self.remote_record.is_some()
    }

    /// A copy of this conflict.
    pub fn duplicate(&self) -> (r: Self)
        ensures
            r@ == self@,
    {
        Conflict {
            id: self.id.clone(),
            local_record: copy_opt_record(&self.local_record),
            remote_record: copy_opt_record(&self.remote_record),
            resolution: self.resolution,
        }
    }
}

/// Index of the last record of `rs` with identifier `id`, if any: where
/// several remote records share an identifier, the last one is the one kept.
pub open spec fn last_index_with_id(rs: Seq<SyncRecordView>, id: Seq<char>) -> Option<int>
    decreases rs.len(),
{
    if rs.len() == 0 {
        None
    } else if rs.last().id == id {
        Some(rs.len() - 1)
    } else {
        last_index_with_id(rs.drop_last(), id)
    }
}

/// The conflict a local record has with the remote records, if any: the last
/// remote record with its identifier carries another version.
pub open spec fn conflict_for(l: SyncRecordView, remote: Seq<SyncRecordView>) -> Option<ConflictView> {
    match last_index_with_id(remote, l.id) {
        Some(j) => if remote[j].version != l.version {
            Some(ConflictView { id: l.id, local: Some(l), remote: Some(remote[j]), resolution: None })
        } else {
            None
        },
        None => None,
    }
}

/// The conflicts between local and remote records, in the order of the local records.
pub open spec fn conflicts_between(local: Seq<SyncRecordView>, remote: Seq<SyncRecordView>) -> Seq<ConflictView>
    decreases local.len(),
{
    if local.len() == 0 {
        Seq::empty()
    } else {
        let rest = conflicts_between(local.drop_last(), remote);
        match conflict_for(local.last(), remote) {
            Some(c) => rest.push(c),
            None => rest,
        }
    }
}

/// The conflicts, each settled with `res`.
pub open spec fn settled(cs: Seq<ConflictView>, res: ConflictResolution) -> Seq<ConflictView> {
    cs.map_values(|c: ConflictView| ConflictView { resolution: Some(res), ..c })
}

/// The record with the higher version; the local one when both versions are equal.
pub open spec fn newer_of(local: SyncRecordView, remote: SyncRecordView) -> SyncRecordView {
    if local.version >= remote.version {
        local
    } else {
        remote
    }
}

fn last_index_of_id(rs: &[SyncRecord], id: &String) -> (r: Option<usize>)
    ensures
        match r {
            Some(j) => last_index_with_id(records_view(rs@), id@) == Some(j as int) && j < rs@.len(),
            None => last_index_with_id(records_view(rs@), id@) is None,
        },
{
    let mut i: usize = rs.len();
    assert(rs@.take(i as int) =~= rs@);
    while i > 0
        invariant
            i <= rs@.len(),
            last_index_with_id(records_view(rs@), id@) == last_index_with_id(records_view(rs@.take(i as int)), id@),
        decreases i,
    {
        assert(records_view(rs@.take(i as int)).drop_last() =~= records_view(rs@.take(i - 1)));
        assert(records_view(rs@.take(i as int)).last() == rs@[i - 1]@);
        if rs[i - 1].id == *id {
            return Some(i - 1);
        }
        i = i - 1;
    }
    None
}

/// The resolver that compares versions.
pub struct DefaultConflictResolver;

/// Finds and settles conflicts between local and remote sync records.
pub trait ConflictResolver {
    /// The conflicts between the local and the remote records.
    fn detect_conflicts(&self, local_records: &[SyncRecord], remote_records: &[SyncRecord]) -> (r: Vec<Conflict>);

    /// The conflicts, each settled with `resolution`.
    fn resolve_conflicts(&self, conflicts: &[Conflict], resolution: ConflictResolution) -> (r: Vec<Conflict>);

    /// The conflicts, each settled automatically.
    fn auto_resolve_conflicts(&self, conflicts: &[Conflict]) -> (r: Vec<Conflict>);
}

impl ConflictResolver for DefaultConflictResolver {
    /// Pairs each local record with the remote record of the same identifier
    /// and reports those whose versions differ.
    fn detect_conflicts(&self, local_records: &[SyncRecord], remote_records: &[SyncRecord]) -> (r: Vec<Conflict>)
        ensures
            conflicts_view(r@) == conflicts_between(records_view(local_records@), records_view(remote_records@)),
    {
        let ghost rv = records_view(remote_records@);
        let mut conflicts: Vec<Conflict> = Vec::new();
        let mut i: usize = 0;
        while i < local_records.len()
            invariant
                i <= local_records@.len(),
                rv == records_view(remote_records@),
                conflicts_view(conflicts@) == conflicts_between(records_view(local_records@.take(i as int)), rv),
            decreases local_records@.len() - i,
        {
            let local = &local_records[i];
            assert(records_view(local_records@.take(i + 1)).drop_last() =~= records_view(local_records@.take(i as int)));
            assert(records_view(local_records@.take(i + 1)).last() == local@);
            let ghost before = conflicts@;
            match last_index_of_id(remote_records, &local.id) {
                Some(j) => {
                    let remote = &remote_records[j];
                    assert(rv[j as int] == remote@);
                    if self.has_changes(local, remote) {
                        let c = Conflict::new(local.id.clone(), Some(local.duplicate()), Some(remote.duplicate()));
                        conflicts.push(c);
                        assert(conflicts_view(conflicts@) =~= conflicts_view(before).push(c@));
                    }
                },
                None => {},
            }
            i = i + 1;
        }
        assert(local_records@.take(i as int) =~= local_records@);
        conflicts
    }

    /// The conflicts, each settled with `resolution`.
    fn resolve_conflicts(&self, conflicts: &[Conflict], resolution: ConflictResolution) -> (r: Vec<Conflict>)
        ensures
            conflicts_view(r@) == settled(conflicts_view(conflicts@), resolution),
    {
        let mut out: Vec<Conflict> = Vec::new();
        let mut i: usize = 0;
        while i < conflicts.len()
            invariant
                i <= conflicts@.len(),
                conflicts_view(out@) == settled(conflicts_view(conflicts@.take(i as int)), resolution),
            decreases conflicts@.len() - i,
        {
            let mut c = conflicts[i].duplicate();
            c.resolution = Some(resolution);
            let ghost before = out@;
            out.push(c);
            i = i + 1;
            assert(conflicts_view(out@) =~= settled(conflicts_view(conflicts@.take(i as int)), resolution)) by {
                assert(conflicts_view(out@) =~= conflicts_view(before).push(c@));
                assert(conflicts_view(conflicts@.take(i as int)) =~= conflicts_view(conflicts@.take(i - 1)).push(conflicts@[i - 1]@));
            }
        }
        assert(conflicts@.take(i as int) =~= conflicts@);
        out
    }

    /// The conflicts, each settled by keeping the newer record.
    fn auto_resolve_conflicts(&self, conflicts: &[Conflict]) -> (r: Vec<Conflict>)
        ensures
            conflicts_view(r@) == settled(conflicts_view(conflicts@), ConflictResolution::Newer),
    {
        self.resolve_conflicts(conflicts, ConflictResolution::Newer)
    }
}

impl DefaultConflictResolver {
    /// Whether the two records carry different versions.
    pub fn has_changes(&self, local: &SyncRecord, remote: &SyncRecord) -> (b: bool)
        ensures
            b == (local.version != remote.version),
    {
        local.version != remote.version
    }

    /// The record with the higher version; the local one when the versions are equal.
    pub fn get_newer_record<'a>(&self, local: &'a SyncRecord, remote: &'a SyncRecord) -> (r: &'a SyncRecord)
        ensures
            r@ == newer_of(local@, remote@),
            local.version >= remote.version ==> r == local,
            local.version < remote.version ==> r == remote,
    {
        if local.version >= remote.version {
            local
        } else {
            remote
        }
    }
}

/// Settling conflicts keeps each conflict's identifier and records and only
/// sets how it is settled, whatever the resolution.
pub proof fn law_settling_keeps_records(cs: Seq<ConflictView>, res: ConflictResolution, i: int)
    requires
        0 <= i < cs.len(),
    ensures
        settled(cs, res).len() == cs.len(),
        settled(cs, res)[i].id == cs[i].id,
        settled(cs, res)[i].local == cs[i].local,
        settled(cs, res)[i].remote == cs[i].remote,
        settled(cs, res)[i].resolution == Some(res),
{
}

/// Every detected conflict holds both records, under the same identifier, with
/// different versions.
pub proof fn law_detected_conflicts_are_conflicts(local: Seq<SyncRecordView>, remote: Seq<SyncRecordView>, i: int)
    requires
        0 <= i < conflicts_between(local, remote).len(),
    ensures
        conflicts_between(local, remote)[i].local is Some,
        conflicts_between(local, remote)[i].remote is Some,
        conflicts_between(local, remote)[i].local->0.id == conflicts_between(local, remote)[i].id,
        conflicts_between(local, remote)[i].remote->0.id == conflicts_between(local, remote)[i].id,
        conflicts_between(local, remote)[i].local->0.version != conflicts_between(local, remote)[i].remote->0.version,
        conflicts_between(local, remote)[i].resolution is None,
    decreases local.len(),
{
    let rest = conflicts_between(local.drop_last(), remote);
    if i < rest.len() {
        law_detected_conflicts_are_conflicts(local.drop_last(), remote, i);
    } else {
        lemma_last_index_with_id(remote, local.last().id);
    }
}

/// The index found for an identifier points at a record with that identifier.
pub proof fn lemma_last_index_with_id(rs: Seq<SyncRecordView>, id: Seq<char>)
    ensures
        last_index_with_id(rs, id) matches Some(j) ==> 0 <= j < rs.len() && rs[j].id == id,
        last_index_with_id(rs, id) is None ==> forall|k: int| 0 <= k < rs.len() ==> rs[k].id != id,
    decreases rs.len(),
{
    if rs.len() > 0 {
        lemma_last_index_with_id(rs.drop_last(), id);
        if rs.last().id != id {
            assert forall|k: int| 0 <= k < rs.len() - 1 implies rs[k] == rs.drop_last()[k] by {}
        }
    }
}

} // verus!
