use vstd::prelude::*;

use dashmap::DashMap;

use crate::error::{TapferError, TapferResult};
use crate::file_meta::FileMeta;
use crate::tapfer_id::TapferId;
use crate::upload_fsm::{FsmOp, UploadFsm};
use vstd::multiset::Multiset;

verus! {

#[verifier::external_type_specification]
#[verifier::external_body]
#[verifier::reject_recursive_types(K)]
#[verifier::reject_recursive_types(V)]
#[verifier::reject_recursive_types(S)]
pub struct ExDashMap<K, V, S>(DashMap<K, V, S>);

/// The entries that a map of running uploads holds, keyed by the value of the
/// asset identifier.
pub uninterp spec fn pool_contents(m: DashMap<u128, TransferEntry>) -> Map<u128, TransferEntry>;

/// Relies on `dashmap::DashMap::new`: an empty map.
#[verifier::external_body]
fn map_new() -> (r: DashMap<u128, TransferEntry>)
    ensures
        pool_contents(r).dom() == Set::<u128>::empty(),
{
    DashMap::new()
}

/// Relies on `dashmap::DashMap::insert`: the key now maps to the value, and
/// the value it mapped to before is returned.
#[verifier::external_body]
fn map_insert(m: &mut DashMap<u128, TransferEntry>, k: u128, v: TransferEntry) -> (r: Option<TransferEntry>)
    ensures
        pool_contents(*final(m)) == pool_contents(*old(m)).insert(k, v),
        r == (if pool_contents(*old(m)).contains_key(k) {
            Some(pool_contents(*old(m))[k])
        } else {
            None
        }),
{
    m.insert(k, v)
}

/// Relies on `dashmap::DashMap::remove`: the key no longer maps to anything,
/// and the value it mapped to is returned.
#[verifier::external_body]
fn map_remove(m: &mut DashMap<u128, TransferEntry>, k: u128) -> (r: Option<TransferEntry>)
    ensures
        pool_contents(*final(m)) == pool_contents(*old(m)).remove(k),
        r == (if pool_contents(*old(m)).contains_key(k) {
            Some(pool_contents(*old(m))[k])
        } else {
            None
        }),
{
    m.remove(&k).map(|(_, v)| v)
}

/// Relies on `dashmap::DashMap::get`: the value the key maps to, copied out.
#[verifier::external_body]
fn map_get(m: &DashMap<u128, TransferEntry>, k: u128) -> (r: Option<TransferEntry>)
    ensures
        r == (if pool_contents(*m).contains_key(k) {
            Some(pool_contents(*m)[k])
        } else {
            None
        }),
{
    m.get(&k).map(|e| e.value().duplicate())
}

/// Relies on `dashmap::DashMap::contains_key`.
#[verifier::external_body]
fn map_contains_key(m: &DashMap<u128, TransferEntry>, k: u128) -> (r: bool)
    ensures
        r == pool_contents(*m).contains_key(k),
{
    m.contains_key(&k)
}

/// Relies on `dashmap::DashMap::len`: the number of keys.
#[verifier::external_body]
fn map_len(m: &DashMap<u128, TransferEntry>) -> (r: usize)
    ensures
        r == pool_contents(*m).len(),
{
    m.len()
}

/// What the registry holds for one running upload: its state, how many
/// handles to it are held outside the registry, and the metadata snapshot
/// taken when it began.
#[derive(Debug, Clone)]
pub struct TransferEntry {
    pub fsm: UploadFsm,
    pub holders: u64,
    pub meta: FileMeta,
}

impl TransferEntry {
    /// A copy of the entry.
    pub fn duplicate(&self) -> (r: TransferEntry)
        ensures
            r == *self,
    {
        TransferEntry { fsm: self.fsm, holders: self.holders, meta: self.meta.duplicate() }
    }
}

/// A handle to a running upload, held outside the registry. The registry
/// counts the handles it gave out; each is given back with
/// [`UploadPool::release`].
#[derive(Debug)]
pub struct UploadHandle {
    id: TapferId,
    file_meta: FileMeta,
}

impl UploadHandle {
    pub closed spec fn id_spec(self) -> TapferId {
        self.id
    }

    pub closed spec fn meta_spec(self) -> FileMeta {
        self.file_meta
    }

    /// The metadata snapshot taken when the upload began.
    pub fn file_meta(&self) -> (r: &FileMeta)
        ensures
            *r == self.meta_spec(),
    {
        &self.file_meta
    }

    pub fn id(&self) -> (r: TapferId)
        ensures
            r == self.id_spec(),
    {
        self.id
    }

    /// The current state of the upload, as the registry holds it.
    pub fn read_fsm(&self, pool: &UploadPool) -> (r: Option<UploadFsm>)
        ensures
            r == pool.state_spec(self.id_spec()),
    {
        pool.state(self.id)
    }

    /// Whether the upload has completed.
    pub fn is_complete(&self, pool: &UploadPool) -> (r: bool)
        ensures
            r == (pool.state_spec(self.id_spec()) == Some(UploadFsm::Completed)),
    {
        match pool.state(self.id) {
            Some(fsm) => fsm.is_complete(),
            None => false,
        }
    }
}

/// What giving back a handle did.
#[derive(Debug, Clone, Copy, PartialEq, Eq, Structural)]
pub enum Release {
    /// Other handles to the upload are still held.
    Retained,
    /// That was the last handle; the entry is gone. `in_progress` reports the
    /// anomaly of an upload that was neither completed nor failed.
    Removed { in_progress: bool },
    /// The registry holds no such upload.
    Unknown,
}

/// One call on the registry, named by the value of the id it concerns:
/// beginning a transfer, taking a further handle, or giving one back.
pub enum PoolOp {
    Begin(u128, FileMeta),
    Lookup(u128),
    Release(u128),
}

/// The registry's entries after one call.
pub open spec fn pool_step(m: Map<u128, TransferEntry>, op: PoolOp) -> Map<u128, TransferEntry> {
    match op {
        PoolOp::Begin(k, meta) => m.insert(
            k,
            TransferEntry { fsm: UploadFsm::InProgress { progress: 0 }, holders: 1, meta },
        ),
        PoolOp::Lookup(k) => if m.contains_key(k) && m[k].holders < u64::MAX {
            m.insert(k, TransferEntry { holders: (m[k].holders + 1) as u64, ..m[k] })
        } else {
            m
        },
        PoolOp::Release(k) => if !m.contains_key(k) {
            m
        } else if m[k].holders > 1 {
            m.insert(k, TransferEntry { holders: (m[k].holders - 1) as u64, ..m[k] })
        } else {
            m.remove(k)
        },
    }
}

/// The registry's entries after a sequence of calls on an empty registry.
pub open spec fn pool_run(ops: Seq<PoolOp>) -> Map<u128, TransferEntry>
    decreases ops.len(),
{
    if ops.len() == 0 {
        Map::empty()
    } else {
        pool_step(pool_run(ops.drop_last()), ops.last())
    }
}

/// The handles given out by a sequence of calls and not given back, by id.
pub open spec fn outstanding(ops: Seq<PoolOp>) -> Multiset<u128>
    decreases ops.len(),
{
    if ops.len() == 0 {
        Multiset::empty()
    } else {
        let prev = outstanding(ops.drop_last());
        let m = pool_run(ops.drop_last());
        match ops.last() {
            PoolOp::Begin(k, _) => prev.insert(k),
            PoolOp::Lookup(k) => if m.contains_key(k) && m[k].holders < u64::MAX {
                prev.insert(k)
            } else {
                prev
            },
            PoolOp::Release(k) => prev.remove(k),
        }
    }
}

/// A sequence of calls as the registry's users make them: a transfer begins
/// under an id that is not running, and only a handle that is held is given
/// back.
pub open spec fn valid_calls(ops: Seq<PoolOp>) -> bool
    decreases ops.len(),
{
    ops.len() == 0 || {
        &&& valid_calls(ops.drop_last())
        &&& match ops.last() {
            PoolOp::Begin(k, _) => !pool_run(ops.drop_last()).contains_key(k),
            PoolOp::Lookup(_) => true,
            PoolOp::Release(k) => outstanding(ops.drop_last()).count(k) >= 1,
        }
    }
}

/// The registry of running uploads.
#[derive(Debug)]
pub struct UploadPool {
    uploads: DashMap<u128, TransferEntry>,
}

impl UploadPool {
    pub closed spec fn entries(self) -> Map<u128, TransferEntry> {
        pool_contents(self.uploads)
    }

    /// Every entry is held by at least one handle, and there are finitely many.
    pub open spec fn wf(self) -> bool {
        &&& self.entries().dom().finite()
        &&& forall|k: u128| #[trigger] self.entries().contains_key(k) ==> self.entries()[k].holders >= 1
    }

    pub open spec fn has(self, id: TapferId) -> bool {
        self.entries().contains_key(id.value())
    }

    pub open spec fn entry(self, id: TapferId) -> TransferEntry {
        self.entries()[id.value()]
    }

    /// The state of the upload, if it is running.
    pub open spec fn state_spec(self, id: TapferId) -> Option<UploadFsm> {
        if self.has(id) {
            Some(self.entry(id).fsm)
        } else {
            None
        }
    }

    /// What giving back a handle to the upload reports.
    pub open spec fn release_result(self, id: TapferId) -> Release {
        if !self.has(id) {
            Release::Unknown
        } else if self.entry(id).holders > 1 {
            Release::Retained
        } else {
            Release::Removed { in_progress: self.entry(id).fsm is InProgress }
        }
    }

    /// The entries after a handle to the upload is given back: one holder
    /// fewer, and no entry once none is left.
    pub open spec fn entries_after_release(self, id: TapferId) -> Map<u128, TransferEntry> {
        if !self.has(id) {
            self.entries()
        } else if self.entry(id).holders > 1 {
            self.entries().insert(
                id.value(),
                TransferEntry { holders: (self.entry(id).holders - 1) as u64, ..self.entry(id) },
            )
        } else {
            self.entries().remove(id.value())
        }
    }

    /// An empty registry.
    pub fn new() -> (r: UploadPool)
        ensures
            r.wf(),
            r.entries().dom() == Set::<u128>::empty(),
    {
        UploadPool { uploads: map_new() }
    }

    /// Begins a transfer: a fresh in-progress state with the metadata
    /// snapshot, and one handle to it, which is returned. An entry that the id
    /// had is replaced.
    pub fn handle(&mut self, id: TapferId, file_meta: FileMeta) -> (h: UploadHandle)
        requires
            old(self).wf(),
        ensures
            final(self).wf(),
            final(self).entries() == old(self).entries().insert(
                id.value(),
                TransferEntry { fsm: UploadFsm::InProgress { progress: 0 }, holders: 1, meta: file_meta },
            ),
            final(self).entries() == pool_step(old(self).entries(), PoolOp::Begin(id.value(), file_meta)),
            h.id_spec() == id,
            h.meta_spec() == file_meta,
    {
        let entry = TransferEntry {
            fsm: UploadFsm::initial(),
            holders: 1,
            meta: file_meta.duplicate(),
        };
        let _ = map_insert(&mut self.uploads, id.as_u128(), entry);
        UploadHandle { id, file_meta }
    }

    /// A further handle to a running upload. The registry counts it. There is
    /// none where the upload is not running, or where the count is at its
    /// largest.
    pub fn lookup(&mut self, id: TapferId) -> (r: Option<UploadHandle>)
        requires
            old(self).wf(),
        ensures
            final(self).wf(),
            final(self).entries() == pool_step(old(self).entries(), PoolOp::Lookup(id.value())),
            (old(self).has(id) && old(self).entry(id).holders < u64::MAX) ==> {
                &&& r is Some
                &&& r->Some_0.id_spec() == id
                &&& r->Some_0.meta_spec() == old(self).entry(id).meta
                &&& final(self).entries() == old(self).entries().insert(
                    id.value(),
                    TransferEntry { holders: (old(self).entry(id).holders + 1) as u64, ..old(self).entry(id) },
                )
            },
            !(old(self).has(id) && old(self).entry(id).holders < u64::MAX) ==> {
                &&& r is None
                &&& final(self).entries() == old(self).entries()
            },
    {
        match map_get(&self.uploads, id.as_u128()) {
            Some(entry) => {
                if entry.holders < u64::MAX {
                    let meta = entry.meta.duplicate();
                    let updated = TransferEntry { holders: entry.holders + 1, ..entry };
                    let _ = map_insert(&mut self.uploads, id.as_u128(), updated);
                    Some(UploadHandle { id, file_meta: meta })
                } else {
                    None
                }
            },
            None => None,
        }
    }

    /// Gives a handle back. When it was the last one, the entry is removed,
    /// whatever the state of the upload; an upload still in progress is
    /// reported as such.
    pub fn release(&mut self, handle: UploadHandle) -> (r: Release)
        requires
            old(self).wf(),
        ensures
            final(self).wf(),
            r == old(self).release_result(handle.id_spec()),
            final(self).entries() == old(self).entries_after_release(handle.id_spec()),
            final(self).entries() == pool_step(old(self).entries(), PoolOp::Release(handle.id_spec().value())),
    {
        let k = handle.id.as_u128();
        match map_get(&self.uploads, k) {
            None => Release::Unknown,
            Some(entry) => {
                if entry.holders > 1 {
                    let updated = TransferEntry { holders: entry.holders - 1, ..entry };
                    let _ = map_insert(&mut self.uploads, k, updated);
                    Release::Retained
                } else {
                    let in_progress = !entry.fsm.is_complete() && !entry.fsm.is_failed();
                    let _ = map_remove(&mut self.uploads, k);
                    Release::Removed { in_progress }
                }
            },
        }
    }

    /// Whether an upload with this id is running.
    pub fn contains(&self, id: TapferId) -> (r: bool)
        ensures
            r == self.has(id),
    {
        map_contains_key(&self.uploads, id.as_u128())
    }

    /// The number of running uploads.
    pub fn len(&self) -> (r: usize)
        ensures
            r == self.entries().len(),
    {
        map_len(&self.uploads)
    }

    /// The state of a running upload.
    pub fn state(&self, id: TapferId) -> (r: Option<UploadFsm>)
        ensures
            r == self.state_spec(id),
    {
        match map_get(&self.uploads, id.as_u128()) {
            Some(entry) => Some(entry.fsm),
            None => None,
        }
    }

    /// Replaces the state of a running upload, keeping the rest of its entry.
    fn set_state(&mut self, id: TapferId, fsm: UploadFsm)
        requires
            old(self).wf(),
            old(self).has(id),
        ensures
            final(self).wf(),
            final(self).entries() == old(self).entries().insert(
                id.value(),
                TransferEntry { fsm, ..old(self).entry(id) },
            ),
    {
        let k = id.as_u128();
        match map_get(&self.uploads, k) {
            Some(entry) => {
                let updated = TransferEntry { fsm, ..entry };
                let _ = map_insert(&mut self.uploads, k, updated);
            },
            None => {},
        }
    }

    /// Adds bytes written to disk to the progress of the upload. After
    /// completion or failure this is an error that names the state, and
    /// nothing changes. An upload that is not running is left alone.
    pub fn add_progress(&mut self, handle: &UploadHandle, n: u64) -> (r: TapferResult<()>)
        requires
            old(self).wf(),
            old(self).state_spec(handle.id_spec()) matches Some(UploadFsm::InProgress { progress })
                ==> progress + n <= u64::MAX,
        ensures
            final(self).wf(),
            ({
                let id = handle.id_spec();
                if old(self).has(id) {
                    &&& final(self).entries() == old(self).entries().insert(
                        id.value(),
                        TransferEntry { fsm: old(self).entry(id).fsm.apply(FsmOp::AddProgress(n)), ..old(self).entry(id) },
                    )
                    &&& (r is Ok <==> old(self).entry(id).fsm is InProgress)
                    &&& (old(self).entry(id).fsm.is_terminal() ==> (r matches Err(TapferError::UploadHandleSize(s))
                        && s == old(self).entry(id).fsm))
                } else {
                    r is Ok && final(self).entries() == old(self).entries()
                }
            }),
    {
        match self.state(handle.id) {
            Some(fsm) => {
                let mut fsm = fsm;
                let res = fsm.add_progress(n);
                if res.is_ok() {
                    self.set_state(handle.id, fsm);
                }
                res
            },
            None => Ok(()),
        }
    }

    /// Marks the upload as completed.
    pub fn mark_complete(&mut self, handle: &UploadHandle)
        requires
            old(self).wf(),
        ensures
            final(self).wf(),
            old(self).has(handle.id_spec()) ==> final(self).entries() == old(self).entries().insert(
                handle.id_spec().value(),
                TransferEntry { fsm: UploadFsm::Completed, ..old(self).entry(handle.id_spec()) },
            ),
            !old(self).has(handle.id_spec()) ==> final(self).entries() == old(self).entries(),
    {
        if self.contains(handle.id) {
            self.set_state(handle.id, UploadFsm::Completed);
        }
    }

    /// Marks the upload with this id as failed, if it is running, and says
    /// whether it was.
    pub fn mark_failed(&mut self, id: TapferId) -> (r: bool)
        requires
            old(self).wf(),
        ensures
            final(self).wf(),
            r == old(self).has(id),
            r ==> final(self).entries() == old(self).entries().insert(
                id.value(),
                TransferEntry { fsm: UploadFsm::Failed, ..old(self).entry(id) },
            ),
            !r ==> final(self).entries() == old(self).entries(),
    {
        if self.contains(id) {
            self.set_state(id, UploadFsm::Failed);
            true
        } else {
            false
        }
    }
}

/// The entries are exactly the ids with handles outstanding, each holding
/// as many as are outstanding.
spec fn matches_outstanding(m: Map<u128, TransferEntry>, out: Multiset<u128>) -> bool {
    forall|k: u128|
        (#[trigger] m.contains_key(k) <==> out.count(k) >= 1) && (m.contains_key(k) ==> m[k].holders
            == out.count(k))
}

proof fn lemma_run_matches_outstanding(ops: Seq<PoolOp>)
    requires
        valid_calls(ops),
    ensures
        matches_outstanding(pool_run(ops), outstanding(ops)),
    decreases ops.len(),
{
    if ops.len() > 0 {
        let prefix = ops.drop_last();
        lemma_run_matches_outstanding(prefix);
        let m = pool_run(prefix);
        let prev = outstanding(prefix);
        let m2 = pool_run(ops);
        let out = outstanding(ops);
        assert forall|k: u128|
            (#[trigger] m2.contains_key(k) <==> out.count(k) >= 1) && (m2.contains_key(k) ==> m2[k].holders
                == out.count(k)) by {
            assert(m.contains_key(k) <==> prev.count(k) >= 1);
        }
    }
}

/// Abandonment leaves no dangling entries: after any sequence of calls that
/// begins transfers under ids that are not running and gives back only
/// handles that are held, an id has an entry exactly while handles to it are
/// outstanding, with that many holders, so the registry's size is the number
/// of ids with outstanding handles. In particular, giving back the last
/// handle removes the entry, also of an upload still in progress.
pub proof fn lemma_registry_tracks_handles(ops: Seq<PoolOp>, k: u128)
    requires
        valid_calls(ops),
    ensures
        pool_run(ops).contains_key(k) <==> outstanding(ops).count(k) >= 1,
        pool_run(ops).contains_key(k) ==> pool_run(ops)[k].holders == outstanding(ops).count(k),
        pool_run(ops).dom() == outstanding(ops).dom(),
{
    lemma_run_matches_outstanding(ops);
    assert(pool_run(ops).dom() =~= outstanding(ops).dom());
}

} // verus!
