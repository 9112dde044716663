use vstd::prelude::*;

use crate::error::{TapferError, TapferResult};
use crate::file_meta::FileMeta;
use crate::tapfer_id::TapferId;
use crate::upload_fsm::UploadFsm;
use crate::upload_pool::{UploadHandle, UploadPool};

verus! {

/// Whether a download reads a finished file or one that is still being
/// uploaded.
#[derive(Debug)]
pub enum UpDownFsm {
    Completed,
    /// The upload is running; `progress` counts the bytes delivered to this
    /// download so far.
    UpdownInProgress { progress: u64, handle: UploadHandle },
}

impl UpDownFsm {
    /// Counts bytes delivered to a download of a running upload. A download
    /// of a finished file counts nothing.
    pub fn add_progress(&mut self, additional: u64)
        requires
            *old(self) is UpdownInProgress ==> old(self)->progress + additional <= u64::MAX,
        ensures
            match *old(self) {
                UpDownFsm::Completed => *final(self) is Completed,
                UpDownFsm::UpdownInProgress { progress, handle } => *final(self) == (UpDownFsm::UpdownInProgress {
                    progress: (progress + additional) as u64,
                    handle,
                }),
            },
    {
        match self {
            UpDownFsm::UpdownInProgress { progress, .. } => {
                *progress = *progress + additional;
            },
            UpDownFsm::Completed => {},
        }
    }
}

/// What a download does next.
#[derive(Debug, Clone, Copy, PartialEq, Eq, Structural)]
pub enum PollStep {
    /// The upload failed or the asset was deleted: the download ends with an
    /// error.
    Abort,
    /// Too close to what the upload has written: wait for progress, or for the
    /// timeout, and ask again.
    Wait,
    /// Read the next chunk.
    Read,
}

/// The pacing of one download.
#[derive(Debug)]
pub struct DownloadStream {
    meta: FileMeta,
    id: TapferId,
    fsm: UpDownFsm,
    chunk_size: u64,
}

/// The decision before a read. A download of a running upload stops on
/// failure (or when the upload is no longer known), reads only while it stays
/// two chunks behind what the upload has written, and reads freely once the
/// upload is complete.
pub open spec fn poll_step(fsm: UpDownFsm, chunk_size: u64, observed: Option<UploadFsm>) -> PollStep {
    match fsm {
        UpDownFsm::Completed => PollStep::Read,
        UpDownFsm::UpdownInProgress { progress, .. } => match observed {
            Some(UploadFsm::InProgress { progress: uploaded }) => if progress + 2 * chunk_size
                <= uploaded {
                PollStep::Read
            } else {
                PollStep::Wait
            },
            Some(UploadFsm::Completed) => PollStep::Read,
            _ => PollStep::Abort,
        },
    }
}

impl DownloadStream {
    pub closed spec fn fsm_spec(self) -> UpDownFsm {
        self.fsm
    }

    pub closed spec fn meta_spec(self) -> FileMeta {
        self.meta
    }

    pub closed spec fn id_spec(self) -> TapferId {
        self.id
    }

    pub closed spec fn chunk_spec(self) -> u64 {
        self.chunk_size
    }

    /// The id of the upload whose state this download consults.
    pub open spec fn watched(self) -> TapferId {
        self.fsm_spec()->handle.id_spec()
    }

    pub fn new(id: TapferId, meta: FileMeta, fsm: UpDownFsm, chunk_size: u64) -> (r: Self)
        ensures
            r.id_spec() == id,
            r.meta_spec() == meta,
            r.fsm_spec() == fsm,
            r.chunk_spec() == chunk_size,
    {
        DownloadStream { meta, id, fsm, chunk_size }
    }

    pub fn id(&self) -> (r: TapferId)
        ensures
            r == self.id_spec(),
    {
        self.id
    }

    pub fn fsm(&self) -> (r: &UpDownFsm)
        ensures
            *r == self.fsm_spec(),
    {
        &self.fsm
    }

    pub fn meta(&self) -> (r: &FileMeta)
        ensures
            *r == self.meta_spec(),
    {
        &self.meta
    }

    /// Bytes delivered so far while the upload runs; `None` once this
    /// download reads a finished file.
    pub fn delivered(&self) -> (r: Option<u64>)
        ensures
            r == match self.fsm_spec() {
                UpDownFsm::UpdownInProgress { progress, .. } => Some(progress),
                UpDownFsm::Completed => None::<u64>,
            },
    {
        match &self.fsm {
            UpDownFsm::UpdownInProgress { progress, .. } => Some(*progress),
            UpDownFsm::Completed => None,
        }
    }

    /// Consults the upload's state before a read and decides. When it finds
    /// the upload complete, the download switches, once and for good, to
    /// reading a finished file, and gives its handle back to the registry.
    pub fn poll(&mut self, pool: &mut UploadPool) -> (r: PollStep)
        requires
            old(pool).wf(),
        ensures
            final(pool).wf(),
            final(self).meta_spec() == old(self).meta_spec(),
            final(self).id_spec() == old(self).id_spec(),
            final(self).chunk_spec() == old(self).chunk_spec(),
            old(self).fsm_spec() is Completed ==> {
                &&& r == PollStep::Read
                &&& final(self).fsm_spec() is Completed
                &&& final(pool).entries() == old(pool).entries()
            },
            old(self).fsm_spec() is UpdownInProgress ==> {
                let observed = old(pool).state_spec(old(self).watched());
                &&& r == poll_step(old(self).fsm_spec(), old(self).chunk_spec(), observed)
                &&& if observed == Some(UploadFsm::Completed) {
                    &&& final(self).fsm_spec() is Completed
                    &&& final(pool).entries() == old(pool).entries_after_release(old(self).watched())
                } else {
                    &&& final(self).fsm_spec() == old(self).fsm_spec()
                    &&& final(pool).entries() == old(pool).entries()
                }
            },
    {
        let observed = match &self.fsm {
            UpDownFsm::Completed => {
                return PollStep::Read;
            },
            UpDownFsm::UpdownInProgress { progress, handle } => {
                let observed = pool.state(handle.id());
                match observed {
                    Some(UploadFsm::InProgress { progress: uploaded }) => {
                        if (*progress as u128) + 2 * (self.chunk_size as u128) <= uploaded as u128 {
                            return PollStep::Read;
                        } else {
                            return PollStep::Wait;
                        }
                    },
                    Some(UploadFsm::Completed) => {},
                    _ => {
                        return PollStep::Abort;
                    },
                }
                observed
            },
        };
        let mut taken = UpDownFsm::Completed;
        core::mem::swap(&mut self.fsm, &mut taken);
        match taken {
            UpDownFsm::UpdownInProgress { handle, .. } => {
                let _ = pool.release(handle);
            },
            UpDownFsm::Completed => {},
        }
        PollStep::Read
    }

    /// Counts the bytes of a chunk that was read and delivered. While the
    /// upload runs, a chunk is at most the stream's chunk size.
    pub fn record_read(&mut self, n: u64)
        requires
            old(self).fsm_spec() is UpdownInProgress ==> old(self).fsm_spec()->progress + n <= u64::MAX,
            old(self).fsm_spec() is UpdownInProgress ==> n <= old(self).chunk_spec(),
        ensures
            final(self).meta_spec() == old(self).meta_spec(),
            final(self).id_spec() == old(self).id_spec(),
            final(self).chunk_spec() == old(self).chunk_spec(),
            match old(self).fsm_spec() {
                UpDownFsm::Completed => final(self).fsm_spec() is Completed,
                UpDownFsm::UpdownInProgress { progress, handle } => final(self).fsm_spec() == (UpDownFsm::UpdownInProgress {
                    progress: (progress + n) as u64,
                    handle,
                }),
            },
    {
        self.fsm.add_progress(n);
    }

    /// Whether ending this download deletes the asset: only a download that
    /// read a finished file of a single-download asset does. A download that
    /// never saw its upload complete leaves the files to the retention sweep.
    pub open spec fn deletes_on_close(self) -> bool {
        self.fsm_spec() is Completed && self.meta_spec().removal_policy is SingleDownload
    }

    /// Ends the download: a handle it still holds goes back to the registry.
    /// Returns whether the asset is to be deleted now.
    pub fn close(self, pool: &mut UploadPool) -> (delete: bool)
        requires
            old(pool).wf(),
        ensures
            final(pool).wf(),
            delete == self.deletes_on_close(),
            self.fsm_spec() is Completed ==> final(pool).entries() == old(pool).entries(),
            self.fsm_spec() is UpdownInProgress ==> final(pool).entries() == old(pool).entries_after_release(
                self.watched(),
            ),
    {
        let delete = self.meta.remove_after_download();
        match self.fsm {
            UpDownFsm::Completed => delete,
            UpDownFsm::UpdownInProgress { handle, .. } => {
                let _ = pool.release(handle);
                false
            },
        }
    }
}

/// Backpressure: when a download of a running upload consults the registry
/// and is allowed a read, the bytes it has delivered stay two chunks behind
/// what the upload has written, and a chunk read from there (at most the
/// stream's chunk size, as `record_read` requires) ends at least one chunk
/// short of that boundary.
pub proof fn lemma_backpressure(stream: DownloadStream, pool: UploadPool, n: u64)
    requires
        stream.fsm_spec() is UpdownInProgress,
        pool.state_spec(stream.watched()) matches Some(UploadFsm::InProgress { .. }),
        poll_step(stream.fsm_spec(), stream.chunk_spec(), pool.state_spec(stream.watched())) == PollStep::Read,
        n <= stream.chunk_spec(),
    ensures
        stream.fsm_spec()->progress + 2 * stream.chunk_spec() <= pool.state_spec(stream.watched())->Some_0->progress,
        stream.fsm_spec()->progress + n + stream.chunk_spec() <= pool.state_spec(stream.watched())->Some_0->progress,
{
}

/// Abort propagation: once an upload is marked failed, whatever its state
/// was, every download that consults it next is told to stop.
pub proof fn lemma_abort_propagation(stream: DownloadStream, pool: UploadPool, before: UploadFsm)
    requires
        stream.fsm_spec() is UpdownInProgress,
        pool.state_spec(stream.watched()) == Some(before.apply(crate::upload_fsm::FsmOp::MarkFailed)),
    ensures
        poll_step(stream.fsm_spec(), stream.chunk_spec(), pool.state_spec(stream.watched())) == PollStep::Abort,
{
}

/// The metadata of an asset and how it is to be downloaded: from durable
/// metadata when the upload has finished, else from the registry while it
/// runs (taking a handle to it), else the asset does not exist.
pub fn get_any_meta(pool: &mut UploadPool, id: TapferId, durable: Option<FileMeta>) -> (r: TapferResult<((TapferId, FileMeta), UpDownFsm)>)
    requires
        old(pool).wf(),
    ensures
        final(pool).wf(),
        durable is Some ==> {
            &&& r is Ok
            &&& r->Ok_0.0 == (id, durable->Some_0)
            &&& r->Ok_0.1 is Completed
            &&& final(pool).entries() == old(pool).entries()
        },
        durable is None && old(pool).has(id) && old(pool).entry(id).holders < u64::MAX ==> {
            &&& r is Ok
            &&& r->Ok_0.0 == (id, old(pool).entry(id).meta)
            &&& r->Ok_0.1 matches UpDownFsm::UpdownInProgress { progress, handle }
            &&& r->Ok_0.1->progress == 0
            &&& r->Ok_0.1->handle.id_spec() == id
            &&& final(pool).entries() == old(pool).entries().insert(
                id.value(),
                crate::upload_pool::TransferEntry { holders: (old(pool).entry(id).holders + 1) as u64, ..old(pool).entry(id) },
            )
        },
        durable is None && !(old(pool).has(id) && old(pool).entry(id).holders < u64::MAX) ==> {
            &&& r matches Err(TapferError::AssetNotFound)
            &&& final(pool).entries() == old(pool).entries()
        },
{
    match durable {
        Some(meta) => Ok(((id, meta), UpDownFsm::Completed)),
        None => match pool.lookup(id) {
            Some(handle) => {
                let meta = handle.file_meta().duplicate();
                Ok(((id, meta), UpDownFsm::UpdownInProgress { progress: 0, handle }))
            },
            None => Err(TapferError::AssetNotFound),
        },
    }
}

/// The length a download response announces: the declared size, or the
/// final size of a finished file; none while a size is still being counted.
pub fn content_length(meta: &FileMeta, fsm: &UpDownFsm) -> (r: Option<u64>)
    ensures
        r == match meta.size {
            crate::file_meta::FileSize::AlreadyKnown(s) => Some(s),
            crate::file_meta::FileSize::Dynamic(s) => if *fsm is Completed {
                Some(s)
            } else {
                None::<u64>
            },
        },
{
    match meta.known_size() {
        Some(known) => Some(known),
        None => if matches!(fsm, UpDownFsm::Completed) {
            Some(meta.size())
        } else {
            None
        },
    }
}

} // verus!
