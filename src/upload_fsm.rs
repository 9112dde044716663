use vstd::prelude::*;

use crate::error::{TapferError, TapferResult};

verus! {

/// The state of an upload that is being written: in progress with the number
/// of bytes already written to disk, or finished one way or the other.
#[derive(Debug, Clone, Copy, PartialEq, Eq, Structural)]
pub enum UploadFsm {
    Failed,
    InProgress {
        /// Bytes already written to disk.
        progress: u64,
    },
    Completed,
}

/// One operation on an upload's state.
#[derive(Debug, Clone, Copy, PartialEq, Eq, Structural)]
pub enum FsmOp {
    AddProgress(u64),
    MarkComplete,
    MarkFailed,
}

impl UploadFsm {
    /// Completed or failed: no further progress can be added.
    pub open spec fn is_terminal(self) -> bool {
        !(self is InProgress)
    }

    /// The state after one operation. Adding progress to a terminal state
    /// leaves it unchanged (the call reports an error), and so does an
    /// addition that would not fit in a `u64`, which callers may not make.
    pub open spec fn apply(self, op: FsmOp) -> UploadFsm {
        match op {
            FsmOp::AddProgress(n) => match self {
                UploadFsm::InProgress { progress } => if progress + n <= u64::MAX {
                    UploadFsm::InProgress { progress: (progress + n) as u64 }
                } else {
                    self
                },
                _ => self,
            },
            FsmOp::MarkComplete => UploadFsm::Completed,
            FsmOp::MarkFailed => UploadFsm::Failed,
        }
    }

    /// The state after a sequence of operations, applied in order.
    pub open spec fn apply_all(self, ops: Seq<FsmOp>) -> UploadFsm
        decreases ops.len(),
    {
        if ops.len() == 0 {
            self
        } else {
            self.apply_all(ops.drop_last()).apply(ops.last())
        }
    }

    /// The state every upload starts in.
    pub fn initial() -> (r: Self)
        ensures
            r == (UploadFsm::InProgress { progress: 0 }),
    {
        UploadFsm::InProgress { progress: 0 }
    }

    /// Adds bytes that were written to disk. After completion or failure this
    /// is an error that names the state, and the state is left as it is.
    pub fn add_progress(&mut self, new_progress: u64) -> (r: TapferResult<()>)
        requires
            *old(self) is InProgress ==> old(self)->progress + new_progress <= u64::MAX,
        ensures
            *final(self) == old(self).apply(FsmOp::AddProgress(new_progress)),
            *old(self) is InProgress ==> r is Ok,
            old(self).is_terminal() ==> (r matches Err(TapferError::UploadHandleSize(s))
                && s == *old(self)),
    {
        match self {
            UploadFsm::InProgress { progress } => {
                *progress = *progress + new_progress;
                Ok(())
            },
            _ => Err(TapferError::UploadHandleSize(*self)),
        }
    }

    /// Marks the upload as completed.
    pub fn mark_complete(&mut self)
        ensures
            *final(self) == old(self).apply(FsmOp::MarkComplete),
            *final(self) == UploadFsm::Completed,
    {
        *self = UploadFsm::Completed;
    }

    /// Marks the upload as failed.
    pub fn mark_failed(&mut self)
        ensures
            *final(self) == old(self).apply(FsmOp::MarkFailed),
            *final(self) == UploadFsm::Failed,
    {
        *self = UploadFsm::Failed;
    }

    pub fn is_complete(&self) -> (r: bool)
        ensures
            r == (*self is Completed),
    {
        matches!(self, UploadFsm::Completed)
    }

    pub fn is_failed(&self) -> (r: bool)
        ensures
            r == (*self is Failed),
    {
        matches!(self, UploadFsm::Failed)
    }

    /// The bytes written so far, while the upload is in progress.
    pub fn get_progress(&self) -> (r: Option<u64>)
        ensures
            r == match *self {
                UploadFsm::InProgress { progress } => Some(progress),
                _ => None::<u64>,
            },
    {
        match self {
            UploadFsm::InProgress { progress } => Some(*progress),
            _ => None,
        }
    }
}

/// Once an upload has left the in-progress state it never returns to it.
pub proof fn lemma_terminal_stays_terminal(s: UploadFsm, ops: Seq<FsmOp>)
    requires
        s.is_terminal(),
    ensures
        s.apply_all(ops).is_terminal(),
    decreases ops.len(),
{
    if ops.len() > 0 {
        lemma_terminal_stays_terminal(s, ops.drop_last());
    }
}

/// Progress never decreases: for any sequence of operations, if the state is
/// in progress after a prefix of `i` operations and again after a longer
/// prefix of `j` operations, the progress after `j` is at least the progress
/// after `i`.
pub proof fn lemma_progress_monotonic(s: UploadFsm, ops: Seq<FsmOp>, i: int, j: int)
    requires
        0 <= i <= j <= ops.len(),
        s.apply_all(ops.take(i)) is InProgress,
        s.apply_all(ops.take(j)) is InProgress,
    ensures
        s.apply_all(ops.take(i))->progress <= s.apply_all(ops.take(j))->progress,
    decreases j - i,
{
    if i < j {
        let prev = ops.take(j - 1);
        assert(ops.take(j).drop_last() =~= prev);
        assert(ops.take(j).last() == ops[j - 1]);
        let before = s.apply_all(prev);
        if before.is_terminal() {
            lemma_terminal_stays_terminal(before, seq![ops[j - 1]]);
            assert(seq![ops[j - 1]].drop_last() =~= Seq::<FsmOp>::empty());
            assert(before.apply_all(seq![ops[j - 1]]) == before.apply(ops[j - 1]));
        } else {
            lemma_progress_monotonic(s, ops, i, j - 1);
        }
    }
}

/// Adding progress after completion or failure reports an error and changes
/// nothing, however many bytes are added.
pub proof fn lemma_terminal_immutable(s: UploadFsm, n: u64)
    ensures
        s.apply(FsmOp::MarkComplete).apply(FsmOp::AddProgress(n)) == s.apply(FsmOp::MarkComplete),
        s.apply(FsmOp::MarkFailed).apply(FsmOp::AddProgress(n)) == s.apply(FsmOp::MarkFailed),
{
}

} // verus!
