use vstd::prelude::*;

use crate::error::{TapferError, TapferResult};
use crate::file_meta::{FileMeta, FileMetaBuilder, FileSize, RemovalPolicy, Span};
use crate::tapfer_id::{uuid_text, TapferId};
use crate::text::text_eq;
use crate::upload_fsm::{FsmOp, UploadFsm};
use crate::upload_pool::{Release, TransferEntry, UploadHandle, UploadPool};

verus! {

/// Relies on `mime::APPLICATION_OCTET_STREAM`: the media type of arbitrary
/// bytes, as text.
#[verifier::external_body]
fn octet_stream() -> (r: String)
    ensures
        r@ == "application/octet-stream"@,
{
    mime::APPLICATION_OCTET_STREAM.as_ref().to_owned()
}

/// The value of a sequence of decimal digits.
pub open spec fn decimal_value(s: Seq<char>) -> int
    decreases s.len(),
{
    if s.len() == 0 {
        0
    } else {
        decimal_value(s.drop_last()) * 10 + (s.last() as int - '0' as int)
    }
}

/// An unsigned number as `str::parse` reads it: an optional `+`, then one or
/// more ASCII digits whose value is at most `max`.
pub open spec fn parse_unsigned(s: Seq<char>, max: int) -> Option<int> {
    let digits = if s.len() > 0 && s[0] == '+' { s.subrange(1, s.len() as int) } else { s };
    if digits.len() > 0 && (forall|i: int| 0 <= i < digits.len() ==> '0' <= #[trigger] digits[i] <= '9')
        && decimal_value(digits) <= max {
        Some(decimal_value(digits))
    } else {
        None
    }
}

pub open spec fn u64_parse(s: Seq<char>) -> Option<u64> {
    match parse_unsigned(s, u64::MAX as int) {
        Some(v) => Some(v as u64),
        None => None,
    }
}

pub open spec fn u32_parse(s: Seq<char>) -> Option<u32> {
    match parse_unsigned(s, u32::MAX as int) {
        Some(v) => Some(v as u32),
        None => None,
    }
}

/// Relies on `str::parse::<u64>` (`u64::from_str`): an optional `+` and
/// decimal digits, refused where empty, not a digit, or too large.
#[verifier::external_body]
fn parse_u64(s: &str) -> (r: Option<u64>)
    ensures
        r == u64_parse(s@),
{
    s.parse::<u64>().ok()
}

/// Relies on `str::parse::<u32>` (`u32::from_str`): an optional `+` and
/// decimal digits, refused where empty, not a digit, or too large.
#[verifier::external_body]
pub(crate) fn parse_u32(s: &str) -> (r: Option<u32>)
    ensures
        r == u32_parse(s@),
{
    s.parse::<u32>().ok()
}

/// Reads the size and the progress token that the client may send with an
/// upload. A header that is present must hold a number.
pub fn upload_headers(size: Option<&str>, token: Option<&str>) -> (r: TapferResult<(Option<u64>, Option<u32>)>)
    ensures
        (size is Some && u64_parse(size->Some_0@) is None) ==> r matches Err(TapferError::InvalidNumber),
        (size is None || u64_parse(size->Some_0@) is Some) && (token is Some && u32_parse(token->Some_0@) is None)
            ==> r matches Err(TapferError::InvalidNumber),
        (size is None || u64_parse(size->Some_0@) is Some) && (token is None || u32_parse(token->Some_0@) is Some)
            ==> r == Ok::<(Option<u64>, Option<u32>), TapferError>((
                match size { Some(s) => u64_parse(s@), None => None },
                match token { Some(t) => u32_parse(t@), None => None },
            )),
{
    let size = match size {
        Some(s) => match parse_u64(s) {
            Some(v) => Some(v),
            None => {
                return Err(TapferError::InvalidNumber);
            },
        },
        None => None,
    };
    let token = match token {
        Some(t) => match parse_u32(t) {
            Some(v) => Some(v),
            None => {
                return Err(TapferError::InvalidNumber);
            },
        },
        None => None,
    };
    Ok((size, token))
}

/// Reads the expiration that the client chose. No choice leaves the builder
/// as it is; a choice that is not offered is an error.
pub fn expiration_field(field: Option<&str>, meta: &mut FileMetaBuilder) -> (r: TapferResult<()>)
    ensures
        final(meta).in_progress_token == old(meta).in_progress_token,
        match field {
            None => r is Ok && final(meta).expiration == old(meta).expiration,
            Some(f) => if f@ == "single_download"@ {
                r is Ok && final(meta).expiration == Some(RemovalPolicy::SingleDownload)
            } else if f@ == "24_hours"@ {
                r is Ok && final(meta).expiration == Some(
                    RemovalPolicy::Expiry { after: Span { nanos: 86_400_000_000_000i128 } },
                )
            } else {
                (r matches Err(TapferError::InvalidExpiration(s)) && s@ == f@)
                    && final(meta).expiration == old(meta).expiration
            },
        },
{
    match field {
        None => Ok(()),
        Some(f) => {
            if text_eq(f, "single_download") {
                meta.expiration = Some(RemovalPolicy::SingleDownload);
                Ok(())
            } else if text_eq(f, "24_hours") {
                meta.expiration = Some(RemovalPolicy::Expiry { after: Span::hours(24) });
                Ok(())
            } else {
                Err(TapferError::InvalidExpiration(f.to_owned()))
            }
        },
    }
}

/// Checks the name of a multipart field: only the file is expected.
pub fn check_field_name(name: Option<&str>) -> (r: TapferResult<()>)
    ensures
        match name {
            None => r matches Err(TapferError::MultipartFieldNameMissing),
            Some(n) => if n@ == "file"@ {
                r is Ok
            } else {
                r matches Err(TapferError::UnknownMultipartField { field_name }) && field_name@ == n@
            },
        },
{
    match name {
        None => Err(TapferError::MultipartFieldNameMissing),
        Some(n) => if text_eq(n, "file") {
            Ok(())
        } else {
            Err(TapferError::UnknownMultipartField { field_name: n.to_owned() })
        },
    }
}

/// The file name and media type stored for an upload: as the client sent
/// them, else the asset's id and the media type of arbitrary bytes.
pub fn payload_names(id: TapferId, file_name: Option<&str>, content_type: Option<&str>) -> (r: (String, String))
    ensures
        r.0@ == match file_name {
            Some(n) => n@,
            None => uuid_text(id.value()),
        },
        r.1@ == match content_type {
            Some(c) => c@,
            None => "application/octet-stream"@,
        },
{
    let name = match file_name {
        Some(n) => n.to_owned(),
        None => id.to_text(),
    };
    let mime = match content_type {
        Some(c) => c.to_owned(),
        None => octet_stream(),
    };
    (name, mime)
}

/// The bookkeeping of the sink that writes an upload to its file: it counts
/// the written bytes into the metadata (when the size was not declared) and
/// into the upload's state, and refuses writes once the upload has failed.
#[derive(Debug)]
pub struct UpdownWriter {
    upload_handle: UploadHandle,
    metadata: FileMeta,
    write_to_meta: bool,
}

impl UpdownWriter {
    pub closed spec fn handle_spec(self) -> UploadHandle {
        self.upload_handle
    }

    pub closed spec fn meta_spec(self) -> FileMeta {
        self.metadata
    }

    pub closed spec fn counts_size(self) -> bool {
        self.write_to_meta
    }

    /// The size is counted only where it was not declared.
    pub open spec fn wf(self) -> bool {
        self.counts_size() ==> self.meta_spec().size is Dynamic
    }

    pub open spec fn id_spec(self) -> TapferId {
        self.handle_spec().id_spec()
    }

    pub fn new(upload_handle: UploadHandle, metadata: FileMeta, write_to_meta: bool) -> (r: Self)
        requires
            write_to_meta ==> metadata.size is Dynamic,
        ensures
            r.wf(),
            r.handle_spec() == upload_handle,
            r.meta_spec() == metadata,
            r.counts_size() == write_to_meta,
    {
        UpdownWriter { upload_handle, metadata, write_to_meta }
    }

    pub fn metadata(&self) -> (r: &FileMeta)
        ensures
            *r == self.meta_spec(),
    {
        &self.metadata
    }

    /// The id of the upload being written.
    pub fn id(&self) -> (r: TapferId)
        ensures
            r == self.id_spec(),
    {
        self.upload_handle.id()
    }

    /// The bytes counted into the metadata so far.
    pub fn counted_size(&self) -> (r: u64)
        ensures
            r == self.meta_spec().size.value(),
    {
        self.metadata.size()
    }

    /// Consults the upload's state before a write: the write is refused once
    /// the upload has failed (for instance because the asset was deleted), or
    /// when the registry no longer knows it.
    pub fn check_write(&self, pool: &UploadPool) -> (r: TapferResult<()>)
        ensures
            match pool.state_spec(self.id_spec()) {
                Some(UploadFsm::Failed) | None => r matches Err(TapferError::AssetAborted),
                _ => r is Ok,
            },
    {
        match pool.state(self.upload_handle.id()) {
            Some(UploadFsm::Failed) | None => Err(TapferError::AssetAborted),
            _ => Ok(()),
        }
    }

    /// Accounts for `n` bytes that were written to the file: they are added
    /// to the counted size, if the size is counted, and to the upload's
    /// progress. Adding progress after completion or failure is an error that
    /// names the state.
    pub fn record_write(&mut self, pool: &mut UploadPool, n: u64) -> (r: TapferResult<()>)
        requires
            old(self).wf(),
            old(pool).wf(),
            old(self).counts_size() ==> old(self).meta_spec().size.value() + n <= u64::MAX,
            old(pool).state_spec(old(self).id_spec()) matches Some(UploadFsm::InProgress { progress })
                ==> progress + n <= u64::MAX,
        ensures
            final(self).wf(),
            final(pool).wf(),
            final(self).handle_spec() == old(self).handle_spec(),
            final(self).counts_size() == old(self).counts_size(),
            old(self).counts_size() ==> final(self).meta_spec().size == FileSize::Dynamic(
                (old(self).meta_spec().size.value() + n) as u64,
            ),
            !old(self).counts_size() ==> final(self).meta_spec() == old(self).meta_spec(),
            ({
                let id = old(self).id_spec();
                if old(pool).has(id) {
                    &&& final(pool).entries() == old(pool).entries().insert(
                        id.value(),
                        TransferEntry { fsm: old(pool).entry(id).fsm.apply(FsmOp::AddProgress(n)), ..old(pool).entry(id) },
                    )
                    &&& (r is Ok <==> old(pool).entry(id).fsm is InProgress)
                } else {
                    r is Ok && final(pool).entries() == old(pool).entries()
                }
            }),
    {
        if self.write_to_meta {
            let _ = self.metadata.add_size(n);
        }
        pool.add_progress(&self.upload_handle, n)
    }

    /// Ends the sink. An upload that did not reach completion is marked
    /// failed, so that no download waits for it forever; then the sink's
    /// handle goes back to the registry.
    pub fn close(self, pool: &mut UploadPool) -> (r: Release)
        requires
            old(pool).wf(),
        ensures
            final(pool).wf(),
            ({
                let id = self.id_spec();
                let marked = if old(pool).has(id) && !(old(pool).entry(id).fsm is Completed) {
                    old(pool).entries().insert(
                        id.value(),
                        TransferEntry { fsm: UploadFsm::Failed, ..old(pool).entry(id) },
                    )
                } else {
                    old(pool).entries()
                };
                let holders = if old(pool).has(id) { old(pool).entry(id).holders } else { 0 };
                &&& !old(pool).has(id) ==> r == Release::Unknown && final(pool).entries() == old(pool).entries()
                &&& old(pool).has(id) && holders > 1 ==> r == Release::Retained
                    && final(pool).entries() == marked.insert(
                        id.value(),
                        TransferEntry { holders: (holders - 1) as u64, ..marked[id.value()] },
                    )
                &&& old(pool).has(id) && holders <= 1 ==> r == (Release::Removed { in_progress: false })
                    && final(pool).entries() == old(pool).entries().remove(id.value())
            }),
    {
        let id = self.upload_handle.id();
        match pool.state(id) {
            Some(fsm) => if !fsm.is_complete() {
                let _ = pool.mark_failed(id);
            },
            None => {},
        }
        pool.release(self.upload_handle)
    }
}

/// What a request to delete an asset leads to.
#[derive(Debug, Clone, Copy, PartialEq, Eq, Structural)]
pub enum DeletePlan {
    /// The upload was running and is now marked failed: notify its
    /// downloads, give them a moment to stop, then remove the files.
    AbortThenRemove,
    /// No upload is running: remove the files now.
    RemoveNow,
}

/// Plans the deletion of an asset. A running upload is marked failed, which
/// stops its sink and every download of it at their next look at its state.
pub fn plan_delete(pool: &mut UploadPool, id: TapferId) -> (r: DeletePlan)
    requires
        old(pool).wf(),
    ensures
        final(pool).wf(),
        old(pool).has(id) ==> r == DeletePlan::AbortThenRemove && final(pool).state_spec(id) == Some(
            UploadFsm::Failed,
        ) && final(pool).entries() == old(pool).entries().insert(
            id.value(),
            TransferEntry { fsm: UploadFsm::Failed, ..old(pool).entry(id) },
        ),
        !old(pool).has(id) ==> r == DeletePlan::RemoveNow && final(pool).entries() == old(pool).entries(),
{
    if pool.mark_failed(id) {
        DeletePlan::AbortThenRemove
    } else {
        DeletePlan::RemoveNow
    }
}

} // verus!
