use vstd::prelude::*;

use crate::error::{TapferError, TapferResult};
use crate::upload_pool::UploadHandle;

verus! {

/// Relies on `time::UtcDateTime::now`: the current time as nanoseconds since
/// the Unix epoch. Nothing is promised of its value.
#[verifier::external_body]
fn utc_now_nanos() -> (r: i128) {
    time::UtcDateTime::now().unix_timestamp_nanos()
}

/// A point in time, as nanoseconds since the Unix epoch (UTC).
#[derive(Debug, Clone, Copy, PartialEq, Eq, Structural)]
pub struct Timestamp {
    pub unix_nanos: i128,
}

/// A signed length of time, in nanoseconds.
#[derive(Debug, Clone, Copy, PartialEq, Eq, Structural)]
pub struct Span {
    pub nanos: i128,
}

pub const NANOS_PER_SECOND: i128 = 1_000_000_000;

impl Timestamp {
    /// The current time.
    pub fn now() -> (r: Timestamp) {
        Timestamp { unix_nanos: utc_now_nanos() }
    }

    pub fn from_unix_nanos(unix_nanos: i128) -> (r: Timestamp)
        ensures
            r.unix_nanos == unix_nanos,
    {
        Timestamp { unix_nanos }
    }
}

impl Span {
    pub fn from_nanos(nanos: i128) -> (r: Span)
        ensures
            r.nanos == nanos,
    {
        Span { nanos }
    }

    pub fn seconds(seconds: i64) -> (r: Span)
        ensures
            r.nanos == seconds * NANOS_PER_SECOND,
    {
        assert(-0x8000_0000_0000_0000 * 1_000_000_000 <= seconds * 1_000_000_000
            <= 0x7fff_ffff_ffff_ffff * 1_000_000_000) by (nonlinear_arith)
            requires
                -0x8000_0000_0000_0000 <= seconds <= 0x7fff_ffff_ffff_ffff,
        ;
        Span { nanos: seconds as i128 * NANOS_PER_SECOND }
    }

    pub fn hours(hours: i64) -> (r: Span)
        ensures
            r.nanos == hours * 3600 * NANOS_PER_SECOND,
    {
        assert(-0x8000_0000_0000_0000 * 3600_000_000_000 <= hours * 3600_000_000_000
            <= 0x7fff_ffff_ffff_ffff * 3600_000_000_000) by (nonlinear_arith)
            requires
                -0x8000_0000_0000_0000 <= hours <= 0x7fff_ffff_ffff_ffff,
        ;
        Span { nanos: hours as i128 * 3600 * NANOS_PER_SECOND }
    }
}

/// When an asset is removed.
#[derive(Debug, Clone, Copy, PartialEq, Eq, Structural)]
pub enum RemovalPolicy {
    /// After its first complete download.
    SingleDownload,
    /// Once the given time has passed since it was created.
    Expiry { after: Span },
}

/// The size of an asset.
#[derive(Debug, Clone, Copy, PartialEq, Eq, Structural)]
pub enum FileSize {
    /// The client declared the size before the upload.
    AlreadyKnown(u64),
    /// The size is counted while the bytes arrive.
    Dynamic(u64),
}

impl FileSize {
    pub open spec fn value(self) -> u64 {
        match self {
            FileSize::AlreadyKnown(s) => s,
            FileSize::Dynamic(s) => s,
        }
    }

    /// The size as far as it is known.
    pub fn current_size(&self) -> (r: u64)
        ensures
            r == self.value(),
    {
        match self {
            FileSize::AlreadyKnown(s) => *s,
            FileSize::Dynamic(s) => *s,
        }
    }

    /// Adds bytes to a size that is being counted. A declared size is not
    /// changed: that is an error.
    pub fn add_size(&mut self, extra: u64) -> (r: TapferResult<()>)
        requires
            *old(self) is Dynamic ==> old(self)->Dynamic_0 + extra <= u64::MAX,
        ensures
            match *old(self) {
                FileSize::AlreadyKnown(_) => r matches Err(TapferError::AddSizeToAlreadyKnown)
                    && *final(self) == *old(self),
                FileSize::Dynamic(s) => r is Ok && *final(self) == FileSize::Dynamic(
                    (s + extra) as u64,
                ),
            },
    {
        match self {
            FileSize::AlreadyKnown(_) => Err(TapferError::AddSizeToAlreadyKnown),
            FileSize::Dynamic(s) => {
                *s = *s + extra;
                Ok(())
            },
        }
    }
}

/// What is known of an asset besides its bytes.
#[derive(Debug, Clone)]
pub struct FileMeta {
    pub name: String,
    pub size: FileSize,
    pub created: Timestamp,
    pub removal_policy: RemovalPolicy,
    pub mimetype: String,
}

impl FileMeta {
    /// A copy of the record.
    pub fn duplicate(&self) -> (r: FileMeta)
        ensures
            r == *self,
    {
        FileMeta {
            name: self.name.clone(),
            size: self.size,
            created: self.created,
            removal_policy: self.removal_policy,
            mimetype: self.mimetype.clone(),
        }
    }

    /// The record for an asset that is removed after a single download,
    /// created now.
    pub fn default_policy(name: String, mimetype: String, known_size: Option<u64>) -> (r: Self)
        ensures
            r.name@ == name@,
            r.mimetype@ == mimetype@,
            r.size == FileMetaBuilder::size_for(known_size),
            r.removal_policy == RemovalPolicy::SingleDownload,
    {
        FileMetaBuilder::default().build(name, mimetype, known_size)
    }

    /// The metadata snapshot a running upload was registered with.
    pub fn from_upload_handle(handle: &UploadHandle) -> (r: FileMeta)
        ensures
            r == handle.meta_spec(),
    {
        handle.file_meta().duplicate()
    }

    pub fn remove_after_download(&self) -> (r: bool)
        ensures
            r == (self.removal_policy is SingleDownload),
    {
        match self.removal_policy {
            RemovalPolicy::SingleDownload => true,
            _ => false,
        }
    }

    /// Adds bytes to a size that is being counted; see [`FileSize::add_size`].
    pub fn add_size(&mut self, extra: u64) -> (r: TapferResult<()>)
        requires
            old(self).size is Dynamic ==> old(self).size->Dynamic_0 + extra <= u64::MAX,
        ensures
            final(self).name == old(self).name,
            final(self).mimetype == old(self).mimetype,
            final(self).created == old(self).created,
            final(self).removal_policy == old(self).removal_policy,
            match old(self).size {
                FileSize::AlreadyKnown(_) => r matches Err(TapferError::AddSizeToAlreadyKnown)
                    && final(self).size == old(self).size,
                FileSize::Dynamic(s) => r is Ok && final(self).size == FileSize::Dynamic(
                    (s + extra) as u64,
                ),
            },
    {
        self.size.add_size(extra)
    }

    pub fn name(&self) -> (r: &str)
        ensures
            r@ == self.name@,
    {
        self.name.as_str()
    }

    pub fn content_type(&self) -> (r: &str)
        ensures
            r@ == self.mimetype@,
    {
        self.mimetype.as_str()
    }

    pub fn size(&self) -> (r: u64)
        ensures
            r == self.size.value(),
    {
        self.size.current_size()
    }

    pub fn removal_policy(&self) -> (r: RemovalPolicy)
        ensures
            r == self.removal_policy,
    {
        self.removal_policy
    }

    pub fn created(&self) -> (r: Timestamp)
        ensures
            r == self.created,
    {
        self.created
    }

    /// The size the client declared, if it declared one.
    pub fn known_size(&self) -> (r: Option<u64>)
        ensures
            r == match self.size {
                FileSize::AlreadyKnown(s) => Some(s),
                FileSize::Dynamic(_) => None::<u64>,
            },
    {
        match self.size {
            FileSize::AlreadyKnown(s) => Some(s),
            FileSize::Dynamic(_) => None,
        }
    }

    /// When the asset expires; `None` for a single-download asset.
    pub fn expires_on(&self) -> (r: Option<Timestamp>)
        requires
            self.removal_policy is Expiry ==> i128::MIN <= self.created.unix_nanos
                + self.removal_policy->after.nanos <= i128::MAX,
        ensures
            r == match self.removal_policy {
                RemovalPolicy::SingleDownload => None::<Timestamp>,
                RemovalPolicy::Expiry { after } => Some(
                    Timestamp { unix_nanos: (self.created.unix_nanos + after.nanos) as i128 },
                ),
            },
    {
        match self.removal_policy {
            RemovalPolicy::SingleDownload => None,
            RemovalPolicy::Expiry { after } => Some(
                Timestamp { unix_nanos: self.created.unix_nanos + after.nanos },
            ),
        }
    }
}

/// The choices made before an upload's metadata can be written.
#[derive(Debug, Clone)]
pub struct FileMetaBuilder {
    pub expiration: Option<RemovalPolicy>,
    pub in_progress_token: Option<u32>,
}

impl Default for FileMetaBuilder {
    fn default() -> (r: Self)
        ensures
            r.expiration is None,
            r.in_progress_token is None,
    {
        FileMetaBuilder { expiration: None, in_progress_token: None }
    }
}

impl FileMetaBuilder {
    /// A declared size is kept as declared; otherwise counting starts at zero.
    pub open spec fn size_for(known_size: Option<u64>) -> FileSize {
        match known_size {
            Some(s) => FileSize::AlreadyKnown(s),
            None => FileSize::Dynamic(0),
        }
    }

    /// Without a chosen expiration an asset is removed after one download.
    pub open spec fn policy_for(expiration: Option<RemovalPolicy>) -> RemovalPolicy {
        match expiration {
            Some(p) => p,
            None => RemovalPolicy::SingleDownload,
        }
    }

    /// The metadata of an asset created at the given time.
    pub fn build_at(self, name: String, mimetype: String, known_size: Option<u64>, created: Timestamp) -> (r: FileMeta)
        ensures
            r.name@ == name@,
            r.mimetype@ == mimetype@,
            r.size == FileMetaBuilder::size_for(known_size),
            r.created == created,
            r.removal_policy == FileMetaBuilder::policy_for(self.expiration),
    {
        let size = match known_size {
            Some(s) => FileSize::AlreadyKnown(s),
            None => FileSize::Dynamic(0),
        };
        let removal_policy = match self.expiration {
            Some(p) => p,
            None => RemovalPolicy::SingleDownload,
        };
        FileMeta { name, size, created, removal_policy, mimetype }
    }

    /// The metadata of an asset created now.
    pub fn build(self, name: String, mimetype: String, known_size: Option<u64>) -> (r: FileMeta)
        ensures
            r.name@ == name@,
            r.mimetype@ == mimetype@,
            r.size == FileMetaBuilder::size_for(known_size),
            r.removal_policy == FileMetaBuilder::policy_for(self.expiration),
    {
        let now = Timestamp::now();
        self.build_at(name, mimetype, known_size, now)
    }
}

} // verus!
