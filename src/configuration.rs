use vstd::prelude::*;

verus! {

/// The largest upload accepted, in bytes.
pub const MAX_UPLOAD_SIZE: u64 = 100 * 1024 * 1024 * 1024;

/// The size of one chunk read for a download, in bytes.
pub const DOWNLOAD_CHUNKSIZE: u64 = 1024 * 1024;

/// The buffer between an upload's body and its file, in bytes.
pub const UPLOAD_BUFSIZE: u64 = 100 * 1024 * 1024;

/// How long a download that waits for upload progress sleeps at most before
/// it looks at the upload's state again, in milliseconds.
pub const PROGRESS_TIMEOUT_MS: u64 = 100;

/// How long a deletion of a running upload waits for its downloads to stop,
/// in milliseconds.
pub const DELETE_GRACE_MS: u64 = 200;

/// The side of a QR code image, in pixels.
pub const QR_CODE_SIZE: u64 = 200;

pub const EMBED_DESCRIPTION: &'static str = "making file transfers trivial";

pub const FAVICON: &'static str = "/static/favicon.ico";

} // verus!
