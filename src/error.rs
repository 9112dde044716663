use vstd::prelude::*;

use crate::upload_fsm::UploadFsm;

verus! {

/// The errors of the library.
#[derive(Debug)]
pub enum TapferError {
    /// The multipart form had fields after the file.
    BadMultipartOrder,
    /// The multipart form had a field that is not understood.
    UnknownMultipartField { field_name: String },
    /// A multipart field came without a name.
    MultipartFieldNameMissing,
    /// An error that already knows its HTTP status and body.
    Custom { status_code: u16, body: String },
    /// A size was added to a size that the client declared up front.
    AddSizeToAlreadyKnown,
    /// Progress was added to an upload that had already reached the given
    /// terminal state.
    UploadHandleSize(UploadFsm),
    /// No running upload is associated with the progress token.
    TokenDoesNotExist(u32),
    /// The expiration named by the client is not one that is offered.
    InvalidExpiration(String),
    /// The text is not an asset identifier.
    InvalidId,
    /// The upload failed or the asset was deleted while it was transferred.
    AssetAborted,
    /// Neither durable metadata nor a running upload exists for the asset.
    AssetNotFound,
    /// No QR code could be made of the text.
    QrCode,
    /// A header that should hold a number does not.
    InvalidNumber,
}

/// Errors that are reported as an internal server error.
#[derive(Debug, Clone)]
pub enum InternalServerError {
    BadMultipartOrder,
    UnknownMultipartField { field_name: String },
}

pub type TapferResult<T> = Result<T, TapferError>;

impl TapferError {
    /// The HTTP status that reports this error.
    pub fn status_code(&self) -> (r: u16)
        ensures
            r == match self {
                TapferError::Custom { status_code, .. } => *status_code,
                TapferError::TokenDoesNotExist(_) => 404u16,
                TapferError::AssetNotFound => 404u16,
                TapferError::AssetAborted => 410u16,
                _ => 500u16,
            },
    {
        match self {
            TapferError::Custom { status_code, .. } => *status_code,
            TapferError::TokenDoesNotExist(_) => 404,
            TapferError::AssetNotFound => 404,
            TapferError::AssetAborted => 410,
            _ => 500,
        }
    }
}

} // verus!
