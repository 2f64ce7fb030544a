//! Errors of a retrieval.
use vstd::prelude::*;

verus! {

/// A configuration value that could not be resolved.
#[derive(PartialEq, Eq, Structural, Clone, Copy, Debug)]
pub enum ConfigField {
    Url,
    Key,
}

/// The broad classes of failure.
#[derive(PartialEq, Eq, Structural, Clone, Copy, Debug)]
pub enum ErrorKind {
    ConfigurationMissing,
    ProtocolViolation,
    BackendRejected,
    HttpError,
    TransportError,
    TransferIncomplete,
    UnsupportedMode,
}

/// Why a retrieval stopped.
#[derive(Clone, Debug)]
pub enum RetrieveError {
    /// No value for a required setting.
    ConfigurationMissing { field: ConfigField },
    /// A task in a waiting state came without its request id.
    MissingRequestId { state: String },
    /// The job submission named neither a monitor link nor a job id.
    MissingMonitorLink,
    /// The results asset has an empty `href`.
    MissingHref,
    /// A completed task named no download location.
    MissingDownloadInfo,
    /// A state or status string outside the protocol.
    UnknownState { state: String },
    /// A successful response whose body is not the expected document.
    MalformedReply { url: String, detail: String },
    /// The backend reported the job as failed; `message` is its text.
    BackendRejected { message: String },
    /// A non-success HTTP status that no retry absorbed.
    HttpError { status: u16, url: String, body: String },
    /// The connection failed and the attempt budget ran out.
    TransportError { url: String },
    /// The download stopped short of the expected size.
    TransferIncomplete { downloaded: u64, expected: u64 },
    /// Submission without waiting is not offered by the modern protocol.
    UnsupportedMode,
}

/// The class of an error.
pub open spec fn kind_of(e: RetrieveError) -> ErrorKind {
    match e {
        RetrieveError::ConfigurationMissing { .. } => ErrorKind::ConfigurationMissing,
        RetrieveError::MissingRequestId { .. } => ErrorKind::ProtocolViolation,
        RetrieveError::MissingMonitorLink => ErrorKind::ProtocolViolation,
        RetrieveError::MissingHref => ErrorKind::ProtocolViolation,
        RetrieveError::MissingDownloadInfo => ErrorKind::ProtocolViolation,
        RetrieveError::UnknownState { .. } => ErrorKind::ProtocolViolation,
        RetrieveError::MalformedReply { .. } => ErrorKind::ProtocolViolation,
        RetrieveError::BackendRejected { .. } => ErrorKind::BackendRejected,
        RetrieveError::HttpError { .. } => ErrorKind::HttpError,
        RetrieveError::TransportError { .. } => ErrorKind::TransportError,
        RetrieveError::TransferIncomplete { .. } => ErrorKind::TransferIncomplete,
        RetrieveError::UnsupportedMode => ErrorKind::UnsupportedMode,
    }
}

impl RetrieveError {
    /// The class this error belongs to.
    pub fn kind(&self) -> (r: ErrorKind)
        ensures
            r == kind_of(*self),
    {
        match self {
            RetrieveError::ConfigurationMissing { .. } => ErrorKind::ConfigurationMissing,
            RetrieveError::MissingRequestId { .. } => ErrorKind::ProtocolViolation,
            RetrieveError::MissingMonitorLink => ErrorKind::ProtocolViolation,
            RetrieveError::MissingHref => ErrorKind::ProtocolViolation,
            RetrieveError::MissingDownloadInfo => ErrorKind::ProtocolViolation,
            RetrieveError::UnknownState { .. } => ErrorKind::ProtocolViolation,
            RetrieveError::MalformedReply { .. } => ErrorKind::ProtocolViolation,
            RetrieveError::BackendRejected { .. } => ErrorKind::BackendRejected,
            RetrieveError::HttpError { .. } => ErrorKind::HttpError,
            RetrieveError::TransportError { .. } => ErrorKind::TransportError,
            RetrieveError::TransferIncomplete { .. } => ErrorKind::TransferIncomplete,
            RetrieveError::UnsupportedMode => ErrorKind::UnsupportedMode,
        }
    }

    /// The HTTP status carried by the error, if any.
    pub fn http_status(&self) -> (r: Option<u16>)
        ensures
            r == match *self {
                RetrieveError::HttpError { status, .. } => Some(status),
                _ => None,
            },
    {
        match self {
            RetrieveError::HttpError { status, .. } => Some(*status),
            _ => None,
        }
    }
}

/// `Some(404)` when the error is an HTTP "not found", else `None`.
pub fn extract_http_status(err: &RetrieveError) -> (r: Option<u16>)
    ensures
        r == (match *err {
            RetrieveError::HttpError { status, .. } => if status == 404 {
                Some(404u16)
            } else {
                None
            },
            _ => None,
        }),
{
    match err.http_status() {
        Some(404) => Some(404),
        _ => None,
    }
}

} // verus!
