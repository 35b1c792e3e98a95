//! The relay's error taxonomy: one kind per pipeline stage at which an
//! invocation can fail. Every failure is terminal for its invocation
//! and is reported upward as one of these, never swallowed.

use vstd::prelude::*;

verus! {

/// The caller-visible failure of one relay invocation.
#[derive(Debug, Clone, PartialEq, Eq)]
pub enum RelayError {
    /// The payload was not a valid JSON document; nothing was sent.
    InvalidInput,
    /// The backend could not be reached at the transport level; carries
    /// the underlying cause.
    BackendUnreachable(String),
    /// The backend answered with a non-2xx status; carries the status
    /// and the response body text.
    BackendRejected { status: u16, body: String },
    /// The backend's 2xx response body was not valid JSON.
    MalformedBackendResponse,
    /// The content store refused or failed the submission; carries the
    /// store's error text.
    StoreFailure(String),
    /// A local failure (re-serialization under resource exhaustion).
    Internal,
}

/// The mathematical shape of a [`RelayError`]: the same six kinds over
/// character sequences instead of strings.
pub enum ErrorModel {
    InvalidInput,
    BackendUnreachable(Seq<char>),
    BackendRejected { status: u16, body: Seq<char> },
    MalformedBackendResponse,
    StoreFailure(Seq<char>),
    Internal,
}

impl View for RelayError {
    type V = ErrorModel;

    open spec fn view(&self) -> ErrorModel {
        match self {
            RelayError::InvalidInput => ErrorModel::InvalidInput,
            RelayError::BackendUnreachable(cause) => ErrorModel::BackendUnreachable(cause@),
            RelayError::BackendRejected { status, body } => (ErrorModel::BackendRejected {
                status: *status,
                body: body@,
            }),
            RelayError::MalformedBackendResponse => ErrorModel::MalformedBackendResponse,
            RelayError::StoreFailure(text) => ErrorModel::StoreFailure(text@),
            RelayError::Internal => ErrorModel::Internal,
        }
    }
}

} // verus!
