//! The RPC status a handler answers a failure with.
//!
//! The service classifies every failure into a small set of status kinds that
//! mirror the RPC framework's codes, and always pairs the kind with a message.

use vstd::prelude::*;

verus! {

/// The failure classes a handler can answer with.
#[derive(Debug, Clone, Copy, PartialEq, Eq, Structural)]
pub enum StatusKind {
    /// A required field of the request is missing or empty.
    InvalidArgument,
    /// The entity to create already exists.
    AlreadyExists,
    /// A structured rejection by the backend.
    Unknown,
    /// A transport or decoding failure, not attributable to the backend.
    Internal,
}

impl StatusKind {
    /// The numeric code of this kind in the RPC framework's numbering.
    pub open spec fn spec_code(self) -> u32 {
        match self {
            StatusKind::InvalidArgument => 3,
            StatusKind::AlreadyExists => 6,
            StatusKind::Unknown => 2,
            StatusKind::Internal => 13,
        }
    }

    /// The numeric code of this kind in the RPC framework's numbering.
    pub fn code(self) -> (r: u32)
        ensures
            r == self.spec_code(),
    {
        match self {
            StatusKind::InvalidArgument => 3,
            StatusKind::AlreadyExists => 6,
            StatusKind::Unknown => 2,
            StatusKind::Internal => 13,
        }
    }
}

/// A failure answer: the status kind and the message shown to the caller.
#[derive(Debug, Clone, PartialEq, Eq)]
pub struct ErrorStatus {
    pub kind: StatusKind,
    pub message: String,
}

/// The mathematical view of a failure answer.
#[verifier::ext_equal]
pub struct ErrorStatusView {
    pub kind: StatusKind,
    pub message: Seq<char>,
}

impl View for ErrorStatus {
    type V = ErrorStatusView;

    open spec fn view(&self) -> ErrorStatusView {
        ErrorStatusView { kind: self.kind, message: self.message@ }
    }
}

impl DeepView for ErrorStatus {
    type V = ErrorStatusView;

    open spec fn deep_view(&self) -> ErrorStatusView {
        self.view()
    }
}

/// The status answered when a request's payload fails validation.
pub open spec fn invalid_payload_status() -> ErrorStatusView {
    ErrorStatusView { kind: StatusKind::InvalidArgument, message: "INVALID PAYLOAD"@ }
}

impl ErrorStatus {
    /// An invalid-argument answer with the given message.
    pub fn invalid_argument(message: &str) -> (r: ErrorStatus)
        ensures
            r@ == (ErrorStatusView { kind: StatusKind::InvalidArgument, message: message@ }),
    {
        ErrorStatus { kind: StatusKind::InvalidArgument, message: message.to_owned() }
    }

    /// The invalid-argument answer with the generic payload message.
    pub fn invalid_payload() -> (r: ErrorStatus)
        ensures
            r@ == invalid_payload_status(),
    {
        ErrorStatus { kind: StatusKind::InvalidArgument, message: invalid_payload_message() }
    }
}

/// The generic message for a request whose payload fails validation.
pub fn invalid_payload_message() -> (r: String)
    ensures
        r@ == "INVALID PAYLOAD"@,
{
    "INVALID PAYLOAD".to_owned()
}

} // verus!
