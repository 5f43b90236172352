//! Error codes and the library's error value.
use vstd::prelude::*;

verus! {

/// Canonical error codes returned by library operations.
#[derive(Debug, Clone, Copy, PartialEq, Eq, Structural)]
pub enum ErrorCode {
    AlreadyExists,
    AttestationFailed,
    Internal,
    InvalidManifest,
    LedgerVerificationFailed,
    NoEligibleNodes,
    NotFound,
    PermissionDenied,
    QuorumFailure,
    RateLimited,
    SandboxUnavailable,
    TrustTierMismatch,
    Unauthorized,
}

/// The HTTP status that an error code is reported with.
pub open spec fn spec_http_status(code: ErrorCode) -> u16 {
    match code {
        ErrorCode::AlreadyExists => 409,
        ErrorCode::AttestationFailed => 403,
        ErrorCode::Internal => 500,
        ErrorCode::InvalidManifest => 400,
        ErrorCode::LedgerVerificationFailed => 422,
        ErrorCode::NoEligibleNodes => 503,
        ErrorCode::NotFound => 404,
        ErrorCode::PermissionDenied => 403,
        ErrorCode::QuorumFailure => 409,
        ErrorCode::RateLimited => 429,
        ErrorCode::SandboxUnavailable => 503,
        ErrorCode::TrustTierMismatch => 422,
        ErrorCode::Unauthorized => 401,
    }
}

impl ErrorCode {
    /// HTTP status code used when this error crosses the REST boundary.
    pub fn http_status(self) -> (r: u16)
        ensures
            r == spec_http_status(self),
    {
        match self {
            ErrorCode::AlreadyExists => 409,
            ErrorCode::AttestationFailed => 403,
            ErrorCode::Internal => 500,
            ErrorCode::InvalidManifest => 400,
            ErrorCode::LedgerVerificationFailed => 422,
            ErrorCode::NoEligibleNodes => 503,
            ErrorCode::NotFound => 404,
            ErrorCode::PermissionDenied => 403,
            ErrorCode::QuorumFailure => 409,
            ErrorCode::RateLimited => 429,
            ErrorCode::SandboxUnavailable => 503,
            ErrorCode::TrustTierMismatch => 422,
            ErrorCode::Unauthorized => 401,
        }
    }
}

/// An error: a canonical code and a human-readable message.
#[derive(Debug, Clone)]
pub struct WcError {
    pub kind: ErrorCode,
    pub message: String,
}

/// Result type used throughout the library.
pub type WcResult<T> = Result<T, WcError>;

impl WcError {
    /// Build an error from a code and a message.
    pub fn new(kind: ErrorCode, message: String) -> (r: WcError)
        ensures
            r.kind == kind,
            r.message@ == message@,
    {
        WcError { kind, message }
    }

    /// Build an error from a code and a message given as text.
    pub fn with_text(kind: ErrorCode, message: &str) -> (r: WcError)
        ensures
            r.kind == kind,
            r.message@ == message@,
    {
        WcError { kind, message: String::from_str(message) }
    }

    /// The error's code.
    pub fn code(&self) -> (r: Option<ErrorCode>)
        ensures
            r == Some(self.kind),
    {
        Some(self.kind)
    }

    /// The error's message.
    pub fn to_text(&self) -> (r: String)
        ensures
            r@ == self.message@,
    {
        self.message.clone()
    }
}

} // verus!
