//! Errors that can occur while signing a URL.

use vstd::prelude::*;

verus! {

/// The kind of error that occurred while signing a URL.
#[derive(Debug, Clone, Copy, PartialEq, Eq, Hash, Structural)]
pub enum SignerErrorKind {
    /// The URI of the object could not be parsed.
    CloudUriParseError,
    /// The requested permission is not supported by the signer.
    PermissionNotSupported,
    /// The configured expiration duration is too long.
    ExpirationTooLong,
    /// An error occurred during the signature calculation.
    SigningError,
    /// Some other error occurred.
    Other,
}

/// An error that occurred while signing a URL: a stable kind for programmatic
/// branching and a free-text message for diagnostics.
#[derive(Debug, Clone, PartialEq, Eq, Hash)]
pub struct SignerError {
    pub kind: SignerErrorKind,
    pub message: String,
}

impl SignerError {
    fn new(kind: SignerErrorKind, message: String) -> (r: Self)
        ensures
            r.kind == kind,
            r.message@ == message@,
    {
        Self { kind, message }
    }

    /// Return the kind of error.
    pub fn kind(&self) -> (k: SignerErrorKind)
        ensures
            k == self.kind,
    {
        self.kind
    }

    /// Return the error message.
    pub fn message(&self) -> (m: &str)
        ensures
            m@ == self.message@,
    {
        self.message.as_str()
    }

    /// Create a new `CloudUriParseError`.
    pub fn uri_parse_error(message: String) -> (r: Self)
        ensures
            r.kind == SignerErrorKind::CloudUriParseError,
            r.message@ == message@,
    {
        Self::new(SignerErrorKind::CloudUriParseError, message)
    }

    /// Create a new `ExpirationTooLong` error.
    pub fn expiration_too_long(message: String) -> (r: Self)
        ensures
            r.kind == SignerErrorKind::ExpirationTooLong,
            r.message@ == message@,
    {
        Self::new(SignerErrorKind::ExpirationTooLong, message)
    }

    /// Create a new `PermissionNotSupported` error.
    pub fn permission_not_supported(message: String) -> (r: Self)
        ensures
            r.kind == SignerErrorKind::PermissionNotSupported,
            r.message@ == message@,
    {
        Self::new(SignerErrorKind::PermissionNotSupported, message)
    }

    /// Create a new `Other` error.
    pub fn other_error(message: String) -> (r: Self)
        ensures
            r.kind == SignerErrorKind::Other,
            r.message@ == message@,
    {
        Self::new(SignerErrorKind::Other, message)
    }
}

} // verus!
