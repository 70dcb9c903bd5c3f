//! The error kinds that every operation of the library reports.
use vstd::prelude::*;

verus! {

#[verifier::external_type_specification]
#[verifier::external_body]
pub struct ExIoError(std::io::Error);

/// Stable, matchable error kinds.
#[derive(Debug)]
pub enum SecurityError {
    /// Unknown KDF name, parameters under the floors, malformed input shape.
    InvalidParams(String),
    /// Filesystem failure.
    Io(std::io::Error),
    /// Address checksum or record version mismatch.
    Integrity,
    /// The system random source failed.
    Rand(String),
    /// AEAD failure: deliberately does not tell a wrong password from tampering.
    Crypto(String),
    /// Malformed base58 / base64 / hex input.
    Decode(String),
    /// Mnemonic or derivation-path syntax error.
    Parse(String),
    /// Failure while deriving a key from a password.
    Kdf(String),
}

/// The kind of an error, without its message.
#[derive(Debug, Clone, Copy, PartialEq, Eq, Structural)]
pub enum ErrorKind {
    InvalidParams,
    Io,
    Integrity,
    Rand,
    Crypto,
    Decode,
    Parse,
    Kdf,
}

impl SecurityError {
    /// The kind of this error.
    pub open spec fn spec_kind(&self) -> ErrorKind {
        match self {
            SecurityError::InvalidParams(_) => ErrorKind::InvalidParams,
            SecurityError::Io(_) => ErrorKind::Io,
            SecurityError::Integrity => ErrorKind::Integrity,
            SecurityError::Rand(_) => ErrorKind::Rand,
            SecurityError::Crypto(_) => ErrorKind::Crypto,
            SecurityError::Decode(_) => ErrorKind::Decode,
            SecurityError::Parse(_) => ErrorKind::Parse,
            SecurityError::Kdf(_) => ErrorKind::Kdf,
        }
    }

    /// The kind of this error, for callers that map kinds to exit codes or messages.
    #[verifier::when_used_as_spec(spec_kind)]
    pub fn kind(&self) -> (k: ErrorKind)
        ensures
            k == self.spec_kind(),
    {
        match self {
            SecurityError::InvalidParams(_) => ErrorKind::InvalidParams,
            SecurityError::Io(_) => ErrorKind::Io,
            SecurityError::Integrity => ErrorKind::Integrity,
            SecurityError::Rand(_) => ErrorKind::Rand,
            SecurityError::Crypto(_) => ErrorKind::Crypto,
            SecurityError::Decode(_) => ErrorKind::Decode,
            SecurityError::Parse(_) => ErrorKind::Parse,
            SecurityError::Kdf(_) => ErrorKind::Kdf,
        }
    }
}

/// A result seen through the view of its value and the kind of its error.
pub open spec fn result_view<T: View>(r: Result<T, SecurityError>) -> Result<T::V, ErrorKind> {
    match r {
        Ok(v) => Ok(v@),
        Err(e) => Err(e.spec_kind()),
    }
}

} // verus!
