//! KDF selection and the minimum-security floors on its parameters.
use vstd::prelude::*;
use crate::errors::SecurityError;
use crate::text::{joined, lower_of, lowercase, text_eq};
use vstd::string::StringExecFns;

verus! {

/// The two supported key-derivation functions.
#[derive(Debug, Clone, Copy, PartialEq, Eq, Structural)]
pub enum KdfKind {
    Scrypt,
    Pbkdf2,
}

/// Smallest scrypt cost `n` accepted.
pub const SCRYPT_MIN_N: u32 = 32768;

/// Smallest scrypt block size `r` accepted.
pub const SCRYPT_MIN_R: u32 = 8;

/// Smallest scrypt parallelism `p` accepted.
pub const SCRYPT_MIN_P: u32 = 1;

/// Smallest PBKDF2 iteration count accepted.
pub const PBKDF2_MIN_ITERATIONS: u32 = 50000;

/// The kind a (already lower-cased) KDF name selects, if any.
pub open spec fn kdf_kind_named(name: Seq<char>) -> Option<KdfKind> {
    if name == "scrypt"@ {
        Some(KdfKind::Scrypt)
    } else if name == "pbkdf2"@ {
        Some(KdfKind::Pbkdf2)
    } else {
        None
    }
}

/// Whether the parameters meet the floors of the chosen kind.
pub open spec fn kdf_params_strong(kind: KdfKind, iterations: u32, n: u32, r: u32, p: u32) -> bool {
    match kind {
        KdfKind::Scrypt => n >= SCRYPT_MIN_N && r >= SCRYPT_MIN_R && p >= SCRYPT_MIN_P,
        KdfKind::Pbkdf2 => iterations >= PBKDF2_MIN_ITERATIONS,
    }
}

/// Selects the kind named by `name`, which must already be lower case.
pub fn kdf_kind_from_lowercase(name: &str) -> (r: Result<KdfKind, SecurityError>)
    ensures
        match kdf_kind_named(name@) {
            Some(k) => r == Ok::<KdfKind, SecurityError>(k),
            None => r matches Err(SecurityError::InvalidParams(_)),
        },
{
    if text_eq(name, "scrypt") {
        Ok(KdfKind::Scrypt)
    } else if text_eq(name, "pbkdf2") {
        Ok(KdfKind::Pbkdf2)
    } else {
        let head = joined("invalid kdf: ", name);
        Err(SecurityError::InvalidParams(joined(head.as_str(), ". allowed: scrypt, pbkdf2")))
    }
}

/// Maps a user-chosen KDF name, in any letter case, to its kind.
pub fn validate_kdf_choice(kdf: &str) -> (r: Result<KdfKind, SecurityError>)
    ensures
        match kdf_kind_named(lower_of(kdf@)) {
            Some(k) => r == Ok::<KdfKind, SecurityError>(k),
            None => r matches Err(SecurityError::InvalidParams(_)),
        },
{
    let lowered = lowercase(kdf);
    kdf_kind_from_lowercase(lowered.as_str())
}

/// Accepts exactly the names `scrypt` and `pbkdf2`, as written.
pub fn validate_kdf(kdf: &str) -> (r: Result<(), SecurityError>)
    ensures
        r is Ok <==> kdf_kind_named(kdf@) is Some,
        r matches Err(e) ==> e is InvalidParams,
{
    match kdf_kind_from_lowercase(kdf) {
        Ok(_) => Ok(()),
        Err(e) => Err(e),
    }
}

/// Enforces the floors: scrypt n >= 2^15, r >= 8, p >= 1; PBKDF2 iterations >= 50 000.
/// Constant time in its inputs, so it can run before a password is asked for.
pub fn validate_kdf_params(kind: KdfKind, iterations: u32, n: u32, r: u32, p: u32) -> (res: Result<
    (),
    SecurityError,
>)
    ensures
        res is Ok <==> kdf_params_strong(kind, iterations, n, r, p),
        res matches Err(e) ==> e is InvalidParams,
{
    match kind {
        KdfKind::Scrypt => {
            if n < SCRYPT_MIN_N || r < SCRYPT_MIN_R || p < SCRYPT_MIN_P {
                return Err(
                    SecurityError::InvalidParams(
                        String::from_str("scrypt params too weak (min n=32768, r=8, p=1)"),
                    ),
                );
            }
        },
        KdfKind::Pbkdf2 => {
            if iterations < PBKDF2_MIN_ITERATIONS {
                return Err(
                    SecurityError::InvalidParams(
                        String::from_str("pbkdf2 iterations too low (min 50000)"),
                    ),
                );
            }
        },
    }
    Ok(())
}

} // verus!
