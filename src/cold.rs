//! Cold signing with a raw 32-byte key, and the demo shard helpers built on it.
use vstd::prelude::*;
use crate::codec::{sha256, sha256_of};
use crate::envelope::{ecdsa_der, ecdsa_sign};
use crate::errors::SecurityError;
use crate::hd::secret_scalar_valid;
use crate::keystore::to_array;
use vstd::string::StringExecFns;
use vstd::string::StringSliceAdditionalSpecFns;

verus! {

/// Errors of cold signing.
#[derive(Debug)]
pub enum WalletError {
    /// The key bytes are not a valid secp256k1 private key.
    InvalidKey,
    /// The hash to sign is not 32 bytes.
    InvalidHash,
    /// Reading the key failed.
    IoError(std::io::Error),
}

/// Relies on secp256k1's `SecretKey::from_slice`: it accepts exactly 32 bytes whose value
/// lies in [1, n - 1].
#[verifier::external_body]
fn secret_key_accepted(secret: &[u8]) -> (r: bool)
    ensures
        r == secret_scalar_valid(secret@),
{
    secp256k1::SecretKey::from_slice(secret).is_ok()
}

/// Signs a 32-byte transaction hash with a raw private key (the contents of the cold key
/// file): DER-encoded ECDSA.
pub fn cold_sign_with_key(key_bytes: &[u8], tx_hash: &[u8]) -> (r: Result<Vec<u8>, WalletError>)
    ensures
        !secret_scalar_valid(key_bytes@) ==> r matches Err(WalletError::InvalidKey),
        secret_scalar_valid(key_bytes@) && tx_hash@.len() != 32 ==> r matches Err(
            WalletError::InvalidHash,
        ),
        secret_scalar_valid(key_bytes@) && tx_hash@.len() == 32 ==> r is Ok && r->Ok_0@ == ecdsa_der(
            key_bytes@,
            tx_hash@,
        ),
{
    if !secret_key_accepted(key_bytes) {
        return Err(WalletError::InvalidKey);
    }
    if tx_hash.len() != 32 {
        return Err(WalletError::InvalidHash);
    }
    let mut key: [u8; 32] = to_array(key_bytes);
    let digest: [u8; 32] = to_array(tx_hash);
    let signed = ecdsa_sign(&key, &digest);
    crate::secret::wipe(&mut key);
    match signed {
        Some(sig) => Ok(sig),
        None => Err(WalletError::InvalidKey),
    }
}

/// Signs the hash of a lock transaction with the cold key.
pub fn sign_lock(cold_key: &[u8], hash: &[u8]) -> (r: Result<Vec<u8>, WalletError>)
    ensures
        !secret_scalar_valid(cold_key@) ==> r matches Err(WalletError::InvalidKey),
        secret_scalar_valid(cold_key@) && hash@.len() != 32 ==> r matches Err(WalletError::InvalidHash),
        secret_scalar_valid(cold_key@) && hash@.len() == 32 ==> r is Ok && r->Ok_0@ == ecdsa_der(
            cold_key@,
            hash@,
        ),
{
    cold_sign_with_key(cold_key, hash)
}

/// Little-endian bytes of a 64-bit value.
pub open spec fn le_bytes(v: u64) -> Seq<u8> {
    Seq::new(8, |i: int| ((v >> (8 * i) as u64) & 0xff) as u8)
}

/// Locks `amount`: signs SHA-256 of its little-endian bytes with the cold key.
pub fn lock(cold_key: &[u8], amount: u64) -> (r: Result<Vec<u8>, WalletError>)
    ensures
        !secret_scalar_valid(cold_key@) ==> r matches Err(WalletError::InvalidKey),
        secret_scalar_valid(cold_key@) ==> r is Ok && r->Ok_0@ == ecdsa_der(
            cold_key@,
            sha256_of(le_bytes(amount)),
        ),
{
    let mut bytes: Vec<u8> = Vec::new();
    let mut i: u64 = 0;
    while i < 8
        invariant
            i <= 8,
            bytes@ == le_bytes(amount).subrange(0, i as int),
        decreases 8 - i,
    {
        bytes.push(((amount >> (8 * i)) & 0xff) as u8);
        assert(le_bytes(amount).subrange(0, i + 1) =~= le_bytes(amount).subrange(0, i as int).push(
            ((amount >> (8 * i)) & 0xff) as u8,
        ));
        i = i + 1;
    }
    assert(bytes@ =~= le_bytes(amount));
    let hash = sha256(bytes.as_slice());
    sign_lock(cold_key, &hash)
}

/// SHA-256 of `tag` followed by `key`.
fn tagged_hash(tag: &str, key: &[u8]) -> (r: Vec<u8>)
    ensures
        r@ == sha256_of(tag.spec_bytes() + key@),
{
    let mut data: Vec<u8> = Vec::new();
    data.extend_from_slice(tag.as_bytes());
    data.extend_from_slice(key);
    assert(data@ =~= tag.spec_bytes() + key@);
    let h = sha256(data.as_slice());
    let mut out: Vec<u8> = Vec::new();
    out.extend_from_slice(h.as_slice());
    assert(out@ =~= h@);
    out
}

/// Three demo shares of a key: SHA-256 of `share-0`, `share-1`, `share-2` each followed by
/// the key. They are digests, not a threshold scheme.
pub fn split_key(key_bytes: &[u8]) -> (r: (Vec<u8>, Vec<u8>, Vec<u8>))
    ensures
        r.0@ == sha256_of("share-0".spec_bytes() + key_bytes@),
        r.1@ == sha256_of("share-1".spec_bytes() + key_bytes@),
        r.2@ == sha256_of("share-2".spec_bytes() + key_bytes@),
{
    (tagged_hash("share-0", key_bytes), tagged_hash("share-1", key_bytes), tagged_hash("share-2", key_bytes))
}

/// Signs the first 32 bytes of `msg` with SHA-256 of both shards as key.
pub fn sign_from_shards(shard1: &[u8], shard2: &[u8], msg: &[u8]) -> (r: Result<Vec<u8>, SecurityError>)
    ensures
        ({
            let k = sha256_of(shard1@ + shard2@);
            &&& !secret_scalar_valid(k) ==> (r matches Err(SecurityError::Crypto(_)))
            &&& secret_scalar_valid(k) && msg@.len() < 32 ==> (r matches Err(
                SecurityError::InvalidParams(_),
            ))
            &&& secret_scalar_valid(k) && msg@.len() >= 32 ==> r is Ok && r->Ok_0@ == ecdsa_der(
                k,
                msg@.subrange(0, 32),
            )
        }),
{
    let mut data: Vec<u8> = Vec::new();
    data.extend_from_slice(shard1);
    data.extend_from_slice(shard2);
    assert(data@ =~= shard1@ + shard2@);
    let mut key32 = sha256(data.as_slice());
    if !secret_key_accepted(&key32) {
        crate::secret::wipe(&mut key32);
        return Err(SecurityError::Crypto(String::from_str("invalid secret key")));
    }
    if msg.len() < 32 {
        crate::secret::wipe(&mut key32);
        return Err(SecurityError::InvalidParams(String::from_str("message digest must be 32 bytes")));
    }
    let digest: [u8; 32] = to_array(&msg[0..32]);
    let signed = ecdsa_sign(&key32, &digest);
    crate::secret::wipe(&mut key32);
    match signed {
        Some(sig) => Ok(sig),
        None => Err(SecurityError::Crypto(String::from_str("invalid secret key"))),
    }
}

} // verus!
