//! Hot-sign transfer: sign a transaction's canonical bytes, then seal the signed blob
//! under a one-time AES-256-GCM key that travels out of band.
use vstd::prelude::*;
use crate::codec::{sha256, sha256_of};
use crate::errors::{result_view, ErrorKind, SecurityError};
use crate::hd::{derive_outcome, derive_priv_from_mnemonic, secret_scalar_valid, Lang, DEFAULT_PATH};
use crate::keystore::{
    b64d,
    b64e,
    base64_decoded,
    base64_of,
    gcm_decrypt,
    gcm_encrypt,
    gcm_open,
    gcm_seal,
    random_bytes,
    to_array,
    GCM_MAX_PLAINTEXT,
};
use crate::secret::{wipe, wipe_vec};
use vstd::string::StringExecFns;

verus! {

/// Where the signing key comes from: shards (cold) or a mnemonic (hot).
#[derive(Debug, Clone, Copy, PartialEq, Eq, Structural)]
pub enum Mode {
    Cold,
    Hot,
}

impl Mode {
    /// `cold` or `hot`, exactly.
    pub fn from_str(s: &str) -> (r: Result<Mode, SecurityError>)
        ensures
            s@ == "cold"@ ==> r == Ok::<Mode, SecurityError>(Mode::Cold),
            s@ == "hot"@ ==> r == Ok::<Mode, SecurityError>(Mode::Hot),
            s@ != "cold"@ && s@ != "hot"@ ==> r matches Err(SecurityError::InvalidParams(_)),
    {
        proof {
            reveal_strlit("cold");
            reveal_strlit("hot");
            assert("cold"@[0] != "hot"@[0]);
        }
        if crate::text::text_eq(s, "cold") {
            Ok(Mode::Cold)
        } else if crate::text::text_eq(s, "hot") {
            Ok(Mode::Hot)
        } else {
            Err(SecurityError::InvalidParams(crate::text::joined("unknown mode: ", s)))
        }
    }
}

/// A transaction as the signer sees it.
#[derive(Debug, Clone, PartialEq, Eq)]
pub struct Tx {
    pub nonce: u64,
    pub to: String,
    pub amount: u64,
}

/// A transaction with its signature, as carried inside an envelope.
#[derive(Debug, Clone, PartialEq, Eq)]
pub struct SignedTx {
    pub tx: Tx,
    /// Hex of the DER signature.
    pub signature: String,
}

/// Base64 nonce and ciphertext of a sealed blob. The key is never part of it.
#[derive(Debug, Clone)]
pub struct Envelope {
    pub nonce: String,
    pub ciphertext: String,
}

/// Name for the DER-encoded ECDSA signature (RFC 6979 nonce) of a 32-byte digest.
pub uninterp spec fn ecdsa_der(secret: Seq<u8>, digest: Seq<u8>) -> Seq<u8>;

/// Relies on secp256k1's `SecretKey::from_slice`, which accepts exactly the scalars in
/// [1, n - 1], and `sign_ecdsa`, deterministic per RFC 6979, with `serialize_der`.
#[verifier::external_body]
pub(crate) fn ecdsa_sign(secret: &[u8; 32], digest: &[u8; 32]) -> (r: Option<Vec<u8>>)
    ensures
        r is Some <==> secret_scalar_valid(secret@),
        r matches Some(sig) ==> sig@ == ecdsa_der(secret@, digest@),
{
    let sk = secp256k1::SecretKey::from_slice(secret).ok()?;
    let msg = secp256k1::Message::from_digest(*digest);
    Some(secp256k1::Secp256k1::signing_only().sign_ecdsa(&msg, &sk).serialize_der().to_vec())
}

/// Signs `digest` with `secret`, or fails with `Crypto` on an invalid scalar.
pub(crate) fn sign_digest(secret: &[u8; 32], digest: &[u8; 32]) -> (r: Result<Vec<u8>, SecurityError>)
    ensures
        secret_scalar_valid(secret@) ==> r is Ok && r->Ok_0@ == ecdsa_der(secret@, digest@),
        !secret_scalar_valid(secret@) ==> r matches Err(SecurityError::Crypto(_)),
{
    match ecdsa_sign(secret, digest) {
        Some(sig) => Ok(sig),
        None => Err(SecurityError::Crypto(String::from_str("invalid secret key"))),
    }
}

/// Signature of `digest` under `secret`, or `Crypto` where the scalar is invalid.
pub open spec fn signed_with(secret: Seq<u8>, digest: Seq<u8>) -> Result<Seq<u8>, ErrorKind> {
    if secret_scalar_valid(secret) {
        Ok(ecdsa_der(secret, digest))
    } else {
        Err(ErrorKind::Crypto)
    }
}

/// What `sign` gives for the transaction bytes `msg`.
pub open spec fn sign_outcome(
    msg: Seq<u8>,
    mode: Mode,
    shards: Option<(Seq<u8>, Seq<u8>)>,
    mnemonic: Option<Seq<char>>,
) -> Result<Seq<u8>, ErrorKind> {
    match mode {
        Mode::Cold => match shards {
            None => Err(ErrorKind::InvalidParams),
            Some((s1, s2)) => {
                let k = sha256_of(s1 + s2 + msg);
                signed_with(k, k)
            },
        },
        Mode::Hot => match mnemonic {
            None => Err(ErrorKind::InvalidParams),
            Some(m) => match derive_outcome(Lang::English, m, ""@, DEFAULT_PATH@) {
                Err(e) => Err(e),
                Ok((sk, _)) => signed_with(sk, sha256_of(msg)),
            },
        },
    }
}

/// The views of an optional pair of shards.
pub open spec fn shards_view(shards: Option<(&[u8], &[u8])>) -> Option<(Seq<u8>, Seq<u8>)> {
    match shards {
        Some((a, b)) => Some((a@, b@)),
        None => None,
    }
}

/// The view of an optional mnemonic.
pub open spec fn mnemonic_view(m: Option<&str>) -> Option<Seq<char>> {
    match m {
        Some(s) => Some(s@),
        None => None,
    }
}

/// Signs the canonical bytes `msg` of a transaction.
/// Cold: the key is SHA-256 of both shards and `msg`, and it signs itself as digest.
/// Hot: the key is derived from the mnemonic (English, no passphrase, default path) and signs
/// SHA-256 of `msg`; the derived key does not outlive this call.
pub fn sign(msg: &[u8], mode: Mode, shards: Option<(&[u8], &[u8])>, mnemonic: Option<&str>) -> (r:
    Result<Vec<u8>, SecurityError>)
    ensures
        result_view(r) == sign_outcome(msg@, mode, shards_view(shards), mnemonic_view(mnemonic)),
{
    match mode {
        Mode::Cold => {
            let (s1, s2) = match shards {
                Some(pair) => pair,
                None => {
                    return Err(
                        SecurityError::InvalidParams(String::from_str("shards required for cold mode")),
                    );
                },
            };
            let mut data: Vec<u8> = Vec::new();
            data.extend_from_slice(s1);
            data.extend_from_slice(s2);
            data.extend_from_slice(msg);
            assert(data@ == s1@ + s2@ + msg@);
            let mut key32 = sha256(data.as_slice());
            let r = sign_digest(&key32, &key32);
            wipe(&mut key32);
            r
        },
        Mode::Hot => {
            let m = match mnemonic {
                Some(m) => m,
                None => {
                    return Err(
                        SecurityError::InvalidParams(
                            String::from_str("mnemonic required for hot mode"),
                        ),
                    );
                },
            };
            let derived = derive_priv_from_mnemonic(Lang::English, m, "", DEFAULT_PATH);
            let (mut priv32, _pk33) = match derived {
                Ok(kp) => kp,
                Err(e) => {
                    return Err(e);
                },
            };
            let digest = sha256(msg);
            let r = sign_digest(&priv32, &digest);
            wipe(&mut priv32);
            r
        },
    }
}

/// `env` with `key_b64` is the sealing of `blob` under this key and nonce.
pub open spec fn envelope_of(
    env: Envelope,
    key_b64: Seq<char>,
    key: Seq<u8>,
    nonce: Seq<u8>,
    blob: Seq<u8>,
) -> bool {
    &&& key.len() == 32
    &&& nonce.len() == 12
    &&& blob.len() <= GCM_MAX_PLAINTEXT
    &&& key_b64 == base64_of(key)
    &&& env.nonce@ == base64_of(nonce)
    &&& env.ciphertext@ == base64_of(gcm_seal(key, nonce, blob))
}

/// `env` with `key_b64` is the sealing of `blob`, for some key and nonce.
pub open spec fn envelope_seals(env: Envelope, key_b64: Seq<char>, blob: Seq<u8>) -> bool {
    exists|key: Seq<u8>, nonce: Seq<u8>| envelope_of(env, key_b64, key, nonce, blob)
}

/// Seals `blob` under the given one-time key and nonce; returns the envelope and the key in
/// Base64.
pub fn seal_envelope_with(blob: &[u8], key: &[u8; 32], nonce: &[u8; 12]) -> (r: Result<
    (Envelope, String),
    SecurityError,
>)
    ensures
        r is Ok <==> blob@.len() <= GCM_MAX_PLAINTEXT,
        r matches Ok((env, k)) ==> envelope_of(env, k@, key@, nonce@, blob@),
        r matches Err(e) ==> e is Crypto,
{
    let ct = match gcm_encrypt(key, nonce, blob) {
        Some(c) => c,
        None => {
            return Err(SecurityError::Crypto(String::from_str("aead encrypt failed")));
        },
    };
    let env = Envelope { nonce: b64e(nonce), ciphertext: b64e(ct.as_slice()) };
    Ok((env, b64e(key)))
}

/// Seals `blob` under a fresh random 32-byte key and 12-byte nonce; returns the envelope and
/// the key in Base64, to be handed over out of band.
pub fn seal_envelope(blob: &[u8]) -> (r: Result<(Envelope, String), SecurityError>)
    ensures
        r matches Ok((env, k)) ==> envelope_seals(env, k@, blob@),
        r matches Err(e) ==> e is Rand || (e is Crypto && blob@.len() > GCM_MAX_PLAINTEXT),
        blob@.len() > GCM_MAX_PLAINTEXT ==> r is Err,
{
    let mut key_v = match random_bytes(32) {
        Some(v) => v,
        None => {
            return Err(SecurityError::Rand(String::from_str("os random source failed")));
        },
    };
    let mut nonce_v = match random_bytes(12) {
        Some(v) => v,
        None => {
            wipe_vec(&mut key_v);
            return Err(SecurityError::Rand(String::from_str("os random source failed")));
        },
    };
    let mut key: [u8; 32] = to_array(key_v.as_slice());
    let mut nonce: [u8; 12] = to_array(nonce_v.as_slice());
    wipe_vec(&mut key_v);
    wipe_vec(&mut nonce_v);
    let r = seal_envelope_with(blob, &key, &nonce);
    proof {
        if r is Ok {
            let (env, k) = r->Ok_0;
            assert(envelope_of(env, k@, key@, nonce@, blob@));
        }
    }
    wipe(&mut key);
    wipe(&mut nonce);
    r
}

/// What opening an envelope with a Base64 key gives: the blob, or the kind of error.
pub open spec fn open_outcome(env: Envelope, key_b64: Seq<char>) -> Result<Seq<u8>, ErrorKind> {
    match (base64_decoded(env.nonce@), base64_decoded(env.ciphertext@), base64_decoded(key_b64)) {
        (Some(nonce), Some(ct), Some(key)) => {
            if key.len() != 32 {
                Err(ErrorKind::InvalidParams)
            } else if nonce.len() != 12 {
                Err(ErrorKind::InvalidParams)
            } else {
                match gcm_open(key, nonce, ct) {
                    Some(blob) => Ok(blob),
                    None => Err(ErrorKind::Crypto),
                }
            }
        },
        _ => Err(ErrorKind::Decode),
    }
}

/// Opens an envelope with the key handed over out of band. Key and nonce lengths are
/// checked before decryption; any decryption failure is a single `Crypto` error.
pub fn open_envelope(env: &Envelope, key_b64: &str) -> (r: Result<Vec<u8>, SecurityError>)
    ensures
        result_view(r) == open_outcome(*env, key_b64@),
        forall|blob: Seq<u8>| #[trigger] envelope_seals(*env, key_b64@, blob) ==> r is Ok && r->Ok_0@ == blob,
{
    let mut nonce = b64d(env.nonce.as_str())?;
    let ct = match b64d(env.ciphertext.as_str()) {
        Ok(v) => v,
        Err(e) => {
            wipe_vec(&mut nonce);
            return Err(e);
        },
    };
    let mut key = match b64d(key_b64) {
        Ok(v) => v,
        Err(e) => {
            wipe_vec(&mut nonce);
            return Err(e);
        },
    };
    if key.len() != 32 {
        proof {
            assert forall|blob: Seq<u8>| #[trigger] envelope_seals(*env, key_b64@, blob) implies false by {
                let (k, n) = choose|k: Seq<u8>, n: Seq<u8>| envelope_of(*env, key_b64@, k, n, blob);
            }
        }
        wipe_vec(&mut key);
        wipe_vec(&mut nonce);
        return Err(SecurityError::InvalidParams(String::from_str("ephemeral key must be 32 bytes")));
    }
    if nonce.len() != 12 {
        proof {
            assert forall|blob: Seq<u8>| #[trigger] envelope_seals(*env, key_b64@, blob) implies false by {
                let (k, n) = choose|k: Seq<u8>, n: Seq<u8>| envelope_of(*env, key_b64@, k, n, blob);
            }
        }
        wipe_vec(&mut key);
        wipe_vec(&mut nonce);
        return Err(SecurityError::InvalidParams(String::from_str("nonce must be 12 bytes for AES-GCM")));
    }
    let opened = gcm_decrypt(key.as_slice(), nonce.as_slice(), ct.as_slice());
    proof {
        assert forall|b: Seq<u8>| #[trigger] envelope_seals(*env, key_b64@, b) implies opened is Some
            && opened->0@ == b by {
            let (k, n) = choose|k: Seq<u8>, n: Seq<u8>| envelope_of(*env, key_b64@, k, n, b);
        }
    }
    wipe_vec(&mut key);
    wipe_vec(&mut nonce);
    match opened {
        Some(blob) => Ok(blob),
        None => Err(SecurityError::Crypto(String::from_str("decryption failed"))),
    }
}

} // verus!
