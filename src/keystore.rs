//! The keystore record and its AEAD envelope: a 32-byte secret encrypted with
//! AES-256-GCM under a key that scrypt or PBKDF2 derives from a password.
use vstd::prelude::*;
use crate::errors::{result_view, ErrorKind, SecurityError};
use crate::secret::{wipe, wipe_vec};
use crate::text::{all_ascii, ascii_chars, ascii_string, text_eq};
use aes_gcm::aead::{Aead, KeyInit};
use base64::Engine;
use rand::RngCore;
use vstd::arithmetic::power2::pow2;
use vstd::string::StringExecFns;
use vstd::string::StringSliceAdditionalSpecFns;

verus! {

/// Record format version; any other version is refused on load.
pub const VERSION: u32 = 1;

/// The one supported cipher.
pub const CIPHER: &'static str = "AES-256-GCM";

/// Length of the derived key.
pub const DKLEN: u32 = 32;

/// PBKDF2 iteration count used when a record does not state one.
pub const DEFAULT_PBKDF2_ITERATIONS: u32 = 600000;

/// scrypt parameters used when a record does not state them.
pub const DEFAULT_SCRYPT_N: u32 = 32768;

pub const DEFAULT_SCRYPT_R: u32 = 8;

pub const DEFAULT_SCRYPT_P: u32 = 1;

/// Largest plaintext that AES-GCM accepts.
pub const GCM_MAX_PLAINTEXT: u64 = 0x10_0000_0000;

/// The keystore record as stored on disk.
#[derive(Debug, Clone)]
pub struct Keystore {
    pub version: u32,
    /// RFC 3339 creation time.
    pub created_at: String,
    pub address: String,
    pub path: Option<String>,
    /// Compressed public key, 66 lowercase hex digits.
    pub pubkey_hex: String,
    pub crypto: Crypto,
}

/// The AEAD envelope of a secret.
#[derive(Debug, Clone)]
pub struct Crypto {
    /// Always `AES-256-GCM`.
    pub cipher: String,
    /// `scrypt` or `pbkdf2`.
    pub kdf: String,
    pub kdfparams: KdfParams,
    /// Base64 of the 12-byte nonce.
    pub nonce: String,
    /// Base64 of the ciphertext followed by its 16-byte tag.
    pub ciphertext: String,
}

/// KDF parameters stored beside the ciphertext.
#[derive(Debug, Clone)]
pub struct KdfParams {
    /// Base64 of the 16-byte salt.
    pub salt: String,
    pub dklen: u32,
    /// PBKDF2 only.
    pub iterations: Option<u32>,
    /// scrypt only: N, a power of two.
    pub n: Option<u32>,
    pub r: Option<u32>,
    pub p: Option<u32>,
}

/// Name for the standard, padded Base64 text of a byte string.
pub uninterp spec fn base64_of(data: Seq<u8>) -> Seq<char>;

/// Name for what decoding a text as standard Base64 gives: `None` where it is not Base64.
pub uninterp spec fn base64_decoded(text: Seq<char>) -> Option<Seq<u8>>;

/// Name for the 32-byte PBKDF2-HMAC-SHA256 key of a password, salt and round count.
pub uninterp spec fn pbkdf2_sha256(password: Seq<u8>, salt: Seq<u8>, rounds: u32) -> Seq<u8>;

/// Name for the 32-byte scrypt key of a password and salt under N = 2^log_n, r, p.
pub uninterp spec fn scrypt_key(password: Seq<u8>, salt: Seq<u8>, log_n: u8, r: u32, p: u32) -> Seq<u8>;

/// Name for the AES-256-GCM ciphertext (with its tag appended) of a plaintext.
pub uninterp spec fn gcm_seal(key: Seq<u8>, nonce: Seq<u8>, plaintext: Seq<u8>) -> Seq<u8>;

/// Name for what AES-256-GCM decryption gives: `None` where the tag does not authenticate.
pub uninterp spec fn gcm_open(key: Seq<u8>, nonce: Seq<u8>, ciphertext: Seq<u8>) -> Option<Seq<u8>>;

/// Relies on base64's `STANDARD.encode`: padded text that depends on the bytes alone.
#[verifier::external_body]
pub fn b64e(bytes: &[u8]) -> (r: String)
    ensures
        r@ == base64_of(bytes@),
{
    base64::engine::general_purpose::STANDARD.encode(bytes)
}

/// Relies on base64's `STANDARD.decode`: it gives back the bytes that `encode` wrote the text from.
#[verifier::external_body]
fn base64_decode(text: &str) -> (r: Option<Vec<u8>>)
    ensures
        r is Some <==> base64_decoded(text@) is Some,
        r matches Some(v) ==> base64_decoded(text@) == Some(v@),
        forall|b: Seq<u8>| text@ == #[trigger] base64_of(b) ==> r is Some && r->0@ == b,
{
    base64::engine::general_purpose::STANDARD.decode(text).ok()
}

/// Relies on `pbkdf2::pbkdf2_hmac::<Sha256>`, which cannot fail with an HMAC key.
#[verifier::external_body]
fn pbkdf2_derive(password: &[u8], salt: &[u8], rounds: u32) -> (r: [u8; 32])
    ensures
        r@ == pbkdf2_sha256(password@, salt@, rounds),
{
    let mut key = [0u8; 32];
    pbkdf2::pbkdf2_hmac::<sha2::Sha256>(password, salt, rounds, &mut key);
    key
}

/// The conditions under which `scrypt::Params::new` accepts its arguments.
pub open spec fn scrypt_params_valid(log_n: u8, r: u32, p: u32, len: int) -> bool {
    &&& r > 0 && p > 0
    &&& log_n < usize::BITS
    &&& 10 <= len <= 64
    &&& (r as int) * 128 <= usize::MAX
    &&& (r as int) * 128 * pow2(log_n as nat) <= usize::MAX
    &&& (r as int) * 128 * (p as int) <= usize::MAX
    &&& (log_n as int) < (r as int) * 16
    &&& (r as int) * (p as int) < 0x4000_0000
}

/// Relies on `scrypt::Params::new`, which checks the parameters, and on `scrypt::scrypt`,
/// which cannot fail for a 32-byte output and fills it from password, salt, N, r and p.
#[verifier::external_body]
fn scrypt_derive(password: &[u8], salt: &[u8], log_n: u8, r: u32, p: u32, len: usize) -> (res:
    Option<[u8; 32]>)
    ensures
        res is Some <==> scrypt_params_valid(log_n, r, p, len as int),
        res matches Some(k) ==> k@ == scrypt_key(password@, salt@, log_n, r, p),
{
    let params = scrypt::Params::new(log_n, r, p, len).ok()?;
    let mut key = [0u8; 32];
    scrypt::scrypt(password, salt, &params, &mut key).ok()?;
    Some(key)
}

/// Relies on `Aes256Gcm::encrypt`: it fails only past the plaintext limit, and appends a 16-byte tag.
#[verifier::external_body]
pub(crate) fn gcm_encrypt(key: &[u8], nonce: &[u8], plaintext: &[u8]) -> (r: Option<Vec<u8>>)
    requires
        key@.len() == 32,
        nonce@.len() == 12,
    ensures
        r is Some <==> plaintext@.len() <= GCM_MAX_PLAINTEXT,
        r matches Some(c) ==> c@ == gcm_seal(key@, nonce@, plaintext@),
        r matches Some(c) ==> c@.len() == plaintext@.len() + 16,
{
    let cipher = aes_gcm::Aes256Gcm::new_from_slice(key).ok()?;
    cipher.encrypt(aes_gcm::Nonce::from_slice(nonce), plaintext).ok()
}

/// Relies on `Aes256Gcm::decrypt`: it returns the plaintext that was sealed under the same
/// key and nonce, and strips the 16-byte tag.
#[verifier::external_body]
pub(crate) fn gcm_decrypt(key: &[u8], nonce: &[u8], ciphertext: &[u8]) -> (r: Option<Vec<u8>>)
    requires
        key@.len() == 32,
        nonce@.len() == 12,
    ensures
        r is Some <==> gcm_open(key@, nonce@, ciphertext@) is Some,
        r matches Some(v) ==> gcm_open(key@, nonce@, ciphertext@) == Some(v@),
        r matches Some(v) ==> v@.len() + 16 == ciphertext@.len(),
        forall|pt: Seq<u8>|
            pt.len() <= GCM_MAX_PLAINTEXT && ciphertext@ == #[trigger] gcm_seal(key@, nonce@, pt)
                ==> r is Some && r->0@ == pt,
{
    let cipher = aes_gcm::Aes256Gcm::new_from_slice(key).ok()?;
    cipher.decrypt(aes_gcm::Nonce::from_slice(nonce), ciphertext).ok()
}

/// Relies on `OsRng::try_fill_bytes`: on success every byte was drawn from the OS generator.
#[verifier::external_body]
pub(crate) fn random_bytes(len: usize) -> (r: Option<Vec<u8>>)
    ensures
        r matches Some(v) ==> v@.len() == len,
{
    let mut buf = vec![0u8; len];
    rand::rngs::OsRng.try_fill_bytes(&mut buf).ok()?;
    Some(buf)
}

/// Decodes standard Base64.
pub fn b64d(s: &str) -> (r: Result<Vec<u8>, SecurityError>)
    ensures
        r is Ok <==> base64_decoded(s@) is Some,
        r matches Ok(v) ==> base64_decoded(s@) == Some(v@),
        r is Err ==> r matches Err(SecurityError::Decode(_)),
        forall|b: Seq<u8>| s@ == #[trigger] base64_of(b) ==> r is Ok && r->Ok_0@ == b,
{
    match base64_decode(s) {
        Some(v) => Ok(v),
        None => Err(SecurityError::Decode(String::from_str("base64 decode error"))),
    }
}

/// floor(log2(n)) for n > 0.
pub open spec fn log2_floor(n: u32) -> u8 {
    (31 - n.leading_zeros()) as u8
}

/// The key that the record's KDF derives from `password` and `salt`, or `None` where the
/// KDF is unknown or its parameters are refused.
pub open spec fn kdf_key(kdf: Seq<char>, params: KdfParams, salt: Seq<u8>, password: Seq<u8>) -> Option<Seq<u8>> {
    if kdf == "pbkdf2"@ {
        let iters = match params.iterations {
            Some(i) => i,
            None => DEFAULT_PBKDF2_ITERATIONS,
        };
        Some(pbkdf2_sha256(password, salt, iters))
    } else if kdf == "scrypt"@ {
        let n = match params.n {
            Some(v) => v,
            None => DEFAULT_SCRYPT_N,
        };
        let r = match params.r {
            Some(v) => v,
            None => DEFAULT_SCRYPT_R,
        };
        let p = match params.p {
            Some(v) => v,
            None => DEFAULT_SCRYPT_P,
        };
        if n > 0 && scrypt_params_valid(log2_floor(n), r, p, params.dklen as int) {
            Some(scrypt_key(password, salt, log2_floor(n), r, p))
        } else {
            None
        }
    } else {
        None
    }
}

/// What deriving the record's key gives: the key, or the kind of error.
pub open spec fn derive_key_outcome(kdf: Seq<char>, params: KdfParams, password: Seq<u8>) -> Result<
    Seq<u8>,
    ErrorKind,
> {
    match base64_decoded(params.salt@) {
        None => Err(ErrorKind::Decode),
        Some(salt) => match kdf_key(kdf, params, salt, password) {
            Some(k) => Ok(k),
            None => Err(ErrorKind::Kdf),
        },
    }
}

/// Derives the 32-byte key of a record from the password: decodes the salt, then runs the
/// record's KDF.
pub fn derive_key(password: &str, kdf: &str, params: &KdfParams) -> (r: Result<[u8; 32], SecurityError>)
    ensures
        result_view(r) == derive_key_outcome(kdf@, *params, password.spec_bytes()),
        forall|salt: Seq<u8>|
            params.salt@ == #[trigger] base64_of(salt) ==> base64_decoded(params.salt@) == Some(salt),
{
    let mut salt = b64d(params.salt.as_str())?;
    let pw = password.as_bytes();
    let r = if text_eq(kdf, "pbkdf2") {
        proof {
            reveal_strlit("pbkdf2");
        }
        let iters = match params.iterations {
            Some(i) => i,
            None => DEFAULT_PBKDF2_ITERATIONS,
        };
        Ok(pbkdf2_derive(pw, salt.as_slice(), iters))
    } else if text_eq(kdf, "scrypt") {
        let n = match params.n {
            Some(v) => v,
            None => DEFAULT_SCRYPT_N,
        };
        let r = match params.r {
            Some(v) => v,
            None => DEFAULT_SCRYPT_R,
        };
        let p = match params.p {
            Some(v) => v,
            None => DEFAULT_SCRYPT_P,
        };
        if n == 0 {
            Err(SecurityError::Kdf(String::from_str("scrypt params error: n must be positive")))
        } else {
            let log_n = (31 - n.leading_zeros()) as u8;
            match scrypt_derive(pw, salt.as_slice(), log_n, r, p, params.dklen as usize) {
                Some(k) => Ok(k),
                None => Err(SecurityError::Kdf(String::from_str("scrypt params error"))),
            }
        }
    } else {
        Err(SecurityError::Kdf(String::from_str("unsupported kdf")))
    };
    wipe_vec(&mut salt);
    r
}

/// Whether `kdf` with these parameters derives a key: PBKDF2 always, scrypt when N > 0 and
/// `scrypt::Params::new` accepts N, r, p.
pub open spec fn kdf_accepts(kdf: Seq<char>, iterations: u32, n: u32, r: u32, p: u32) -> bool {
    ||| kdf == "pbkdf2"@
    ||| kdf == "scrypt"@ && n > 0 && scrypt_params_valid(log2_floor(n), r, p, DKLEN as int)
}

/// The parameters that encryption records for `kdf`: PBKDF2 keeps the iteration count, any
/// other name keeps N, r and p.
pub open spec fn params_recorded(
    params: KdfParams,
    kdf: Seq<char>,
    iterations: u32,
    n: u32,
    r: u32,
    p: u32,
    salt: Seq<u8>,
) -> bool {
    &&& params.salt@ == base64_of(salt)
    &&& params.dklen == DKLEN
    &&& if kdf == "pbkdf2"@ {
        params.iterations == Some(iterations) && params.n is None && params.r is None
            && params.p is None
    } else {
        params.iterations is None && params.n == Some(n) && params.r == Some(r) && params.p == Some(
            p,
        )
    }
}

/// `c` is the envelope of the 32-byte `secret` under `password`, with this salt and nonce.
pub open spec fn seals_with(
    c: Crypto,
    secret: Seq<u8>,
    password: Seq<u8>,
    salt: Seq<u8>,
    nonce: Seq<u8>,
) -> bool {
    &&& secret.len() == 32
    &&& nonce.len() == 12
    &&& c.cipher@ == CIPHER@
    &&& c.kdfparams.salt@ == base64_of(salt)
    &&& c.nonce@ == base64_of(nonce)
    &&& kdf_key(c.kdf@, c.kdfparams, salt, password) matches Some(key) && c.ciphertext@
        == base64_of(gcm_seal(key, nonce, secret))
}

/// `c` is the envelope of `secret` under `password`, for some salt and nonce.
pub open spec fn seals(c: Crypto, secret: Seq<u8>, password: Seq<u8>) -> bool {
    exists|salt: Seq<u8>, nonce: Seq<u8>| seals_with(c, secret, password, salt, nonce)
}

/// `c` seals `secret` under `password` with this nonce and some salt, and records the
/// parameters that were asked for.
pub open spec fn sealed_as_recorded(
    c: Crypto,
    secret: Seq<u8>,
    password: Seq<u8>,
    nonce: Seq<u8>,
    kdf: Seq<char>,
    iterations: u32,
    n: u32,
    r: u32,
    p: u32,
) -> bool {
    exists|salt: Seq<u8>|
        #[trigger] seals_with(c, secret, password, salt, nonce) && params_recorded(
            c.kdfparams,
            kdf,
            iterations,
            n,
            r,
            p,
            salt,
        )
}

/// What decrypting `c` with `password` gives: the secret, or the kind of error.
pub open spec fn decrypt_outcome(c: Crypto, password: Seq<u8>) -> Result<Seq<u8>, ErrorKind> {
    if c.cipher@ != CIPHER@ {
        Err(ErrorKind::Crypto)
    } else {
        match derive_key_outcome(c.kdf@, c.kdfparams, password) {
            Err(e) => Err(e),
            Ok(key) => match (base64_decoded(c.nonce@), base64_decoded(c.ciphertext@)) {
                (Some(nonce), Some(ct)) => {
                    if nonce.len() != 12 {
                        Err(ErrorKind::Crypto)
                    } else {
                        match gcm_open(key, nonce, ct) {
                            Some(pt) => if pt.len() == 32 {
                                Ok(pt)
                            } else {
                                Err(ErrorKind::Crypto)
                            },
                            None => Err(ErrorKind::Crypto),
                        }
                    }
                },
                _ => Err(ErrorKind::Decode),
            },
        }
    }
}

/// Copies a slice of exactly `N` bytes into an array.
pub fn to_array<const N: usize>(v: &[u8]) -> (r: [u8; N])
    requires
        v@.len() == N,
    ensures
        r@ == v@,
{
    let mut out = [0u8; N];
    let mut i: usize = 0;
    while i < N
        invariant
            i <= N,
            v@.len() == N,
            out@.len() == N,
            forall|k: int| 0 <= k < i ==> out@[k] == v@[k],
        decreases N - i,
    {
        out[i] = v[i];
        i = i + 1;
    }
    assert(out@ =~= v@);
    out
}

/// Encrypts a 32-byte secret under `password` with the given salt and nonce.
/// `kdf` = `pbkdf2` records the iteration count; any other name records scrypt's N, r, p.
/// Floors are not checked here: `validate_kdf_params` does that before a password is asked for.
pub fn encrypt_with(
    privkey: &[u8; 32],
    password: &str,
    kdf: &str,
    pbkdf2_iters: u32,
    n: u32,
    r: u32,
    p: u32,
    salt: &[u8; 16],
    nonce: &[u8; 12],
) -> (res: Result<Crypto, SecurityError>)
    ensures
        res is Ok <==> kdf_accepts(kdf@, pbkdf2_iters, n, r, p),
        res matches Err(e) ==> e is Kdf,
        res matches Ok(c) ==> seals_with(c, privkey@, password.spec_bytes(), salt@, nonce@),
        res matches Ok(c) ==> c.kdf@ == kdf@ && params_recorded(
            c.kdfparams,
            kdf@,
            pbkdf2_iters,
            n,
            r,
            p,
            salt@,
        ),
{
    let is_pbkdf2 = text_eq(kdf, "pbkdf2");
    let kdfparams = if is_pbkdf2 {
        KdfParams {
            salt: b64e(salt),
            dklen: DKLEN,
            iterations: Some(pbkdf2_iters),
            n: None,
            r: None,
            p: None,
        }
    } else {
        KdfParams {
            salt: b64e(salt),
            dklen: DKLEN,
            iterations: None,
            n: Some(n),
            r: Some(r),
            p: Some(p),
        }
    };
    let mut key = derive_key(password, kdf, &kdfparams)?;
    let sealed = gcm_encrypt(&key, nonce, privkey);
    wipe(&mut key);
    let ct = match sealed {
        Some(c) => c,
        None => {
            return Err(SecurityError::Crypto(String::from_str("aead encrypt failed")));
        },
    };
    let crypto = Crypto {
        cipher: String::from_str(CIPHER),
        kdf: String::from_str(kdf),
        kdfparams,
        nonce: b64e(nonce),
        ciphertext: b64e(ct.as_slice()),
    };
    Ok(crypto)
}

/// Encrypts a 32-byte secret under `password`, with a fresh random 16-byte salt and
/// 12-byte nonce from the OS generator. Returns the envelope and the nonce.
pub fn encrypt(
    privkey: &[u8; 32],
    password: &str,
    kdf: &str,
    pbkdf2_iters: u32,
    n: u32,
    r: u32,
    p: u32,
) -> (res: Result<(Crypto, [u8; 12]), SecurityError>)
    ensures
        res matches Ok((c, nb)) ==> seals(c, privkey@, password.spec_bytes()) && c.nonce@
            == base64_of(nb@) && c.kdf@ == kdf@,
        res matches Ok((c, nb)) ==> sealed_as_recorded(
            c,
            privkey@,
            password.spec_bytes(),
            nb@,
            kdf@,
            pbkdf2_iters,
            n,
            r,
            p,
        ),
        res matches Err(e) ==> e is Rand || (e is Kdf && !kdf_accepts(kdf@, pbkdf2_iters, n, r, p)),
        !kdf_accepts(kdf@, pbkdf2_iters, n, r, p) ==> res is Err,
{
    let salt_v = match random_bytes(16) {
        Some(v) => v,
        None => {
            return Err(SecurityError::Rand(String::from_str("os random source failed")));
        },
    };
    let nonce_v = match random_bytes(12) {
        Some(v) => v,
        None => {
            return Err(SecurityError::Rand(String::from_str("os random source failed")));
        },
    };
    let salt: [u8; 16] = to_array(salt_v.as_slice());
    let nonce: [u8; 12] = to_array(nonce_v.as_slice());
    let crypto = encrypt_with(privkey, password, kdf, pbkdf2_iters, n, r, p, &salt, &nonce)?;
    assert(seals_with(crypto, privkey@, password.spec_bytes(), salt@, nonce@) && params_recorded(
        crypto.kdfparams,
        kdf@,
        pbkdf2_iters,
        n,
        r,
        p,
        salt@,
    ));
    assert(sealed_as_recorded(crypto, privkey@, password.spec_bytes(), nonce@, kdf@, pbkdf2_iters, n, r, p));
    Ok((crypto, nonce))
}

/// Decrypts an envelope with `password` and returns the 32-byte secret. A wrong password
/// and a tampered record both fail with `Crypto`: the two are deliberately not told apart.
pub fn decrypt(crypto: &Crypto, password: &str) -> (r: Result<[u8; 32], SecurityError>)
    ensures
        result_view(r) == decrypt_outcome(*crypto, password.spec_bytes()),
        forall|s: Seq<u8>| #[trigger] seals(*crypto, s, password.spec_bytes()) ==> r is Ok && r->Ok_0@ == s,
        r is Ok ==> (base64_decoded(crypto.ciphertext@) matches Some(ct) && ct.len() == 48),
{
    let ghost pw = password.spec_bytes();
    if !text_eq(crypto.cipher.as_str(), CIPHER) {
        let msg = crate::text::joined("unsupported cipher: ", crypto.cipher.as_str());
        return Err(SecurityError::Crypto(msg));
    }
    let mut key = match derive_key(password, crypto.kdf.as_str(), &crypto.kdfparams) {
        Ok(k) => k,
        Err(e) => {
            proof {
                assert forall|s: Seq<u8>| #[trigger] seals(*crypto, s, pw) implies false by {
                    let (salt, nonce) = choose|salt: Seq<u8>, nonce: Seq<u8>|
                        seals_with(*crypto, s, pw, salt, nonce);
                    assert(crypto.kdfparams.salt@ == base64_of(salt));
                }
            }
            return Err(e);
        },
    };
    let nonce = match b64d(crypto.nonce.as_str()) {
        Ok(v) => v,
        Err(e) => {
            wipe(&mut key);
            return Err(e);
        },
    };
    let ct = match b64d(crypto.ciphertext.as_str()) {
        Ok(v) => v,
        Err(e) => {
            wipe(&mut key);
            return Err(e);
        },
    };
    if nonce.len() != 12 {
        wipe(&mut key);
        return Err(SecurityError::Crypto(String::from_str("invalid nonce length")));
    }
    let opened = gcm_decrypt(&key, nonce.as_slice(), ct.as_slice());
    wipe(&mut key);
    let mut pt = match opened {
        Some(v) => v,
        None => {
            return Err(SecurityError::Crypto(String::from_str("aead decrypt failed")));
        },
    };
    if pt.len() != 32 {
        wipe_vec(&mut pt);
        return Err(SecurityError::Crypto(String::from_str("invalid plaintext length")));
    }
    let out: [u8; 32] = to_array(pt.as_slice());
    wipe_vec(&mut pt);
    proof {
        assert forall|s: Seq<u8>| #[trigger] seals(*crypto, s, pw) implies out@ == s by {
            let (salt, nonce_s) = choose|salt: Seq<u8>, nonce: Seq<u8>|
                seals_with(*crypto, s, pw, salt, nonce);
            assert(crypto.kdfparams.salt@ == base64_of(salt));
            assert(crypto.nonce@ == base64_of(nonce_s));
        }
    }
    Ok(out)
}

/// ASCII code of the lowercase hex digit of a value below 16.
pub open spec fn hex_digit(v: u8) -> u8 {
    if v < 10 {
        (48 + v) as u8
    } else {
        (87 + v) as u8
    }
}

/// The ASCII codes of the lowercase hex text of a byte string, two digits per byte.
pub open spec fn hex_lower_bytes(data: Seq<u8>) -> Seq<u8> {
    Seq::new(
        2 * data.len(),
        |i: int|
            if i % 2 == 0 {
                hex_digit(data[i / 2] / 16)
            } else {
                hex_digit(data[i / 2] % 16)
            },
    )
}

/// The lowercase hex text of a byte string.
pub open spec fn hex_text(data: Seq<u8>) -> Seq<char> {
    ascii_chars(hex_lower_bytes(data))
}

/// Lowercase hex text, two digits per byte.
pub fn hex_lower(data: &[u8]) -> (r: String)
    ensures
        r@ == hex_text(data@),
{
    let mut out: Vec<u8> = Vec::new();
    let mut i: usize = 0;
    while i < data.len()
        invariant
            i <= data@.len(),
            out@.len() == 2 * i,
            forall|k: int| 0 <= k < 2 * i ==> out@[k] == #[trigger] hex_lower_bytes(data@)[k],
            all_ascii(out@),
        decreases data@.len() - i,
    {
        let b = data[i];
        let hi = b / 16;
        let lo = b % 16;
        let dh: u8 = if hi < 10 { 48 + hi } else { 87 + hi };
        let dl: u8 = if lo < 10 { 48 + lo } else { 87 + lo };
        out.push(dh);
        out.push(dl);
        proof {
            let j = 2 * (i as int);
            assert(j / 2 == i as int && j % 2 == 0) by (nonlinear_arith)
                requires
                    j == 2 * (i as int),
            ;
            assert((j + 1) / 2 == i as int && (j + 1) % 2 == 1) by (nonlinear_arith)
                requires
                    j == 2 * (i as int),
            ;
            assert forall|k: int| 0 <= k < 2 * (i + 1) implies out@[k] == #[trigger] hex_lower_bytes(
                data@,
            )[k] by {
                if k == j {
                } else if k == j + 1 {
                }
            }
        }
        i = i + 1;
    }
    assert(out@ =~= hex_lower_bytes(data@));
    ascii_string(out)
}

} // verus!
