//! The operations the core exposes: create, open and export a keystore, and derive an
//! address. Each validates its inputs before it touches a secret.
use vstd::prelude::*;
use crate::address::{address_of, from_pubkey_b58check};
use crate::errors::{ErrorKind, SecurityError};
use crate::hd::{
    derive_outcome,
    derive_priv_from_mnemonic,
    pubkey_from_privkey_secp256k1,
    secp256k1_pubkey,
    secret_scalar_valid,
    Lang,
};
use crate::kdf::{kdf_kind_named, kdf_params_strong, validate_kdf_choice, validate_kdf_params};
use crate::keystore::{
    decrypt,
    decrypt_outcome,
    encrypt,
    hex_lower,
    hex_text,
    kdf_accepts,
    seals,
    Keystore,
    VERSION,
};
use crate::secret::wipe;
use crate::text::{lower_of, lowercase, text_eq};
use vstd::string::StringExecFns;
use vstd::string::StringSliceAdditionalSpecFns;

verus! {

/// Shortest password accepted for a new keystore, in bytes.
pub const MIN_PASSWORD_LEN: usize = 8;

/// What opening a keystore recomputes from the decrypted key.
#[derive(Debug)]
pub struct OpenedKeystore {
    /// Address recomputed from the decrypted key.
    pub address: String,
    /// Public key recomputed from the decrypted key.
    pub pubkey: [u8; 33],
    pub pubkey_hex: String,
    /// Whether the stored address and public key agree with the recomputed ones.
    pub matches: bool,
}

/// The first error that creating a keystore meets before any encryption, if any:
/// derivation, then the KDF name, then its floors, then the password length.
pub open spec fn create_precheck(
    lang: Lang,
    mnemonic: Seq<char>,
    passphrase: Seq<char>,
    path: Seq<char>,
    password: Seq<u8>,
    kdf: Seq<char>,
    iterations: u32,
    n: u32,
    r: u32,
    p: u32,
) -> Option<ErrorKind> {
    match derive_outcome(lang, mnemonic, passphrase, path) {
        Err(e) => Some(e),
        Ok(_) => match kdf_kind_named(lower_of(kdf)) {
            None => Some(ErrorKind::InvalidParams),
            Some(kind) => if !kdf_params_strong(kind, iterations, n, r, p) {
                Some(ErrorKind::InvalidParams)
            } else if password.len() < MIN_PASSWORD_LEN {
                Some(ErrorKind::InvalidParams)
            } else {
                None
            },
        },
    }
}

/// `ks` is the record of the key pair (`sk`, `pk`) sealed under `password`.
pub open spec fn keystore_of(
    ks: Keystore,
    sk: Seq<u8>,
    pk: Seq<u8>,
    password: Seq<u8>,
    path: Seq<char>,
    kdf: Seq<char>,
    created_at: Seq<char>,
) -> bool {
    &&& ks.version == VERSION
    &&& ks.created_at@ == created_at
    &&& ks.address@ == address_of(pk)
    &&& ks.path matches Some(s) && s@ == path
    &&& ks.pubkey_hex@ == hex_text(pk)
    &&& ks.crypto.kdf@ == kdf
    &&& seals(ks.crypto, sk, password)
}

/// Derives the key at `path`, checks the KDF choice and floors and the password length,
/// then encrypts the private key into a new record with a Base58Check address.
pub fn create_keystore(
    lang: Lang,
    mnemonic: &str,
    passphrase: &str,
    path: &str,
    password: &str,
    kdf: &str,
    iterations: u32,
    n: u32,
    r: u32,
    p: u32,
    created_at: &str,
) -> (res: Result<Keystore, SecurityError>)
    ensures
        ({
            let pre = create_precheck(
                lang,
                mnemonic@,
                passphrase@,
                path@,
                password.spec_bytes(),
                kdf@,
                iterations,
                n,
                r,
                p,
            );
            &&& (pre matches Some(e) ==> res is Err && res->Err_0.spec_kind() == e)
            &&& (pre is None && !kdf_accepts(lower_of(kdf@), iterations, n, r, p) ==> (res is Err && (
                res->Err_0 is Kdf || res->Err_0 is Rand)))
            &&& (pre is None && kdf_accepts(lower_of(kdf@), iterations, n, r, p) ==> (res is Ok
                || (res matches Err(SecurityError::Rand(_)))))
        }),
        res matches Ok(ks) ==> (derive_outcome(lang, mnemonic@, passphrase@, path@) matches Ok(
            kp,
        ) && keystore_of(
            ks,
            kp.0,
            kp.1,
            password.spec_bytes(),
            path@,
            lower_of(kdf@),
            created_at@,
        )),
{
    let (mut priv32, pk33) = match derive_priv_from_mnemonic(lang, mnemonic, passphrase, path) {
        Ok(kp) => kp,
        Err(e) => {
            return Err(e);
        },
    };
    let kind = match validate_kdf_choice(kdf) {
        Ok(k) => k,
        Err(e) => {
            wipe(&mut priv32);
            return Err(e);
        },
    };
    match validate_kdf_params(kind, iterations, n, r, p) {
        Ok(()) => {},
        Err(e) => {
            wipe(&mut priv32);
            return Err(e);
        },
    }
    if password.as_bytes().len() < MIN_PASSWORD_LEN {
        wipe(&mut priv32);
        return Err(SecurityError::InvalidParams(String::from_str("password too short (min 8 chars)")));
    }
    let kdf_name = lowercase(kdf);
    let sealed = encrypt(&priv32, password, kdf_name.as_str(), iterations, n, r, p);
    wipe(&mut priv32);
    let (crypto, _nonce) = match sealed {
        Ok(c) => c,
        Err(e) => {
            return Err(e);
        },
    };
    let ks = Keystore {
        version: VERSION,
        created_at: String::from_str(created_at),
        address: from_pubkey_b58check(&pk33),
        path: Some(String::from_str(path)),
        pubkey_hex: hex_lower(&pk33),
        crypto,
    };
    Ok(ks)
}

/// What opening `ks` with `password` gives: the recomputed public key, or the error kind.
pub open spec fn open_outcome_key(ks: Keystore, password: Seq<u8>) -> Result<Seq<u8>, ErrorKind> {
    if ks.version != VERSION {
        Err(ErrorKind::Integrity)
    } else {
        match decrypt_outcome(ks.crypto, password) {
            Err(e) => Err(e),
            Ok(sk) => if secret_scalar_valid(sk) {
                Ok(secp256k1_pubkey(sk))
            } else {
                Err(ErrorKind::Crypto)
            },
        }
    }
}

/// Refuses a record of another version, decrypts it, and recomputes public key and
/// address from the private key alone; reports whether the stored ones agree.
pub fn open_keystore(ks: &Keystore, password: &str) -> (res: Result<OpenedKeystore, SecurityError>)
    ensures
        open_outcome_key(*ks, password.spec_bytes()) matches Err(e) ==> res is Err
            && res->Err_0.spec_kind() == e,
        open_outcome_key(*ks, password.spec_bytes()) matches Ok(pk) ==> res is Ok && ({
            let o = res->Ok_0;
            &&& o.pubkey@ == pk
            &&& o.address@ == address_of(pk)
            &&& o.pubkey_hex@ == hex_text(pk)
            &&& o.matches == (ks.address@ == address_of(pk) && ks.pubkey_hex@ == hex_text(pk))
        }),
        forall|s: Seq<u8>|
            ks.version == VERSION && secret_scalar_valid(s) && #[trigger] seals(
                ks.crypto,
                s,
                password.spec_bytes(),
            ) ==> res is Ok && res->Ok_0.pubkey@ == secp256k1_pubkey(s),
{
    if ks.version != VERSION {
        return Err(SecurityError::Integrity);
    }
    let mut priv32 = match decrypt(&ks.crypto, password) {
        Ok(k) => k,
        Err(e) => {
            return Err(e);
        },
    };
    let recomputed = pubkey_from_privkey_secp256k1(&priv32);
    wipe(&mut priv32);
    let pk33 = match recomputed {
        Ok(pk) => pk,
        Err(e) => {
            return Err(e);
        },
    };
    let address = from_pubkey_b58check(&pk33);
    let pubkey_hex = hex_lower(&pk33);
    let matches = text_eq(ks.address.as_str(), address.as_str()) && text_eq(
        ks.pubkey_hex.as_str(),
        pubkey_hex.as_str(),
    );
    Ok(OpenedKeystore { address, pubkey: pk33, pubkey_hex, matches })
}

/// Refuses a record of another version, decrypts it, and returns the private key as
/// lowercase hex.
pub fn export_private_key(ks: &Keystore, password: &str) -> (res: Result<String, SecurityError>)
    ensures
        ks.version != VERSION ==> res matches Err(SecurityError::Integrity),
        ks.version == VERSION ==> match decrypt_outcome(ks.crypto, password.spec_bytes()) {
            Err(e) => res is Err && res->Err_0.spec_kind() == e,
            Ok(sk) => res is Ok && res->Ok_0@ == hex_text(sk),
        },
        forall|s: Seq<u8>|
            ks.version == VERSION && #[trigger] seals(ks.crypto, s, password.spec_bytes()) ==> res is Ok
                && res->Ok_0@ == hex_text(s),
{
    if ks.version != VERSION {
        return Err(SecurityError::Integrity);
    }
    let mut priv32 = match decrypt(&ks.crypto, password) {
        Ok(k) => k,
        Err(e) => {
            return Err(e);
        },
    };
    let hex = hex_lower(&priv32);
    wipe(&mut priv32);
    Ok(hex)
}

/// The Base58Check address of the key at `path`.
pub fn derive_address(lang: Lang, mnemonic: &str, passphrase: &str, path: &str) -> (res: Result<
    String,
    SecurityError,
>)
    ensures
        derive_outcome(lang, mnemonic@, passphrase@, path@) matches Err(e) ==> res is Err
            && res->Err_0.spec_kind() == e,
        derive_outcome(lang, mnemonic@, passphrase@, path@) matches Ok(kp) ==> res is Ok
            && res->Ok_0@ == address_of(kp.1),
{
    let (mut priv32, pk33) = match derive_priv_from_mnemonic(lang, mnemonic, passphrase, path) {
        Ok(kp) => kp,
        Err(e) => {
            return Err(e);
        },
    };
    wipe(&mut priv32);
    Ok(from_pubkey_b58check(&pk33))
}

} // verus!
