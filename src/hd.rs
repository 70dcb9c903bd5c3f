//! Hierarchical-deterministic keys: mnemonic and passphrase to seed (BIP39), seed and
//! derivation path to a private scalar and its compressed public point (BIP32).
use vstd::prelude::*;
use crate::errors::{result_view, ErrorKind, SecurityError};
use vstd::string::StringExecFns;

verus! {

/// Derivation path used when none is given.
pub const DEFAULT_PATH: &'static str = "m/44'/7777'/0'/0/0";

/// Wordlist a mnemonic is written in.
#[derive(Debug, Clone, Copy, PartialEq, Eq, Structural)]
pub enum Lang {
    English,
    SimplifiedChinese,
}

/// Maps a language code to a wordlist: `zh` is Simplified Chinese, anything else English.
pub fn parse_lang(code: &str) -> (l: Lang)
    ensures
        l == (if code@ == "zh"@ {
            Lang::SimplifiedChinese
        } else {
            Lang::English
        }),
{
    if crate::text::text_eq(code, "zh") {
        Lang::SimplifiedChinese
    } else {
        Lang::English
    }
}

/// Name for the 64-byte BIP39 seed of a mnemonic and passphrase: `None` where the
/// mnemonic does not parse against the wordlist or its checksum fails.
pub uninterp spec fn bip39_seed(lang: Lang, mnemonic: Seq<char>, passphrase: Seq<char>) -> Option<Seq<u8>>;

/// Name for the private scalar and compressed public key that BIP32 derives from a seed
/// along a path: `None` where the path does not parse or a derivation step fails.
pub uninterp spec fn bip32_derived(seed: Seq<u8>, path: Seq<char>) -> Option<(Seq<u8>, Seq<u8>)>;

/// Name for the compressed SEC1 public key of a secp256k1 private scalar.
pub uninterp spec fn secp256k1_pubkey(secret: Seq<u8>) -> Seq<u8>;

/// Unsigned big-endian value of a byte string.
pub open spec fn be_value(b: Seq<u8>) -> nat
    decreases b.len(),
{
    if b.len() == 0 {
        0
    } else {
        (be_value(b.drop_last()) * 256 + b.last()) as nat
    }
}

/// Order of the secp256k1 group.
pub open spec fn secp256k1_order() -> nat {
    0xFFFFFFFFFFFFFFFFFFFFFFFFFFFFFFFEBAAEDCE6AF48A03BBFD25E8CD0364141nat
}

/// A valid secp256k1 private key: 32 bytes whose value lies in [1, n - 1].
pub open spec fn secret_scalar_valid(secret: Seq<u8>) -> bool {
    secret.len() == 32 && 0 < be_value(secret) < secp256k1_order()
}

/// Relies on bip39's `Mnemonic::parse_in`, which checks words and checksum against the
/// wordlist, and `Mnemonic::to_seed`, which stretches mnemonic and passphrase into 64 bytes.
#[verifier::external_body]
fn mnemonic_seed(lang: Lang, mnemonic: &str, passphrase: &str) -> (r: Option<[u8; 64]>)
    ensures
        r is Some <==> bip39_seed(lang, mnemonic@, passphrase@) is Some,
        r matches Some(s) ==> bip39_seed(lang, mnemonic@, passphrase@) == Some(s@),
{
    let language = match lang {
        Lang::English => bip39::Language::English,
        Lang::SimplifiedChinese => bip39::Language::SimplifiedChinese,
    };
    let m = bip39::Mnemonic::parse_in(language, mnemonic).ok()?;
    Some(m.to_seed(passphrase))
}

/// Relies on bip32's `DerivationPath` parser and `XPrv::derive_from_path`, which walks the
/// child derivations; the node's scalar and compressed public key are returned.
#[verifier::external_body]
fn bip32_derive(seed: &[u8; 64], path: &str) -> (r: Option<([u8; 32], [u8; 33])>)
    ensures
        r is Some <==> bip32_derived(seed@, path@) is Some,
        r matches Some(kp) ==> bip32_derived(seed@, path@) == Some((kp.0@, kp.1@)),
{
    let dp: bip32::DerivationPath = path.parse().ok()?;
    let xprv = bip32::XPrv::derive_from_path(seed, &dp).ok()?;
    Some((xprv.to_bytes(), xprv.public_key().to_bytes()))
}

/// Relies on k256's `SigningKey::from_bytes`, which accepts exactly the scalars in
/// [1, n - 1], and on `to_encoded_point(true)` of its verifying key.
#[verifier::external_body]
fn k256_public_key(secret: &[u8; 32]) -> (r: Option<[u8; 33]>)
    ensures
        r is Some <==> secret_scalar_valid(secret@),
        r matches Some(pk) ==> pk@ == secp256k1_pubkey(secret@),
{
    let sk = k256::ecdsa::SigningKey::from_bytes(secret.into()).ok()?;
    let point = sk.verifying_key().to_encoded_point(true);
    point.as_bytes().try_into().ok()
}

/// What HD derivation gives: private scalar and compressed public key, or the error kind.
pub open spec fn derive_outcome(lang: Lang, mnemonic: Seq<char>, passphrase: Seq<char>, path: Seq<char>) -> Result<
    (Seq<u8>, Seq<u8>),
    ErrorKind,
> {
    match bip39_seed(lang, mnemonic, passphrase) {
        None => Err(ErrorKind::Parse),
        Some(seed) => match bip32_derived(seed, path) {
            None => Err(ErrorKind::Parse),
            Some(kp) => Ok(kp),
        },
    }
}

/// Derives the 32-byte private key and 33-byte compressed public key at `path` from a
/// mnemonic and optional passphrase. The seed never leaves this function.
pub fn derive_priv_from_mnemonic(lang: Lang, mnemonic_text: &str, passphrase: &str, path: &str) -> (r:
    Result<([u8; 32], [u8; 33]), SecurityError>)
    ensures
        result_view(r) == derive_outcome(lang, mnemonic_text@, passphrase@, path@),
{
    let mut seed = match mnemonic_seed(lang, mnemonic_text, passphrase) {
        Some(s) => s,
        None => {
            return Err(SecurityError::Parse(String::from_str("bip39 parse error")));
        },
    };
    let derived = bip32_derive(&seed, path);
    crate::secret::wipe(&mut seed);
    match derived {
        Some(kp) => Ok(kp),
        None => Err(SecurityError::Parse(String::from_str("derivation path or derivation error"))),
    }
}

/// Recomputes the compressed public key of a private key, without trusting stored metadata.
pub fn pubkey_from_privkey_secp256k1(priv32: &[u8; 32]) -> (r: Result<[u8; 33], SecurityError>)
    ensures
        secret_scalar_valid(priv32@) ==> r is Ok && r->Ok_0@ == secp256k1_pubkey(priv32@),
        !secret_scalar_valid(priv32@) ==> r matches Err(SecurityError::Crypto(_)),
{
    match k256_public_key(priv32) {
        Some(pk) => Ok(pk),
        None => Err(SecurityError::Crypto(String::from_str("k256 error: invalid private key"))),
    }
}

/// Two derivations from the same mnemonic, passphrase, path and wordlist agree.
pub proof fn lemma_derive_deterministic(
    r1: Result<([u8; 32], [u8; 33]), SecurityError>,
    r2: Result<([u8; 32], [u8; 33]), SecurityError>,
    lang: Lang,
    mnemonic: Seq<char>,
    passphrase: Seq<char>,
    path: Seq<char>,
)
    requires
        result_view(r1) == derive_outcome(lang, mnemonic, passphrase, path),
        result_view(r2) == derive_outcome(lang, mnemonic, passphrase, path),
    ensures
        r1 is Ok <==> r2 is Ok,
        r1 is Ok ==> r1->Ok_0 == r2->Ok_0,
{
    if r1 is Ok {
        let (a1, b1) = r1->Ok_0;
        let (a2, b2) = r2->Ok_0;
        assert(a1@ == a2@ && b1@ == b2@);
        assert(a1 == a2);
        assert(b1 == b2);
    }
}

/// Entropy bytes for a BIP39 word count: 12, 15, 18, 21, 24 words take 16, 20, 24, 28, 32
/// bytes; any other count falls back to 16.
pub open spec fn entropy_len_for(words: usize) -> usize {
    if words == 15 {
        20
    } else if words == 18 {
        24
    } else if words == 21 {
        28
    } else if words == 24 {
        32
    } else {
        16
    }
}

/// Entropy bytes for a BIP39 word count.
pub fn entropy_len(words: usize) -> (r: usize)
    ensures
        r == entropy_len_for(words),
{
    if words == 15 {
        20
    } else if words == 18 {
        24
    } else if words == 21 {
        28
    } else if words == 24 {
        32
    } else {
        16
    }
}

/// Name for the BIP39 mnemonic text that encodes `entropy` in the wordlist.
pub uninterp spec fn bip39_words(lang: Lang, entropy: Seq<u8>) -> Seq<char>;

/// Relies on bip39's `Mnemonic::from_entropy_in`, which accepts 16 to 32 bytes in steps of
/// four, and on the mnemonic's `Display`, which writes its words.
#[verifier::external_body]
fn mnemonic_from_entropy(lang: Lang, entropy: &[u8]) -> (r: Option<String>)
    ensures
        r is Some <==> (entropy@.len() % 4 == 0 && 16 <= entropy@.len() <= 32),
        r matches Some(s) ==> s@ == bip39_words(lang, entropy@),
{
    let language = match lang {
        Lang::English => bip39::Language::English,
        Lang::SimplifiedChinese => bip39::Language::SimplifiedChinese,
    };
    bip39::Mnemonic::from_entropy_in(language, entropy).ok().map(|m| m.to_string())
}

/// The mnemonic that encodes `entropy`: 16 to 32 bytes in steps of four.
pub fn mnemonic_for_entropy(lang: Lang, entropy: &[u8]) -> (r: Result<String, SecurityError>)
    ensures
        (entropy@.len() % 4 == 0 && 16 <= entropy@.len() <= 32) ==> r is Ok && r->Ok_0@
            == bip39_words(lang, entropy@),
        !(entropy@.len() % 4 == 0 && 16 <= entropy@.len() <= 32) ==> r matches Err(
            SecurityError::InvalidParams(_),
        ),
{
    match mnemonic_from_entropy(lang, entropy) {
        Some(s) => Ok(s),
        None => Err(SecurityError::InvalidParams(String::from_str("entropy must be 16 to 32 bytes in steps of 4"))),
    }
}

/// A new mnemonic of `words` words (see `entropy_len_for`) from fresh OS randomness.
pub fn new_mnemonic(lang: Lang, words: usize) -> (r: Result<String, SecurityError>)
    ensures
        r matches Ok(s) ==> exists|entropy: Seq<u8>|
            entropy.len() == entropy_len_for(words) && s@ == #[trigger] bip39_words(lang, entropy),
        r matches Err(e) ==> e is Rand,
{
    let n = entropy_len(words);
    let mut entropy = match crate::keystore::random_bytes(n) {
        Some(v) => v,
        None => {
            return Err(SecurityError::Rand(String::from_str("os random source failed")));
        },
    };
    let r = mnemonic_for_entropy(lang, entropy.as_slice());
    crate::secret::wipe_vec(&mut entropy);
    r
}

} // verus!
