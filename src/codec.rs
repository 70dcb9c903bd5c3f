//! Base58Check: version byte, payload and a four-byte double-SHA-256 checksum,
//! written in Base58.
use vstd::prelude::*;
use crate::errors::SecurityError;
use sha2::Digest;
use vstd::string::StringExecFns;

verus! {

/// Name for the SHA-256 digest of a byte string.
pub uninterp spec fn sha256_of(data: Seq<u8>) -> Seq<u8>;

/// Name for the Base58 text (Bitcoin alphabet) of a byte string.
pub uninterp spec fn base58_of(data: Seq<u8>) -> Seq<char>;

/// Name for what decoding a text as Base58 gives: `None` where the text is not Base58.
pub uninterp spec fn base58_decoded(text: Seq<char>) -> Option<Seq<u8>>;

/// Relies on `sha2::Sha256::digest`: a 32-byte digest that depends on the bytes alone.
#[verifier::external_body]
pub(crate) fn sha256(data: &[u8]) -> (r: [u8; 32])
    ensures
        r@ == sha256_of(data@),
{
    sha2::Sha256::digest(data).into()
}

/// Relies on `bs58::encode(..).into_string()`: Base58 text that depends on the bytes alone.
#[verifier::external_body]
pub(crate) fn base58_text(data: &[u8]) -> (r: String)
    ensures
        r@ == base58_of(data@),
{
    bs58::encode(data).into_string()
}

/// Relies on `bs58::decode(..).into_vec()`: it fails on text outside the alphabet,
/// and it gives back the bytes that `bs58::encode` wrote the text from.
#[verifier::external_body]
fn base58_decode(text: &str) -> (r: Option<Vec<u8>>)
    ensures
        r is Some <==> base58_decoded(text@) is Some,
        r matches Some(v) ==> base58_decoded(text@) == Some(v@),
        forall|b: Seq<u8>| text@ == #[trigger] base58_of(b) ==> r is Some && r->0@ == b,
{
    bs58::decode(text).into_vec().ok()
}

/// First four bytes of SHA-256(SHA-256(head)).
pub open spec fn checksum4(head: Seq<u8>) -> Seq<u8> {
    Seq::new(4, |i: int| sha256_of(sha256_of(head))[i])
}

/// The bytes that Base58Check writes for `version` and `payload`.
pub open spec fn b58check_frame(version: u8, payload: Seq<u8>) -> Seq<u8> {
    seq![version] + payload + checksum4(seq![version] + payload)
}

/// Whether raw decoded bytes hold a version, a payload and a matching checksum.
pub open spec fn frame_checks(raw: Seq<u8>) -> bool {
    &&& raw.len() >= 5
    &&& checksum4(raw.subrange(0, raw.len() - 4)) == raw.subrange(raw.len() - 4, raw.len() as int)
}

/// Version and payload of a frame whose checksum matches.
pub open spec fn unframe(raw: Seq<u8>) -> Option<(u8, Seq<u8>)> {
    if frame_checks(raw) {
        Some((raw[0], raw.subrange(1, raw.len() - 4)))
    } else {
        None
    }
}

/// The view of a decode result: version and payload, or the error.
pub open spec fn decoded_view(r: Result<(u8, Vec<u8>), SecurityError>) -> Option<(u8, Seq<u8>)> {
    match r {
        Ok((v, p)) => Some((v, p@)),
        Err(_) => None,
    }
}

/// Base58Check text of `version` followed by `payload`.
pub fn b58check_encode(version: u8, payload: &[u8]) -> (r: String)
    ensures
        r@ == base58_of(b58check_frame(version, payload@)),
{
    let mut data: Vec<u8> = Vec::new();
    data.push(version);
    data.extend_from_slice(payload);
    let ghost head = data@;
    assert(head == seq![version] + payload@);
    let inner = sha256(data.as_slice());
    let outer = sha256(&inner);
    let mut i: usize = 0;
    while i < 4
        invariant
            i <= 4,
            outer@ == sha256_of(sha256_of(head)),
            outer@.len() == 32,
            data@ == head + checksum4(head).subrange(0, i as int),
        decreases 4 - i,
    {
        data.push(outer[i]);
        proof {
            assert(checksum4(head).subrange(0, i + 1) == checksum4(head).subrange(0, i as int).push(
                outer@[i as int],
            ));
        }
        i = i + 1;
    }
    assert(checksum4(head).subrange(0, 4) == checksum4(head));
    base58_text(data.as_slice())
}

/// Checks the checksum of raw decoded bytes and splits off version and payload.
pub fn b58check_verify(raw: &[u8]) -> (r: Result<(u8, Vec<u8>), SecurityError>)
    ensures
        decoded_view(r) == unframe(raw@),
        r is Err ==> r matches Err(SecurityError::Integrity),
{
    let len = raw.len();
    if len < 5 {
        return Err(SecurityError::Integrity);
    }
    let head = &raw[0..len - 4];
    let inner = sha256(head);
    let outer = sha256(&inner);
    let mut i: usize = 0;
    while i < 4
        invariant
            5 <= len == raw@.len(),
            i <= 4,
            head@ == raw@.subrange(0, len - 4),
            outer@ == sha256_of(sha256_of(head@)),
            outer@.len() == 32,
            forall|k: int| 0 <= k < i ==> outer@[k] == raw@[len - 4 + k],
        decreases 4 - i,
    {
        if outer[i] != raw[len - 4 + i] {
            proof {
                assert(checksum4(head@)[i as int] != raw@.subrange(len - 4, len as int)[i as int]);
            }
            return Err(SecurityError::Integrity);
        }
        i = i + 1;
    }
    assert(checksum4(head@) =~= raw@.subrange(len - 4, len as int));
    let mut payload: Vec<u8> = Vec::new();
    payload.extend_from_slice(&raw[1..len - 4]);
    Ok((raw[0], payload))
}

/// Decodes Base58Check text into its version and payload.
pub fn b58check_decode(s: &str) -> (r: Result<(u8, Vec<u8>), SecurityError>)
    ensures
        match base58_decoded(s@) {
            None => r matches Err(SecurityError::Decode(_)),
            Some(raw) => decoded_view(r) == unframe(raw) && (r is Err ==> r matches Err(
                SecurityError::Integrity,
            )),
        },
        forall|v: u8, p: Seq<u8>|
            s@ == #[trigger] base58_of(b58check_frame(v, p)) ==> decoded_view(r) == Some((v, p)),
{
    match base58_decode(s) {
        None => Err(SecurityError::Decode(String::from_str("base58 decode error"))),
        Some(raw) => {
            let r = b58check_verify(raw.as_slice());
            proof {
                assert forall|v: u8, p: Seq<u8>|
                    s@ == #[trigger] base58_of(b58check_frame(v, p)) implies decoded_view(r) == Some(
                    (v, p),
                ) by {
                    lemma_frame_round_trip(v, p);
                }
            }
            r
        },
    }
}

/// Unframing the frame of a version and payload gives them back.
pub proof fn lemma_frame_round_trip(version: u8, payload: Seq<u8>)
    ensures
        unframe(b58check_frame(version, payload)) == Some((version, payload)),
{
    let head = seq![version] + payload;
    let raw = b58check_frame(version, payload);
    assert(raw.subrange(0, raw.len() - 4) =~= head);
    assert(raw.subrange(raw.len() - 4, raw.len() as int) =~= checksum4(head));
    assert(raw.subrange(1, raw.len() - 4) =~= payload);
}

/// Flipping any bit of a checksum byte makes the frame fail its check.
pub proof fn lemma_checksum_bit_flip(version: u8, payload: Seq<u8>, k: int, bit: u8)
    requires
        0 <= k < 4,
        bit < 8,
    ensures
        ({
            let raw = b58check_frame(version, payload);
            let i = raw.len() - 4 + k;
            unframe(raw.update(i, raw[i] ^ (1u8 << bit))) is None
        }),
{
    let head = seq![version] + payload;
    let raw = b58check_frame(version, payload);
    let i = raw.len() - 4 + k;
    let b = raw[i];
    let flipped = raw.update(i, b ^ (1u8 << bit));
    assert(b ^ (1u8 << bit) != b) by (bit_vector)
        requires
            bit < 8,
    ;
    assert(flipped.subrange(0, flipped.len() - 4) =~= head);
    assert(flipped.subrange(flipped.len() - 4, flipped.len() as int)[k] != checksum4(head)[k]);
}

} // verus!
