//! Addresses derived from a compressed public key.
use vstd::prelude::*;
use crate::codec::{
    b58check_encode,
    b58check_frame,
    base58_of,
    lemma_frame_round_trip,
    sha256,
    sha256_of,
    unframe,
};

verus! {

/// Version byte of Base58Check addresses.
pub const ADDRESS_VERSION: u8 = 0x23;

/// First 20 bytes of SHA-256 of the public key: the address payload.
pub open spec fn pubkey_hash20(pk: Seq<u8>) -> Seq<u8> {
    Seq::new(20, |i: int| sha256_of(pk)[i])
}

/// The Base58Check address of a public key.
pub open spec fn address_of(pk: Seq<u8>) -> Seq<char> {
    base58_of(b58check_frame(ADDRESS_VERSION, pubkey_hash20(pk)))
}

fn hash20(pk: &[u8]) -> (r: Vec<u8>)
    ensures
        r@ == pubkey_hash20(pk@),
{
    let h = sha256(pk);
    let mut out: Vec<u8> = Vec::new();
    let mut i: usize = 0;
    while i < 20
        invariant
            i <= 20,
            h@ == sha256_of(pk@),
            h@.len() == 32,
            out@ == pubkey_hash20(pk@).subrange(0, i as int),
        decreases 20 - i,
    {
        out.push(h[i]);
        proof {
            assert(pubkey_hash20(pk@).subrange(0, i + 1) =~= pubkey_hash20(pk@).subrange(
                0,
                i as int,
            ).push(h@[i as int]));
        }
        i = i + 1;
    }
    assert(pubkey_hash20(pk@).subrange(0, 20) =~= pubkey_hash20(pk@));
    out
}

/// Bare Base58 of the 20-byte key hash, with neither version nor checksum.
/// Kept for reading old records only: it cannot detect a mistyped address.
pub fn legacy_from_pubkey(pk_compressed: &[u8]) -> (r: String)
    ensures
        r@ == crate::codec::base58_of(pubkey_hash20(pk_compressed@)),
{
    let h = hash20(pk_compressed);
    crate::codec::base58_text(h.as_slice())
}

/// Base58Check address: version byte, 20-byte key hash, double-SHA-256 checksum.
pub fn from_pubkey_b58check(pk_compressed: &[u8]) -> (r: String)
    ensures
        r@ == address_of(pk_compressed@),
{
    let h = hash20(pk_compressed);
    b58check_encode(ADDRESS_VERSION, h.as_slice())
}

/// An address is a function of the public key alone, and its frame carries back the
/// address version and the 20-byte key hash.
pub proof fn lemma_address_round_trip(pk: Seq<u8>)
    ensures
        address_of(pk) == base58_of(b58check_frame(ADDRESS_VERSION, pubkey_hash20(pk))),
        pubkey_hash20(pk).len() == 20,
        unframe(b58check_frame(ADDRESS_VERSION, pubkey_hash20(pk))) == Some(
            (ADDRESS_VERSION, pubkey_hash20(pk)),
        ),
{
    lemma_frame_round_trip(ADDRESS_VERSION, pubkey_hash20(pk));
}

} // verus!
