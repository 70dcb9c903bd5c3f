use ark_wallet::cold::{cold_sign_with_key, lock, sign_from_shards, sign_lock, split_key, WalletError};
use ark_wallet::errors::ErrorKind;
use sha2::{Digest, Sha256};

fn key() -> [u8; 32] {
    let mut k = [0u8; 32];
    k[31] = 7;
    k
}

#[test]
fn cold_sign_checks_key_then_hash() {
    assert!(matches!(cold_sign_with_key(&[0u8; 32], &[1u8; 5]), Err(WalletError::InvalidKey)));
    assert!(matches!(cold_sign_with_key(&[1u8; 31], &[1u8; 32]), Err(WalletError::InvalidKey)));
    assert!(matches!(cold_sign_with_key(&key(), &[1u8; 5]), Err(WalletError::InvalidHash)));
    let sig = cold_sign_with_key(&key(), &[1u8; 32]).unwrap();
    assert_eq!(sig[0], 0x30);
    assert_eq!(sign_lock(&key(), &[1u8; 32]).unwrap(), sig);
}

#[test]
fn lock_signs_hash_of_amount() {
    let h = Sha256::digest(100u64.to_le_bytes());
    assert_eq!(lock(&key(), 100).unwrap(), cold_sign_with_key(&key(), &h).unwrap());
}

#[test]
fn split_key_gives_tagged_digests() {
    let (a, b, c) = split_key(&[9u8; 32]);
    let mut h = Sha256::new();
    h.update(b"share-1");
    h.update([9u8; 32]);
    assert_eq!(b, h.finalize().to_vec());
    assert_eq!(a.len(), 32);
    assert_ne!(a, c);
}

#[test]
fn shards_sign_first_32_bytes() {
    let msg = [3u8; 40];
    let sig = sign_from_shards(b"one", b"two", &msg).unwrap();
    assert_eq!(sig, sign_from_shards(b"one", b"two", &msg[..32]).unwrap());
    assert_eq!(sign_from_shards(b"one", b"two", &msg[..10]).unwrap_err().kind(), ErrorKind::InvalidParams);
}
