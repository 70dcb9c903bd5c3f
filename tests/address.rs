use ark_wallet::address::{from_pubkey_b58check, legacy_from_pubkey, ADDRESS_VERSION};
use ark_wallet::codec::{b58check_decode, b58check_encode, b58check_verify};
use ark_wallet::errors::SecurityError;
use sha2::{Digest, Sha256};

#[test]
fn address_is_base58_and_len20_bytes() {
    let mut pk = [0u8; 33];
    pk[0] = 0x02;
    pk[32] = 0xaa;
    let addr = legacy_from_pubkey(&pk);
    let decoded = bs58::decode(&addr).into_vec().expect("valid base58");
    assert_eq!(decoded.len(), 20);
}

#[test]
fn address_is_deterministic_and_changes_with_input() {
    let mut pk1 = [0u8; 33];
    pk1[0] = 0x02;
    let mut pk2 = pk1;
    pk2[32] = 1;
    let a1 = legacy_from_pubkey(&pk1);
    let a1b = legacy_from_pubkey(&pk1);
    let a2 = legacy_from_pubkey(&pk2);
    assert_eq!(a1, a1b);
    assert_ne!(a1, a2);
}

#[test]
fn b58check_roundtrip_and_checksum() {
    let mut pk = [0u8; 33];
    pk[0] = 0x02;
    pk[32] = 0xab;
    let addr_b58c = from_pubkey_b58check(&pk);
    let (ver, payload) = b58check_decode(&addr_b58c).expect("valid b58check");
    assert_eq!(ver, ADDRESS_VERSION);
    assert_eq!(payload.len(), 20);
    let h = Sha256::digest(pk);
    assert_eq!(&payload[..], &h[..20]);

    let mut bytes = addr_b58c.into_bytes();
    *bytes.last_mut().unwrap() ^= 0x01;
    let tampered = String::from_utf8(bytes).unwrap();
    assert!(b58check_decode(&tampered).is_err());
}

#[test]
fn base58check_roundtrip_and_checksum_fail() {
    let mut pk = [0u8; 33];
    pk[0] = 0x02;
    pk[32] = 0xaa;

    let addr = from_pubkey_b58check(&pk);
    let (ver, payload) = b58check_decode(&addr).expect("valid");
    assert_eq!(ver, ADDRESS_VERSION);
    assert_eq!(payload.len(), 20);
    let h = Sha256::digest(pk);
    assert_eq!(&payload[..], &h[..20]);

    let mut bytes = addr.into_bytes();
    *bytes.last_mut().unwrap() ^= 0x01;
    let tampered = String::from_utf8(bytes).unwrap();
    assert!(b58check_decode(&tampered).is_err());
}

#[test]
fn address_is_stable_across_calls() {
    let mut pk = [3u8; 33];
    pk[0] = 0x03;
    let a = from_pubkey_b58check(&pk);
    let b = from_pubkey_b58check(&pk);
    assert_eq!(a, b);
    assert_ne!(a, legacy_from_pubkey(&pk));
}

#[test]
fn b58check_encode_matches_manual_frame() {
    let payload = [1u8, 2, 3];
    let mut data = vec![0x23u8, 1, 2, 3];
    let chk = Sha256::digest(Sha256::digest(&data));
    data.extend_from_slice(&chk[..4]);
    assert_eq!(b58check_encode(0x23, &payload), bs58::encode(&data).into_string());
}

#[test]
fn flipping_any_checksum_bit_is_detected() {
    let mut data = vec![0x23u8, 9, 8, 7, 6];
    let chk = Sha256::digest(Sha256::digest(&data));
    data.extend_from_slice(&chk[..4]);
    assert!(b58check_verify(&data).is_ok());
    let n = data.len();
    for k in 0..4 {
        for bit in 0..8 {
            let mut t = data.clone();
            t[n - 4 + k] ^= 1u8 << bit;
            assert!(matches!(b58check_verify(&t), Err(SecurityError::Integrity)));
        }
    }
}

#[test]
fn b58check_decode_rejects_short_and_non_base58() {
    let short = bs58::encode([1u8, 2, 3, 4]).into_string();
    assert!(matches!(b58check_decode(&short), Err(SecurityError::Integrity)));
    assert!(matches!(b58check_decode("0OIl"), Err(SecurityError::Decode(_))));
}
