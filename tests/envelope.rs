use ark_wallet::envelope::{
    open_envelope, seal_envelope, seal_envelope_with, sign, Envelope, Mode, SignedTx, Tx,
};
use ark_wallet::errors::ErrorKind;
use ark_wallet::keystore::{b64d, b64e, hex_lower};

const MN: &str =
    "abandon abandon abandon abandon abandon abandon abandon abandon abandon abandon abandon about";

fn tx_bytes(tx: &Tx) -> Vec<u8> {
    format!("{{\"nonce\":{},\"to\":\"{}\",\"amount\":{}}}", tx.nonce, tx.to, tx.amount).into_bytes()
}

#[test]
fn test_cold_sign_from_shards() {
    let s1 = b"shard-one-contents";
    let s2 = b"shard-two-contents";
    let tx = Tx { nonce: 1, to: "addr".to_string(), amount: 100 };
    let sig = sign(&tx_bytes(&tx), Mode::Cold, Some((s1.as_ref(), s2.as_ref())), None)
        .expect("cold sign failed");
    println!("cold sig len={}", sig.len());
    assert!(!sig.is_empty());
}

#[test]
fn test_hot_sign_from_mnemonic() {
    let tx = Tx { nonce: 2, to: "addr2".to_string(), amount: 200 };
    let sig = sign(&tx_bytes(&tx), Mode::Hot, None, Some(MN)).expect("hot sign failed");
    println!("hot sig len={}", sig.len());
    assert!(!sig.is_empty());
}

#[test]
fn hot_signature_is_deterministic_der() {
    let tx = Tx { nonce: 2, to: "addr2".to_string(), amount: 200 };
    let a = sign(&tx_bytes(&tx), Mode::Hot, None, Some(MN)).unwrap();
    let b = sign(&tx_bytes(&tx), Mode::Hot, None, Some(MN)).unwrap();
    assert_eq!(a, b);
    assert_eq!(a[0], 0x30);
    let other = Tx { nonce: 3, ..tx };
    assert_ne!(a, sign(&tx_bytes(&other), Mode::Hot, None, Some(MN)).unwrap());
}

#[test]
fn sign_requires_its_key_source() {
    let m = b"{}";
    assert_eq!(sign(m, Mode::Cold, None, Some(MN)).unwrap_err().kind(), ErrorKind::InvalidParams);
    assert_eq!(sign(m, Mode::Hot, None, None).unwrap_err().kind(), ErrorKind::InvalidParams);
    assert_eq!(sign(m, Mode::Hot, None, Some("not a mnemonic")).unwrap_err().kind(), ErrorKind::Parse);
}

#[test]
fn mode_names() {
    assert_eq!(Mode::from_str("cold").unwrap(), Mode::Cold);
    assert_eq!(Mode::from_str("hot").unwrap(), Mode::Hot);
    assert_eq!(Mode::from_str("warm").unwrap_err().kind(), ErrorKind::InvalidParams);
}

#[test]
fn envelope_transfer_round_trip() {
    let tx = Tx { nonce: 100, to: "integration-addr".to_string(), amount: 12345 };
    let sig = sign(&tx_bytes(&tx), Mode::Hot, None, Some(MN)).expect("sign");
    let signed = SignedTx { tx: tx.clone(), signature: hex_lower(&sig) };
    let blob = format!(
        "{{\"tx\":{},\"signature\":\"{}\"}}",
        String::from_utf8(tx_bytes(&signed.tx)).unwrap(),
        signed.signature
    )
    .into_bytes();
    let (env, key_b64) = seal_envelope(&blob).expect("prepare failed");
    assert!(!env.nonce.is_empty());
    assert!(!key_b64.is_empty());
    assert_eq!(b64d(&key_b64).unwrap().len(), 32);
    assert_eq!(b64d(&env.nonce).unwrap().len(), 12);
    assert_eq!(b64d(&env.ciphertext).unwrap().len(), blob.len() + 16);
    let opened = open_envelope(&env, &key_b64).expect("decrypt failed");
    assert_eq!(opened, blob);
}

#[test]
fn corrupted_key_fails_decryption() {
    let blob = b"{\"tx\":{}}".to_vec();
    let (env, key_b64) = seal_envelope(&blob).unwrap();
    let mut key = b64d(&key_b64).unwrap();
    key[0] ^= 0x01;
    let bad = b64e(&key);
    assert_eq!(open_envelope(&env, &bad).unwrap_err().kind(), ErrorKind::Crypto);
}

#[test]
fn envelope_length_checks_come_before_decryption() {
    let (env, key_b64) = seal_envelope_with(b"payload", &[7u8; 32], &[9u8; 12]).unwrap();
    assert_eq!(open_envelope(&env, &b64e(&[7u8; 16])).unwrap_err().kind(), ErrorKind::InvalidParams);
    let short_nonce = Envelope { nonce: b64e(&[9u8; 8]), ciphertext: env.ciphertext.clone() };
    assert_eq!(open_envelope(&short_nonce, &key_b64).unwrap_err().kind(), ErrorKind::InvalidParams);
    assert_eq!(open_envelope(&env, "!!").unwrap_err().kind(), ErrorKind::Decode);
    assert_eq!(open_envelope(&env, &key_b64).unwrap(), b"payload".to_vec());
    assert_eq!(key_b64, b64e(&[7u8; 32]));
    assert_eq!(env.nonce, b64e(&[9u8; 12]));
}

#[test]
fn each_envelope_uses_a_fresh_key_and_nonce() {
    let (a, ka) = seal_envelope(b"same").unwrap();
    let (b, kb) = seal_envelope(b"same").unwrap();
    assert_ne!(ka, kb);
    assert_ne!(a.nonce, b.nonce);
    assert_ne!(a.ciphertext, b.ciphertext);
}
