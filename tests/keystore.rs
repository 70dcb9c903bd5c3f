use ark_wallet::errors::{ErrorKind, SecurityError};
use ark_wallet::keystore::{
    b64d, b64e, decrypt, derive_key, encrypt, encrypt_with, hex_lower, KdfParams, CIPHER,
};
use base64::Engine;

#[test]
fn hex_lower_works() {
    let bytes: [u8; 4] = [0x00, 0xab, 0x10, 0xff];
    let h = hex_lower(&bytes);
    assert_eq!(h, "00ab10ff");
}

#[test]
fn encrypt_decrypt_roundtrip_pbkdf2() {
    let privkey = [7u8; 32];
    let pwd = "TestPwd#1";
    let (crypto, _nonce) = encrypt(&privkey, pwd, "pbkdf2", 1000, 0, 0, 0).unwrap();
    let out = decrypt(&crypto, pwd).unwrap();
    assert_eq!(out, privkey);
}

#[test]
fn encrypt_decrypt_roundtrip_scrypt() {
    let privkey = [9u8; 32];
    let pwd = "TestPwd#2";
    let (crypto, _nonce) = encrypt(&privkey, pwd, "scrypt", 0, 1 << 15, 8, 1).unwrap();
    let out = decrypt(&crypto, pwd).unwrap();
    assert_eq!(out, privkey);
}

#[test]
fn decrypt_wrong_password_fails() {
    let privkey = [5u8; 32];
    let (crypto, _nonce) = encrypt(&privkey, "GoodPwd", "scrypt", 0, 1 << 15, 8, 1).unwrap();
    let err = decrypt(&crypto, "BadPwd").unwrap_err();
    assert!(matches!(err, SecurityError::Crypto(ref msg) if msg.contains("aead decrypt failed")));
}

#[test]
fn wrong_cipher_rejected() {
    let privkey = [1u8; 32];
    let (mut crypto, _nonce) = encrypt(&privkey, "pwd", "pbkdf2", 10, 0, 0, 0).unwrap();
    crypto.cipher = "AES-128-GCM".to_string();
    let err = decrypt(&crypto, "pwd").unwrap_err();
    assert!(matches!(err, SecurityError::Crypto(ref msg) if msg.contains("unsupported cipher")));
}

#[test]
fn base64_helpers() {
    let d = [1u8, 2, 3, 4, 5, 6];
    let s = b64e(&d);
    let back = b64d(&s).unwrap();
    assert_eq!(back, d);
}

#[test]
fn tampered_ciphertext_should_fail_decrypt() {
    let privkey = [7u8; 32];
    let pwd = "TestPwd#1";
    let (mut crypto, _nonce) = encrypt(&privkey, pwd, "pbkdf2", 1000, 0, 0, 0).unwrap();
    let mut ct_bytes = base64::engine::general_purpose::STANDARD
        .decode(&crypto.ciphertext)
        .unwrap();
    ct_bytes[0] ^= 0xff;
    crypto.ciphertext = base64::engine::general_purpose::STANDARD.encode(ct_bytes);
    let err = decrypt(&crypto, pwd).unwrap_err();
    assert!(matches!(err, SecurityError::Crypto(ref msg) if msg.contains("aead") || msg.contains("decrypt")));
}

#[test]
fn flipping_one_bit_of_nonce_or_ciphertext_fails() {
    let privkey = [0x42u8; 32];
    let pwd = "TestPwd#3";
    let (crypto, _nonce) = encrypt(&privkey, pwd, "pbkdf2", 1000, 0, 0, 0).unwrap();
    let std = base64::engine::general_purpose::STANDARD;
    let ct = std.decode(&crypto.ciphertext).unwrap();
    let nonce = std.decode(&crypto.nonce).unwrap();
    for i in [0usize, 17, 31, 32, 47] {
        let mut t = crypto.clone();
        let mut b = ct.clone();
        b[i] ^= 0x01;
        t.ciphertext = std.encode(&b);
        assert_eq!(decrypt(&t, pwd).unwrap_err().kind(), ErrorKind::Crypto);
    }
    for i in 0..12 {
        let mut t = crypto.clone();
        let mut b = nonce.clone();
        b[i] ^= 0x80;
        t.nonce = std.encode(&b);
        assert_eq!(decrypt(&t, pwd).unwrap_err().kind(), ErrorKind::Crypto);
    }
}

#[test]
fn record_shape_matches_format() {
    let (crypto, nonce) = encrypt(&[3u8; 32], "pw", "scrypt", 0, 1 << 15, 8, 1).unwrap();
    assert_eq!(crypto.cipher, CIPHER);
    assert_eq!(crypto.kdf, "scrypt");
    assert_eq!(crypto.kdfparams.dklen, 32);
    assert_eq!(crypto.kdfparams.iterations, None);
    assert_eq!(crypto.kdfparams.n, Some(32768));
    assert_eq!(crypto.kdfparams.r, Some(8));
    assert_eq!(crypto.kdfparams.p, Some(1));
    assert_eq!(b64d(&crypto.kdfparams.salt).unwrap().len(), 16);
    assert_eq!(b64d(&crypto.nonce).unwrap(), nonce.to_vec());
    assert_eq!(b64d(&crypto.ciphertext).unwrap().len(), 48);
}

#[test]
fn encryptions_with_same_inputs_differ() {
    let k = [8u8; 32];
    let (a, _) = encrypt(&k, "SamePwd!", "pbkdf2", 1000, 0, 0, 0).unwrap();
    let (b, _) = encrypt(&k, "SamePwd!", "pbkdf2", 1000, 0, 0, 0).unwrap();
    assert_ne!(a.kdfparams.salt, b.kdfparams.salt);
    assert_ne!(a.nonce, b.nonce);
    assert_ne!(a.ciphertext, b.ciphertext);
}

#[test]
fn encrypt_with_fixed_salt_and_nonce_is_deterministic() {
    let k = [4u8; 32];
    let salt = [1u8; 16];
    let nonce = [2u8; 12];
    let a = encrypt_with(&k, "pw", "pbkdf2", 1000, 0, 0, 0, &salt, &nonce).unwrap();
    let b = encrypt_with(&k, "pw", "pbkdf2", 1000, 0, 0, 0, &salt, &nonce).unwrap();
    assert_eq!(a.ciphertext, b.ciphertext);
    assert_eq!(a.kdfparams.salt, b64e(&salt));
    assert_eq!(a.nonce, b64e(&nonce));
    assert_eq!(decrypt(&a, "pw").unwrap(), k);
}

#[test]
fn unknown_kdf_is_a_kdf_error() {
    let e = encrypt(&[1u8; 32], "pw", "argon2", 0, 1 << 15, 8, 1).unwrap_err();
    assert_eq!(e.kind(), ErrorKind::Kdf);
    let salt = [0u8; 16];
    let nonce = [0u8; 12];
    let e = encrypt_with(&[1u8; 32], "pw", "scrypt", 0, 0, 8, 1, &salt, &nonce).unwrap_err();
    assert_eq!(e.kind(), ErrorKind::Kdf);
}

#[test]
fn malformed_base64_is_a_decode_error() {
    let (mut crypto, _) = encrypt(&[1u8; 32], "pw", "pbkdf2", 1000, 0, 0, 0).unwrap();
    crypto.nonce = "***".to_string();
    assert_eq!(decrypt(&crypto, "pw").unwrap_err().kind(), ErrorKind::Decode);
    assert!(matches!(b64d("%%%"), Err(SecurityError::Decode(_))));
}

#[test]
fn pbkdf2_key_matches_the_crate() {
    let salt = [5u8; 16];
    let params = KdfParams {
        salt: b64e(&salt),
        dklen: 32,
        iterations: Some(1000),
        n: None,
        r: None,
        p: None,
    };
    let key = derive_key("secret", "pbkdf2", &params).unwrap();
    let mut expect = [0u8; 32];
    pbkdf2::pbkdf2_hmac::<sha2::Sha256>(b"secret", &salt, 1000, &mut expect);
    assert_eq!(key, expect);
}

#[test]
fn scrypt_key_matches_the_crate() {
    let salt = [6u8; 16];
    let params = KdfParams {
        salt: b64e(&salt),
        dklen: 32,
        iterations: None,
        n: Some(1 << 10),
        r: Some(8),
        p: Some(1),
    };
    let key = derive_key("secret", "scrypt", &params).unwrap();
    let sp = scrypt::Params::new(10, 8, 1, 32).unwrap();
    let mut expect = [0u8; 32];
    scrypt::scrypt(b"secret", &salt, &sp, &mut expect).unwrap();
    assert_eq!(key, expect);
}

#[test]
fn b64e_known_value() {
    assert_eq!(b64e(&[1u8, 2, 3, 4, 5, 6]), "AQIDBAUG");
    assert_eq!(b64e(b"ab"), "YWI=");
}

#[test]
fn ciphertext_hides_the_secret() {
    let k = [0x11u8; 32];
    let (c, _) = encrypt(&k, "pw", "pbkdf2", 1000, 0, 0, 0).unwrap();
    let ct = b64d(&c.ciphertext).unwrap();
    assert_ne!(&ct[..32], &k[..]);
}
