use ark_wallet::errors::{ErrorKind, SecurityError};
use ark_wallet::kdf::{validate_kdf, validate_kdf_choice, validate_kdf_params, KdfKind};

#[test]
fn validate_choice_accepts_known() {
    assert_eq!(validate_kdf_choice("scrypt").unwrap(), KdfKind::Scrypt);
    assert_eq!(validate_kdf_choice("pbkdf2").unwrap(), KdfKind::Pbkdf2);
}

#[test]
fn validate_choice_rejects_unknown() {
    let e = validate_kdf_choice("weakkdf").unwrap_err();
    match e {
        SecurityError::InvalidParams(_) => (),
        _ => panic!("expected InvalidParams"),
    }
}

#[test]
fn validate_params_rejects_weak() {
    assert!(validate_kdf_params(KdfKind::Pbkdf2, 10, 0, 0, 0).is_err());
    assert!(validate_kdf_params(KdfKind::Scrypt, 0, 1 << 14, 4, 0).is_err());
}

#[test]
fn validate_choice_ignores_letter_case() {
    assert_eq!(validate_kdf_choice("SCRYPT").unwrap(), KdfKind::Scrypt);
    assert_eq!(validate_kdf_choice("PbKdF2").unwrap(), KdfKind::Pbkdf2);
    assert!(validate_kdf_choice("argon2").is_err());
}

#[test]
fn scrypt_floor_is_exact() {
    assert!(validate_kdf_params(KdfKind::Scrypt, 0, 1 << 14, 8, 1).is_err());
    assert!(validate_kdf_params(KdfKind::Scrypt, 0, 1 << 15, 8, 1).is_ok());
    assert!(validate_kdf_params(KdfKind::Scrypt, 0, 1 << 15, 7, 1).is_err());
    assert!(validate_kdf_params(KdfKind::Scrypt, 0, 1 << 15, 8, 0).is_err());
}

#[test]
fn pbkdf2_floor_is_exact() {
    assert!(validate_kdf_params(KdfKind::Pbkdf2, 10_000, 0, 0, 0).is_err());
    assert!(validate_kdf_params(KdfKind::Pbkdf2, 49_999, 0, 0, 0).is_err());
    assert!(validate_kdf_params(KdfKind::Pbkdf2, 50_000, 0, 0, 0).is_ok());
    let e = validate_kdf_params(KdfKind::Pbkdf2, 10_000, 0, 0, 0).unwrap_err();
    assert_eq!(e.kind(), ErrorKind::InvalidParams);
}

#[test]
fn validate_kdf_is_case_sensitive() {
    assert!(validate_kdf("scrypt").is_ok());
    assert!(validate_kdf("pbkdf2").is_ok());
    assert!(validate_kdf("Scrypt").is_err());
    assert!(validate_kdf("argon2").is_err());
}
