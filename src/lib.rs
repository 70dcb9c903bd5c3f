//! Key-custody toolkit: KDF selection, authenticated keystore encryption,
//! Base58Check addresses, HD derivation, hot-sign envelopes and the
//! atomic-persistence protocol.

pub mod errors;
pub mod text;
pub mod secret;
pub mod kdf;
pub mod codec;
pub mod address;
pub mod keystore;
pub mod hd;
pub mod envelope;
pub mod wallet;
pub mod persist;
pub mod cold;
pub mod password;
