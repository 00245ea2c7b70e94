//! The trusted core of an encrypted file vault: secret-holding buffers,
//! key derivation and authenticated encryption, the 256-byte authenticated
//! vault header, HMAC audit chains, Shamir secret sharing and password
//! validation.
pub mod primitives;
pub mod text;
pub mod memory;
pub mod crypto;
pub mod header;
pub mod hmac;
pub mod shamir;
pub mod input;
pub mod vault;
