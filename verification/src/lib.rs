//! File encryption under a username and password.
//!
//! A password-derived key (Argon2id) seals a byte buffer with
//! XChaCha20-Poly1305, the username bound as associated data, and the result
//! is framed in a self-describing container: magic, metadata length, metadata
//! record, ciphertext.

pub mod container;
pub mod credentials;
pub mod decrypt;
pub mod encrypt;
pub mod error;
pub mod hashing;
pub mod hex;
pub mod metadata;
pub mod panel;
pub mod params;
pub mod prelude;
pub mod primitives;
pub mod trailer;
