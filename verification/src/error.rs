//! The failures of the codec.

use vstd::prelude::*;
use vstd::string::StringExecFns;
use crate::credentials::InvalidCredentials;

verus! {

/// Why no key was derived.
#[derive(Clone, Copy, Debug, PartialEq, Eq)]
pub enum KdfError {
    /// The cost parameters are outside what a key can be derived under.
    Parameters,
    /// Argon2id itself returned an error.
    Hash,
}

/// What an encode or a decode can end in, other than its output.
#[derive(Clone, Copy, Debug, PartialEq, Eq)]
pub enum CryptError {
    /// The credentials were refused before any cryptography.
    InvalidCredentials(InvalidCredentials),
    /// The input does not start with the container's magic.
    BadMagic,
    /// A length field points past the end of the input.
    Truncated,
    /// The metadata record does not parse, or breaks its invariants.
    BadMetadata,
    /// No key could be derived.
    KdfFailure(KdfError),
    /// The cipher refused: on decode this covers wrong credentials and any
    /// alteration of the container alike.
    AeadFailure,
    /// Reading or writing failed; raised around the codec, never by it.
    IoFailure,
}

impl CryptError {
    /// The failure in words.
    pub open spec fn text(self) -> Seq<char> {
        match self {
            CryptError::InvalidCredentials(InvalidCredentials::EmptyUsername) =>
                "Username must be provided"@,
            CryptError::InvalidCredentials(InvalidCredentials::EmptyPassword) =>
                "Password must be provided"@,
            CryptError::InvalidCredentials(InvalidCredentials::EmptyConfirm) =>
                "Confirm password must be provided"@,
            CryptError::InvalidCredentials(InvalidCredentials::PasswordMismatch) =>
                "Passwords do not match"@,
            CryptError::BadMagic => "Header not found, invalid file format?"@,
            CryptError::Truncated => "Failed to parse metadata length"@,
            CryptError::BadMetadata => "Deserialization failed"@,
            CryptError::KdfFailure(KdfError::Parameters) => "Failed to set Argon2 params"@,
            CryptError::KdfFailure(KdfError::Hash) => "Failed to hash password"@,
            CryptError::AeadFailure => "Failed to encrypt or decrypt data"@,
            CryptError::IoFailure => "Failed to read or write the file"@,
        }
    }

    /// Writes the failure in words.
    pub fn message(&self) -> (r: String)
        ensures
            r@ == self.text(),
    {
        String::from_str(
            match self {
                CryptError::InvalidCredentials(InvalidCredentials::EmptyUsername) =>
                    "Username must be provided",
                CryptError::InvalidCredentials(InvalidCredentials::EmptyPassword) =>
                    "Password must be provided",
                CryptError::InvalidCredentials(InvalidCredentials::EmptyConfirm) =>
                    "Confirm password must be provided",
                CryptError::InvalidCredentials(InvalidCredentials::PasswordMismatch) =>
                    "Passwords do not match",
                CryptError::BadMagic => "Header not found, invalid file format?",
                CryptError::Truncated => "Failed to parse metadata length",
                CryptError::BadMetadata => "Deserialization failed",
                CryptError::KdfFailure(KdfError::Parameters) => "Failed to set Argon2 params",
                CryptError::KdfFailure(KdfError::Hash) => "Failed to hash password",
                CryptError::AeadFailure => "Failed to encrypt or decrypt data",
                CryptError::IoFailure => "Failed to read or write the file",
            },
        )
    }
}

/// A result over bytes, as the contracts speak of it.
pub open spec fn outcome<E>(r: Result<Vec<u8>, E>) -> Result<Seq<u8>, E> {
    match r {
        Ok(bytes) => Ok(bytes@),
        Err(e) => Err(e),
    }
}

} // verus!
