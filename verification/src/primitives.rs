//! Key derivation and the cipher: Argon2id and XChaCha20-Poly1305, each
//! reached through one call whose result is named, not computed, in contracts.

use vstd::prelude::*;
use vstd::slice::slice_subrange;
use argon2::password_hash::{PasswordHasher, SaltString};
use argon2::{Algorithm, Argon2, Params, Version};
use chacha20poly1305::aead::generic_array::GenericArray;
use chacha20poly1305::aead::{Aead, OsRng, Payload};
use chacha20poly1305::{AeadCore, KeyInit, XChaCha20Poly1305};
use zeroize::Zeroize;
use crate::error::{outcome, CryptError, KdfError};
use crate::metadata::salt_well_formed;
use crate::params::{Argon2Params, MAX_P_COST};

verus! {

/// Bytes of a cipher key.
pub const KEY_LENGTH: usize = 32;

/// Bytes of a cipher nonce.
pub const NONCE_LENGTH: usize = 24;

/// Bytes of the authentication tag that ends a ciphertext.
pub const TAG_LENGTH: usize = 16;

/// The error of `password_hash`, which `PasswordHasher::hash_password`
/// returns; nothing is read from it.
#[verifier::external_type_specification]
#[verifier::external_body]
pub struct ExPasswordHashError(argon2::password_hash::Error);

/// The error of `aead`, which `Aead::encrypt` and `Aead::decrypt` return;
/// it holds nothing.
#[verifier::external_type_specification]
#[verifier::external_body]
pub struct ExAeadError(chacha20poly1305::aead::Error);

/// The raw output of Argon2id (version 0x13) for a password, a salt in its
/// textual form and the four cost parameters; `None` where it returns an
/// error.
pub uninterp spec fn argon2id_output(
    password: Seq<u8>,
    salt: Seq<char>,
    m_cost: u32,
    t_cost: u32,
    p_cost: u32,
    hash_length: nat,
) -> Option<Seq<u8>>;

/// What XChaCha20-Poly1305 makes of a plaintext under a key, a nonce and
/// associated data: the ciphertext and its tag; `None` where it refuses.
pub uninterp spec fn xchacha20poly1305_sealed(
    key: Seq<u8>,
    nonce: Seq<u8>,
    aad: Seq<u8>,
    plaintext: Seq<u8>,
) -> Option<Seq<u8>>;

/// What XChaCha20-Poly1305 recovers from a ciphertext under a key, a nonce
/// and associated data; `None` where the tag does not hold.
pub uninterp spec fn xchacha20poly1305_opened(
    key: Seq<u8>,
    nonce: Seq<u8>,
    aad: Seq<u8>,
    ciphertext: Seq<u8>,
) -> Option<Seq<u8>>;

/// Runs `argon2::Argon2::hash_password` on the default algorithm (Argon2id)
/// and version, with `argon2::Params::new` for the costs and
/// `SaltString::from_b64` for the salt. The result is a function of the
/// arguments alone, named `argon2id_output`; an output that comes back has
/// the length asked for. The lanes are bounded because `Params::new`
/// multiplies them by eight in 32 bits. The hasher allocates `m_cost` KiB;
/// whether the machine has them is not part of this contract.
#[verifier::external_body]
fn argon2id(
    password: &[u8],
    salt: &str,
    m_cost: u32,
    t_cost: u32,
    p_cost: u32,
    hash_length: usize,
) -> (r: Result<Vec<u8>, argon2::password_hash::Error>)
    requires
        p_cost <= MAX_P_COST,
    ensures
        match r {
            Ok(out) => argon2id_output(password@, salt@, m_cost, t_cost, p_cost, hash_length as nat)
                == Some(out@) && out@.len() == hash_length,
            Err(_) => argon2id_output(password@, salt@, m_cost, t_cost, p_cost, hash_length as nat)
                is None,
        },
{
    let params = Params::new(m_cost, t_cost, p_cost, Some(hash_length))?;
    let salt = SaltString::from_b64(salt)?;
    let argon2 = Argon2::new(Algorithm::default(), Version::default(), params);
    let hash = argon2.hash_password(password, &salt)?;
    Ok(hash.hash.ok_or(argon2::password_hash::Error::Crypto)?.as_bytes().to_vec())
}

/// Runs `aead::Aead::encrypt` of `XChaCha20Poly1305` under a key made with
/// `KeyInit::new`. The result is a function of the arguments alone, named
/// `xchacha20poly1305_sealed`. A ciphertext that comes back is the plaintext's
/// length and a tag long, and `Aead::decrypt` under the same key, nonce and
/// associated data gives the plaintext back: it recomputes the same tag and
/// applies the same keystream.
#[verifier::external_body]
fn xchacha20poly1305_encrypt(key: &[u8], nonce: &[u8], aad: &[u8], plaintext: &[u8]) -> (r: Result<
    Vec<u8>,
    chacha20poly1305::aead::Error,
>)
    requires
        key@.len() == KEY_LENGTH,
        nonce@.len() == NONCE_LENGTH,
        plaintext@.len() + TAG_LENGTH <= isize::MAX,
    ensures
        match r {
            Ok(sealed) => {
                &&& xchacha20poly1305_sealed(key@, nonce@, aad@, plaintext@) == Some(sealed@)
                &&& sealed@.len() == plaintext@.len() + TAG_LENGTH
                &&& xchacha20poly1305_opened(key@, nonce@, aad@, sealed@) == Some(plaintext@)
            },
            Err(_) => xchacha20poly1305_sealed(key@, nonce@, aad@, plaintext@) is None,
        },
{
    let cipher = XChaCha20Poly1305::new(GenericArray::from_slice(key));
    cipher.encrypt(GenericArray::from_slice(nonce), Payload { msg: plaintext, aad })
}

/// Runs `aead::Aead::decrypt` of `XChaCha20Poly1305` under a key made with
/// `KeyInit::new`. The result is a function of the arguments alone, named
/// `xchacha20poly1305_opened`. A plaintext that comes back is a tag shorter
/// than the ciphertext.
#[verifier::external_body]
fn xchacha20poly1305_decrypt(key: &[u8], nonce: &[u8], aad: &[u8], ciphertext: &[u8]) -> (r: Result<
    Vec<u8>,
    chacha20poly1305::aead::Error,
>)
    requires
        key@.len() == KEY_LENGTH,
        nonce@.len() == NONCE_LENGTH,
    ensures
        match r {
            Ok(opened) => {
                &&& xchacha20poly1305_opened(key@, nonce@, aad@, ciphertext@) == Some(opened@)
                &&& opened@.len() + TAG_LENGTH == ciphertext@.len()
            },
            Err(_) => xchacha20poly1305_opened(key@, nonce@, aad@, ciphertext@) is None,
        },
{
    let cipher = XChaCha20Poly1305::new(GenericArray::from_slice(key));
    cipher.decrypt(GenericArray::from_slice(nonce), Payload { msg: ciphertext, aad })
}

/// Draws a fresh salt through `SaltString::generate` on the operating
/// system's generator: sixteen random bytes written in unpadded Base64, which
/// is a salt in textual form whatever the bytes are.
#[verifier::external_body]
pub(crate) fn random_salt() -> (r: String)
    ensures
        salt_well_formed(r@),
{
    SaltString::generate(&mut OsRng).to_string()
}

/// Draws a fresh nonce through `AeadCore::generate_nonce` of
/// `XChaCha20Poly1305` on the operating system's generator: as many random
/// bytes as the cipher's nonce has.
#[verifier::external_body]
pub(crate) fn random_nonce() -> (r: Vec<u8>)
    ensures
        r@.len() == NONCE_LENGTH,
{
    XChaCha20Poly1305::generate_nonce(&mut OsRng).to_vec()
}

/// Overwrites a byte buffer with zeros and empties it, through
/// `zeroize::Zeroize::zeroize`: the buffer is empty afterwards.
#[verifier::external_body]
pub(crate) fn wipe_bytes(secret: &mut Vec<u8>)
    ensures
        final(secret)@ == Seq::<u8>::empty(),
{
    secret.zeroize();
}

/// The key that a password, a salt and cost parameters give: the first
/// `KEY_LENGTH` bytes of the Argon2id output.
pub open spec fn derived_key(password: Seq<u8>, salt: Seq<char>, params: Argon2Params) -> Result<
    Seq<u8>,
    KdfError,
> {
    if !params.well_formed() {
        Err(KdfError::Parameters)
    } else {
        match argon2id_output(
            password,
            salt,
            params.m_cost,
            params.t_cost,
            params.p_cost,
            params.hash_length as nat,
        ) {
            Some(out) => Ok(out.subrange(0, KEY_LENGTH as int)),
            None => Err(KdfError::Hash),
        }
    }
}

/// Derives the cipher key from a password under a salt and cost parameters.
pub fn derive_key(password: &[u8], salt: &str, params: &Argon2Params) -> (r: Result<
    Vec<u8>,
    KdfError,
>)
    ensures
        outcome(r) == derived_key(password@, salt@, *params),
        r matches Ok(key) ==> key@.len() == KEY_LENGTH,
{
    if !params.is_valid() {
        return Err(KdfError::Parameters);
    }
    match argon2id(
        password,
        salt,
        params.m_cost,
        params.t_cost,
        params.p_cost,
        params.hash_length as usize,
    ) {
        Ok(mut out) => {
            let mut key: Vec<u8> = Vec::new();
            key.extend_from_slice(slice_subrange(out.as_slice(), 0, KEY_LENGTH));
            assert(key@ =~= out@.subrange(0, KEY_LENGTH as int));
            wipe_bytes(&mut out);
            Ok(key)
        },
        Err(_) => Err(KdfError::Hash),
    }
}

/// What sealing a plaintext gives.
pub open spec fn sealed(key: Seq<u8>, nonce: Seq<u8>, aad: Seq<u8>, plaintext: Seq<u8>) -> Result<
    Seq<u8>,
    CryptError,
> {
    match xchacha20poly1305_sealed(key, nonce, aad, plaintext) {
        Some(ciphertext) => Ok(ciphertext),
        None => Err(CryptError::AeadFailure),
    }
}

/// What opening a ciphertext gives.
pub open spec fn opened(key: Seq<u8>, nonce: Seq<u8>, aad: Seq<u8>, ciphertext: Seq<u8>) -> Result<
    Seq<u8>,
    CryptError,
> {
    match xchacha20poly1305_opened(key, nonce, aad, ciphertext) {
        Some(plaintext) => Ok(plaintext),
        None => Err(CryptError::AeadFailure),
    }
}

/// Seals a plaintext under a key and a nonce, binding the associated data.
/// What comes back opens to the plaintext again under the same three.
pub fn seal(key: &[u8], nonce: &[u8], aad: &[u8], plaintext: &[u8]) -> (r: Result<
    Vec<u8>,
    CryptError,
>)
    requires
        key@.len() == KEY_LENGTH,
        nonce@.len() == NONCE_LENGTH,
        plaintext@.len() + TAG_LENGTH <= isize::MAX,
    ensures
        outcome(r) == sealed(key@, nonce@, aad@, plaintext@),
        r matches Ok(ciphertext) ==> {
            &&& ciphertext@.len() == plaintext@.len() + TAG_LENGTH
            &&& opened(key@, nonce@, aad@, ciphertext@) == Ok::<Seq<u8>, CryptError>(plaintext@)
        },
{
    match xchacha20poly1305_encrypt(key, nonce, aad, plaintext) {
        Ok(ciphertext) => Ok(ciphertext),
        Err(_) => Err(CryptError::AeadFailure),
    }
}

/// Opens a ciphertext under a key and a nonce, checking the associated data.
pub fn open(key: &[u8], nonce: &[u8], aad: &[u8], ciphertext: &[u8]) -> (r: Result<
    Vec<u8>,
    CryptError,
>)
    requires
        key@.len() == KEY_LENGTH,
        nonce@.len() == NONCE_LENGTH,
    ensures
        outcome(r) == opened(key@, nonce@, aad@, ciphertext@),
        r matches Ok(plaintext) ==> plaintext@.len() + TAG_LENGTH == ciphertext@.len(),
{
    match xchacha20poly1305_decrypt(key, nonce, aad, ciphertext) {
        Ok(plaintext) => Ok(plaintext),
        Err(_) => Err(CryptError::AeadFailure),
    }
}

} // verus!
