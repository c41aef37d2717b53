//! Decoding: from a container and credentials to the plaintext.

use vstd::prelude::*;
use vstd::string::StrSliceExecFns;
use vstd::utf8::encode_utf8;
use crate::container::{unframe, unframed};
use crate::credentials::{Credentials, CredentialsView};
use crate::error::{outcome, CryptError};
use crate::metadata::{parsed, EncryptedInfo, EncryptedInfoView};
use crate::primitives::{derive_key, derived_key, open, opened, wipe_bytes};

verus! {

/// What opening a ciphertext under a metadata record and credentials gives:
/// the credentials are held to their rules first, then the record to its
/// invariants; the key comes from the password under the recorded salt and
/// parameters, and the username is the associated data.
pub open spec fn opened_record(
    credentials: CredentialsView,
    info: EncryptedInfoView,
    ciphertext: Seq<u8>,
) -> Result<Seq<u8>, CryptError> {
    match credentials.defect() {
        Some(reason) => Err(CryptError::InvalidCredentials(reason)),
        None => if !info.well_formed() {
            Err(CryptError::BadMetadata)
        } else {
            match derived_key(
                encode_utf8(credentials.password),
                info.password_salt,
                info.argon2_params,
            ) {
                Err(e) => Err(CryptError::KdfFailure(e)),
                Ok(key) => opened(
                    key,
                    info.cipher_nonce,
                    encode_utf8(credentials.username),
                    ciphertext,
                ),
            }
        },
    }
}

/// What decoding a container under credentials gives. Each step can end the
/// decode with its own failure: the credentials, the magic, the length of
/// the metadata, the metadata record, the key derivation, the cipher.
pub open spec fn opened_container(blob: Seq<u8>, credentials: CredentialsView) -> Result<
    Seq<u8>,
    CryptError,
> {
    match credentials.defect() {
        Some(reason) => Err(CryptError::InvalidCredentials(reason)),
        None => match unframed(blob) {
            Err(e) => Err(e),
            Ok((metadata, ciphertext)) => match parsed(metadata) {
                None => Err(CryptError::BadMetadata),
                Some(info) => opened_record(credentials, info, ciphertext),
            },
        },
    }
}

/// With credentials that keep their rules, what does not start with the
/// magic is refused as such, whatever else it holds: no key is derived for
/// it.
pub proof fn lemma_bad_magic(blob: Seq<u8>, credentials: CredentialsView)
    requires
        credentials.valid(),
        blob.len() < 8 || blob.subrange(0, 8) != crate::container::magic(),
    ensures
        opened_container(blob, credentials) == Err::<Seq<u8>, CryptError>(CryptError::BadMagic),
{
}

/// No decode ends in an I/O failure, nor in refused cost parameters: a
/// record with such parameters is bad metadata.
pub proof fn lemma_decode_failures(blob: Seq<u8>, credentials: CredentialsView)
    ensures
        opened_container(blob, credentials) != Err::<Seq<u8>, CryptError>(CryptError::IoFailure),
        opened_container(blob, credentials) != Err::<Seq<u8>, CryptError>(
            CryptError::KdfFailure(crate::error::KdfError::Parameters),
        ),
{
}

/// Opens a ciphertext under a metadata record and credentials. The
/// credentials are destroyed on every path.
pub fn decrypt(credentials: &mut Credentials, info: &EncryptedInfo, data: &[u8]) -> (r: Result<
    Vec<u8>,
    CryptError,
>)
    ensures
        outcome(r) == opened_record(old(credentials)@, info@, data@),
        final(credentials)@ == CredentialsView::empty(),
{
    if let Err(reason) = credentials.is_valid() {
        credentials.destroy();
        return Err(CryptError::InvalidCredentials(reason));
    }
    if !info.is_valid() {
        credentials.destroy();
        return Err(CryptError::BadMetadata);
    }
    let derived = derive_key(
        credentials.password().as_str().as_bytes(),
        info.password_salt.as_str(),
        &info.argon2_params,
    );
    let mut aad = credentials.username().as_str().as_bytes_vec();
    credentials.destroy();
    let mut key = match derived {
        Ok(key) => key,
        Err(e) => {
            wipe_bytes(&mut aad);
            return Err(CryptError::KdfFailure(e));
        },
    };
    let plaintext = open(key.as_slice(), info.cipher_nonce.as_slice(), aad.as_slice(), data);
    wipe_bytes(&mut key);
    wipe_bytes(&mut aad);
    plaintext
}

/// Decrypts the data using the provided credentials
///
/// ### Arguments
///
/// - `data` - The data to decrypt
/// - `credentials` - The credentials to use for decryption
pub fn decrypt_data(data: Vec<u8>, credentials: Credentials) -> (r: Result<Vec<u8>, CryptError>)
    ensures
        outcome(r) == opened_container(data@, credentials@),
{
    let mut credentials = credentials;
    if let Err(reason) = credentials.is_valid() {
        credentials.destroy();
        return Err(CryptError::InvalidCredentials(reason));
    }
    let (metadata, ciphertext) = match unframe(data.as_slice()) {
        Ok(parts) => parts,
        Err(e) => {
            credentials.destroy();
            return Err(e);
        },
    };
    let info = match EncryptedInfo::from_bytes(metadata) {
        Some(info) => info,
        None => {
            credentials.destroy();
            return Err(CryptError::BadMetadata);
        },
    };
    decrypt(&mut credentials, &info, ciphertext)
}

} // verus!
