//! Encoding: from a plaintext and credentials to a container.

use vstd::prelude::*;
use vstd::string::StrSliceExecFns;
use vstd::utf8::{encode_utf8, is_ascii_chars, is_ascii_chars_encode_utf8};
use crate::container::{
    frame, framed, lemma_framed_len, lemma_unframe_framed, unframed, PREFIX_LENGTH,
};
use crate::credentials::{Credentials, CredentialsView};
use crate::decrypt::{opened_container, opened_record};
use crate::error::{outcome, CryptError, KdfError};
use crate::metadata::{
    lemma_parse_serialized, lemma_serialized_len, salt_well_formed, EncryptedInfo,
    EncryptedInfoView,
};
use crate::params::Argon2Params;
use crate::primitives::{
    derive_key, derived_key, opened, random_nonce, random_salt, seal, sealed, wipe_bytes,
    NONCE_LENGTH, TAG_LENGTH,
};

verus! {

/// What sealing a plaintext under credentials, cost parameters, a salt and a
/// nonce gives: the ciphertext and the metadata record that opens it. The
/// credentials are held to their rules first; the key comes from the password
/// under the salt and the parameters, and the username is the associated
/// data.
pub open spec fn encrypted(
    params: Argon2Params,
    credentials: CredentialsView,
    plaintext: Seq<u8>,
    salt: Seq<char>,
    nonce: Seq<u8>,
) -> Result<(Seq<u8>, EncryptedInfoView), CryptError> {
    match credentials.defect() {
        Some(reason) => Err(CryptError::InvalidCredentials(reason)),
        None => match derived_key(encode_utf8(credentials.password), salt, params) {
            Err(e) => Err(CryptError::KdfFailure(e)),
            Ok(key) => match sealed(key, nonce, encode_utf8(credentials.username), plaintext) {
                Err(e) => Err(e),
                Ok(ciphertext) => Ok(
                    (
                        ciphertext,
                        EncryptedInfoView {
                            password_salt: salt,
                            cipher_nonce: nonce,
                            argon2_params: params,
                        },
                    ),
                ),
            },
        },
    }
}

/// The container that encoding gives for a salt and a nonce.
pub open spec fn sealed_container(
    params: Argon2Params,
    plaintext: Seq<u8>,
    credentials: CredentialsView,
    salt: Seq<char>,
    nonce: Seq<u8>,
) -> Result<Seq<u8>, CryptError> {
    match encrypted(params, credentials, plaintext, salt, nonce) {
        Err(e) => Err(e),
        Ok((ciphertext, info)) => Ok(framed(info.serialized(), ciphertext)),
    }
}

/// An encode ends in a container or in one of three failures: refused
/// credentials, no key, or a refusal of the cipher.
pub proof fn lemma_encode_failures(
    params: Argon2Params,
    plaintext: Seq<u8>,
    credentials: CredentialsView,
    salt: Seq<char>,
    nonce: Seq<u8>,
)
    ensures
        sealed_container(params, plaintext, credentials, salt, nonce) matches Err(e) ==> {
            ||| e is InvalidCredentials
            ||| e is KdfFailure
            ||| e == CryptError::AeadFailure
        },
        credentials.defect() matches Some(reason) ==> sealed_container(
            params,
            plaintext,
            credentials,
            salt,
            nonce,
        ) == Err::<Seq<u8>, CryptError>(CryptError::InvalidCredentials(reason)),
{
}

/// A salt in textual form takes one byte for each character.
pub proof fn lemma_salt_bytes(salt: Seq<char>)
    requires
        salt_well_formed(salt),
    ensures
        encode_utf8(salt).len() == salt.len(),
{
    assert(is_ascii_chars(salt)) by {
        assert forall|i: int| 0 <= i < salt.len() implies '\0' <= #[trigger] salt[i]
            <= '\u{7f}' by {
            assert(crate::metadata::is_salt_char(salt[i]));
        }
    }
    is_ascii_chars_encode_utf8(salt);
}

/// Decoding a container that encoding gave, under any credentials that keep
/// their rules, passes the frame and the metadata and comes to the cipher:
/// with the key that these credentials give under the recorded salt and
/// parameters, the recorded nonce, their username, and the ciphertext as it
/// was sealed. Nothing but the key derivation and the cipher decides what it
/// returns.
pub proof fn lemma_decode_reaches_cipher(
    params: Argon2Params,
    plaintext: Seq<u8>,
    sealer: CredentialsView,
    opener: CredentialsView,
    salt: Seq<char>,
    nonce: Seq<u8>,
)
    requires
        salt_well_formed(salt),
        nonce.len() == NONCE_LENGTH,
        opener.valid(),
        sealed_container(params, plaintext, sealer, salt, nonce) is Ok,
    ensures
        ({
            let blob = sealed_container(params, plaintext, sealer, salt, nonce)->Ok_0;
            let ciphertext = encrypted(params, sealer, plaintext, salt, nonce)->Ok_0.0;
            &&& unframed(blob) == Ok::<(Seq<u8>, Seq<u8>), CryptError>(
                (
                    EncryptedInfoView {
                        password_salt: salt,
                        cipher_nonce: nonce,
                        argon2_params: params,
                    }.serialized(),
                    ciphertext,
                ),
            )
            &&& opened_container(blob, opener) == match derived_key(
                encode_utf8(opener.password),
                salt,
                params,
            ) {
                Err(e) => Err::<Seq<u8>, CryptError>(CryptError::KdfFailure(e)),
                Ok(key) => opened(key, nonce, encode_utf8(opener.username), ciphertext),
            }
            &&& opened_container(blob, opener) matches Err(e) ==> e == CryptError::AeadFailure
                || e == CryptError::KdfFailure(KdfError::Hash)
        }),
{
    let (ciphertext, info) = encrypted(params, sealer, plaintext, salt, nonce)->Ok_0;
    lemma_salt_bytes(salt);
    lemma_serialized_len(info);
    lemma_unframe_framed(info.serialized(), ciphertext);
    lemma_parse_serialized(info, Seq::empty());
    assert(info.serialized() + Seq::<u8>::empty() =~= info.serialized());
    assert(params.well_formed());
    assert(info.well_formed());
}

/// Seals a plaintext under credentials and cost parameters, with the salt
/// and the nonce that the caller drew. What comes back opens to the
/// plaintext again under the same credentials. The credentials are destroyed
/// on every path.
pub fn encrypt(
    argon_params: Argon2Params,
    credentials: &mut Credentials,
    data: &[u8],
    salt: String,
    nonce: Vec<u8>,
) -> (r: Result<(Vec<u8>, EncryptedInfo), CryptError>)
    requires
        salt_well_formed(salt@),
        nonce@.len() == NONCE_LENGTH,
        data@.len() + TAG_LENGTH <= isize::MAX,
    ensures
        match r {
            Ok((ciphertext, info)) => encrypted(
                argon_params,
                old(credentials)@,
                data@,
                salt@,
                nonce@,
            ) == Ok::<(Seq<u8>, EncryptedInfoView), CryptError>((ciphertext@, info@)),
            Err(e) => encrypted(argon_params, old(credentials)@, data@, salt@, nonce@) == Err::<
                (Seq<u8>, EncryptedInfoView),
                CryptError,
            >(e),
        },
        r matches Ok((ciphertext, info)) ==> {
            &&& ciphertext@.len() == data@.len() + TAG_LENGTH
            &&& opened_record(old(credentials)@, info@, ciphertext@) == Ok::<Seq<u8>, CryptError>(
                data@,
            )
        },
        final(credentials)@ == CredentialsView::empty(),
{
    if let Err(reason) = credentials.is_valid() {
        credentials.destroy();
        return Err(CryptError::InvalidCredentials(reason));
    }
    let derived = derive_key(
        credentials.password().as_str().as_bytes(),
        salt.as_str(),
        &argon_params,
    );
    let mut aad = credentials.username().as_str().as_bytes_vec();
    credentials.destroy();
    let mut key = match derived {
        Ok(key) => key,
        Err(e) => {
            wipe_bytes(&mut aad);
            return Err(CryptError::KdfFailure(e));
        },
    };
    let ciphertext = seal(key.as_slice(), nonce.as_slice(), aad.as_slice(), data);
    wipe_bytes(&mut key);
    wipe_bytes(&mut aad);
    match ciphertext {
        Ok(ciphertext) => Ok((ciphertext, EncryptedInfo::new(salt, nonce, argon_params))),
        Err(e) => Err(e),
    }
}

/// Encrypts the given data using the provided credentials
///
/// ### Arguments
///
/// - `argon_params` - The Argon2 parameters to use for the password hashing
/// - `data` - The data to encrypt
/// - `credentials` - The credentials to use for encryption
///
/// The container is the one that `sealed_container` gives for the salt and
/// the nonce drawn, and it decodes to `data` again under the same
/// credentials.
pub fn encrypt_data(argon_params: Argon2Params, data: Vec<u8>, credentials: Credentials) -> (r:
    Result<Vec<u8>, CryptError>)
    requires
        data@.len() + TAG_LENGTH <= isize::MAX,
    ensures
        exists|salt: Seq<char>, nonce: Seq<u8>|
            {
                &&& salt_well_formed(salt)
                &&& nonce.len() == NONCE_LENGTH
                &&& outcome(r) == #[trigger] sealed_container(
                    argon_params,
                    data@,
                    credentials@,
                    salt,
                    nonce,
                )
            },
        r matches Ok(blob) ==> opened_container(blob@, credentials@) == Ok::<
            Seq<u8>,
            CryptError,
        >(data@),
        r matches Ok(blob) ==> unframed(blob@) matches Ok((metadata, ciphertext)) && {
            &&& blob@.len() == PREFIX_LENGTH + metadata.len() + ciphertext.len()
            &&& ciphertext.len() == data@.len() + TAG_LENGTH
        },
        credentials@.defect() matches Some(reason) ==> r == Err::<Vec<u8>, CryptError>(
            CryptError::InvalidCredentials(reason),
        ),
{
    let mut credentials = credentials;
    let ghost given = credentials@;
    if let Err(reason) = credentials.is_valid() {
        credentials.destroy();
        proof {
            let salt = Seq::new(4, |i: int| 'a');
            let nonce = Seq::new(NONCE_LENGTH as nat, |i: int| 0u8);
            assert(salt_well_formed(salt));
            assert(sealed_container(argon_params, data@, given, salt, nonce) == Err::<
                Seq<u8>,
                CryptError,
            >(CryptError::InvalidCredentials(reason)));
        }
        return Err(CryptError::InvalidCredentials(reason));
    }
    let salt = random_salt();
    let nonce = random_nonce();
    let ghost salt_text = salt@;
    let ghost nonce_bytes = nonce@;
    match encrypt(argon_params, &mut credentials, data.as_slice(), salt, nonce) {
        Ok((ciphertext, info)) => {
            let metadata = info.to_bytes();
            proof {
                lemma_salt_bytes(salt_text);
                lemma_serialized_len(info@);
                lemma_decode_reaches_cipher(
                    argon_params,
                    data@,
                    given,
                    given,
                    salt_text,
                    nonce_bytes,
                );
                lemma_framed_len(metadata@, ciphertext@);
            }
            let blob = frame(metadata.as_slice(), ciphertext.as_slice());
            assert(outcome(Ok::<Vec<u8>, CryptError>(blob)) == sealed_container(
                argon_params,
                data@,
                given,
                salt_text,
                nonce_bytes,
            ));
            Ok(blob)
        },
        Err(e) => {
            assert(outcome(Err::<Vec<u8>, CryptError>(e)) == sealed_container(
                argon_params,
                data@,
                given,
                salt_text,
                nonce_bytes,
            ));
            Err(e)
        },
    }
}

} // verus!
