//! The metadata record of a container and its binary form.
//!
//! The record is written field by field, in a fixed order: the salt and the
//! nonce each as a little-endian 64-bit length followed by that many bytes,
//! then the three 32-bit costs and the 64-bit output length, little-endian,
//! at their natural width.

use vstd::prelude::*;
use vstd::bytes::{
    spec_u32_from_le_bytes, spec_u32_to_le_bytes, spec_u64_from_le_bytes, spec_u64_to_le_bytes,
    u32_from_le_bytes, u32_to_le_bytes, u64_from_le_bytes, u64_to_le_bytes,
    lemma_auto_spec_u32_to_from_le_bytes, lemma_auto_spec_u64_to_from_le_bytes,
};
use vstd::slice::slice_subrange;
use vstd::string::StrSliceExecFns;
use vstd::utf8::{decode_utf8, encode_utf8, valid_utf8, encode_utf8_decode_utf8, encode_utf8_valid_utf8};
use crate::params::Argon2Params;
use crate::primitives::NONCE_LENGTH;

verus! {

/// Fewest characters of a salt.
pub const MIN_SALT_LENGTH: usize = 4;

/// Most characters of a salt.
pub const MAX_SALT_LENGTH: usize = 64;

/// Bytes that the four cost parameters take in a record.
pub const PARAMS_LENGTH: usize = 20;

/// The characters that a salt is written in.
pub open spec fn is_salt_char(c: char) -> bool {
    ||| 'a' <= c <= 'z'
    ||| 'A' <= c <= 'Z'
    ||| '0' <= c <= '9'
    ||| c == '/'
    ||| c == '+'
    ||| c == '.'
    ||| c == '-'
}

/// A salt in its textual form: between `MIN_SALT_LENGTH` and
/// `MAX_SALT_LENGTH` characters of the salt alphabet.
pub open spec fn salt_well_formed(salt: Seq<char>) -> bool {
    &&& MIN_SALT_LENGTH <= salt.len() <= MAX_SALT_LENGTH
    &&& forall|i: int| 0 <= i < salt.len() ==> is_salt_char(#[trigger] salt[i])
}

/// What a container records beside the ciphertext.
#[derive(Debug)]
pub struct EncryptedInfo {
    pub password_salt: String,
    pub cipher_nonce: Vec<u8>,
    pub argon2_params: Argon2Params,
}

/// An `EncryptedInfo` as plain values.
pub struct EncryptedInfoView {
    pub password_salt: Seq<char>,
    pub cipher_nonce: Seq<u8>,
    pub argon2_params: Argon2Params,
}

impl View for EncryptedInfo {
    type V = EncryptedInfoView;

    open spec fn view(&self) -> EncryptedInfoView {
        EncryptedInfoView {
            password_salt: self.password_salt@,
            cipher_nonce: self.cipher_nonce@,
            argon2_params: self.argon2_params,
        }
    }
}

/// A field behind its length.
pub open spec fn length_prefixed(field: Seq<u8>) -> Seq<u8> {
    spec_u64_to_le_bytes(field.len() as u64) + field
}

/// Splits a length-prefixed field off the front of `bytes`: the field and
/// what follows it, or `None` where the length or the field is cut short.
pub open spec fn split_prefixed(bytes: Seq<u8>) -> Option<(Seq<u8>, Seq<u8>)> {
    if bytes.len() < 8 {
        None
    } else {
        let length = spec_u64_from_le_bytes(bytes.subrange(0, 8));
        if length > bytes.len() - 8 {
            None
        } else {
            Some((bytes.subrange(8, 8 + length), bytes.subrange(8 + length, bytes.len() as int)))
        }
    }
}

/// The four cost parameters as they stand in a record.
pub open spec fn serialized_params(params: Argon2Params) -> Seq<u8> {
    spec_u32_to_le_bytes(params.m_cost) + spec_u32_to_le_bytes(params.t_cost)
        + spec_u32_to_le_bytes(params.p_cost) + spec_u64_to_le_bytes(params.hash_length)
}

/// Reads the four cost parameters off the front of `bytes`.
pub open spec fn parsed_params(bytes: Seq<u8>) -> Option<Argon2Params> {
    if bytes.len() < PARAMS_LENGTH {
        None
    } else {
        Some(
            Argon2Params {
                m_cost: spec_u32_from_le_bytes(bytes.subrange(0, 4)),
                t_cost: spec_u32_from_le_bytes(bytes.subrange(4, 8)),
                p_cost: spec_u32_from_le_bytes(bytes.subrange(8, 12)),
                hash_length: spec_u64_from_le_bytes(bytes.subrange(12, 20)),
            },
        )
    }
}

impl EncryptedInfoView {
    /// The invariants of a record: a salt in textual form, a nonce of the
    /// cipher's length, and parameters that a key can be derived under.
    pub open spec fn well_formed(self) -> bool {
        &&& salt_well_formed(self.password_salt)
        &&& self.cipher_nonce.len() == NONCE_LENGTH
        &&& self.argon2_params.well_formed()
    }

    /// The record's binary form.
    pub open spec fn serialized(self) -> Seq<u8> {
        length_prefixed(encode_utf8(self.password_salt)) + length_prefixed(self.cipher_nonce)
            + serialized_params(self.argon2_params)
    }
}

/// The record that `bytes` start with, if they hold one: the salt must be
/// UTF-8, and bytes after the record are passed over.
pub open spec fn parsed(bytes: Seq<u8>) -> Option<EncryptedInfoView> {
    match split_prefixed(bytes) {
        None => None,
        Some((salt, after_salt)) => if !valid_utf8(salt) {
            None
        } else {
            match split_prefixed(after_salt) {
                None => None,
                Some((nonce, after_nonce)) => match parsed_params(after_nonce) {
                    None => None,
                    Some(params) => Some(
                        EncryptedInfoView {
                            password_salt: decode_utf8(salt),
                            cipher_nonce: nonce,
                            argon2_params: params,
                        },
                    ),
                },
            }
        }
    }
}

/// Splitting takes a length-prefixed field off again, whatever follows it.
pub proof fn lemma_split_prefixed(field: Seq<u8>, rest: Seq<u8>)
    requires
        field.len() <= u64::MAX,
    ensures
        split_prefixed(length_prefixed(field) + rest) == Some((field, rest)),
{
    lemma_auto_spec_u64_to_from_le_bytes();
    let bytes = length_prefixed(field) + rest;
    let length = spec_u64_to_le_bytes(field.len() as u64);
    assert(bytes.subrange(0, 8) =~= length);
    assert(bytes.subrange(8, 8 + field.len() as int) =~= field);
    assert(bytes.subrange(8 + field.len() as int, bytes.len() as int) =~= rest);
}

/// Parameters read back from their binary form are the ones written,
/// whatever follows them.
pub proof fn lemma_parse_params(params: Argon2Params, rest: Seq<u8>)
    ensures
        parsed_params(serialized_params(params) + rest) == Some(params),
{
    lemma_auto_spec_u32_to_from_le_bytes();
    lemma_auto_spec_u64_to_from_le_bytes();
    let bytes = serialized_params(params) + rest;
    assert(bytes.subrange(0, 4) =~= spec_u32_to_le_bytes(params.m_cost));
    assert(bytes.subrange(4, 8) =~= spec_u32_to_le_bytes(params.t_cost));
    assert(bytes.subrange(8, 12) =~= spec_u32_to_le_bytes(params.p_cost));
    assert(bytes.subrange(12, 20) =~= spec_u64_to_le_bytes(params.hash_length));
}

/// A record read back from its binary form is the record written, whatever
/// follows it.
pub proof fn lemma_parse_serialized(info: EncryptedInfoView, rest: Seq<u8>)
    requires
        encode_utf8(info.password_salt).len() <= u64::MAX,
        info.cipher_nonce.len() <= u64::MAX,
    ensures
        parsed(info.serialized() + rest) == Some(info),
{
    let salt = encode_utf8(info.password_salt);
    let after_nonce = serialized_params(info.argon2_params) + rest;
    let after_salt = length_prefixed(info.cipher_nonce) + after_nonce;
    assert(info.serialized() + rest =~= length_prefixed(salt) + after_salt);
    lemma_split_prefixed(salt, after_salt);
    lemma_split_prefixed(info.cipher_nonce, after_nonce);
    lemma_parse_params(info.argon2_params, rest);
    encode_utf8_valid_utf8(info.password_salt);
    encode_utf8_decode_utf8(info.password_salt);
}

/// The binary form of a record is as long as its salt and its nonce, and 36
/// bytes more: two lengths and the cost parameters.
pub proof fn lemma_serialized_len(info: EncryptedInfoView)
    requires
        encode_utf8(info.password_salt).len() <= u64::MAX,
        info.cipher_nonce.len() <= u64::MAX,
    ensures
        info.serialized().len() == 16 + PARAMS_LENGTH + encode_utf8(info.password_salt).len()
            + info.cipher_nonce.len(),
{
    lemma_auto_spec_u32_to_from_le_bytes();
    lemma_auto_spec_u64_to_from_le_bytes();
}

/// Reads text from bytes through `std::str::from_utf8`, which accepts
/// exactly the UTF-8 sequences: the text that comes back encodes to the
/// bytes given.
#[verifier::external_body]
pub(crate) fn text_from_utf8(bytes: &[u8]) -> (r: Option<String>)
    ensures
        match r {
            Some(text) => valid_utf8(bytes@) && text@ == decode_utf8(bytes@),
            None => !valid_utf8(bytes@),
        },
{
    std::str::from_utf8(bytes).ok().map(String::from)
}

/// Appends a slice to a buffer.
fn append(out: &mut Vec<u8>, bytes: &[u8])
    ensures
        final(out)@ == old(out)@ + bytes@,
{
    out.extend_from_slice(bytes);
    assert(out@ =~= old(out)@ + bytes@);
}

/// Appends a field behind its length.
fn append_prefixed(out: &mut Vec<u8>, field: &[u8])
    ensures
        final(out)@ == old(out)@ + length_prefixed(field@),
{
    let length = u64_to_le_bytes(field.len() as u64);
    append(out, length.as_slice());
    append(out, field);
    assert(out@ =~= old(out)@ + length_prefixed(field@));
}

/// Splits a length-prefixed field off the front of `bytes`.
fn take_prefixed(bytes: &[u8]) -> (r: Option<(&[u8], &[u8])>)
    ensures
        match r {
            Some((field, rest)) => split_prefixed(bytes@) == Some((field@, rest@)),
            None => split_prefixed(bytes@) is None,
        },
{
    if bytes.len() < 8 {
        return None;
    }
    let length = u64_from_le_bytes(slice_subrange(bytes, 0, 8));
    if length > (bytes.len() - 8) as u64 {
        return None;
    }
    let end = 8 + length as usize;
    Some((slice_subrange(bytes, 8, end), slice_subrange(bytes, end, bytes.len())))
}

/// Tells whether a character belongs to the salt alphabet.
fn salt_char(c: char) -> (r: bool)
    ensures
        r == is_salt_char(c),
{
    ('a' <= c && c <= 'z') || ('A' <= c && c <= 'Z') || ('0' <= c && c <= '9') || c == '/' || c
        == '+' || c == '.' || c == '-'
}

/// Tells whether a text is a salt in textual form.
pub fn is_salt(text: &str) -> (r: bool)
    ensures
        r == salt_well_formed(text@),
{
    let length = text.unicode_len();
    if length < MIN_SALT_LENGTH || length > MAX_SALT_LENGTH {
        return false;
    }
    let mut i: usize = 0;
    while i < length
        invariant
            i <= length,
            length == text@.len(),
            forall|j: int| 0 <= j < i ==> is_salt_char(#[trigger] text@[j]),
        decreases length - i,
    {
        if !salt_char(text.get_char(i)) {
            return false;
        }
        i += 1;
    }
    true
}

impl EncryptedInfo {
    pub fn new(password_salt: String, cipher_nonce: Vec<u8>, argon2_params: Argon2Params) -> (r:
        Self)
        ensures
            r@ == (EncryptedInfoView {
                password_salt: password_salt@,
                cipher_nonce: cipher_nonce@,
                argon2_params,
            }),
    {
        Self { password_salt, cipher_nonce, argon2_params }
    }

    /// Tells whether the record keeps its invariants.
    pub fn is_valid(&self) -> (r: bool)
        ensures
            r == self@.well_formed(),
    {
        is_salt(self.password_salt.as_str()) && self.cipher_nonce.len() == NONCE_LENGTH
            && self.argon2_params.is_valid()
    }

    /// Writes the record in its binary form.
    pub fn to_bytes(&self) -> (r: Vec<u8>)
        ensures
            r@ == self@.serialized(),
    {
        let mut out: Vec<u8> = Vec::new();
        append_prefixed(&mut out, self.password_salt.as_str().as_bytes());
        append_prefixed(&mut out, self.cipher_nonce.as_slice());
        append(&mut out, u32_to_le_bytes(self.argon2_params.m_cost).as_slice());
        append(&mut out, u32_to_le_bytes(self.argon2_params.t_cost).as_slice());
        append(&mut out, u32_to_le_bytes(self.argon2_params.p_cost).as_slice());
        append(&mut out, u64_to_le_bytes(self.argon2_params.hash_length).as_slice());
        assert(out@ =~= self@.serialized());
        out
    }

    /// Reads the record that `bytes` start with.
    pub fn from_bytes(bytes: &[u8]) -> (r: Option<Self>)
        ensures
            match r {
                Some(info) => parsed(bytes@) == Some(info@),
                None => parsed(bytes@) is None,
            },
    {
        let (salt, after_salt) = match take_prefixed(bytes) {
            Some(parts) => parts,
            None => return None,
        };
        let password_salt = match text_from_utf8(salt) {
            Some(text) => text,
            None => return None,
        };
        let (nonce, after_nonce) = match take_prefixed(after_salt) {
            Some(parts) => parts,
            None => return None,
        };
        if after_nonce.len() < PARAMS_LENGTH {
            return None;
        }
        let argon2_params = Argon2Params {
            m_cost: u32_from_le_bytes(slice_subrange(after_nonce, 0, 4)),
            t_cost: u32_from_le_bytes(slice_subrange(after_nonce, 4, 8)),
            p_cost: u32_from_le_bytes(slice_subrange(after_nonce, 8, 12)),
            hash_length: u64_from_le_bytes(slice_subrange(after_nonce, 12, 20)),
        };
        let mut cipher_nonce: Vec<u8> = Vec::new();
        append(&mut cipher_nonce, nonce);
        Some(Self { password_salt, cipher_nonce, argon2_params })
    }
}

} // verus!
