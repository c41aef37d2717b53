//! The container's frame: magic, metadata length, metadata, ciphertext.
//!
//! | offset        | size       | field                              |
//! |---------------|------------|------------------------------------|
//! | 0             | 8          | magic, `nCrypt1` and a zero byte   |
//! | 8             | 4          | metadata length, little-endian     |
//! | 12            | that many  | metadata record                    |
//! | after it      | the rest   | ciphertext and its 16-byte tag     |

use vstd::prelude::*;
use vstd::bytes::{
    spec_u32_from_le_bytes, spec_u32_to_le_bytes, u32_from_le_bytes, u32_to_le_bytes,
    lemma_auto_spec_u32_to_from_le_bytes,
};
use vstd::slice::slice_subrange;
use crate::error::CryptError;

verus! {

/// File Header
///
/// The first 8 bytes of the file format: the format's name and version.
pub const HEADER: [u8; 8] = [0x6E, 0x43, 0x72, 0x79, 0x70, 0x74, 0x31, 0x00];

/// Bytes of the magic.
pub const HEADER_LENGTH: usize = 8;

/// Bytes before the metadata record: the magic and the record's length.
pub const PREFIX_LENGTH: usize = 12;

/// The magic as a sequence of bytes.
pub open spec fn magic() -> Seq<u8> {
    seq![0x6Eu8, 0x43u8, 0x72u8, 0x79u8, 0x70u8, 0x74u8, 0x31u8, 0x00u8]
}

/// A container: the magic, the length of the metadata, the metadata, the
/// ciphertext.
pub open spec fn framed(metadata: Seq<u8>, ciphertext: Seq<u8>) -> Seq<u8> {
    magic() + spec_u32_to_le_bytes(metadata.len() as u32) + metadata + ciphertext
}

/// Tells whether `blob` starts with the magic.
pub open spec fn has_magic(blob: Seq<u8>) -> bool {
    blob.len() >= HEADER_LENGTH && blob.subrange(0, HEADER_LENGTH as int) == magic()
}

/// The metadata and the ciphertext of a container. Without the magic in
/// front it is no container; with a length field that is cut short, or that
/// points past the end, it is truncated.
pub open spec fn unframed(blob: Seq<u8>) -> Result<(Seq<u8>, Seq<u8>), CryptError> {
    if !has_magic(blob) {
        Err(CryptError::BadMagic)
    } else if blob.len() < PREFIX_LENGTH {
        Err(CryptError::Truncated)
    } else {
        let length = spec_u32_from_le_bytes(
            blob.subrange(HEADER_LENGTH as int, PREFIX_LENGTH as int),
        );
        if PREFIX_LENGTH + length > blob.len() {
            Err(CryptError::Truncated)
        } else {
            Ok(
                (
                    blob.subrange(PREFIX_LENGTH as int, PREFIX_LENGTH + length),
                    blob.subrange(PREFIX_LENGTH + length, blob.len() as int),
                ),
            )
        }
    }
}

/// A frame taken apart gives the metadata and the ciphertext it was made of.
pub proof fn lemma_unframe_framed(metadata: Seq<u8>, ciphertext: Seq<u8>)
    requires
        metadata.len() <= u32::MAX,
    ensures
        unframed(framed(metadata, ciphertext)) == Ok::<(Seq<u8>, Seq<u8>), CryptError>(
            (metadata, ciphertext),
        ),
{
    lemma_auto_spec_u32_to_from_le_bytes();
    let blob = framed(metadata, ciphertext);
    let length = spec_u32_to_le_bytes(metadata.len() as u32);
    assert(blob.subrange(0, HEADER_LENGTH as int) =~= magic());
    assert(blob.subrange(HEADER_LENGTH as int, PREFIX_LENGTH as int) =~= length);
    assert(blob.subrange(PREFIX_LENGTH as int, PREFIX_LENGTH + metadata.len()) =~= metadata);
    assert(blob.subrange(PREFIX_LENGTH + metadata.len(), blob.len() as int) =~= ciphertext);
}

/// A frame is twelve bytes longer than what it holds.
pub proof fn lemma_framed_len(metadata: Seq<u8>, ciphertext: Seq<u8>)
    ensures
        framed(metadata, ciphertext).len() == PREFIX_LENGTH + metadata.len() + ciphertext.len(),
{
    lemma_auto_spec_u32_to_from_le_bytes();
}

/// What does not start with the magic is no container.
pub proof fn lemma_magic_enforced(blob: Seq<u8>)
    requires
        blob.len() < HEADER_LENGTH || blob.subrange(0, HEADER_LENGTH as int) != magic(),
    ensures
        unframed(blob) == Err::<(Seq<u8>, Seq<u8>), CryptError>(CryptError::BadMagic),
{
}

/// Tells whether `blob` starts with the magic.
pub fn starts_with_header(blob: &[u8]) -> (r: bool)
    ensures
        r == has_magic(blob@),
{
    if blob.len() < HEADER_LENGTH {
        return false;
    }
    let mut i: usize = 0;
    while i < HEADER_LENGTH
        invariant
            i <= HEADER_LENGTH <= blob@.len(),
            forall|j: int| 0 <= j < i ==> blob@[j] == magic()[j],
        decreases HEADER_LENGTH - i,
    {
        if blob[i] != HEADER[i] {
            assert(blob@.subrange(0, HEADER_LENGTH as int)[i as int] != magic()[i as int]);
            return false;
        }
        i += 1;
    }
    assert(blob@.subrange(0, HEADER_LENGTH as int) =~= magic());
    true
}

/// Puts a metadata record and a ciphertext into a container.
pub fn frame(metadata: &[u8], ciphertext: &[u8]) -> (r: Vec<u8>)
    requires
        metadata@.len() <= u32::MAX,
    ensures
        r@ == framed(metadata@, ciphertext@),
{
    let mut out: Vec<u8> = Vec::new();
    out.extend_from_slice(&HEADER);
    out.extend_from_slice(u32_to_le_bytes(metadata.len() as u32).as_slice());
    out.extend_from_slice(metadata);
    out.extend_from_slice(ciphertext);
    assert(out@ =~= framed(metadata@, ciphertext@));
    out
}

/// Takes a container apart into its metadata record and its ciphertext.
pub fn unframe(blob: &[u8]) -> (r: Result<(&[u8], &[u8]), CryptError>)
    ensures
        match r {
            Ok((metadata, ciphertext)) => unframed(blob@) == Ok::<
                (Seq<u8>, Seq<u8>),
                CryptError,
            >((metadata@, ciphertext@)),
            Err(e) => unframed(blob@) == Err::<(Seq<u8>, Seq<u8>), CryptError>(e),
        },
{
    if !starts_with_header(blob) {
        return Err(CryptError::BadMagic);
    }
    if blob.len() < PREFIX_LENGTH {
        return Err(CryptError::Truncated);
    }
    let length = u32_from_le_bytes(slice_subrange(blob, HEADER_LENGTH, PREFIX_LENGTH));
    if length as u64 > (blob.len() - PREFIX_LENGTH) as u64 {
        return Err(CryptError::Truncated);
    }
    let end = PREFIX_LENGTH + length as usize;
    Ok((slice_subrange(blob, PREFIX_LENGTH, end), slice_subrange(blob, end, blob.len())))
}

} // verus!
