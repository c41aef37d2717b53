//! Digests of text: SHA-256 for salts that follow from a username, and the
//! four SHA-3 lengths of the text hashing panel.

use vstd::prelude::*;
use vstd::string::StrSliceExecFns;
use vstd::string::StringExecFns;
use vstd::utf8::encode_utf8;
use sha2::Sha256;
use sha3::{Digest, Sha3_224, Sha3_256, Sha3_384, Sha3_512};
use crate::hex::{hex_lower, hex_text};

verus! {

/// The SHA-256 digest of a byte sequence.
pub uninterp spec fn sha256_digest(data: Seq<u8>) -> Seq<u8>;

/// The SHA3-224 digest of a byte sequence.
pub uninterp spec fn sha3_224_digest(data: Seq<u8>) -> Seq<u8>;

/// The SHA3-256 digest of a byte sequence.
pub uninterp spec fn sha3_256_digest(data: Seq<u8>) -> Seq<u8>;

/// The SHA3-384 digest of a byte sequence.
pub uninterp spec fn sha3_384_digest(data: Seq<u8>) -> Seq<u8>;

/// The SHA3-512 digest of a byte sequence.
pub uninterp spec fn sha3_512_digest(data: Seq<u8>) -> Seq<u8>;

/// Runs `Digest::digest` of `sha2::Sha256`: a function of the data alone,
/// 32 bytes long.
#[verifier::external_body]
pub(crate) fn sha256(data: &[u8]) -> (r: Vec<u8>)
    ensures
        r@ == sha256_digest(data@),
        r@.len() == 32,
{
    Sha256::digest(data).to_vec()
}

/// Runs `Digest::digest` of `sha3::Sha3_224`: a function of the data alone,
/// 28 bytes long.
#[verifier::external_body]
fn sha3_224(data: &[u8]) -> (r: Vec<u8>)
    ensures
        r@ == sha3_224_digest(data@),
        r@.len() == 28,
{
    Sha3_224::digest(data).to_vec()
}

/// Runs `Digest::digest` of `sha3::Sha3_256`: a function of the data alone,
/// 32 bytes long.
#[verifier::external_body]
fn sha3_256(data: &[u8]) -> (r: Vec<u8>)
    ensures
        r@ == sha3_256_digest(data@),
        r@.len() == 32,
{
    Sha3_256::digest(data).to_vec()
}

/// Runs `Digest::digest` of `sha3::Sha3_384`: a function of the data alone,
/// 48 bytes long.
#[verifier::external_body]
fn sha3_384(data: &[u8]) -> (r: Vec<u8>)
    ensures
        r@ == sha3_384_digest(data@),
        r@.len() == 48,
{
    Sha3_384::digest(data).to_vec()
}

/// Runs `Digest::digest` of `sha3::Sha3_512`: a function of the data alone,
/// 64 bytes long.
#[verifier::external_body]
fn sha3_512(data: &[u8]) -> (r: Vec<u8>)
    ensures
        r@ == sha3_512_digest(data@),
        r@.len() == 64,
{
    Sha3_512::digest(data).to_vec()
}

/// The digests that the text hashing panel offers.
#[derive(Clone, Copy, Debug, PartialEq, Eq)]
pub enum HashAlgorithm {
    Sha3_224,
    Sha3_256,
    Sha3_384,
    Sha3_512,
}

impl HashAlgorithm {
    /// The algorithm's name as it is shown.
    pub open spec fn name(self) -> Seq<char> {
        match self {
            HashAlgorithm::Sha3_224 => "SHA3-224"@,
            HashAlgorithm::Sha3_256 => "SHA3-256"@,
            HashAlgorithm::Sha3_384 => "SHA3-384"@,
            HashAlgorithm::Sha3_512 => "SHA3-512"@,
        }
    }

    /// The algorithm's digest of a byte sequence.
    pub open spec fn digest(self, data: Seq<u8>) -> Seq<u8> {
        match self {
            HashAlgorithm::Sha3_224 => sha3_224_digest(data),
            HashAlgorithm::Sha3_256 => sha3_256_digest(data),
            HashAlgorithm::Sha3_384 => sha3_384_digest(data),
            HashAlgorithm::Sha3_512 => sha3_512_digest(data),
        }
    }

    /// Bytes of the algorithm's digest.
    pub open spec fn digest_length(self) -> nat {
        match self {
            HashAlgorithm::Sha3_224 => 28,
            HashAlgorithm::Sha3_256 => 32,
            HashAlgorithm::Sha3_384 => 48,
            HashAlgorithm::Sha3_512 => 64,
        }
    }

    pub fn to_string(&self) -> (r: String)
        ensures
            r@ == self.name(),
    {
        String::from_str(
            match self {
                HashAlgorithm::Sha3_224 => "SHA3-224",
                HashAlgorithm::Sha3_256 => "SHA3-256",
                HashAlgorithm::Sha3_384 => "SHA3-384",
                HashAlgorithm::Sha3_512 => "SHA3-512",
            },
        )
    }

    pub fn to_vec(&self) -> (r: Vec<HashAlgorithm>)
        ensures
            r@ == seq![
                HashAlgorithm::Sha3_224,
                HashAlgorithm::Sha3_256,
                HashAlgorithm::Sha3_384,
                HashAlgorithm::Sha3_512,
            ],
    {
        let mut all: Vec<HashAlgorithm> = Vec::new();
        all.push(HashAlgorithm::Sha3_224);
        all.push(HashAlgorithm::Sha3_256);
        all.push(HashAlgorithm::Sha3_384);
        all.push(HashAlgorithm::Sha3_512);
        assert(all@ =~= seq![
            HashAlgorithm::Sha3_224,
            HashAlgorithm::Sha3_256,
            HashAlgorithm::Sha3_384,
            HashAlgorithm::Sha3_512,
        ]);
        all
    }

    /// Computes the algorithm's digest of `data`.
    pub fn hash(&self, data: &[u8]) -> (r: Vec<u8>)
        ensures
            r@ == self.digest(data@),
            r@.len() == self.digest_length(),
    {
        match self {
            HashAlgorithm::Sha3_224 => sha3_224(data),
            HashAlgorithm::Sha3_256 => sha3_256(data),
            HashAlgorithm::Sha3_384 => sha3_384(data),
            HashAlgorithm::Sha3_512 => sha3_512(data),
        }
    }
}

/// The text that the panel shows for an input under an algorithm: the digest
/// of its UTF-8 bytes in lower-case hexadecimal.
pub open spec fn hash_text(algorithm: HashAlgorithm, input: Seq<char>) -> Seq<char> {
    hex_text(algorithm.digest(encode_utf8(input)))
}

/// The state of the text hashing panel.
pub struct TextHashingUi {
    pub open: bool,
    pub algorithm: HashAlgorithm,
    pub input_text: String,
    pub output_hash: String,
}

impl TextHashingUi {
    pub fn new() -> (r: Self)
        ensures
            !r.open,
            r.algorithm == HashAlgorithm::Sha3_224,
            r.input_text@ == Seq::<char>::empty(),
            r.output_hash@ == Seq::<char>::empty(),
    {
        Self {
            open: false,
            algorithm: HashAlgorithm::Sha3_224,
            input_text: String::new(),
            output_hash: String::new(),
        }
    }

    /// Sets the output to the digest of the input under the chosen algorithm.
    pub fn calculate_hash(&mut self)
        ensures
            final(self).output_hash@ == hash_text(old(self).algorithm, old(self).input_text@),
            final(self).output_hash@.len() == 2 * old(self).algorithm.digest_length(),
            final(self).open == old(self).open,
            final(self).algorithm == old(self).algorithm,
            final(self).input_text@ == old(self).input_text@,
    {
        let digest = self.algorithm.hash(self.input_text.as_str().as_bytes());
        self.output_hash = hex_lower(digest.as_slice());
    }

    /// Brings the output up to date with the input: its digest, or nothing
    /// where there is no input.
    pub fn refresh(&mut self)
        ensures
            final(self).output_hash@ == if old(self).input_text@.len() == 0 {
                Seq::<char>::empty()
            } else {
                hash_text(old(self).algorithm, old(self).input_text@)
            },
            final(self).open == old(self).open,
            final(self).algorithm == old(self).algorithm,
            final(self).input_text@ == old(self).input_text@,
    {
        if !self.input_text.as_str().is_empty() {
            self.calculate_hash();
        } else {
            self.output_hash = String::new();
        }
    }
}

} // verus!
