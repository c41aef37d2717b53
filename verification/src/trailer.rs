//! The trailer layout of files written before the container had a header:
//! the ciphertext, then an identifier, then the parameters. Only finding and
//! splitting the trailer, and the naming of such files, live here.

use vstd::prelude::*;
use vstd::slice::slice_subrange;
use vstd::string::StringExecFns;
use std::path::Path;

verus! {

/// The identifier that separates the ciphertext from the parameters:
/// `nCrypt_Params`.
pub const IDENTIFIER: [u8; 13] = [
    0x6E, 0x43, 0x72, 0x79, 0x70, 0x74, 0x5F, 0x50, 0x61, 0x72, 0x61, 0x6D, 0x73,
];

/// What the name of an encrypted file ends in.
pub const ENCRYPTED_SUFFIX: &'static str = "_encrypted.nc";

/// The identifier as a sequence of bytes.
pub open spec fn identifier() -> Seq<u8> {
    seq![
        0x6Eu8, 0x43u8, 0x72u8, 0x79u8, 0x70u8, 0x74u8, 0x5Fu8, 0x50u8, 0x61u8, 0x72u8, 0x61u8,
        0x6Du8, 0x73u8,
    ]
}

/// Tells whether `pattern` stands in `data` at `at`.
pub open spec fn occurs_at(data: Seq<u8>, pattern: Seq<u8>, at: int) -> bool {
    &&& 0 <= at
    &&& at + pattern.len() <= data.len()
    &&& data.subrange(at, at + pattern.len()) == pattern
}

/// Tells whether `found` is where `pattern` stands last in `data`: the
/// greatest such place, or none where there is no such place.
pub open spec fn is_last_occurrence(data: Seq<u8>, pattern: Seq<u8>, found: Option<usize>) -> bool {
    match found {
        Some(at) => {
            &&& occurs_at(data, pattern, at as int)
            &&& forall|later: int| at < later ==> !occurs_at(data, pattern, later)
        },
        None => forall|at: int| !occurs_at(data, pattern, at),
    }
}

/// Tells whether `pattern` stands in `data` at `at`.
fn matches_at(data: &[u8], pattern: &[u8], at: usize) -> (r: bool)
    requires
        at + pattern@.len() <= data@.len(),
    ensures
        r == occurs_at(data@, pattern@, at as int),
{
    let length = data.len();
    let mut i: usize = 0;
    while i < pattern.len()
        invariant
            i <= pattern@.len(),
            at + pattern@.len() <= data@.len(),
            length == data@.len(),
            forall|j: int| 0 <= j < i ==> data@[at + j] == pattern@[j],
        decreases pattern@.len() - i,
    {
        if data[at + i] != pattern[i] {
            assert(data@.subrange(at as int, at + pattern@.len())[i as int] != pattern@[i as int]);
            return false;
        }
        i += 1;
    }
    assert(data@.subrange(at as int, at + pattern@.len()) =~= pattern@);
    true
}

/// Finds where `identifier` stands last in `data`.
pub fn find_identifier_position(data: &[u8], identifier: &[u8]) -> (r: Option<usize>)
    requires
        identifier@.len() > 0,
    ensures
        is_last_occurrence(data@, identifier@, r),
{
    if data.len() < identifier.len() {
        return None;
    }
    let mut at: usize = data.len() - identifier.len() + 1;
    while at > 0
        invariant
            identifier@.len() <= data@.len(),
            at + identifier@.len() <= data@.len() + 1,
            forall|later: int| at <= later ==> !occurs_at(data@, identifier@, later),
        decreases at,
    {
        at -= 1;
        if matches_at(data, identifier, at) {
            return Some(at);
        }
    }
    None
}

/// Splits a file with a trailer into its ciphertext and its parameters: what
/// stands before the last identifier and what stands after it. Without an
/// identifier the file has no trailer.
pub fn split_trailer(file: &[u8]) -> (r: Option<(&[u8], &[u8])>)
    ensures
        match r {
            Some((data, params)) => {
                &&& file@ == data@ + identifier() + params@
                &&& is_last_occurrence(file@, identifier(), Some(data@.len() as usize))
            },
            None => is_last_occurrence(file@, identifier(), None),
        },
{
    assert(IDENTIFIER@ =~= identifier());
    let found = find_identifier_position(file, IDENTIFIER.as_slice());
    match found {
        None => None,
        Some(at) => {
            let length = file.len();
            let data = slice_subrange(file, 0, at);
            let params = slice_subrange(file, at + IDENTIFIER.len(), length);
            assert(file@ =~= data@ + identifier() + params@) by {
                assert(file@.subrange(at as int, at + identifier().len()) == identifier());
                assert forall|i: int| at <= i < at + identifier().len() implies file@[i]
                    == identifier()[i - at] by {
                    assert(file@.subrange(at as int, at + identifier().len())[i - at] == file@[i]);
                }
            }
            Some((data, params))
        },
    }
}

/// The encryption algorithm to use
#[derive(Clone, Copy, Debug, Default, PartialEq, Eq)]
pub enum EncryptionAlgorithm {
    XChaCha20Poly1305,
    #[default]
    Aes256Gcm,
}

impl EncryptionAlgorithm {
    /// The algorithm's name as it is written in a trailer.
    pub open spec fn name(self) -> Seq<char> {
        match self {
            EncryptionAlgorithm::XChaCha20Poly1305 => "XChaCha20Poly1305"@,
            EncryptionAlgorithm::Aes256Gcm => "Aes256Gcm"@,
        }
    }

    /// The algorithm that a name stands for; any other name stands for
    /// `Aes256Gcm`.
    pub open spec fn named(name: Seq<char>) -> EncryptionAlgorithm {
        if name == "XChaCha20Poly1305"@ {
            EncryptionAlgorithm::XChaCha20Poly1305
        } else {
            EncryptionAlgorithm::Aes256Gcm
        }
    }

    /// Writes the algorithm's name.
    pub fn algorithm(&self) -> (r: String)
        ensures
            r@ == self.name(),
    {
        match self {
            EncryptionAlgorithm::XChaCha20Poly1305 => String::from_str("XChaCha20Poly1305"),
            EncryptionAlgorithm::Aes256Gcm => String::from_str("Aes256Gcm"),
        }
    }

    /// Reads an algorithm from its name.
    pub fn from_name(name: &str) -> (r: Self)
        ensures
            r == Self::named(name@),
    {
        if String::from_str(name) == String::from_str("XChaCha20Poly1305") {
            EncryptionAlgorithm::XChaCha20Poly1305
        } else {
            EncryptionAlgorithm::Aes256Gcm
        }
    }
}

/// A name read back is the algorithm it was written for.
pub proof fn lemma_named_name(algorithm: EncryptionAlgorithm)
    ensures
        EncryptionAlgorithm::named(algorithm.name()) == algorithm,
{
    reveal_strlit("XChaCha20Poly1305");
    reveal_strlit("Aes256Gcm");
    if algorithm == EncryptionAlgorithm::Aes256Gcm {
        assert("Aes256Gcm"@.len() != "XChaCha20Poly1305"@.len());
    }
}

/// The text that `str::replace` gives: `text` with each match of `from`,
/// taken from the left and not overlapping, replaced by `to`.
pub uninterp spec fn text_replaced(text: Seq<char>, from: Seq<char>, to: Seq<char>) -> Seq<char>;

/// Replaces every match of `from` in `text` by `to`, through `str::replace`,
/// whose result is a function of the three texts.
#[verifier::external_body]
pub(crate) fn replace_text(text: &str, from: &str, to: &str) -> (r: String)
    ensures
        r@ == text_replaced(text@, from@, to@),
{
    text.replace(from, to)
}

/// Reads the last component of a path through `std::path::Path::file_name`.
/// What counts as a component depends on the platform, so nothing is said of
/// the result.
#[verifier::external_body]
fn path_file_name(path: &str) -> Option<String> {
    Some(Path::new(path).file_name()?.to_str()?.to_string())
}

/// Reads the extension of a path through `std::path::Path::extension`. What
/// counts as a component depends on the platform, so nothing is said of the
/// result.
#[verifier::external_body]
fn path_extension(path: &str) -> Option<String> {
    Some(Path::new(path).extension()?.to_str()?.to_string())
}

/// Why a path names no file to work on.
#[derive(Clone, Copy, Debug, PartialEq, Eq)]
pub enum FileError {
    /// The path has no last component.
    NoFileName,
    /// The file's name has no extension.
    NoExtension,
}

/// The chosen file to encrypt or decrypt
#[derive(Debug)]
pub struct File {
    pub path: String,
    pub name: String,
    pub extension: String,
}

/// A `File` as text.
pub struct FileView {
    pub path: Seq<char>,
    pub name: Seq<char>,
    pub extension: Seq<char>,
}

impl View for File {
    type V = FileView;

    open spec fn view(&self) -> FileView {
        FileView { path: self.path@, name: self.name@, extension: self.extension@ }
    }
}

impl Default for File {
    fn default() -> (r: Self)
        ensures
            r@ == (FileView { path: Seq::empty(), name: Seq::empty(), extension: Seq::empty() }),
    {
        Self { path: String::new(), name: String::new(), extension: String::new() }
    }
}

impl File {
    /// The file that a path, its last component and its extension make: none
    /// without a name, none without an extension, in this order.
    pub open spec fn of_parts(
        path: Seq<char>,
        name: Option<Seq<char>>,
        extension: Option<Seq<char>>,
    ) -> Result<FileView, FileError> {
        match name {
            None => Err(FileError::NoFileName),
            Some(name) => match extension {
                None => Err(FileError::NoExtension),
                Some(extension) => Ok(FileView { path, name, extension }),
            },
        }
    }

    /// Makes a file of a path, its last component and its extension.
    pub fn from_parts(path: String, name: Option<String>, extension: Option<String>) -> (r: Result<
        File,
        FileError,
    >)
        ensures
            match r {
                Ok(file) => Self::of_parts(
                    path@,
                    match name {
                        Some(n) => Some(n@),
                        None => None,
                    },
                    match extension {
                        Some(e) => Some(e@),
                        None => None,
                    },
                ) == Ok::<FileView, FileError>(file@),
                Err(e) => Self::of_parts(
                    path@,
                    match name {
                        Some(n) => Some(n@),
                        None => None,
                    },
                    match extension {
                        Some(e) => Some(e@),
                        None => None,
                    },
                ) == Err::<FileView, FileError>(e),
            },
    {
        match name {
            None => Err(FileError::NoFileName),
            Some(name) => match extension {
                None => Err(FileError::NoExtension),
                Some(extension) => Ok(File { path, name, extension }),
            },
        }
    }

    /// Makes a file of a path: its name is the path's last component, its
    /// extension what follows the name's last dot.
    pub fn new(path: String) -> (r: Result<File, FileError>)
        ensures
            r matches Ok(file) ==> file@.path == path@,
    {
        let name = path_file_name(path.as_str());
        let extension = path_extension(path.as_str());
        Self::from_parts(path, name, extension)
    }

    pub fn name_encrypted(&self) -> (r: String)
        ensures
            r@ == self@.name + ENCRYPTED_SUFFIX@,
    {
        self.name.clone().concat(ENCRYPTED_SUFFIX)
    }

    /// Removes the "_encrypted.nc" extension
    pub fn name_decrypted(&self) -> (r: String)
        ensures
            r@ == text_replaced(self@.name, ENCRYPTED_SUFFIX@, Seq::empty()),
    {
        proof {
            reveal_strlit("");
            assert(""@ =~= Seq::<char>::empty());
        }
        replace_text(self.name.as_str(), ENCRYPTED_SUFFIX, "")
    }

    /// Tells whether `data` holds a trailer.
    pub fn is_encrypted(&self, data: &[u8]) -> (r: bool)
        ensures
            r == exists|at: int| occurs_at(data@, identifier(), at),
    {
        assert(IDENTIFIER@ =~= identifier());
        let found = find_identifier_position(data, IDENTIFIER.as_slice());
        proof {
            if let Some(at) = found {
                assert(occurs_at(data@, identifier(), at as int));
            }
        }
        found.is_some()
    }
}

} // verus!
