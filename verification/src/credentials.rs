//! The secrets that a file is sealed and opened under.

use vstd::prelude::*;
use vstd::utf8::encode_utf8;
use zeroize::Zeroize;
use crate::hashing::{sha256, sha256_digest};
use crate::hex::{hex_lower, hex_text};
use crate::metadata::salt_well_formed;

verus! {

/// Why a set of credentials cannot be used.
#[derive(Clone, Copy, Debug, PartialEq, Eq)]
pub enum InvalidCredentials {
    EmptyUsername,
    EmptyPassword,
    EmptyConfirm,
    PasswordMismatch,
}

/// What a `Credentials` value holds, as text.
pub struct CredentialsView {
    pub username: Seq<char>,
    pub password: Seq<char>,
    pub confirm_password: Seq<char>,
}

impl CredentialsView {
    /// The state after destruction: three empty strings.
    pub open spec fn empty() -> CredentialsView {
        CredentialsView {
            username: Seq::empty(),
            password: Seq::empty(),
            confirm_password: Seq::empty(),
        }
    }

    /// The first rule that the credentials break, if any: the username, the
    /// password and the confirmation are non-empty, in this order, and the
    /// confirmation repeats the password.
    pub open spec fn defect(self) -> Option<InvalidCredentials> {
        if self.username.len() == 0 {
            Some(InvalidCredentials::EmptyUsername)
        } else if self.password.len() == 0 {
            Some(InvalidCredentials::EmptyPassword)
        } else if self.confirm_password.len() == 0 {
            Some(InvalidCredentials::EmptyConfirm)
        } else if self.password != self.confirm_password {
            Some(InvalidCredentials::PasswordMismatch)
        } else {
            None
        }
    }

    pub open spec fn valid(self) -> bool {
        self.defect() is None
    }

    /// The state that destruction leaves, whatever was held before.
    pub open spec fn destroyed(self) -> CredentialsView {
        CredentialsView::empty()
    }

    /// The salt that follows from the username alone: its SHA-256 digest in
    /// lower-case hexadecimal.
    pub open spec fn username_salt(self) -> Seq<char> {
        hex_text(sha256_digest(encode_utf8(self.username)))
    }
}

/// Destroying twice leaves what destroying once leaves, and what is left
/// is no valid set of credentials.
pub proof fn lemma_destroy_idempotent(credentials: CredentialsView)
    ensures
        credentials.destroyed().destroyed() == credentials.destroyed(),
        credentials.destroyed() == CredentialsView::empty(),
        !credentials.destroyed().valid(),
{
}

/// Hexadecimal text of 2 to 32 bytes is a salt in textual form.
pub proof fn lemma_hex_is_salt(bytes: Seq<u8>)
    requires
        2 <= bytes.len() <= 32,
    ensures
        salt_well_formed(hex_text(bytes)),
{
    let text = hex_text(bytes);
    assert forall|i: int| 0 <= i < text.len() implies crate::metadata::is_salt_char(
        #[trigger] text[i],
    ) by {
        let nibble = if i % 2 == 0 {
            bytes[i / 2] / 16
        } else {
            bytes[i / 2] % 16
        };
        assert(nibble < 16);
        assert(text[i] == crate::hex::hex_digit(nibble));
    }
}

/// The credentials needed to encrypt and decrypt an encrypted file
pub struct Credentials {
    username: String,
    password: String,
    confirm_password: String,
}

impl View for Credentials {
    type V = CredentialsView;

    closed spec fn view(&self) -> CredentialsView {
        CredentialsView {
            username: self.username@,
            password: self.password@,
            confirm_password: self.confirm_password@,
        }
    }
}

/// Overwrites the bytes of a string with zeros and empties it, through
/// `zeroize::Zeroize::zeroize`, which writes volatile and clears the buffer:
/// the string is empty afterwards.
#[verifier::external_body]
fn wipe(secret: &mut String)
    ensures
        final(secret)@ == Seq::<char>::empty(),
    opens_invariants none
    no_unwind
{
    secret.zeroize();
}

impl Clone for Credentials {
    fn clone(&self) -> (r: Self)
        ensures
            r@ == self@,
    {
        Credentials {
            username: self.username.clone(),
            password: self.password.clone(),
            confirm_password: self.confirm_password.clone(),
        }
    }
}

impl Default for Credentials {
    fn default() -> (r: Self)
        ensures
            r@ == CredentialsView::empty(),
    {
        Credentials {
            username: String::new(),
            password: String::new(),
            confirm_password: String::new(),
        }
    }
}

impl Drop for Credentials {
    fn drop(&mut self)
        opens_invariants none
        no_unwind
    {
        self.destroy();
    }
}

impl Credentials {
    pub fn new(username: String, password: String, confirm_password: String) -> (r: Self)
        ensures
            r@ == (CredentialsView {
                username: username@,
                password: password@,
                confirm_password: confirm_password@,
            }),
    {
        Self { username, password, confirm_password }
    }

    /// Destroy the credentials by zeroizing the username and password
    pub fn destroy(&mut self)
        ensures
            final(self)@ == old(self)@.destroyed(),
        opens_invariants none
        no_unwind
    {
        wipe(&mut self.username);
        wipe(&mut self.password);
        wipe(&mut self.confirm_password);
    }

    pub fn username(&self) -> (r: &String)
        ensures
            r@ == self@.username,
    {
        &self.username
    }

    pub fn password(&self) -> (r: &String)
        ensures
            r@ == self@.password,
    {
        &self.password
    }

    pub fn confirm_password(&self) -> (r: &String)
        ensures
            r@ == self@.confirm_password,
    {
        &self.confirm_password
    }

    /// Get a mutable reference to the username
    pub fn user_mut(&mut self) -> (r: &mut String)
        ensures
            r@ == old(self)@.username,
            final(self)@ == (CredentialsView { username: final(r)@, ..old(self)@ }),
    {
        &mut self.username
    }

    /// Get a mutable reference to the password
    pub fn passwd_mut(&mut self) -> (r: &mut String)
        ensures
            r@ == old(self)@.password,
            final(self)@ == (CredentialsView { password: final(r)@, ..old(self)@ }),
    {
        &mut self.password
    }

    /// Get a mutable reference to the confirm password
    pub fn confirm_passwd_mut(&mut self) -> (r: &mut String)
        ensures
            r@ == old(self)@.confirm_password,
            final(self)@ == (CredentialsView { confirm_password: final(r)@, ..old(self)@ }),
    {
        &mut self.confirm_password
    }

    /// Copy password to confirm password
    pub fn copy_passwd_to_confirm(&mut self)
        ensures
            final(self)@ == (CredentialsView {
                confirm_password: old(self)@.password,
                ..old(self)@
            }),
    {
        self.confirm_password = self.password.clone();
    }

    /// The salt that follows from the username: the SHA-256 digest of its
    /// UTF-8 bytes, written as 64 hexadecimal characters.
    pub fn generate_saltstring(&self) -> (r: String)
        ensures
            r@ == self@.username_salt(),
            r@.len() == 64,
            salt_well_formed(r@),
    {
        let digest = sha256(self.username.as_str().as_bytes());
        proof {
            lemma_hex_is_salt(digest@);
        }
        hex_lower(digest.as_slice())
    }

    pub fn is_valid(&self) -> (r: Result<(), InvalidCredentials>)
        ensures
            match self@.defect() {
                Some(reason) => r == Err::<(), InvalidCredentials>(reason),
                None => r is Ok,
            },
    {
        if self.username.as_str().is_empty() {
            return Err(InvalidCredentials::EmptyUsername);
        }
        if self.password.as_str().is_empty() {
            return Err(InvalidCredentials::EmptyPassword);
        }
        if self.confirm_password.as_str().is_empty() {
            return Err(InvalidCredentials::EmptyConfirm);
        }
        if self.password != self.confirm_password {
            return Err(InvalidCredentials::PasswordMismatch);
        }
        Ok(())
    }
}

} // verus!
