//! What the file panel decides without touching a file: where the output of
//! an encryption or a decryption goes, and what the message window shows.

use vstd::prelude::*;
use vstd::string::StringExecFns;
use crate::trailer::{replace_text, text_replaced};

verus! {

/// What the path of a container ends in.
pub const FILE_EXTENSION: &'static str = ".ncrypt";

/// Where the container of a file goes: beside it, under its path with
/// `FILE_EXTENSION` added.
pub fn encrypted_file_path(file_path: &str) -> (r: String)
    ensures
        r@ == file_path@ + FILE_EXTENSION@,
{
    String::from_str(file_path).concat(FILE_EXTENSION)
}

/// Where the plaintext of a container goes: under its path with
/// `FILE_EXTENSION` taken out.
pub fn decrypted_file_path(file_path: &str) -> (r: String)
    ensures
        r@ == text_replaced(file_path@, FILE_EXTENSION@, Seq::empty()),
{
    proof {
        reveal_strlit("");
        assert(""@ =~= Seq::<char>::empty());
    }
    replace_text(file_path, FILE_EXTENSION, "")
}

/// The message window: whether it is shown, and its text.
#[derive(Debug)]
pub struct WindowMsg {
    pub open: bool,
    pub message: String,
    pub title: String,
}

impl Default for WindowMsg {
    fn default() -> (r: Self)
        ensures
            !r.open,
            r.message@ == Seq::<char>::empty(),
            r.title@ == Seq::<char>::empty(),
    {
        Self { open: false, message: String::new(), title: String::new() }
    }
}

impl WindowMsg {
    /// Shows a message under the title that the window has.
    pub fn progress(&mut self, message: &str)
        ensures
            final(self).open,
            final(self).message@ == message@,
            final(self).title@ == old(self).title@,
    {
        self.open = true;
        self.message = String::from_str(message);
    }

    /// Shows a message under a title.
    pub fn report(&mut self, title: &str, message: &str)
        ensures
            final(self).open,
            final(self).message@ == message@,
            final(self).title@ == title@,
    {
        self.open = true;
        self.title = String::from_str(title);
        self.message = String::from_str(message);
    }

    /// Closes the window; its text stays.
    pub fn dismiss(&mut self)
        ensures
            !final(self).open,
            final(self).message@ == old(self).message@,
            final(self).title@ == old(self).title@,
    {
        self.open = false;
    }
}

} // verus!
