//! What a caller of the codec needs, in one import.

pub use crate::credentials::{Credentials, InvalidCredentials};
pub use crate::decrypt::decrypt_data;
pub use crate::encrypt::encrypt_data;
pub use crate::error::{CryptError, KdfError};
pub use crate::metadata::EncryptedInfo;
pub use crate::params::Argon2Params;
