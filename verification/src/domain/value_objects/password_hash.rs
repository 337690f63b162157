//! Password hashes.

use crate::text::{byte_len, byte_length, owned, starts_with, trim, trimmed};
use vstd::prelude::*;

verus! {

/// The shortest password hash accepted, in bytes.
pub const PASSWORD_HASH_MIN_BYTES: usize = 8;

/// The longest password hash accepted, in bytes.
pub const PASSWORD_HASH_MAX_BYTES: usize = 255;

/// Why a text is no password hash.
#[derive(Debug, Clone, Copy, PartialEq, Eq)]
pub enum PasswordHashError {
    Empty,
    TooShort,
    TooLong,
    InvalidFormat,
}

impl PasswordHashError {
    /// The error in words.
    pub open spec fn message_spec(&self) -> Seq<char> {
        match *self {
            PasswordHashError::Empty => "Password hash cannot be empty"@,
            PasswordHashError::TooShort => "Password hash is too short"@,
            PasswordHashError::TooLong => "Password hash is too long (max 255 characters)"@,
            PasswordHashError::InvalidFormat => "Invalid password hash format"@,
        }
    }

    /// The error in words.
    pub fn message(&self) -> (text: String)
        ensures
            text@ == self.message_spec(),
    {
        match self {
            PasswordHashError::Empty => owned("Password hash cannot be empty"),
            PasswordHashError::TooShort => owned("Password hash is too short"),
            PasswordHashError::TooLong => owned("Password hash is too long (max 255 characters)"),
            PasswordHashError::InvalidFormat => owned("Invalid password hash format"),
        }
    }
}

/// What is wrong with `hash` as a password hash, if anything: it must hold more than
/// whitespace, take between 8 and 255 bytes, and begin as a bcrypt hash does.
pub open spec fn password_hash_fault(hash: Seq<char>) -> Option<PasswordHashError> {
    if trimmed(hash).len() == 0 {
        Some(PasswordHashError::Empty)
    } else if byte_len(hash) < PASSWORD_HASH_MIN_BYTES {
        Some(PasswordHashError::TooShort)
    } else if byte_len(hash) > PASSWORD_HASH_MAX_BYTES {
        Some(PasswordHashError::TooLong)
    } else if !"$2"@.is_prefix_of(hash) {
        Some(PasswordHashError::InvalidFormat)
    } else {
        None
    }
}

/// The bcrypt hash of a password.
#[derive(Debug, Clone)]
pub struct PasswordHash(String);

impl View for PasswordHash {
    type V = Seq<char>;

    closed spec fn view(&self) -> Seq<char> {
        self.0@
    }
}

impl PasswordHash {
    /// Whether the hash is one that [`PasswordHash::new`] accepts.
    pub open spec fn wf(&self) -> bool {
        password_hash_fault(self@) is None
    }

    /// The password hash that `hash` is, unless something is wrong with it.
    pub fn new(hash: String) -> (result: Result<Self, PasswordHashError>)
        ensures
            match password_hash_fault(hash@) {
                Some(fault) => result == Err::<Self, PasswordHashError>(fault),
                None => result matches Ok(accepted) && accepted@ == hash@ && accepted.wf(),
            },
    {
        if trim(hash.as_str()).as_str().is_empty() {
            return Err(PasswordHashError::Empty);
        }
        let length = byte_length(hash.as_str());
        if length < PASSWORD_HASH_MIN_BYTES {
            return Err(PasswordHashError::TooShort);
        }
        if length > PASSWORD_HASH_MAX_BYTES {
            return Err(PasswordHashError::TooLong);
        }
        if !starts_with(hash.as_str(), "$2") {
            return Err(PasswordHashError::InvalidFormat);
        }
        Ok(PasswordHash(hash))
    }

    /// The hash as text.
    pub fn as_str(&self) -> (text: &str)
        ensures
            text@ == self@,
    {
        self.0.as_str()
    }

    /// What stands for the hash wherever it would be shown: never the hash itself.
    pub fn to_string(&self) -> (text: String)
        ensures
            text@ == "[REDACTED]"@,
    {
        owned("[REDACTED]")
    }
}

} // verus!
