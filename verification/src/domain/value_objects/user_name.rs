//! Names of users.

use crate::text::{ascii_punctuation, byte_len, byte_length, is_ascii_punctuation, numeric_char, owned, trim, trimmed};
use vstd::prelude::*;

verus! {

/// The shortest name accepted, in bytes.
pub const USER_NAME_MIN_BYTES: usize = 2;

/// The longest name accepted, in bytes.
pub const USER_NAME_MAX_BYTES: usize = 50;

/// Why a text is no name.
#[derive(Debug, Clone, Copy, PartialEq, Eq)]
pub enum UserNameError {
    Empty,
    TooShort,
    TooLong,
    ContainsNumbers,
    InvalidCharacters,
}

impl UserNameError {
    /// The error in words.
    pub open spec fn message_spec(&self) -> Seq<char> {
        match *self {
            UserNameError::Empty => "Name cannot be empty"@,
            UserNameError::TooShort => "Name is too short (min 2 characters)"@,
            UserNameError::TooLong => "Name is too long (max 50 characters)"@,
            UserNameError::ContainsNumbers => "Name cannot contain numbers"@,
            UserNameError::InvalidCharacters => "Name contains invalid characters"@,
        }
    }

    /// The error in words.
    pub fn message(&self) -> (text: String)
        ensures
            text@ == self.message_spec(),
    {
        match self {
            UserNameError::Empty => owned("Name cannot be empty"),
            UserNameError::TooShort => owned("Name is too short (min 2 characters)"),
            UserNameError::TooLong => owned("Name is too long (max 50 characters)"),
            UserNameError::ContainsNumbers => owned("Name cannot contain numbers"),
            UserNameError::InvalidCharacters => owned("Name contains invalid characters"),
        }
    }
}

/// Whether `c` is punctuation that a name may not hold: any ASCII punctuation but the
/// hyphen and the apostrophe.
pub open spec fn is_forbidden_punctuation(c: char) -> bool {
    is_ascii_punctuation(c) && c != '-' && c != '\''
}

/// Whether some character of `name` is numeric.
pub open spec fn has_numeric(name: Seq<char>) -> bool {
    exists|i: int| 0 <= i < name.len() && numeric_char(#[trigger] name[i])
}

/// Whether some character of `name` is punctuation that a name may not hold.
pub open spec fn has_forbidden_punctuation(name: Seq<char>) -> bool {
    exists|i: int| 0 <= i < name.len() && is_forbidden_punctuation(#[trigger] name[i])
}

/// What is wrong with the trimmed name `name`, if anything.
pub open spec fn user_name_fault(name: Seq<char>) -> Option<UserNameError> {
    if name.len() == 0 {
        Some(UserNameError::Empty)
    } else if byte_len(name) < USER_NAME_MIN_BYTES {
        Some(UserNameError::TooShort)
    } else if byte_len(name) > USER_NAME_MAX_BYTES {
        Some(UserNameError::TooLong)
    } else if has_numeric(name) {
        Some(UserNameError::ContainsNumbers)
    } else if has_forbidden_punctuation(name) {
        Some(UserNameError::InvalidCharacters)
    } else {
        None
    }
}

/// A first or last name.
#[derive(Debug, Clone, PartialEq, Eq)]
pub struct UserName(String);

impl View for UserName {
    type V = Seq<char>;

    closed spec fn view(&self) -> Seq<char> {
        self.0@
    }
}

/// Whether some character of `name` is numeric.
fn contains_numeric(name: &str) -> (found: bool)
    ensures
        found == has_numeric(name@),
{
    let mut found = false;
    for c in it: name.chars()
        invariant
            it.seq() == name@,
            found == exists|i: int| 0 <= i < it.index() && numeric_char(#[trigger] name@[i]),
    {
        if c.is_numeric() {
            found = true;
        }
    }
    found
}

/// Whether some character of `name` is punctuation that a name may not hold.
fn contains_forbidden_punctuation(name: &str) -> (found: bool)
    ensures
        found == has_forbidden_punctuation(name@),
{
    let mut found = false;
    for c in it: name.chars()
        invariant
            it.seq() == name@,
            found == exists|i: int|
                0 <= i < it.index() && is_forbidden_punctuation(#[trigger] name@[i]),
    {
        if ascii_punctuation(c) && c != '-' && c != '\'' && c != ' ' {
            found = true;
        }
    }
    found
}

impl UserName {
    /// Whether the name is one that [`UserName::new`] accepts.
    pub open spec fn wf(&self) -> bool {
        user_name_fault(self@) is None
    }

    /// The name that `name` gives once it is trimmed, unless something is wrong with it.
    pub fn new(name: &str) -> (result: Result<Self, UserNameError>)
        ensures
            match user_name_fault(trimmed(name@)) {
                Some(fault) => result == Err::<Self, UserNameError>(fault),
                None => result matches Ok(accepted) && accepted@ == trimmed(name@)
                    && accepted.wf(),
            },
    {
        let name = trim(name);
        if name.as_str().is_empty() {
            return Err(UserNameError::Empty);
        }
        let length = byte_length(name.as_str());
        if length < USER_NAME_MIN_BYTES {
            return Err(UserNameError::TooShort);
        }
        if length > USER_NAME_MAX_BYTES {
            return Err(UserNameError::TooLong);
        }
        if contains_numeric(name.as_str()) {
            return Err(UserNameError::ContainsNumbers);
        }
        if contains_forbidden_punctuation(name.as_str()) {
            return Err(UserNameError::InvalidCharacters);
        }
        Ok(UserName(name))
    }

    /// The name as text.
    pub fn as_str(&self) -> (text: &str)
        ensures
            text@ == self@,
    {
        self.0.as_str()
    }

    /// The name as an owned string.
    pub fn to_string(&self) -> (text: String)
        ensures
            text@ == self@,
    {
        self.0.clone()
    }
}

} // verus!
