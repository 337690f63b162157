//! Email addresses.

use crate::text::{byte_len, byte_length, lowercase, owned, trim, trimmed};
use vstd::prelude::*;

verus! {

/// The pattern an email address has to match.
pub const EMAIL_PATTERN: &'static str = r"^[a-zA-Z0-9._%+-]+@[a-zA-Z0-9.-]+\.[a-zA-Z]{2,}$";

/// The longest email address accepted, in bytes.
pub const EMAIL_MAX_BYTES: usize = 254;

/// What `regex::Regex::is_match` answers for `text` once `regex::Regex::new` has compiled
/// `pattern`; nothing where `pattern` does not compile.
pub uninterp spec fn regex_match(pattern: Seq<char>, text: Seq<char>) -> Option<bool>;

/// Compiles `pattern` with `regex::Regex::new` and asks `Regex::is_match` whether it
/// matches somewhere in `text`. Both are functions of their arguments alone; the contract
/// gives the answer a name and claims nothing more of it.
#[verifier::external_body]
fn pattern_matches(pattern: &str, text: &str) -> (found: Option<bool>)
    ensures
        found == regex_match(pattern@, text@),
{
    match regex::Regex::new(pattern) {
        Ok(compiled) => Some(compiled.is_match(text)),
        Err(_) => None,
    }
}

/// Why a text is no email address.
#[derive(Debug, Clone, Copy, PartialEq, Eq)]
pub enum EmailError {
    Empty,
    TooLong,
    InvalidFormat,
}

impl EmailError {
    /// The error in words.
    pub open spec fn message_spec(&self) -> Seq<char> {
        match *self {
            EmailError::Empty => "Email cannot be empty"@,
            EmailError::TooLong => "Email is too long (max 254 characters)"@,
            EmailError::InvalidFormat => "Invalid email format"@,
        }
    }

    /// The error in words.
    pub fn message(&self) -> (text: String)
        ensures
            text@ == self.message_spec(),
    {
        match self {
            EmailError::Empty => owned("Email cannot be empty"),
            EmailError::TooLong => owned("Email is too long (max 254 characters)"),
            EmailError::InvalidFormat => owned("Invalid email format"),
        }
    }
}

/// The form in which an address is kept: without surrounding whitespace, in lower case.
pub open spec fn normalize(raw: Seq<char>) -> Seq<char> {
    lowercase(trimmed(raw))
}

/// Whether `email` matches [`EMAIL_PATTERN`].
pub open spec fn has_email_format(email: Seq<char>) -> bool {
    regex_match(EMAIL_PATTERN@, email) == Some(true)
}

/// What is wrong with the normalized address `email`, if anything.
pub open spec fn email_fault(email: Seq<char>) -> Option<EmailError> {
    if email.len() == 0 {
        Some(EmailError::Empty)
    } else if byte_len(email) > EMAIL_MAX_BYTES {
        Some(EmailError::TooLong)
    } else if !has_email_format(email) {
        Some(EmailError::InvalidFormat)
    } else {
        None
    }
}

/// An email address: normalized, not empty, of at most 254 bytes and of the right format.
#[derive(Debug, Clone, PartialEq, Eq)]
pub struct Email(String);

impl View for Email {
    type V = Seq<char>;

    closed spec fn view(&self) -> Seq<char> {
        self.0@
    }
}

impl Email {
    /// Whether the address is one that [`Email::new`] accepts.
    pub open spec fn wf(&self) -> bool {
        email_fault(self@) is None
    }

    /// The address for the normalized text `email`, given whether it matches
    /// [`EMAIL_PATTERN`].
    pub fn checked(email: String, well_formed: bool) -> (result: Result<Self, EmailError>)
        requires
            well_formed == has_email_format(email@),
        ensures
            match email_fault(email@) {
                Some(fault) => result == Err::<Self, EmailError>(fault),
                None => result matches Ok(accepted) && accepted@ == email@ && accepted.wf(),
            },
    {
        if email.as_str().is_empty() {
            return Err(EmailError::Empty);
        }
        if byte_length(email.as_str()) > EMAIL_MAX_BYTES {
            return Err(EmailError::TooLong);
        }
        if !well_formed {
            return Err(EmailError::InvalidFormat);
        }
        Ok(Email(email))
    }

    /// The address that `email` gives once it is trimmed and put in lower case.
    pub fn new(email: &str) -> (result: Result<Self, EmailError>)
        ensures
            match email_fault(normalize(email@)) {
                Some(fault) => result == Err::<Self, EmailError>(fault),
                None => result matches Ok(accepted) && accepted@ == normalize(email@)
                    && accepted.wf(),
            },
    {
        let email = trim(email).as_str().to_lowercase();
        let well_formed = Self::is_valid_format(email.as_str());
        Self::checked(email, well_formed)
    }

    /// The address as text.
    pub fn as_str(&self) -> (text: &str)
        ensures
            text@ == self@,
    {
        self.0.as_str()
    }

    /// The address as an owned string.
    pub fn to_string(&self) -> (text: String)
        ensures
            text@ == self@,
    {
        self.0.clone()
    }

    /// Whether `email` matches [`EMAIL_PATTERN`].
    fn is_valid_format(email: &str) -> (valid: bool)
        ensures
            valid == has_email_format(email@),
    {
        match pattern_matches(EMAIL_PATTERN, email) {
            Some(found) => found,
            None => false,
        }
    }
}

} // verus!
