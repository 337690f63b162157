//! User identifiers.

use crate::text::{byte_len, byte_length, is_white_space, owned, trim, trim_end, trim_start, trimmed};
use vstd::prelude::*;

verus! {

/// The longest user identifier accepted, in bytes.
pub const USER_ID_MAX_BYTES: usize = 36;

/// Why a text is no user identifier.
#[derive(Debug, Clone, Copy, PartialEq, Eq)]
pub enum UserIdError {
    Empty,
    TooLong,
}

impl UserIdError {
    /// The error in words.
    pub open spec fn message_spec(&self) -> Seq<char> {
        match *self {
            UserIdError::Empty => "User ID cannot be empty"@,
            UserIdError::TooLong => "User ID is too long (max 36 characters)"@,
        }
    }

    /// The error in words.
    pub fn message(&self) -> (text: String)
        ensures
            text@ == self.message_spec(),
    {
        match self {
            UserIdError::Empty => owned("User ID cannot be empty"),
            UserIdError::TooLong => owned("User ID is too long (max 36 characters)"),
        }
    }
}

/// What is wrong with `id` as a user identifier, if anything: it must hold more than
/// whitespace and take at most 36 bytes.
pub open spec fn user_id_fault(id: Seq<char>) -> Option<UserIdError> {
    if trimmed(id).len() == 0 {
        Some(UserIdError::Empty)
    } else if byte_len(id) > USER_ID_MAX_BYTES {
        Some(UserIdError::TooLong)
    } else {
        None
    }
}

/// Whether `c` may occur in the hyphenated form of a UUID.
pub open spec fn is_uuid_char(c: char) -> bool {
    '0' <= c <= '9' || 'a' <= c <= 'f' || c == '-'
}

/// Calls `uuid::Uuid::new_v4` for a random UUID and writes it out through its `Display`
/// impl, which gives the hyphenated form: 36 characters, each a lower-case hexadecimal
/// digit or a hyphen. Which UUID comes is left open.
#[verifier::external_body]
fn random_uuid_text() -> (text: String)
    ensures
        text@.len() == 36,
        forall|i: int| 0 <= i < 36 ==> is_uuid_char(#[trigger] text@[i]),
{
    uuid::Uuid::new_v4().to_string()
}

/// Names a user.
#[derive(Debug, Clone, PartialEq, Eq, Hash)]
pub struct UserId(String);

impl View for UserId {
    type V = Seq<char>;

    closed spec fn view(&self) -> Seq<char> {
        self.0@
    }
}

impl UserId {
    /// Whether the identifier is one that [`UserId::new`] accepts.
    pub open spec fn wf(&self) -> bool {
        user_id_fault(self@) is None
    }

    /// The user identifier that `id` is, unless something is wrong with it.
    pub fn new(id: String) -> (result: Result<Self, UserIdError>)
        ensures
            match user_id_fault(id@) {
                Some(fault) => result == Err::<Self, UserIdError>(fault),
                None => result matches Ok(accepted) && accepted@ == id@ && accepted.wf(),
            },
    {
        if trim(id.as_str()).as_str().is_empty() {
            return Err(UserIdError::Empty);
        }
        if byte_length(id.as_str()) > USER_ID_MAX_BYTES {
            return Err(UserIdError::TooLong);
        }
        Ok(UserId(id))
    }

    /// A fresh identifier: a random UUID in its hyphenated form.
    pub fn generate() -> (id: Self)
        ensures
            id.wf(),
            id@.len() == 36,
            forall|i: int| 0 <= i < 36 ==> is_uuid_char(#[trigger] id@[i]),
    {
        let text = random_uuid_text();
        proof {
            lemma_uuid_text_is_valid(text@);
        }
        UserId(text)
    }

    /// The identifier as text.
    pub fn as_str(&self) -> (text: &str)
        ensures
            text@ == self@,
    {
        self.0.as_str()
    }

    /// The identifier as an owned string.
    pub fn to_string(&self) -> (text: String)
        ensures
            text@ == self@,
    {
        self.0.clone()
    }
}

/// The hyphenated form of a UUID is a valid user identifier.
proof fn lemma_uuid_text_is_valid(text: Seq<char>)
    requires
        text.len() == 36,
        forall|i: int| 0 <= i < 36 ==> is_uuid_char(#[trigger] text[i]),
    ensures
        user_id_fault(text) is None,
{
    assert(is_uuid_char(text[0]));
    assert(!is_white_space(text[0]));
    assert(trim_start(text) == text);
    assert(is_uuid_char(text[35]));
    assert(!is_white_space(text.last()));
    assert(trim_end(text) == text);
    assert(vstd::utf8::is_ascii_chars(text)) by {
        assert forall|i: int| 0 <= i < text.len() implies '\0' <= #[trigger] text[i]
            <= '\u{7f}' by {
            assert(is_uuid_char(text[i]));
        }
    }
    vstd::utf8::is_ascii_chars_encode_utf8(text);
}

} // verus!
