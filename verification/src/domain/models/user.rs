//! Users, and what is exchanged with clients about them.

use crate::domain::errors::user_errors::{
    of_email_error, of_password_hash_error, of_user_name_error, UserDomainError,
    UserDomainErrorView,
};
use crate::domain::value_objects::email::{email_fault, normalize};
use crate::domain::value_objects::password_hash::password_hash_fault;
use crate::text::{owned, trimmed};
use crate::domain::value_objects::user_id::{is_uuid_char, user_id_fault, UserIdError};
use crate::domain::value_objects::user_name::{user_name_fault, UserNameError};
use crate::domain::value_objects::email::EmailError;
use crate::domain::value_objects::password_hash::PasswordHashError;
use crate::domain::value_objects::{Email, PasswordHash, UserId, UserName};
use crate::infrastructure::clock::wall_clock_now;
use vstd::prelude::*;

verus! {

/// A registered user.
#[derive(Debug, Clone)]
pub struct User {
    id: UserId,
    email: Email,
    password_hash: PasswordHash,
    first_name: UserName,
    last_name: UserName,
    created_at: i64,
    updated_at: i64,
}

/// The mathematical content of a [`User`]; the times are milliseconds since the Unix epoch.
pub struct UserView {
    pub id: Seq<char>,
    pub email: Seq<char>,
    pub password_hash: Seq<char>,
    pub first_name: Seq<char>,
    pub last_name: Seq<char>,
    pub created_at: i64,
    pub updated_at: i64,
}

impl View for User {
    type V = UserView;

    closed spec fn view(&self) -> UserView {
        UserView {
            id: self.id@,
            email: self.email@,
            password_hash: self.password_hash@,
            first_name: self.first_name@,
            last_name: self.last_name@,
            created_at: self.created_at,
            updated_at: self.updated_at,
        }
    }
}

/// What is wrong with the data given for a new user, if anything: the first fault found
/// when the email, the password hash, the first name and the last name are looked at in
/// this order.
pub open spec fn new_user_fault(
    email: Seq<char>,
    password_hash: Seq<char>,
    first_name: Seq<char>,
    last_name: Seq<char>,
) -> Option<UserDomainErrorView> {
    if let Some(fault) = email_fault(normalize(email)) {
        Some(of_email_error(fault))
    } else if let Some(fault) = password_hash_fault(password_hash) {
        Some(of_password_hash_error(fault))
    } else if let Some(fault) = user_name_fault(trimmed(first_name)) {
        Some(of_user_name_error(fault))
    } else if let Some(fault) = user_name_fault(trimmed(last_name)) {
        Some(of_user_name_error(fault))
    } else {
        None
    }
}

/// What is wrong with the parts of a stored user, if anything: the fault of the identifier,
/// or else what [`new_user_fault`] finds.
pub open spec fn restored_user_fault(
    id: Seq<char>,
    email: Seq<char>,
    password_hash: Seq<char>,
    first_name: Seq<char>,
    last_name: Seq<char>,
) -> Option<UserDomainErrorView> {
    if user_id_fault(id) is Some {
        Some(UserDomainErrorView::InvalidUserId)
    } else {
        new_user_fault(email, password_hash, first_name, last_name)
    }
}

impl User {
    /// Whether every part of the user is valid.
    pub closed spec fn wf(&self) -> bool {
        &&& self.id.wf()
        &&& self.email.wf()
        &&& self.password_hash.wf()
        &&& self.first_name.wf()
        &&& self.last_name.wf()
    }

    /// The user with the identifier `id` and the data given, created at `now`, unless
    /// something is wrong with the data.
    pub fn new_at(
        id: UserId,
        email: &str,
        password_hash: String,
        first_name: &str,
        last_name: &str,
        now: i64,
    ) -> (result: Result<Self, UserDomainError>)
        requires
            id.wf(),
        ensures
            match new_user_fault(email@, password_hash@, first_name@, last_name@) {
                Some(fault) => result matches Err(error) && error@ == fault,
                None => result matches Ok(user) && user.wf() && user@ == (UserView {
                    id: id@,
                    email: normalize(email@),
                    password_hash: password_hash@,
                    first_name: trimmed(first_name@),
                    last_name: trimmed(last_name@),
                    created_at: now,
                    updated_at: now,
                }),
            },
    {
        let email = match Email::new(email) {
            Ok(email) => email,
            Err(fault) => {
                return Err(UserDomainError::from_email_error(fault));
            },
        };
        let password_hash = match PasswordHash::new(password_hash) {
            Ok(password_hash) => password_hash,
            Err(fault) => {
                return Err(UserDomainError::from_password_hash_error(fault));
            },
        };
        let first_name = match UserName::new(first_name) {
            Ok(first_name) => first_name,
            Err(fault) => {
                return Err(UserDomainError::from_user_name_error(fault));
            },
        };
        let last_name = match UserName::new(last_name) {
            Ok(last_name) => last_name,
            Err(fault) => {
                return Err(UserDomainError::from_user_name_error(fault));
            },
        };
        Ok(User { id, email, password_hash, first_name, last_name, created_at: now, updated_at: now })
    }

    /// The user that was stored with the parts given, unless something is wrong with one of
    /// them: first the identifier is looked at, then the rest as for a new user.
    pub fn restore(
        id: String,
        email: &str,
        password_hash: String,
        first_name: &str,
        last_name: &str,
        created_at: i64,
        updated_at: i64,
    ) -> (result: Result<Self, UserDomainError>)
        ensures
            match restored_user_fault(id@, email@, password_hash@, first_name@, last_name@) {
                Some(fault) => result matches Err(error) && error@ == fault,
                None => result matches Ok(user) && user.wf() && user@ == (UserView {
                    id: id@,
                    email: normalize(email@),
                    password_hash: password_hash@,
                    first_name: trimmed(first_name@),
                    last_name: trimmed(last_name@),
                    created_at,
                    updated_at,
                }),
            },
    {
        let id = match UserId::new(id) {
            Ok(id) => id,
            Err(fault) => {
                return Err(UserDomainError::from_user_id_error(fault));
            },
        };
        match Self::new_at(id, email, password_hash, first_name, last_name, created_at) {
            Ok(user) => Ok(
                User {
                    id: user.id,
                    email: user.email,
                    password_hash: user.password_hash,
                    first_name: user.first_name,
                    last_name: user.last_name,
                    created_at,
                    updated_at,
                },
            ),
            Err(error) => Err(error),
        }
    }

    /// A new user with a fresh identifier, created now, unless something is wrong with the
    /// data; see [`User::new_at`].
    pub fn new(email: &str, password_hash: String, first_name: &str, last_name: &str) -> (result:
        Result<Self, UserDomainError>)
        ensures
            match new_user_fault(email@, password_hash@, first_name@, last_name@) {
                Some(fault) => result matches Err(error) && error@ == fault,
                None => result matches Ok(user) && user.wf() && user@.email == normalize(email@)
                    && user@.password_hash == password_hash@ && user@.first_name == trimmed(
                    first_name@,
                ) && user@.last_name == trimmed(last_name@) && user@.created_at
                    == user@.updated_at && user@.id.len() == 36 && forall|i: int|
                    0 <= i < 36 ==> is_uuid_char(#[trigger] user@.id[i]),
            },
    {
        let now = wall_clock_now();
        Self::new_at(UserId::generate(), email, password_hash, first_name, last_name, now.millis)
    }

    pub fn email(&self) -> (email: &Email)
        ensures
            email@ == self@.email,
    {
        &self.email
    }

    pub fn id(&self) -> (id: &UserId)
        ensures
            id@ == self@.id,
    {
        &self.id
    }

    pub fn first_name(&self) -> (first_name: &UserName)
        ensures
            first_name@ == self@.first_name,
    {
        &self.first_name
    }

    pub fn last_name(&self) -> (last_name: &UserName)
        ensures
            last_name@ == self@.last_name,
    {
        &self.last_name
    }

    pub fn password_hash(&self) -> (password_hash: &PasswordHash)
        ensures
            password_hash@ == self@.password_hash,
    {
        &self.password_hash
    }

    /// When the user was created, in milliseconds since the Unix epoch.
    pub fn created_at(&self) -> (millis: i64)
        ensures
            millis == self@.created_at,
    {
        self.created_at
    }

    /// When the user was last changed, in milliseconds since the Unix epoch.
    pub fn updated_at(&self) -> (millis: i64)
        ensures
            millis == self@.updated_at,
    {
        self.updated_at
    }
}

/// What a client sends to register.
#[derive(Debug, Clone)]
pub struct CreateUserRequest {
    pub email: String,
    pub password: String,
    pub first_name: String,
    pub last_name: String,
}

/// What a client sends to log in.
#[derive(Debug, Clone)]
pub struct LoginRequest {
    pub email: String,
    pub password: String,
}

/// What a client gets once it is authenticated.
#[derive(Debug)]
pub struct AuthResponse {
    pub access_token: String,
    pub refresh_token: String,
    pub token_type: String,
    pub expires_in: u64,
    pub user: UserProfile,
}

/// What a client sends for new tokens.
#[derive(Debug)]
pub struct RefreshTokenRequest {
    pub refresh_token: String,
}

/// The new tokens.
#[derive(Debug)]
pub struct RefreshTokenResponse {
    pub access_token: String,
    pub refresh_token: String,
    pub token_type: String,
    pub expires_in: u64,
}

/// What of a user is shown to clients.
#[derive(Debug, Clone)]
pub struct UserProfile {
    pub id: String,
    pub email: String,
    pub first_name: String,
    pub last_name: String,
}

impl UserProfile {
    /// The profile of `user`.
    pub fn from_user(user: &User) -> (profile: Self)
        ensures
            profile.id@ == user@.id,
            profile.email@ == user@.email,
            profile.first_name@ == user@.first_name,
            profile.last_name@ == user@.last_name,
    {
        UserProfile {
            id: user.id().to_string(),
            email: user.email().to_string(),
            first_name: user.first_name().to_string(),
            last_name: user.last_name().to_string(),
        }
    }
}

/// Which part of a new user is not valid, and why.
#[derive(Debug, Clone, Copy, PartialEq, Eq)]
pub enum UserCreationError {
    InvalidUserId(UserIdError),
    InvalidEmail(EmailError),
    InvalidPasswordHash(PasswordHashError),
    InvalidFirstName(UserNameError),
    InvalidLastName(UserNameError),
}

/// Which part of a changed user is not valid, and why.
#[derive(Debug, Clone, Copy, PartialEq, Eq)]
pub enum UserUpdateError {
    InvalidEmail(EmailError),
    InvalidPasswordHash(PasswordHashError),
    InvalidFirstName(UserNameError),
    InvalidLastName(UserNameError),
}

/// Why a request to create a user was turned down.
#[derive(Debug, Clone, PartialEq, Eq)]
pub enum UserCreationRequestError {
    EmailRequired,
    InvalidEmail,
    InvalidPassword,
    FirstNameRequired,
    LastNameRequired,
    PasswordHashingFailed(String),
    UserCreationFailed(UserCreationError),
}

impl UserCreationError {
    /// The error in words: the part, then what is wrong with it.
    pub fn message(&self) -> (text: String)
        ensures
            text@ == match *self {
                UserCreationError::InvalidUserId(e) => "Invalid user ID: "@ + e.message_spec(),
                UserCreationError::InvalidEmail(e) => "Invalid email: "@ + e.message_spec(),
                UserCreationError::InvalidPasswordHash(e) => "Invalid password hash: "@
                    + e.message_spec(),
                UserCreationError::InvalidFirstName(e) => "Invalid first name: "@
                    + e.message_spec(),
                UserCreationError::InvalidLastName(e) => "Invalid last name: "@ + e.message_spec(),
            },
    {
        match self {
            UserCreationError::InvalidUserId(e) => labelled("Invalid user ID: ", e.message()),
            UserCreationError::InvalidEmail(e) => labelled("Invalid email: ", e.message()),
            UserCreationError::InvalidPasswordHash(e) => labelled(
                "Invalid password hash: ",
                e.message(),
            ),
            UserCreationError::InvalidFirstName(e) => labelled("Invalid first name: ", e.message()),
            UserCreationError::InvalidLastName(e) => labelled("Invalid last name: ", e.message()),
        }
    }
}

impl UserUpdateError {
    /// The error in words: the part, then what is wrong with it.
    pub fn message(&self) -> (text: String)
        ensures
            text@ == match *self {
                UserUpdateError::InvalidEmail(e) => "Invalid email: "@ + e.message_spec(),
                UserUpdateError::InvalidPasswordHash(e) => "Invalid password hash: "@
                    + e.message_spec(),
                UserUpdateError::InvalidFirstName(e) => "Invalid first name: "@ + e.message_spec(),
                UserUpdateError::InvalidLastName(e) => "Invalid last name: "@ + e.message_spec(),
            },
    {
        match self {
            UserUpdateError::InvalidEmail(e) => labelled("Invalid email: ", e.message()),
            UserUpdateError::InvalidPasswordHash(e) => labelled(
                "Invalid password hash: ",
                e.message(),
            ),
            UserUpdateError::InvalidFirstName(e) => labelled("Invalid first name: ", e.message()),
            UserUpdateError::InvalidLastName(e) => labelled("Invalid last name: ", e.message()),
        }
    }
}

impl UserCreationRequestError {
    /// The request error that stands for a creation error.
    pub fn from_creation_error(error: UserCreationError) -> (wrapped: Self)
        ensures
            wrapped == UserCreationRequestError::UserCreationFailed(error),
    {
        UserCreationRequestError::UserCreationFailed(error)
    }
}

/// `label` followed by `detail`.
fn labelled(label: &str, detail: String) -> (text: String)
    ensures
        text@ == label@ + detail@,
{
    let mut text = owned(label);
    text.append(detail.as_str());
    text
}

} // verus!
