//! What can be wrong with the data of a user.

use crate::domain::value_objects::email::EmailError;
use crate::domain::value_objects::password_hash::PasswordHashError;
use crate::text::owned;
use crate::domain::value_objects::user_id::UserIdError;
use crate::domain::value_objects::user_name::UserNameError;
use vstd::prelude::*;

verus! {

/// Why the data of a user breaks a rule of the domain.
#[derive(Debug, Clone, PartialEq)]
pub enum UserDomainError {
    InvalidEmail { email: String },
    WeakPassword { message: String },
    EmptyFirstName,
    EmptyLastName,
    InvalidUserId,
    EmailRequired,
    InvalidNameFormat,
}

/// The mathematical content of a [`UserDomainError`].
pub enum UserDomainErrorView {
    InvalidEmail { email: Seq<char> },
    WeakPassword { message: Seq<char> },
    EmptyFirstName,
    EmptyLastName,
    InvalidUserId,
    EmailRequired,
    InvalidNameFormat,
}

impl View for UserDomainError {
    type V = UserDomainErrorView;

    open spec fn view(&self) -> UserDomainErrorView {
        match *self {
            UserDomainError::InvalidEmail { email } => UserDomainErrorView::InvalidEmail {
                email: email@,
            },
            UserDomainError::WeakPassword { message } => UserDomainErrorView::WeakPassword {
                message: message@,
            },
            UserDomainError::EmptyFirstName => UserDomainErrorView::EmptyFirstName,
            UserDomainError::EmptyLastName => UserDomainErrorView::EmptyLastName,
            UserDomainError::InvalidUserId => UserDomainErrorView::InvalidUserId,
            UserDomainError::EmailRequired => UserDomainErrorView::EmailRequired,
            UserDomainError::InvalidNameFormat => UserDomainErrorView::InvalidNameFormat,
        }
    }
}

/// The domain error that an email fault amounts to: a missing address is its own error,
/// every other fault is an invalid address.
pub open spec fn of_email_error(error: EmailError) -> UserDomainErrorView {
    match error {
        EmailError::Empty => UserDomainErrorView::EmailRequired,
        EmailError::TooLong => UserDomainErrorView::InvalidEmail { email: "Email too long"@ },
        EmailError::InvalidFormat => UserDomainErrorView::InvalidEmail {
            email: "Invalid format"@,
        },
    }
}

/// The domain error that a password hash fault amounts to: a weak password, with the
/// fault in words.
pub open spec fn of_password_hash_error(error: PasswordHashError) -> UserDomainErrorView {
    UserDomainErrorView::WeakPassword { message: error.message_spec() }
}

/// The domain error that a name fault amounts to: a missing name is an empty first name,
/// every other fault is a name of the wrong format.
pub open spec fn of_user_name_error(error: UserNameError) -> UserDomainErrorView {
    match error {
        UserNameError::Empty => UserDomainErrorView::EmptyFirstName,
        _ => UserDomainErrorView::InvalidNameFormat,
    }
}

impl UserDomainError {
    /// The domain error that `email_error` amounts to.
    pub fn from_email_error(email_error: EmailError) -> (error: Self)
        ensures
            error@ == of_email_error(email_error),
    {
        match email_error {
            EmailError::Empty => UserDomainError::EmailRequired,
            EmailError::TooLong => UserDomainError::InvalidEmail { email: owned("Email too long") },
            EmailError::InvalidFormat => UserDomainError::InvalidEmail {
                email: owned("Invalid format"),
            },
        }
    }

    /// The domain error that `err` amounts to.
    pub fn from_password_hash_error(err: PasswordHashError) -> (error: Self)
        ensures
            error@ == of_password_hash_error(err),
    {
        UserDomainError::WeakPassword { message: err.message() }
    }

    /// The domain error that any fault of a user identifier amounts to.
    pub fn from_user_id_error(_err: UserIdError) -> (error: Self)
        ensures
            error@ == UserDomainErrorView::InvalidUserId,
    {
        UserDomainError::InvalidUserId
    }

    /// The domain error that `err` amounts to.
    pub fn from_user_name_error(err: UserNameError) -> (error: Self)
        ensures
            error@ == of_user_name_error(err),
    {
        match err {
            UserNameError::Empty => UserDomainError::EmptyFirstName,
            UserNameError::TooShort | UserNameError::TooLong | UserNameError::ContainsNumbers => {
                UserDomainError::InvalidNameFormat
            },
            UserNameError::InvalidCharacters => UserDomainError::InvalidNameFormat,
        }
    }

    /// Whether the error says that data given by the user is not valid: every error but an
    /// invalid user identifier.
    pub fn is_validation_error(&self) -> (validation: bool)
        ensures
            validation == !(self@ is InvalidUserId),
    {
        match self {
            UserDomainError::InvalidEmail { .. }
            | UserDomainError::WeakPassword { .. }
            | UserDomainError::EmptyFirstName
            | UserDomainError::EmptyLastName
            | UserDomainError::EmailRequired
            | UserDomainError::InvalidNameFormat => true,
            UserDomainError::InvalidUserId => false,
        }
    }

    /// The error in words.
    pub fn message(&self) -> (text: String)
        ensures
            text@ == domain_error_message(self@),
    {
        match self {
            UserDomainError::InvalidEmail { email } => {
                let mut text = owned("Invalid email format: ");
                text.append(email.as_str());
                text
            },
            UserDomainError::WeakPassword { message } => {
                let mut text = owned("Password does not meet security requirements: ");
                text.append(message.as_str());
                text
            },
            UserDomainError::EmptyFirstName => owned("First name cannot be empty"),
            UserDomainError::EmptyLastName => owned("Last name cannot be empty"),
            UserDomainError::InvalidUserId => owned("User ID is invalid"),
            UserDomainError::EmailRequired => owned("Email address is required"),
            UserDomainError::InvalidNameFormat => owned("Name contains invalid characters"),
        }
    }
}

/// A domain error in words.
pub open spec fn domain_error_message(error: UserDomainErrorView) -> Seq<char> {
    match error {
        UserDomainErrorView::InvalidEmail { email } => "Invalid email format: "@ + email,
        UserDomainErrorView::WeakPassword {
            message,
        } => "Password does not meet security requirements: "@ + message,
        UserDomainErrorView::EmptyFirstName => "First name cannot be empty"@,
        UserDomainErrorView::EmptyLastName => "Last name cannot be empty"@,
        UserDomainErrorView::InvalidUserId => "User ID is invalid"@,
        UserDomainErrorView::EmailRequired => "Email address is required"@,
        UserDomainErrorView::InvalidNameFormat => "Name contains invalid characters"@,
    }
}

} // verus!
