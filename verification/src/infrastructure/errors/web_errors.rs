//! How a failure is shown to a client of the web interface.

use crate::application::errors::user_service_errors::UserServiceError;
use crate::domain::errors::user_errors::domain_error_message;
use crate::text::owned;
use vstd::prelude::*;

verus! {

/// Why a request to the web interface failed.
#[derive(Debug, Clone, PartialEq)]
pub enum WebError {
    UserService { source: UserServiceError },
    InvalidRequest { message: String },
    MissingAuth,
    InvalidToken,
    Timeout,
}

/// The HTTP status for `error`.
pub open spec fn status_of(error: WebError) -> u16 {
    match error {
        WebError::UserService { source } => match source {
            UserServiceError::UserAlreadyExists { .. } => 409,
            UserServiceError::UserNotFound { .. } => 404,
            UserServiceError::InvalidCredentials => 401,
            UserServiceError::DomainValidation { .. } => 400,
            UserServiceError::ServiceUnavailable => 503,
            _ => 500,
        },
        WebError::InvalidRequest { .. } => 400,
        WebError::MissingAuth => 401,
        WebError::InvalidToken => 401,
        WebError::Timeout => 408,
    }
}

/// What the client is told of `error`. An unknown user and a wrong password read the
/// same, and what went wrong inside the service is not told.
pub open spec fn user_message_of(error: WebError) -> Seq<char> {
    match error {
        WebError::UserService { source } => match source {
            UserServiceError::UserAlreadyExists {
                ..
            } => "An account with this email already exists"@,
            UserServiceError::UserNotFound { .. } => "Invalid email or password"@,
            UserServiceError::InvalidCredentials => "Invalid email or password"@,
            UserServiceError::DomainValidation { source } => domain_error_message(source@),
            UserServiceError::ServiceUnavailable => "Service temporarily unavailable. Please try again later"@,
            _ => "An error occurred. Please try again"@,
        },
        WebError::InvalidRequest { message } => message@,
        WebError::MissingAuth => "Authentication required"@,
        WebError::InvalidToken => "Invalid authentication token"@,
        WebError::Timeout => "Request timed out. Please try again"@,
    }
}

impl WebError {
    /// The web error that stands for an error of the user service.
    pub fn from_user_service_error(source: UserServiceError) -> (error: Self)
        ensures
            error == (WebError::UserService { source }),
    {
        WebError::UserService { source }
    }

    /// The HTTP status to answer with.
    pub fn to_status_code(&self) -> (status: u16)
        ensures
            status == status_of(*self),
    {
        match self {
            WebError::UserService { source } => match source {
                UserServiceError::UserAlreadyExists { .. } => 409,
                UserServiceError::UserNotFound { .. } => 404,
                UserServiceError::InvalidCredentials => 401,
                UserServiceError::DomainValidation { .. } => 400,
                UserServiceError::ServiceUnavailable => 503,
                _ => 500,
            },
            WebError::InvalidRequest { .. } => 400,
            WebError::MissingAuth | WebError::InvalidToken => 401,
            WebError::Timeout => 408,
        }
    }

    /// What to tell the client.
    pub fn user_message(&self) -> (text: String)
        ensures
            text@ == user_message_of(*self),
    {
        match self {
            WebError::UserService { source } => match source {
                UserServiceError::UserAlreadyExists { .. } => owned(
                    "An account with this email already exists",
                ),
                UserServiceError::UserNotFound { .. } | UserServiceError::InvalidCredentials => {
                    owned("Invalid email or password")
                },
                UserServiceError::DomainValidation { source } => source.message(),
                UserServiceError::ServiceUnavailable => owned(
                    "Service temporarily unavailable. Please try again later",
                ),
                _ => owned("An error occurred. Please try again"),
            },
            WebError::InvalidRequest { message } => message.clone(),
            WebError::MissingAuth => owned("Authentication required"),
            WebError::InvalidToken => owned("Invalid authentication token"),
            WebError::Timeout => owned("Request timed out. Please try again"),
        }
    }
}

} // verus!
