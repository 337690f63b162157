//! What can go wrong in the user service.

use crate::domain::errors::user_errors::UserDomainError;
use vstd::prelude::*;

verus! {

/// Why a request to the user service failed.
#[derive(Debug, Clone, PartialEq)]
#[allow(inconsistent_fields)]
pub enum UserServiceError {
    UserAlreadyExists { email: String },
    UserNotFound { email: String },
    InvalidCredentials,
    RegistrationFailed,
    AuthenticationFailed,
    DomainValidation { source: UserDomainError },
    /// The repository failed during `operation`; `source` is what it reported.
    RepositoryError { operation: String, source: String },
    /// The authentication service failed; `source` is what it reported.
    AuthServiceError { source: String },
    ServiceUnavailable,
    InternalError { message: String },
}

impl UserServiceError {
    /// Whether the error is caused by what the user sent: an email that is taken, wrong
    /// credentials, or data that breaks a rule of the domain.
    pub fn is_user_error(&self) -> (by_user: bool)
        ensures
            by_user == (*self is UserAlreadyExists || *self is InvalidCredentials
                || *self is DomainValidation),
    {
        match self {
            UserServiceError::UserAlreadyExists { .. }
            | UserServiceError::InvalidCredentials
            | UserServiceError::DomainValidation { .. } => true,
            _ => false,
        }
    }

    /// Whether the error may go away when the request is tried again: the service is
    /// unavailable, or the repository failed.
    pub fn is_transient(&self) -> (transient: bool)
        ensures
            transient == (*self is ServiceUnavailable || *self is RepositoryError),
    {
        match self {
            UserServiceError::ServiceUnavailable | UserServiceError::RepositoryError { .. } => true,
            _ => false,
        }
    }

    /// The service error that stands for a domain error.
    pub fn from_domain_error(error: UserDomainError) -> (wrapped: Self)
        ensures
            wrapped == (UserServiceError::DomainValidation { source: error }),
    {
        UserServiceError::DomainValidation { source: error }
    }
}

} // verus!
