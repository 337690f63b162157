//! What the user service decides between its calls to the repository and to the
//! authentication service: how each outcome of a call leads to the next step or to an error.

use crate::application::errors::user_service_errors::UserServiceError;
use crate::domain::models::user::{AuthResponse, User, UserProfile};
use crate::text::owned;
use crate::infrastructure::auth::jwt_service::{AuthError, TokenPair};
use vstd::prelude::*;

verus! {

/// The error for a repository that failed during `operation` and reported `reported`.
pub fn repository_failure(operation: &str, reported: String) -> (error: UserServiceError)
    ensures
        error matches UserServiceError::RepositoryError { operation: named, source }
            && named@ == operation@ && source == reported,
{
    UserServiceError::RepositoryError { operation: owned(operation), source: reported }
}

/// The error for an authentication service that failed and reported `reported`.
pub fn auth_service_failure(reported: String) -> (error: UserServiceError)
    ensures
        error == (UserServiceError::AuthServiceError { source: reported }),
{
    UserServiceError::AuthServiceError { source: reported }
}

/// Whether registration may go on, given what the repository found for `email`: whether
/// a user with it exists, or what it reported when it failed. An email that is taken ends
/// the registration, and so does a repository that failed.
pub fn check_email_is_free(found: Result<bool, String>, email: &str) -> (result: Result<
    (),
    UserServiceError,
>)
    ensures
        match found {
            Ok(true) => result matches Err(UserServiceError::UserAlreadyExists { email: taken })
                && taken@ == email@,
            Ok(false) => result is Ok,
            Err(reported) => result matches Err(
                UserServiceError::RepositoryError { operation, source },
            ) && operation@ == "check_user_exists"@ && source == reported,
        },
{
    match found {
        Ok(true) => Err(UserServiceError::UserAlreadyExists { email: owned(email) }),
        Ok(false) => Ok(()),
        Err(reported) => Err(repository_failure("check_user_exists", reported)),
    }
}

/// The user to authenticate, given what the repository found for `email`: the user, none,
/// or what it reported when it failed.
pub fn user_to_authenticate(found: Result<Option<User>, String>, email: &str) -> (result: Result<
    User,
    UserServiceError,
>)
    ensures
        match found {
            Ok(Some(user)) => result matches Ok(same) && same == user,
            Ok(None) => result matches Err(UserServiceError::UserNotFound { email: missing })
                && missing@ == email@,
            Err(reported) => result matches Err(
                UserServiceError::RepositoryError { operation, source },
            ) && operation@ == "get_user_by_email"@ && source == reported,
        },
{
    match found {
        Ok(Some(user)) => Ok(user),
        Ok(None) => Err(UserServiceError::UserNotFound { email: owned(email) }),
        Err(reported) => Err(repository_failure("get_user_by_email", reported)),
    }
}

/// Whether authentication may go on after the password was checked: it ends only where
/// the check itself failed. What the check found, a match or none, is not looked at here.
pub fn check_password_outcome(checked: &Result<bool, AuthError>) -> (result: Result<
    (),
    UserServiceError,
>)
    ensures
        match *checked {
            Ok(_) => result is Ok,
            Err(_) => result == Err::<(), UserServiceError>(UserServiceError::InvalidCredentials),
        },
{
    match checked {
        Ok(_) => Ok(()),
        Err(_) => Err(UserServiceError::InvalidCredentials),
    }
}

/// What an authenticated client gets: the tokens as bearer tokens, and the profile of the
/// user.
pub fn auth_response(user: &User, token_pair: TokenPair) -> (response: AuthResponse)
    ensures
        response.access_token == token_pair.access_token,
        response.refresh_token == token_pair.refresh_token,
        response.token_type@ == "Bearer"@,
        response.expires_in == token_pair.expires_in,
        response.user.id@ == user@.id,
        response.user.email@ == user@.email,
        response.user.first_name@ == user@.first_name,
        response.user.last_name@ == user@.last_name,
{
    AuthResponse {
        access_token: token_pair.access_token,
        refresh_token: token_pair.refresh_token,
        token_type: owned("Bearer"),
        expires_in: token_pair.expires_in,
        user: UserProfile::from_user(user),
    }
}

} // verus!
