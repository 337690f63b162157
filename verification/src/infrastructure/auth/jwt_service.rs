//! What of token-based authentication is decided here: which claims a token carries, when
//! it expires, which kind of token is accepted where, and how passwords are hashed and
//! checked. Signing and reading the tokens themselves is left to the caller.

use crate::domain::models::user::User;
use crate::text::{byte_len, owned};
use vstd::prelude::*;

verus! {

/// The error of the `bcrypt` crate, carried through as an opaque value.
#[verifier::external_type_specification]
#[verifier::external_body]
pub struct ExBcryptError(bcrypt::BcryptError);

/// The error of the `jsonwebtoken` crate, carried through as an opaque value.
#[verifier::external_type_specification]
#[verifier::external_body]
pub struct ExJwtError(jsonwebtoken::errors::Error);

/// Whether a token grants access or serves to get new tokens.
#[derive(Debug, Clone, Copy, PartialEq, Eq)]
pub enum TokenType {
    Access,
    Refresh,
}

impl TokenType {
    /// The name of the token type.
    pub open spec fn name_spec(self) -> Seq<char> {
        match self {
            TokenType::Access => "Access"@,
            TokenType::Refresh => "Refresh"@,
        }
    }

    /// The name of the token type.
    pub fn name(&self) -> (name: String)
        ensures
            name@ == self.name_spec(),
    {
        match self {
            TokenType::Access => owned("Access"),
            TokenType::Refresh => owned("Refresh"),
        }
    }
}

/// What a token says: whom it is about, until when it holds (in seconds since the Unix
/// epoch), and of which type it is.
#[derive(Debug, Clone)]
pub struct Claims {
    pub sub: String,
    pub email: String,
    pub exp: usize,
    pub token_type: TokenType,
}

/// An access token with the refresh token that goes with it.
#[derive(Debug)]
pub struct TokenPair {
    pub access_token: String,
    pub refresh_token: String,
    /// Seconds until the access token expires.
    pub expires_in: u64,
}

/// Why authentication failed.
#[derive(Debug)]
pub enum AuthError {
    JwtError(jsonwebtoken::errors::Error),
    BcryptError(bcrypt::BcryptError),
    InvalidTokenType { expected: String, actual: String },
    TokenExpired,
    InvalidRefreshToken,
}

/// Minutes for which an access token holds.
pub const ACCESS_TOKEN_DURATION_MINUTES: u64 = 15;

/// Days for which a refresh token holds.
pub const REFRESH_TOKEN_DURATION_DAYS: u64 = 30;

/// Seconds for which an access token holds.
pub const ACCESS_TOKEN_SECONDS: u64 = 900;

/// Seconds for which a refresh token holds.
pub const REFRESH_TOKEN_SECONDS: u64 = 2_592_000;

/// The cost at which passwords are hashed.
pub const PASSWORD_HASH_COST: u32 = 12;

/// What `bcrypt::verify` answers for `password` and `hash`: whether they match, or
/// nothing where it reports an error.
pub uninterp spec fn bcrypt_answer(password: Seq<char>, hash: Seq<char>) -> Option<bool>;

/// Calls `bcrypt::hash`, which salts `password` at random and hashes it at the given
/// cost. Where it succeeds, the hash is written in the format of version 2b, which takes
/// 60 bytes.
#[verifier::external_body]
fn bcrypt_hash(password: &str, cost: u32) -> (result: Result<String, bcrypt::BcryptError>)
    ensures
        result matches Ok(hash) ==> byte_len(hash@) == 60 && "$2b$"@.is_prefix_of(hash@),
{
    bcrypt::hash(password, cost)
}

/// Calls `bcrypt::verify`, which hashes `password` with the salt and cost found in `hash`
/// and compares. The answer is a function of the two texts alone; the contract gives it
/// a name and claims nothing more of it.
#[verifier::external_body]
fn bcrypt_verify(password: &str, hash: &str) -> (result: Result<bool, bcrypt::BcryptError>)
    ensures
        match result {
            Ok(matches) => bcrypt_answer(password@, hash@) == Some(matches),
            Err(_) => bcrypt_answer(password@, hash@) is None,
        },
{
    bcrypt::verify(password, hash)
}

/// Calls `jsonwebtoken::errors::Error::from` on `ErrorKind::InvalidToken`, which gives the
/// error for a token that is not valid.
#[verifier::external_body]
fn invalid_token_error() -> (error: jsonwebtoken::errors::Error) {
    jsonwebtoken::errors::Error::from(jsonwebtoken::errors::ErrorKind::InvalidToken)
}

/// The moment `seconds` after `now`, both in seconds since the Unix epoch, where a token's
/// claims can hold it: it must not lie before the epoch nor beyond the machine's word.
pub open spec fn expiration(now: i64, seconds: u64) -> Option<usize> {
    if 0 <= now + seconds <= usize::MAX && now + seconds <= i64::MAX {
        Some((now + seconds) as usize)
    } else {
        None
    }
}

/// Whether `result` is what a check for tokens of type `expected` owes for `claims`: the
/// claims themselves where the token is of that type, and otherwise an error that names
/// the type expected and the type found.
pub open spec fn accepts_only(
    expected: TokenType,
    claims: Claims,
    result: Result<Claims, AuthError>,
) -> bool {
    if claims.token_type == expected {
        result matches Ok(accepted) && accepted == claims
    } else {
        result matches Err(AuthError::InvalidTokenType { expected: wanted, actual }) && wanted@
            == expected.name_spec() && actual@ == claims.token_type.name_spec()
    }
}

/// The two durations in seconds are what the durations in minutes and days amount to.
pub proof fn lemma_token_durations()
    ensures
        ACCESS_TOKEN_SECONDS == ACCESS_TOKEN_DURATION_MINUTES * 60,
        REFRESH_TOKEN_SECONDS == REFRESH_TOKEN_DURATION_DAYS * 24 * 60 * 60,
{
}

/// Token-based authentication.
#[derive(Clone, Debug)]
pub struct AuthService {}

impl AuthService {
    /// The moment `seconds` after `now`, for the claims of a token.
    fn expires_at(now: i64, seconds: u64) -> (result: Result<usize, AuthError>)
        requires
            seconds <= i64::MAX,
        ensures
            match expiration(now, seconds) {
                Some(moment) => result matches Ok(found) && found == moment,
                None => result matches Err(AuthError::JwtError(_)),
            },
    {
        let span: i64 = seconds as i64;
        if now > i64::MAX - span {
            return Err(AuthError::JwtError(invalid_token_error()));
        }
        let moment: i64 = now + span;
        if moment < 0 {
            return Err(AuthError::JwtError(invalid_token_error()));
        }
        if moment as u64 > usize::MAX as u64 {
            return Err(AuthError::JwtError(invalid_token_error()));
        }
        Ok(moment as usize)
    }

    /// The claims of a token of type `token_type` for `user` that holds for `seconds`
    /// from `now`.
    fn claims_for(user: &User, token_type: TokenType, now: i64, seconds: u64) -> (result: Result<
        Claims,
        AuthError,
    >)
        requires
            seconds <= i64::MAX,
        ensures
            match expiration(now, seconds) {
                Some(moment) => result matches Ok(claims) && claims.sub@ == user@.id
                    && claims.email@ == user@.email && claims.exp == moment && claims.token_type
                    == token_type,
                None => result matches Err(AuthError::JwtError(_)),
            },
    {
        match Self::expires_at(now, seconds) {
            Ok(exp) => Ok(
                Claims {
                    sub: user.id().to_string(),
                    email: user.email().to_string(),
                    exp,
                    token_type,
                },
            ),
            Err(error) => Err(error),
        }
    }

    /// The claims of an access token for `user` issued at `now` seconds since the Unix
    /// epoch: it holds for [`ACCESS_TOKEN_DURATION_MINUTES`].
    pub fn access_claims(user: &User, now: i64) -> (result: Result<Claims, AuthError>)
        ensures
            match expiration(now, ACCESS_TOKEN_SECONDS) {
                Some(moment) => result matches Ok(claims) && claims.sub@ == user@.id
                    && claims.email@ == user@.email && claims.exp == moment && claims.token_type
                    == TokenType::Access,
                None => result matches Err(AuthError::JwtError(_)),
            },
    {
        Self::claims_for(user, TokenType::Access, now, ACCESS_TOKEN_SECONDS)
    }

    /// The claims of a refresh token for `user` issued at `now` seconds since the Unix
    /// epoch: it holds for [`REFRESH_TOKEN_DURATION_DAYS`].
    pub fn refresh_claims(user: &User, now: i64) -> (result: Result<Claims, AuthError>)
        ensures
            match expiration(now, REFRESH_TOKEN_SECONDS) {
                Some(moment) => result matches Ok(claims) && claims.sub@ == user@.id
                    && claims.email@ == user@.email && claims.exp == moment && claims.token_type
                    == TokenType::Refresh,
                None => result matches Err(AuthError::JwtError(_)),
            },
    {
        Self::claims_for(user, TokenType::Refresh, now, REFRESH_TOKEN_SECONDS)
    }

    /// The pair of the two signed tokens, with the time for which the access token holds.
    pub fn generate_token_pair(access_token: String, refresh_token: String) -> (pair: TokenPair)
        ensures
            pair.access_token == access_token,
            pair.refresh_token == refresh_token,
            pair.expires_in == ACCESS_TOKEN_SECONDS,
    {
        TokenPair { access_token, refresh_token, expires_in: ACCESS_TOKEN_SECONDS }
    }

    /// Accepts the claims of a token only if the token is of type `expected`.
    fn verify_token_type(claims: Claims, expected: TokenType) -> (result: Result<Claims, AuthError>)
        ensures
            accepts_only(expected, claims, result),
    {
        let matches = match (claims.token_type, expected) {
            (TokenType::Access, TokenType::Access) => true,
            (TokenType::Refresh, TokenType::Refresh) => true,
            _ => false,
        };
        if matches {
            Ok(claims)
        } else {
            Err(
                AuthError::InvalidTokenType {
                    expected: expected.name(),
                    actual: claims.token_type.name(),
                },
            )
        }
    }

    /// Accepts the claims read from a token only if it is an access token.
    pub fn verify_access_token(claims: Claims) -> (result: Result<Claims, AuthError>)
        ensures
            accepts_only(TokenType::Access, claims, result),
    {
        Self::verify_token_type(claims, TokenType::Access)
    }

    /// Accepts the claims read from a token only if it is a refresh token.
    pub fn verify_refresh_token(claims: Claims) -> (result: Result<Claims, AuthError>)
        ensures
            accepts_only(TokenType::Refresh, claims, result),
    {
        Self::verify_token_type(claims, TokenType::Refresh)
    }

    /// The hash of `password` under a random salt, at [`PASSWORD_HASH_COST`].
    pub fn hash_password(password: &str) -> (result: Result<String, AuthError>)
        ensures
            match result {
                Ok(hash) => byte_len(hash@) == 60 && "$2b$"@.is_prefix_of(hash@),
                Err(error) => error is BcryptError,
            },
    {
        match bcrypt_hash(password, PASSWORD_HASH_COST) {
            Ok(hash) => Ok(hash),
            Err(error) => Err(AuthError::BcryptError(error)),
        }
    }

    /// What the check of `password` against `hash` gave: see [`AuthService::verify_password`].
    pub fn checked_password(checked: Result<bool, bcrypt::BcryptError>) -> (result: Result<
        bool,
        AuthError,
    >)
        ensures
            match checked {
                Ok(matches) => result matches Ok(found) && found == matches,
                Err(error) => result matches Err(AuthError::BcryptError(inner)) && inner == error,
            },
    {
        match checked {
            Ok(matches) => Ok(matches),
            Err(error) => Err(AuthError::BcryptError(error)),
        }
    }

    /// Whether `password` is the one that `hash` was made from; an error where `hash` is
    /// no bcrypt hash.
    pub fn verify_password(password: &str, hash: &str) -> (result: Result<bool, AuthError>)
        ensures
            match bcrypt_answer(password@, hash@) {
                Some(matches) => result matches Ok(found) && found == matches,
                None => result matches Err(AuthError::BcryptError(_)),
            },
    {
        Self::checked_password(bcrypt_verify(password, hash))
    }
}

} // verus!
