use finance_tracker::application::errors::user_service_errors::UserServiceError;
use finance_tracker::application::user_service::{
    auth_response, auth_service_failure, check_email_is_free, check_password_outcome,
    repository_failure, user_to_authenticate,
};
use finance_tracker::domain::errors::user_errors::UserDomainError;
use finance_tracker::domain::models::user::{
    User, UserCreationError, UserCreationRequestError, UserProfile, UserUpdateError,
};
use finance_tracker::domain::value_objects::email::EmailError;
use finance_tracker::domain::value_objects::password_hash::PasswordHashError;
use finance_tracker::domain::value_objects::user_id::{UserId, UserIdError};
use finance_tracker::domain::value_objects::user_name::UserNameError;
use finance_tracker::infrastructure::auth::jwt_service::{
    AuthError, AuthService, Claims, TokenType, ACCESS_TOKEN_DURATION_MINUTES,
    ACCESS_TOKEN_SECONDS, PASSWORD_HASH_COST, REFRESH_TOKEN_DURATION_DAYS, REFRESH_TOKEN_SECONDS,
};
use finance_tracker::infrastructure::errors::web_errors::WebError;

const BCRYPT_SAMPLE: &str = "$2b$12$L6Bc/AlTQHyd9liGgGEZyOFLPHNgyxeEPfgYfBCVxJ7JIlwxyVU3u";

fn sample_user() -> User {
    User::new_at(
        UserId::new("user-1".to_string()).unwrap(),
        " Ada@Example.org ",
        BCRYPT_SAMPLE.to_string(),
        " Ada ",
        "Lovelace",
        1_700_000_000_000,
    )
    .unwrap()
}

fn all_service_errors() -> Vec<UserServiceError> {
    vec![
        UserServiceError::UserAlreadyExists { email: "a@b.co".to_string() },
        UserServiceError::UserNotFound { email: "a@b.co".to_string() },
        UserServiceError::InvalidCredentials,
        UserServiceError::RegistrationFailed,
        UserServiceError::AuthenticationFailed,
        UserServiceError::DomainValidation { source: UserDomainError::EmailRequired },
        UserServiceError::RepositoryError {
            operation: "create_user".to_string(),
            source: "timeout".to_string(),
        },
        UserServiceError::AuthServiceError { source: "bad key".to_string() },
        UserServiceError::ServiceUnavailable,
        UserServiceError::InternalError { message: "bug".to_string() },
    ]
}

#[test]
fn domain_error_from_email_error() {
    assert_eq!(UserDomainError::from_email_error(EmailError::Empty), UserDomainError::EmailRequired);
    assert_eq!(
        UserDomainError::from_email_error(EmailError::TooLong),
        UserDomainError::InvalidEmail { email: "Email too long".to_string() }
    );
    assert_eq!(
        UserDomainError::from_email_error(EmailError::InvalidFormat),
        UserDomainError::InvalidEmail { email: "Invalid format".to_string() }
    );
}

#[test]
fn domain_error_from_password_hash_error() {
    assert_eq!(
        UserDomainError::from_password_hash_error(PasswordHashError::Empty),
        UserDomainError::WeakPassword { message: "Password hash cannot be empty".to_string() }
    );
    assert_eq!(
        UserDomainError::from_password_hash_error(PasswordHashError::TooShort),
        UserDomainError::WeakPassword { message: "Password hash is too short".to_string() }
    );
    assert_eq!(
        UserDomainError::from_password_hash_error(PasswordHashError::TooLong),
        UserDomainError::WeakPassword {
            message: "Password hash is too long (max 255 characters)".to_string()
        }
    );
    assert_eq!(
        UserDomainError::from_password_hash_error(PasswordHashError::InvalidFormat),
        UserDomainError::WeakPassword { message: "Invalid password hash format".to_string() }
    );
}

#[test]
fn domain_error_from_user_id_and_name_errors() {
    assert_eq!(UserDomainError::from_user_id_error(UserIdError::Empty), UserDomainError::InvalidUserId);
    assert_eq!(UserDomainError::from_user_id_error(UserIdError::TooLong), UserDomainError::InvalidUserId);
    assert_eq!(
        UserDomainError::from_user_name_error(UserNameError::Empty),
        UserDomainError::EmptyFirstName
    );
    for error in [
        UserNameError::TooShort,
        UserNameError::TooLong,
        UserNameError::ContainsNumbers,
        UserNameError::InvalidCharacters,
    ] {
        assert_eq!(UserDomainError::from_user_name_error(error), UserDomainError::InvalidNameFormat);
    }
}

#[test]
fn every_domain_error_but_an_invalid_user_id_is_a_validation_error() {
    assert!(UserDomainError::InvalidEmail { email: "x".to_string() }.is_validation_error());
    assert!(UserDomainError::WeakPassword { message: "x".to_string() }.is_validation_error());
    assert!(UserDomainError::EmptyFirstName.is_validation_error());
    assert!(UserDomainError::EmptyLastName.is_validation_error());
    assert!(UserDomainError::EmailRequired.is_validation_error());
    assert!(UserDomainError::InvalidNameFormat.is_validation_error());
    assert!(!UserDomainError::InvalidUserId.is_validation_error());
}

#[test]
fn domain_error_messages() {
    assert_eq!(
        UserDomainError::InvalidEmail { email: "Invalid format".to_string() }.message(),
        "Invalid email format: Invalid format"
    );
    assert_eq!(
        UserDomainError::WeakPassword { message: "too short".to_string() }.message(),
        "Password does not meet security requirements: too short"
    );
    assert_eq!(UserDomainError::EmptyFirstName.message(), "First name cannot be empty");
    assert_eq!(UserDomainError::EmptyLastName.message(), "Last name cannot be empty");
    assert_eq!(UserDomainError::InvalidUserId.message(), "User ID is invalid");
    assert_eq!(UserDomainError::EmailRequired.message(), "Email address is required");
    assert_eq!(UserDomainError::InvalidNameFormat.message(), "Name contains invalid characters");
}

#[test]
fn user_errors_are_those_caused_by_the_user() {
    let by_user: Vec<bool> = all_service_errors().iter().map(|e| e.is_user_error()).collect();
    assert_eq!(by_user, vec![true, false, true, false, false, true, false, false, false, false]);
}

#[test]
fn transient_errors_are_those_worth_a_retry() {
    let transient: Vec<bool> = all_service_errors().iter().map(|e| e.is_transient()).collect();
    assert_eq!(transient, vec![false, false, false, false, false, false, true, false, true, false]);
}

#[test]
fn service_error_from_domain_error() {
    assert_eq!(
        UserServiceError::from_domain_error(UserDomainError::InvalidNameFormat),
        UserServiceError::DomainValidation { source: UserDomainError::InvalidNameFormat }
    );
}

#[test]
fn new_user_holds_the_validated_parts() {
    let user = sample_user();
    assert_eq!(user.id().as_str(), "user-1");
    assert_eq!(user.email().as_str(), "ada@example.org");
    assert_eq!(user.password_hash().as_str(), BCRYPT_SAMPLE);
    assert_eq!(user.first_name().as_str(), "Ada");
    assert_eq!(user.last_name().as_str(), "Lovelace");
    assert_eq!(user.created_at(), 1_700_000_000_000);
    assert_eq!(user.updated_at(), 1_700_000_000_000);
}

#[test]
fn new_user_reports_the_first_fault_in_order() {
    let id = || UserId::new("user-1".to_string()).unwrap();
    let new = |email: &str, hash: &str, first: &str, last: &str| {
        User::new_at(id(), email, hash.to_string(), first, last, 0).map(|_| ()).unwrap_err()
    };
    assert_eq!(new("", "", "", ""), UserDomainError::EmailRequired);
    assert_eq!(
        new("nonsense", "", "", ""),
        UserDomainError::InvalidEmail { email: "Invalid format".to_string() }
    );
    assert_eq!(
        new(&format!("{}@b.co", "a".repeat(250)), "", "", ""),
        UserDomainError::InvalidEmail { email: "Email too long".to_string() }
    );
    assert_eq!(
        new("a@b.co", "", "", ""),
        UserDomainError::WeakPassword { message: "Password hash cannot be empty".to_string() }
    );
    assert_eq!(
        new("a@b.co", "plaintext-password", "", ""),
        UserDomainError::WeakPassword { message: "Invalid password hash format".to_string() }
    );
    assert_eq!(new("a@b.co", BCRYPT_SAMPLE, "", "7"), UserDomainError::EmptyFirstName);
    assert_eq!(new("a@b.co", BCRYPT_SAMPLE, "A", ""), UserDomainError::InvalidNameFormat);
    // A missing last name is reported as the name fault it is.
    assert_eq!(new("a@b.co", BCRYPT_SAMPLE, "Ada", "  "), UserDomainError::EmptyFirstName);
    assert_eq!(new("a@b.co", BCRYPT_SAMPLE, "Ada", "L0velace"), UserDomainError::InvalidNameFormat);
}

#[test]
fn new_user_gets_a_fresh_identifier_and_the_present_time() {
    let first = User::new("a@b.co", BCRYPT_SAMPLE.to_string(), "Ada", "Lovelace").unwrap();
    let second = User::new("a@b.co", BCRYPT_SAMPLE.to_string(), "Ada", "Lovelace").unwrap();
    assert_eq!(first.id().as_str().len(), 36);
    assert_ne!(first.id(), second.id());
    assert_eq!(first.created_at(), first.updated_at());
    assert!(first.created_at() > 1_704_067_200_000);
    assert_eq!(
        User::new("", BCRYPT_SAMPLE.to_string(), "Ada", "Lovelace").map(|_| ()),
        Err(UserDomainError::EmailRequired)
    );
}

#[test]
fn profile_of_a_user() {
    let profile = UserProfile::from_user(&sample_user());
    assert_eq!(profile.id, "user-1");
    assert_eq!(profile.email, "ada@example.org");
    assert_eq!(profile.first_name, "Ada");
    assert_eq!(profile.last_name, "Lovelace");
}

#[test]
fn creation_and_update_error_messages() {
    assert_eq!(
        UserCreationError::InvalidUserId(UserIdError::Empty).message(),
        "Invalid user ID: User ID cannot be empty"
    );
    assert_eq!(
        UserCreationError::InvalidEmail(EmailError::InvalidFormat).message(),
        "Invalid email: Invalid email format"
    );
    assert_eq!(
        UserCreationError::InvalidPasswordHash(PasswordHashError::TooShort).message(),
        "Invalid password hash: Password hash is too short"
    );
    assert_eq!(
        UserCreationError::InvalidFirstName(UserNameError::Empty).message(),
        "Invalid first name: Name cannot be empty"
    );
    assert_eq!(
        UserCreationError::InvalidLastName(UserNameError::ContainsNumbers).message(),
        "Invalid last name: Name cannot contain numbers"
    );
    assert_eq!(
        UserUpdateError::InvalidEmail(EmailError::TooLong).message(),
        "Invalid email: Email is too long (max 254 characters)"
    );
    assert_eq!(
        UserUpdateError::InvalidPasswordHash(PasswordHashError::InvalidFormat).message(),
        "Invalid password hash: Invalid password hash format"
    );
    assert_eq!(
        UserUpdateError::InvalidFirstName(UserNameError::TooLong).message(),
        "Invalid first name: Name is too long (max 50 characters)"
    );
    assert_eq!(
        UserUpdateError::InvalidLastName(UserNameError::InvalidCharacters).message(),
        "Invalid last name: Name contains invalid characters"
    );
    assert_eq!(
        UserCreationRequestError::from_creation_error(UserCreationError::InvalidEmail(EmailError::Empty)),
        UserCreationRequestError::UserCreationFailed(UserCreationError::InvalidEmail(EmailError::Empty))
    );
}

#[test]
fn token_durations() {
    assert_eq!(ACCESS_TOKEN_DURATION_MINUTES, 15);
    assert_eq!(REFRESH_TOKEN_DURATION_DAYS, 30);
    assert_eq!(ACCESS_TOKEN_SECONDS, 15 * 60);
    assert_eq!(REFRESH_TOKEN_SECONDS, 30 * 24 * 60 * 60);
    assert_eq!(PASSWORD_HASH_COST, 12);
}

#[test]
fn access_claims_hold_for_fifteen_minutes() {
    let claims = AuthService::access_claims(&sample_user(), 1_700_000_000).unwrap();
    assert_eq!(claims.sub, "user-1");
    assert_eq!(claims.email, "ada@example.org");
    assert_eq!(claims.exp, 1_700_000_900);
    assert_eq!(claims.token_type, TokenType::Access);
}

#[test]
fn refresh_claims_hold_for_thirty_days() {
    let claims = AuthService::refresh_claims(&sample_user(), 1_700_000_000).unwrap();
    assert_eq!(claims.sub, "user-1");
    assert_eq!(claims.email, "ada@example.org");
    assert_eq!(claims.exp, 1_702_592_000);
    assert_eq!(claims.token_type, TokenType::Refresh);
}

#[test]
fn claims_cannot_expire_before_the_epoch_or_beyond_the_clock() {
    let user = sample_user();
    assert_eq!(AuthService::access_claims(&user, -900).unwrap().exp, 0);
    assert!(matches!(AuthService::access_claims(&user, -901), Err(AuthError::JwtError(_))));
    assert!(matches!(AuthService::refresh_claims(&user, i64::MIN), Err(AuthError::JwtError(_))));
    assert!(matches!(AuthService::access_claims(&user, i64::MAX), Err(AuthError::JwtError(_))));
    assert!(matches!(AuthService::access_claims(&user, i64::MAX - 899), Err(AuthError::JwtError(_))));
    assert_eq!(
        AuthService::access_claims(&user, i64::MAX - 900).unwrap().exp,
        i64::MAX as usize
    );
}

#[test]
fn token_pair_says_when_the_access_token_expires() {
    let pair = AuthService::generate_token_pair("aaa".to_string(), "rrr".to_string());
    assert_eq!(pair.access_token, "aaa");
    assert_eq!(pair.refresh_token, "rrr");
    assert_eq!(pair.expires_in, 900);
}

#[test]
fn only_access_tokens_grant_access() {
    let claims = |token_type| Claims {
        sub: "user-1".to_string(),
        email: "a@b.co".to_string(),
        exp: 10,
        token_type,
    };
    let accepted = AuthService::verify_access_token(claims(TokenType::Access)).unwrap();
    assert_eq!(accepted.sub, "user-1");
    assert_eq!(accepted.email, "a@b.co");
    assert_eq!(accepted.exp, 10);
    assert_eq!(accepted.token_type, TokenType::Access);
    match AuthService::verify_access_token(claims(TokenType::Refresh)) {
        Err(AuthError::InvalidTokenType { expected, actual }) => {
            assert_eq!(expected, "Access");
            assert_eq!(actual, "Refresh");
        }
        other => panic!("accepted: {:?}", other),
    }
}

#[test]
fn only_refresh_tokens_give_new_tokens() {
    let claims = |token_type| Claims {
        sub: "user-1".to_string(),
        email: "a@b.co".to_string(),
        exp: 10,
        token_type,
    };
    assert_eq!(
        AuthService::verify_refresh_token(claims(TokenType::Refresh)).unwrap().token_type,
        TokenType::Refresh
    );
    match AuthService::verify_refresh_token(claims(TokenType::Access)) {
        Err(AuthError::InvalidTokenType { expected, actual }) => {
            assert_eq!(expected, "Refresh");
            assert_eq!(actual, "Access");
        }
        other => panic!("accepted: {:?}", other),
    }
}

#[test]
fn token_type_names() {
    assert_eq!(TokenType::Access.name(), "Access");
    assert_eq!(TokenType::Refresh.name(), "Refresh");
}

#[test]
fn verify_password_against_what_is_no_hash() {
    assert!(matches!(
        AuthService::verify_password("hunter2", "hunter2"),
        Err(AuthError::BcryptError(_))
    ));
    assert!(matches!(AuthService::verify_password("", ""), Err(AuthError::BcryptError(_))));
    assert!(matches!(
        AuthService::verify_password("x", "$2b$12$L6Bc/AlTQHyd9liGgGEZyOFLPHNgyxeEPfgYfBCVxJ7JIlwxyVU3"),
        Err(AuthError::BcryptError(_))
    ));
}

#[test]
fn a_password_matches_its_own_hash_and_no_other() {
    let hash = AuthService::hash_password("correct horse battery staple").unwrap();
    assert_eq!(hash.len(), 60);
    assert!(hash.starts_with("$2b$12$"));
    assert!(matches!(AuthService::verify_password("correct horse battery staple", &hash), Ok(true)));
    assert!(matches!(AuthService::verify_password("Tr0ub4dor&3", &hash), Ok(false)));
    let again = AuthService::hash_password("correct horse battery staple").unwrap();
    assert_ne!(hash, again);
}

#[test]
fn password_check_passes_the_answer_on() {
    assert!(matches!(AuthService::checked_password(Ok(true)), Ok(true)));
    assert!(matches!(AuthService::checked_password(Ok(false)), Ok(false)));
    let failure = bcrypt::verify("x", "not a hash").unwrap_err();
    assert!(matches!(AuthService::checked_password(Err(failure)), Err(AuthError::BcryptError(_))));
}

#[test]
fn registration_goes_on_only_where_the_email_is_free() {
    assert_eq!(check_email_is_free(Ok(false), "a@b.co"), Ok(()));
    assert_eq!(
        check_email_is_free(Ok(true), "a@b.co"),
        Err(UserServiceError::UserAlreadyExists { email: "a@b.co".to_string() })
    );
    assert_eq!(
        check_email_is_free(Err("connection refused".to_string()), "a@b.co"),
        Err(UserServiceError::RepositoryError {
            operation: "check_user_exists".to_string(),
            source: "connection refused".to_string(),
        })
    );
}

#[test]
fn authentication_needs_a_user() {
    let found = user_to_authenticate(Ok(Some(sample_user())), "ada@example.org").unwrap();
    assert_eq!(found.id().as_str(), "user-1");
    assert_eq!(
        user_to_authenticate(Ok(None), "ada@example.org").map(|_| ()),
        Err(UserServiceError::UserNotFound { email: "ada@example.org".to_string() })
    );
    assert_eq!(
        user_to_authenticate(Err("timeout".to_string()), "ada@example.org").map(|_| ()),
        Err(UserServiceError::RepositoryError {
            operation: "get_user_by_email".to_string(),
            source: "timeout".to_string(),
        })
    );
}

#[test]
fn a_failed_password_check_means_invalid_credentials() {
    assert_eq!(check_password_outcome(&Ok(true)), Ok(()));
    assert_eq!(check_password_outcome(&Ok(false)), Ok(()));
    assert_eq!(
        check_password_outcome(&Err(AuthError::TokenExpired)),
        Err(UserServiceError::InvalidCredentials)
    );
}

#[test]
fn failures_of_collaborators() {
    assert_eq!(
        repository_failure("create_user", "disk full".to_string()),
        UserServiceError::RepositoryError {
            operation: "create_user".to_string(),
            source: "disk full".to_string(),
        }
    );
    assert_eq!(
        auth_service_failure("bad key".to_string()),
        UserServiceError::AuthServiceError { source: "bad key".to_string() }
    );
}

#[test]
fn auth_response_carries_bearer_tokens_and_the_profile() {
    let pair = AuthService::generate_token_pair("aaa".to_string(), "rrr".to_string());
    let response = auth_response(&sample_user(), pair);
    assert_eq!(response.access_token, "aaa");
    assert_eq!(response.refresh_token, "rrr");
    assert_eq!(response.token_type, "Bearer");
    assert_eq!(response.expires_in, 900);
    assert_eq!(response.user.id, "user-1");
    assert_eq!(response.user.email, "ada@example.org");
    assert_eq!(response.user.first_name, "Ada");
    assert_eq!(response.user.last_name, "Lovelace");
}

#[test]
fn web_error_status_codes() {
    let status = |source| WebError::from_user_service_error(source).to_status_code();
    let codes: Vec<u16> = all_service_errors().into_iter().map(status).collect();
    assert_eq!(codes, vec![409, 404, 401, 500, 500, 400, 500, 500, 503, 500]);
    assert_eq!(WebError::InvalidRequest { message: "x".to_string() }.to_status_code(), 400);
    assert_eq!(WebError::MissingAuth.to_status_code(), 401);
    assert_eq!(WebError::InvalidToken.to_status_code(), 401);
    assert_eq!(WebError::Timeout.to_status_code(), 408);
}

#[test]
fn web_error_user_messages() {
    let message = |source| WebError::UserService { source }.user_message();
    let messages: Vec<String> = all_service_errors().into_iter().map(message).collect();
    assert_eq!(
        messages,
        vec![
            "An account with this email already exists",
            "Invalid email or password",
            "Invalid email or password",
            "An error occurred. Please try again",
            "An error occurred. Please try again",
            "Email address is required",
            "An error occurred. Please try again",
            "An error occurred. Please try again",
            "Service temporarily unavailable. Please try again later",
            "An error occurred. Please try again",
        ]
    );
    assert_eq!(
        WebError::InvalidRequest { message: "missing field".to_string() }.user_message(),
        "missing field"
    );
    assert_eq!(WebError::MissingAuth.user_message(), "Authentication required");
    assert_eq!(WebError::InvalidToken.user_message(), "Invalid authentication token");
    assert_eq!(WebError::Timeout.user_message(), "Request timed out. Please try again");
}

#[test]
fn stored_user_is_restored_with_its_times() {
    let user = User::restore(
        "user-9".to_string(),
        "Grace@Example.org",
        BCRYPT_SAMPLE.to_string(),
        "Grace",
        " Hopper ",
        1_000,
        2_000,
    )
    .unwrap();
    assert_eq!(user.id().as_str(), "user-9");
    assert_eq!(user.email().as_str(), "grace@example.org");
    assert_eq!(user.password_hash().as_str(), BCRYPT_SAMPLE);
    assert_eq!(user.first_name().as_str(), "Grace");
    assert_eq!(user.last_name().as_str(), "Hopper");
    assert_eq!(user.created_at(), 1_000);
    assert_eq!(user.updated_at(), 2_000);
}

#[test]
fn stored_user_with_a_fault_is_not_restored() {
    let restore = |id: &str, email: &str, hash: &str, first: &str, last: &str| {
        User::restore(id.to_string(), email, hash.to_string(), first, last, 0, 0)
            .map(|_| ())
            .unwrap_err()
    };
    assert_eq!(restore(" ", "", "", "", ""), UserDomainError::InvalidUserId);
    assert_eq!(restore(&"x".repeat(37), "a@b.co", BCRYPT_SAMPLE, "Ada", "Byron"), UserDomainError::InvalidUserId);
    assert_eq!(restore("u", "", BCRYPT_SAMPLE, "Ada", "Byron"), UserDomainError::EmailRequired);
    assert_eq!(
        restore("u", "a@b.co", "short", "Ada", "Byron"),
        UserDomainError::WeakPassword { message: "Password hash is too short".to_string() }
    );
    assert_eq!(restore("u", "a@b.co", BCRYPT_SAMPLE, "", "Byron"), UserDomainError::EmptyFirstName);
    assert_eq!(restore("u", "a@b.co", BCRYPT_SAMPLE, "Ada", "B"), UserDomainError::InvalidNameFormat);
}
