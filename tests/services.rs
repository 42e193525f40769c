use auth_service::error::ERROR_REPORT_SEPARATOR;
use auth_service::password_hash::{compute_password_hash, verify_password_hash};
use auth_service::postgres_user_store::{insert_outcome, user_from_row, validate_stored_credentials};
use auth_service::redis_two_fa_code_store::{
    decode_two_fa_entry, encode_two_fa_entry, TEN_MINUTES_IN_SECONDS,
};
use auth_service::{
    log_error_chain, redis_banned_token_store, redis_two_fa_code_store, AuthAPIError, Email,
    LoginAttemptId, Password, TwoFACode, TwoFACodeStoreError, UserStoreError,
};

#[test]
fn errors_map_to_status_and_message() {
    let cases = [
        (AuthAPIError::UserAlreadyExists, 409, "User already exists"),
        (AuthAPIError::InvalidCredentials, 400, "Invalid credentials"),
        (AuthAPIError::IncorrectCredentials, 401, "Incorrect credentials"),
        (AuthAPIError::MissingToken, 400, "Missing auth token"),
        (AuthAPIError::InvalidToken, 401, "Invalid auth token"),
        (AuthAPIError::UnexpectedError, 500, "Unexpected error"),
    ];
    for (e, status, message) in cases {
        assert_eq!(e.status_code(), status);
        assert_eq!(e.error_response().error, message);
    }
}

#[test]
fn error_report_lists_causes_in_order() {
    let causes = vec!["db down".to_owned(), "connection refused".to_owned()];
    let report = log_error_chain("UnexpectedError", &causes);
    let expected = format!(
        "{sep}UnexpectedError\n\nCaused by:\n\ndb down\nCaused by:\n\nconnection refused\n{sep}",
        sep = ERROR_REPORT_SEPARATOR
    );
    assert_eq!(report, expected);
    let bare = log_error_chain("MissingToken", &Vec::new());
    assert_eq!(bare, format!("{sep}MissingToken\n\n{sep}", sep = ERROR_REPORT_SEPARATOR));
}

#[test]
fn backend_keys_carry_their_prefix() {
    assert_eq!(redis_banned_token_store::get_key("abc.def.ghi"), "banned_token:abc.def.ghi");
    let email = Email::parse("test@example.com").unwrap();
    assert_eq!(redis_two_fa_code_store::get_key(&email), "two_fa_code:test@example.com");
    assert_eq!(TEN_MINUTES_IN_SECONDS, 600);
}

#[test]
fn challenge_entry_round_trips() {
    let id = LoginAttemptId::parse("67e55044-10b1-426f-9247-bb680e5fe0c8").unwrap();
    let code = TwoFACode::parse("052321").unwrap();
    let text = encode_two_fa_entry(&id, &code).unwrap();
    assert_eq!(text, r#"["67e55044-10b1-426f-9247-bb680e5fe0c8","052321"]"#);
    let (id2, code2) = decode_two_fa_entry(Some(&text)).unwrap();
    assert!(id2 == id && code2 == code);
}

#[test]
fn challenge_entry_errors() {
    assert_eq!(decode_two_fa_entry(None).err(), Some(TwoFACodeStoreError::LoginAttemptIdNotFound));
    assert_eq!(decode_two_fa_entry(Some("not json")).err(), Some(TwoFACodeStoreError::UnexpectedError));
    assert_eq!(
        decode_two_fa_entry(Some(r#"["not-a-uuid","052321"]"#)).err(),
        Some(TwoFACodeStoreError::UnexpectedError)
    );
    assert_eq!(
        decode_two_fa_entry(Some(r#"["67e55044-10b1-426f-9247-bb680e5fe0c8","52321"]"#)).err(),
        Some(TwoFACodeStoreError::UnexpectedError)
    );
}

#[test]
fn password_hash_verifies_only_its_password() {
    let password = Password::parse("password123").unwrap();
    let hash = compute_password_hash(&password).unwrap();
    assert!(hash.starts_with("$argon2id$v=19$m=15000,t=2,p=1$"));
    assert_ne!(hash, "password123");
    assert_eq!(verify_password_hash(&hash, &password), Ok(()));
    let wrong = Password::parse("password124").unwrap();
    assert_eq!(verify_password_hash(&hash, &wrong), Err(UserStoreError::InvalidCredentials));
    assert_eq!(verify_password_hash("not a hash", &password), Err(UserStoreError::InvalidCredentials));
    let again = compute_password_hash(&password).unwrap();
    assert_ne!(hash, again);
}

#[test]
fn stored_credentials_outcomes() {
    let password = Password::parse("password123").unwrap();
    let hash = compute_password_hash(&password).unwrap();
    assert_eq!(validate_stored_credentials(None, &password), Err(UserStoreError::UserNotFound));
    assert_eq!(validate_stored_credentials(Some(&hash), &password), Ok(()));
    let wrong = Password::parse("wrong password").unwrap();
    assert_eq!(validate_stored_credentials(Some(&hash), &wrong), Err(UserStoreError::InvalidCredentials));
}

#[test]
fn insert_and_row_outcomes() {
    assert_eq!(insert_outcome(0), Err(UserStoreError::UserAlreadyExists));
    assert_eq!(insert_outcome(1), Ok(()));
    let user = user_from_row("a@b.com", "$argon2id$hash", true).unwrap();
    assert_eq!(user.email.as_str(), "a@b.com");
    assert_eq!(user.password.as_str(), "$argon2id$hash");
    assert!(user.requires_2fa);
    assert_eq!(user_from_row("nope", "$argon2id$hash", true).err(), Some(UserStoreError::UnexpectedError));
    assert_eq!(user_from_row("a@b.com", "short", false).err(), Some(UserStoreError::UnexpectedError));
}
