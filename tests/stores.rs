use auth_service::{
    BannedTokenStore, BannedTokenStoreError, Email, HashMapBannedTokenStore, HashSetBannedTokenStore,
    HashmapTwoFACodeStore, HashmapUserStore, LoginAttemptId, Password, StringTable, TwoFACode,
    TwoFACodeStore, TwoFACodeStoreError, User, UserStore, UserStoreError,
};

#[test]
fn hashmap_banned_token_store_test_is_banned() {
    let mut token_store = HashMapBannedTokenStore::default();
    let result = token_store.add_token("token");
    assert!(result.is_ok());
    let result = token_store.is_banned("token");
    assert!(result);
}

#[test]
fn hashmap_banned_token_store_test_add_token() {
    let mut token_store = HashMapBannedTokenStore::default();
    let result = token_store.add_token("token");
    assert!(result.is_ok());
}

#[test]
fn hashmap_banned_token_store_test_add_token_already_exists() {
    let mut token_store = HashMapBannedTokenStore::default();
    let _result = token_store.add_token("token");
    let result = token_store.add_token("token");
    assert!(result.is_ok());
}

#[test]
fn test_remove_token() {
    let mut token_store = HashMapBannedTokenStore::default();
    let result = token_store.add_token("token");
    assert!(result.is_ok());
    let result = token_store.remove_token("token");
    assert!(result.is_ok());
    assert!(!token_store.is_banned("token"));
}

#[test]
fn test_remove_token_not_exist() {
    let mut token_store = HashMapBannedTokenStore::default();
    let result = token_store.remove_token("nonexistent");
    assert!(result.is_err());
}

#[test]
fn should_add_code_successfully() {
    let mut store = HashmapTwoFACodeStore::default();
    let email = Email::parse("test@example.com").unwrap();
    let login_attempt_id = LoginAttemptId::default();
    let code = TwoFACode::default();
    let result = store.add_code(email.clone(), login_attempt_id.clone(), code.clone());
    assert!(result.is_ok());
}

#[test]
fn should_remove_code_successfully() {
    let mut store = HashmapTwoFACodeStore::default();
    let email = Email::parse("test@example.com").unwrap();
    let login_attempt_id = LoginAttemptId::default();
    let code = TwoFACode::default();
    store.add_code(email.clone(), login_attempt_id, code).unwrap();
    let result = store.remove_code(&email);
    assert!(result.is_ok());
}

#[test]
fn should_get_code_successfully() {
    let mut store = HashmapTwoFACodeStore::default();
    let email = Email::parse("test@example.com").unwrap();
    let login_attempt_id = LoginAttemptId::default();
    let code = TwoFACode::default();
    store.add_code(email.clone(), login_attempt_id.clone(), code.clone()).unwrap();
    let result = store.get_code(&email);
    assert!(result.is_ok());
    assert!(result.unwrap() == (login_attempt_id, code));
}

#[test]
fn should_return_error_when_getting_non_existent_code() {
    let store = HashmapTwoFACodeStore::default();
    let email = Email::parse("test@example.com").unwrap();
    let result = store.get_code(&email);
    assert!(result.is_err());
    assert!(result.err() == Some(TwoFACodeStoreError::LoginAttemptIdNotFound));
}

#[test]
fn test_add_user() {
    let mut user_store = HashmapUserStore::default();
    let email = Email::parse("test@test.com").unwrap();
    let password = Password::parse("password").unwrap();
    let user = User::new(email.clone(), password.clone(), false);
    let result = user_store.add_user(user);
    assert!(result.is_ok());
}

#[test]
fn test_get_user() {
    let mut user_store = HashmapUserStore::default();
    let email = Email::parse("test@test.com").unwrap();
    let password = Password::parse("password").unwrap();
    let user = User::new(email.clone(), password.clone(), false);
    let result = user_store.add_user(user);
    assert!(result.is_ok());
    let result = user_store.get_user(&Email::parse("notExist@notExist.com").unwrap());
    assert!(result == Err(UserStoreError::UserNotFound));
}

#[test]
fn test_validate_user() {
    let mut user_store = HashmapUserStore::default();
    let email = Email::parse("test@test.com").unwrap();
    let password = Password::parse("password").unwrap();
    let user = User::new(email.clone(), password.clone(), false);
    let result = user_store.add_user(user);
    assert!(result.is_ok());
    let result = user_store.validate_user(
        &Email::parse("test@test.com").unwrap(),
        &Password::parse("password").unwrap(),
    );
    assert!(result.is_ok());
    let result = user_store.validate_user(
        &Email::parse("test@test.com").unwrap(),
        &Password::parse("wrong_password").unwrap(),
    );
    assert_eq!(result, Err(UserStoreError::InvalidCredentials));
}

#[test]
fn hashset_banned_token_store_test_is_banned() {
    let mut token_store = HashSetBannedTokenStore::default();
    let token = "token";
    let result = token_store.add_token(token);
    assert!(result.is_ok());
    let result = token_store.contains_token(token);
    assert_eq!(result, Ok(true));
}

#[test]
fn hashset_banned_token_store_test_add_token() {
    let mut token_store = HashSetBannedTokenStore::default();
    let result = token_store.add_token("token");
    assert!(result.is_ok());
}

#[test]
fn hashset_banned_token_store_test_add_token_already_exists() {
    let mut token_store = HashSetBannedTokenStore::default();
    let _result = token_store.add_token("token");
    let result = token_store.add_token("token");
    assert!(result.is_ok());
}

#[test]
fn revoked_token_is_reported_at_once() {
    let mut store = HashSetBannedTokenStore::new();
    assert_eq!(store.contains_token("a.b.c"), Ok(false));
    store.add_token("a.b.c").unwrap();
    assert_eq!(store.contains_token("a.b.c"), Ok(true));
    assert_eq!(store.contains_token("a.b.d"), Ok(false));
    let err: Result<(), BannedTokenStoreError> = Err(BannedTokenStoreError::UnexpectedError);
    assert!(err.is_err());
}

#[test]
fn removing_a_challenge_twice_is_no_error() {
    let mut store = HashmapTwoFACodeStore::new();
    let email = Email::parse("test@example.com").unwrap();
    store.add_code(email.clone(), LoginAttemptId::default(), TwoFACode::default()).unwrap();
    assert_eq!(store.remove_code(&email), Ok(()));
    assert_eq!(store.remove_code(&email), Ok(()));
    assert_eq!(store.get_code(&email).err(), Some(TwoFACodeStoreError::LoginAttemptIdNotFound));
}

#[test]
fn new_challenge_replaces_the_old_one() {
    let mut store = HashmapTwoFACodeStore::new();
    let email = Email::parse("test@example.com").unwrap();
    let first = (LoginAttemptId::default(), TwoFACode::parse("111111").unwrap());
    let second = (LoginAttemptId::default(), TwoFACode::parse("222222").unwrap());
    store.add_code(email.clone(), first.0.clone(), first.1.clone()).unwrap();
    store.add_code(email.clone(), second.0.clone(), second.1.clone()).unwrap();
    assert!(store.get_code(&email).unwrap() == second);
}

#[test]
fn adding_a_user_twice_is_refused() {
    let mut store = HashmapUserStore::new();
    let email = Email::parse("test@test.com").unwrap();
    let user = User::new(email.clone(), Password::parse("password").unwrap(), true);
    assert_eq!(store.add_user(user.clone()), Ok(()));
    assert_eq!(store.add_user(user), Err(UserStoreError::UserAlreadyExists));
    let found = store.get_user(&email).unwrap();
    assert!(found.requires_2fa);
    let missing = Email::parse("other@test.com").unwrap();
    let pw = Password::parse("password").unwrap();
    assert_eq!(store.validate_user(&missing, &pw), Err(UserStoreError::UserNotFound));
}

#[test]
fn string_table_insert_get_remove() {
    let mut t: StringTable<u32> = StringTable::new();
    t.insert("a".to_owned(), 1);
    t.insert("b".to_owned(), 2);
    t.insert("a".to_owned(), 3);
    assert_eq!(t.get(&"a".to_owned()), Some(&3));
    assert_eq!(t.get(&"b".to_owned()), Some(&2));
    assert!(!t.contains_key(&"c".to_owned()));
    assert_eq!(t.remove(&"a".to_owned()), Some(3));
    assert_eq!(t.remove(&"a".to_owned()), None);
    assert_eq!(t.get(&"b".to_owned()), Some(&2));
}

#[test]
fn stored_password_is_a_hash() {
    let mut store = HashmapUserStore::new();
    let email = Email::parse("test@test.com").unwrap();
    let user = User::new(email.clone(), Password::parse("password").unwrap(), false);
    store.add_user(user).unwrap();
    let found = store.get_user(&email).unwrap();
    assert_ne!(found.password.as_str(), "password");
    assert!(found.password.as_str().starts_with("$argon2id$"));
}
