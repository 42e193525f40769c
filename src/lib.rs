//! The core of an authentication service: account, challenge and revocation
//! stores, session tokens, and the signup / login / second-factor / logout /
//! token-check flows that tie them together, each with its contract.

pub mod auth;
pub mod data_stores;
pub mod email;
pub mod error;
pub mod hashmap_banned_token_store;
pub mod hashmap_two_fa_code_store;
pub mod hashmap_user_store;
pub mod hashset_banned_token_store;
pub mod password;
pub mod password_hash;
pub mod postgres_user_store;
pub mod redis_banned_token_store;
pub mod redis_two_fa_code_store;
pub mod routes;
pub mod table;
pub mod token_store;
pub mod user;

pub use auth::{
    generate_auth_token, generate_auth_token_at, token_expiry, validate_token, validate_token_at, Claims,
    GenerateTokenError, JWT_COOKIE_NAME, TOKEN_TTL_SECONDS,
};
pub use data_stores::{
    LoginAttemptId, TwoFACode, TwoFACodeStore, TwoFACodeStoreError, UserStore, UserStoreError,
};
pub use email::Email;
pub use error::{log_error_chain, AuthAPIError, ErrorResponse, ParseError};
pub use hashmap_banned_token_store::HashMapBannedTokenStore;
pub use hashmap_two_fa_code_store::HashmapTwoFACodeStore;
pub use hashmap_user_store::HashmapUserStore;
pub use hashset_banned_token_store::HashSetBannedTokenStore;
pub use password::Password;
pub use routes::{
    login, logout, signup, verify_2fa, verify_token, LoginOutcome, LoginResponse, SignupResponse,
    TwoFactorAuthResponse,
};
pub use table::StringTable;
pub use token_store::{BannedTokenStore, BannedTokenStoreError};
pub use user::User;
