use misato::apiuser_model::{ApiUser, ApiUserRoleType};
use misato::password::hash_password;
use misato::security::generate_token;
use misato::user_model::{User, UserRoleType};

#[test]
fn generated_token_is_128_alphanumeric_chars() {
    let token = generate_token(128);
    assert_eq!(token.chars().count(), 128);
    assert!(token.chars().all(|c| c.is_ascii_alphanumeric()));
    let short = generate_token(5);
    assert_eq!(short.chars().count(), 5);
}

#[test]
fn user_new_token_timestamps_and_accumulation() {
    let mut user = User::create(
        "alice".to_string(),
        hash_password(b"hunter2"),
        None,
        1_000,
    );
    assert!(user.tokens.is_none());
    let first = user.new_token(86_400, 1_000);
    assert_eq!(first.timestamp, 1_000);
    assert_eq!(first.expiration_timestamp, 1_000 + 86_400_000);
    assert_eq!(first.token.chars().count(), 128);
    let second = user.new_token(86_400, 2_000);
    assert_ne!(first.token, second.token);
    let tokens = user.tokens.as_ref().unwrap();
    assert_eq!(tokens.len(), 2);
    assert_eq!(tokens[0].token, first.token);
    assert_eq!(tokens[1].token, second.token);
}

#[test]
fn apiuser_new_token_replaces_the_previous_one() {
    let mut apiuser = ApiUser::create("service-1".to_string(), 500);
    assert!(apiuser.token.is_none());
    let first = apiuser.new_token(86_400, 500);
    let second = apiuser.new_token(86_400, 600);
    assert_ne!(first.token, second.token);
    let held = apiuser.token.as_ref().unwrap();
    assert_eq!(held.token, second.token);
    assert_eq!(held.timestamp, 600);
    assert_eq!(held.expiration_timestamp, 600 + 86_400_000);
}

#[test]
fn user_create_fills_the_record() {
    let user = User::create("bob".to_string(), hash_password(b"pw"), None, 42);
    assert_eq!(user.username, "bob");
    assert_eq!(user.timestamp, 42);
    assert_eq!(user.uuid.chars().count(), 36);
    assert!(user.logs.is_none());
    assert!(user.tokens.is_none());
    assert!(user.password.is_some());
    assert_eq!(user.access.role, UserRoleType::User);
    assert!(user.access.permissions.is_none());
}

#[test]
fn bootstrap_record_is_the_reserved_admin() {
    let admin = ApiUser::create_default("bootstrap-token".to_string(), 7);
    assert_eq!(admin.uuid, "admin");
    assert_eq!(admin.username.as_deref(), Some("admin"));
    assert_eq!(admin.access.role, ApiUserRoleType::Admin);
    let token = admin.token.as_ref().unwrap();
    assert_eq!(token.token, "bootstrap-token");
    assert_eq!(token.timestamp, 7);
    assert_eq!(token.expiration_timestamp, i64::MAX as u64);
}
