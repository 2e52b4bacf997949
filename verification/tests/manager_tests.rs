use misato::api_manager::ApiUserManager;
use misato::apiuser_model::{ApiUser, ApiUserAccess, ApiUserRoleType, ApiUserToken};
use misato::password::hash_password;
use misato::user_manager::UserManager;
use misato::user_model::{User, UserAccess, UserRoleType, UserToken};

fn plain_user(uuid: &str, username: &str) -> User {
    User {
        timestamp: 1,
        uuid: uuid.to_string(),
        username: username.to_string(),
        logs: None,
        password: Some(hash_password(b"pw")),
        tokens: None,
        access: UserAccess { role: UserRoleType::User, permissions: None },
    }
}

fn user_token(value: &str, issued: u64, expires: u64) -> UserToken {
    UserToken { token: value.to_string(), timestamp: issued, expiration_timestamp: expires }
}

#[test]
fn expired_token_never_matches_even_with_exact_value() {
    let mut um = UserManager::init();
    let mut user = plain_user("u-1", "alice");
    user.tokens = Some(vec![user_token("tok-exact", 0, 5)]);
    um.create_user(&user);
    // expires_at < now: no match, value equality notwithstanding
    assert!(um.get_user_from_token(&"tok-exact".to_string(), 6).is_none());
    // at expires_at == now the token is still live
    assert!(um.get_user_from_token(&"tok-exact".to_string(), 5).is_some());
    assert_eq!(um.delete_user_from_token(&"tok-exact".to_string(), 6), 0);
    assert_eq!(um.clear_tokens_from_token(&"tok-exact".to_string(), 6), 0);
}

#[test]
fn expired_apiuser_token_never_matches() {
    let mut am = ApiUserManager::init();
    let mut apiuser = ApiUser::create("svc-1".to_string(), 1);
    apiuser.token = Some(ApiUserToken {
        token: "svc-tok".to_string(),
        timestamp: 0,
        expiration_timestamp: 5,
    });
    am.create_apiuser(&apiuser);
    assert!(am.get_apiuser_from_token(&"svc-tok".to_string(), 6).is_none());
    assert!(am.get_apiuser_from_token(&"svc-tok".to_string(), 4).is_some());
}

#[test]
fn lookup_tie_break_username_wins() {
    let mut um = UserManager::init();
    um.create_user(&plain_user("A1", "a"));
    um.create_user(&plain_user("B1", "b"));
    // both criteria supplied: the username criterion wins outright
    let found = um.get_user(Some(&"b".to_string()), Some(&"A1".to_string())).unwrap();
    assert_eq!(found.uuid, "B1");
    assert_eq!(found.username, "b");
    // neither criterion: no query at all
    assert!(um.get_user(None, None).is_none());
    // the same precedence on delete
    let deleted = um.delete_user(Some(&"b".to_string()), Some(&"A1".to_string()));
    assert_eq!(deleted, Some(1));
    assert!(um.get_user(Some(&"b".to_string()), None).is_none());
    assert!(um.get_user(None, Some(&"A1".to_string())).is_some());
}

#[test]
fn apiuser_single_token_replacement() {
    let mut am = ApiUserManager::init();
    let mut apiuser = ApiUser::create("svc-2".to_string(), 1);
    let first = apiuser.new_token(86_400, 10);
    am.create_apiuser(&apiuser);
    assert!(am.get_apiuser_from_token(&first.token, 20).is_some());
    let second = ApiUserToken {
        token: "replacement-token".to_string(),
        timestamp: 30,
        expiration_timestamp: 30 + 86_400_000,
    };
    assert_eq!(am.set_token(&"svc-2".to_string(), &second), 1);
    // the first value no longer matches anything
    assert!(am.get_apiuser_from_token(&first.token, 40).is_none());
    assert!(am.get_apiuser_from_token(&"replacement-token".to_string(), 40).is_some());
}

#[test]
fn user_tokens_accumulate_and_clear_whole() {
    let mut um = UserManager::init();
    um.create_user(&plain_user("u-7", "carol"));
    assert_eq!(um.save_token(&"u-7".to_string(), &user_token("t1", 10, 1_000_000)), 1);
    assert_eq!(um.save_token(&"u-7".to_string(), &user_token("t2", 20, 1_000_000)), 1);
    // both tokens are independently live
    assert!(um.get_user_from_token(&"t1".to_string(), 30).is_some());
    assert!(um.get_user_from_token(&"t2".to_string(), 30).is_some());
    // revoking by one value unsets the whole collection: partial
    // revocation is not supported
    assert_eq!(um.clear_tokens_from_token(&"t1".to_string(), 30), 1);
    assert!(um.get_user_from_token(&"t1".to_string(), 30).is_none());
    assert!(um.get_user_from_token(&"t2".to_string(), 30).is_none());
    let stored = um.get_user(None, Some(&"u-7".to_string())).unwrap();
    assert!(stored.tokens.is_none());
}

#[test]
fn clear_tokens_counts_modification_only() {
    let mut um = UserManager::init();
    um.create_user(&plain_user("u-8", "dave"));
    // no collection to unset: matched but not modified
    assert_eq!(um.clear_tokens(&"u-8".to_string()), 0);
    assert_eq!(um.save_token(&"u-8".to_string(), &user_token("t", 1, 100)), 1);
    assert_eq!(um.clear_tokens(&"u-8".to_string()), 1);
    assert_eq!(um.clear_tokens(&"missing".to_string()), 0);
}

#[test]
fn apiuser_upsert_is_idempotent_and_second_write_wins() {
    let mut am = ApiUserManager::init();
    let first = ApiUser {
        timestamp: 1,
        uuid: "id-one".to_string(),
        username: Some("svc".to_string()),
        password: None,
        token: None,
        access: ApiUserAccess { role: ApiUserRoleType::User, permissions: None },
    };
    let second = ApiUser {
        timestamp: 2,
        uuid: "id-two".to_string(),
        username: Some("svc".to_string()),
        password: Some(hash_password(b"pw")),
        token: None,
        access: ApiUserAccess { role: ApiUserRoleType::Dev, permissions: None },
    };
    am.create_apiuser(&first);
    am.create_apiuser(&second);
    // replaced whole: the stored record is exactly the second payload
    let stored = am.get_apiuser(Some(&"svc".to_string()), None).unwrap();
    assert_eq!(stored.uuid, "id-two");
    assert_eq!(stored.timestamp, 2);
    assert_eq!(stored.access.role, ApiUserRoleType::Dev);
    assert!(stored.password.is_some());
    // nothing is left of the first payload
    assert!(am.get_apiuser(None, Some(&"id-one".to_string())).is_none());
}

#[test]
fn exists_checks_and_empty_criteria() {
    let mut um = UserManager::init();
    um.create_user(&plain_user("u-9", "erin"));
    assert!(um.username_exists(&"erin".to_string()));
    assert!(!um.username_exists(&"nobody".to_string()));
    assert!(um.uuid_exists(&"u-9".to_string()));
    assert!(!um.uuid_exists(&"u-10".to_string()));
    // delete with no criteria is no query, not a zero-match outcome
    assert_eq!(um.delete_user(None, None), None);
    assert_eq!(um.delete_user(Some(&"nobody".to_string()), None), Some(0));

    let mut am = ApiUserManager::init();
    am.create_apiuser(&ApiUser::create("svc-9".to_string(), 1));
    assert!(!am.username_exists(&"svc-9".to_string()));
    assert_eq!(am.delete_apiuser(None, None), None);
    assert_eq!(am.delete_apiuser(None, Some(&"svc-9".to_string())), Some(1));
}

#[test]
fn filter_construction_prefers_the_username() {
    let name = "b".to_string();
    let id = "A1".to_string();
    let both = misato::filter::lookup_filter(Some(&name), Some(&id));
    assert!(matches!(both, Some(misato::filter::Filter::ByUsername(_))));
    let id_only = misato::filter::lookup_filter(None, Some(&id));
    assert!(matches!(id_only, Some(misato::filter::Filter::ByUuid(_))));
    assert!(matches!(misato::filter::lookup_filter(None, None), None));
}

#[test]
fn fresh_identity_keys_differ() {
    let a = User::create("u1".to_string(), hash_password(b"x"), None, 1);
    let b = User::create("u2".to_string(), hash_password(b"x"), None, 1);
    assert_ne!(a.uuid, b.uuid);
    assert_eq!(a.uuid.chars().count(), 36);
}
