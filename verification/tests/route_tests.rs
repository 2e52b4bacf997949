use misato::account_model::AccountError;
use misato::api_manager::ApiUserManager;
use misato::apiuser_model::{ApiUser, ApiUserRoleType};
use misato::auth::{
    authenticate_apiuser, authenticate_user, ApiUserToken, ApiUserTokenError, UserTokenError,
};
use misato::bootstrap::seed_admin;
use misato::password::hash_password;
use misato::user_manager::UserManager;
use misato::{admin_account, api_account, api_admin_account, api_root_account, root_account,
    user_account};

const NOW: u64 = 1_700_000_000_000;
const DAY_MS: u64 = 86_400_000;

fn admin_guard() -> ApiUserToken {
    ApiUserToken { apiuser: ApiUser::create_default("bootstrap-token".to_string(), NOW) }
}

fn plain_guard() -> ApiUserToken {
    let mut apiuser = ApiUser::create("guard-uuid".to_string(), NOW);
    apiuser.new_token(86_400, NOW);
    ApiUserToken { apiuser }
}

#[test]
fn end_to_end_signup_lookup_clear() {
    let api = admin_guard();
    let mut um = UserManager::init();
    let infos = admin_account::signup(&api, &mut um, &"alice".to_string(), b"hunter2", NOW)
        .unwrap();
    assert_eq!(infos.timestamp, NOW);
    assert_eq!(infos.expiration_timestamp, NOW + DAY_MS);
    let t1 = infos.token.clone();
    let resolved = um.get_user_from_token(&t1, NOW + 10).unwrap();
    assert_eq!(resolved.username, "alice");
    assert_eq!(resolved.uuid, infos.uuid);
    admin_account::clear_tokens(&api, &mut um, &infos.uuid).unwrap();
    assert!(um.get_user_from_token(&t1, NOW + 20).is_none());
}

#[test]
fn login_with_wrong_password_mutates_nothing() {
    let api = admin_guard();
    let mut um = UserManager::init();
    let infos = admin_account::signup(&api, &mut um, &"alice".to_string(), b"hunter2", NOW)
        .unwrap();
    let outcome = root_account::login(&mut um, &"alice".to_string(), b"wrong-password", NOW);
    assert_eq!(outcome.unwrap_err(), AccountError::AuthenticationFailure);
    // no token was created or removed
    let stored = um.get_user(Some(&"alice".to_string()), None).unwrap();
    assert_eq!(stored.tokens.as_ref().unwrap().len(), 1);
    assert_eq!(stored.tokens.as_ref().unwrap()[0].token, infos.token);
    // unknown usernames are a distinct not-found outcome
    let missing = root_account::login(&mut um, &"nobody".to_string(), b"pw", NOW);
    assert_eq!(missing.unwrap_err(), AccountError::NotFound);
}

#[test]
fn login_with_right_password_appends_a_token() {
    let api = admin_guard();
    let mut um = UserManager::init();
    admin_account::signup(&api, &mut um, &"alice".to_string(), b"hunter2", NOW).unwrap();
    let infos = root_account::login(&mut um, &"alice".to_string(), b"hunter2", NOW + 5).unwrap();
    assert_eq!(infos.timestamp, NOW + 5);
    assert_eq!(infos.expiration_timestamp, NOW + 5 + DAY_MS);
    let stored = um.get_user(Some(&"alice".to_string()), None).unwrap();
    assert_eq!(stored.tokens.as_ref().unwrap().len(), 2);
    assert!(um.get_user_from_token(&infos.token, NOW + 6).is_some());
}

#[test]
fn signup_requires_the_admin_role() {
    let api = plain_guard();
    let mut um = UserManager::init();
    let outcome = admin_account::signup(&api, &mut um, &"alice".to_string(), b"pw", NOW);
    let err = outcome.unwrap_err();
    assert_eq!(err, AccountError::AuthorizationFailure);
    assert_eq!(err.status_code(), 400);
    assert!(!um.username_exists(&"alice".to_string()));
}

#[test]
fn signup_rejects_a_taken_username() {
    let api = admin_guard();
    let mut um = UserManager::init();
    admin_account::signup(&api, &mut um, &"alice".to_string(), b"pw1", NOW).unwrap();
    let second = admin_account::signup(&api, &mut um, &"alice".to_string(), b"pw2", NOW);
    assert_eq!(second.unwrap_err(), AccountError::Conflict);
}

#[test]
fn profile_and_delete_by_uuid() {
    let api = admin_guard();
    let mut um = UserManager::init();
    let infos = admin_account::signup(&api, &mut um, &"bob".to_string(), b"pw", NOW).unwrap();
    let account = admin_account::profile(&api, &um, &infos.uuid).unwrap();
    assert_eq!(account.username, "bob");
    assert_eq!(account.uuid, infos.uuid);
    let by_token = admin_account::profile_from_token(&api, &um, &infos.token, NOW + 1).unwrap();
    assert_eq!(by_token.username, "bob");
    let missing = admin_account::profile(&api, &um, &"no-such-uuid".to_string());
    assert_eq!(missing.unwrap_err(), AccountError::NotFound);
    admin_account::delete(&api, &mut um, &infos.uuid).unwrap();
    let gone = admin_account::profile(&api, &um, &infos.uuid);
    assert_eq!(gone.unwrap_err(), AccountError::NotFound);
}

#[test]
fn admin_refresh_and_check_token() {
    let api = admin_guard();
    let mut um = UserManager::init();
    let infos = admin_account::signup(&api, &mut um, &"carol".to_string(), b"pw", NOW).unwrap();
    let fresh = admin_account::refresh_token(&api, &mut um, &infos.uuid, NOW + 100).unwrap();
    assert_eq!(fresh.uuid, infos.uuid);
    assert_ne!(fresh.token, infos.token);
    let checked = admin_account::check_token(&api, &um, &fresh.token, NOW + 200).unwrap();
    assert_eq!(checked.token, fresh.token);
    assert_eq!(checked.timestamp, NOW + 100);
    assert_eq!(checked.expiration_timestamp, NOW + 100 + DAY_MS);
    assert_eq!(checked.uuid, infos.uuid);
}

#[test]
fn guards_report_missing_bad_count_and_invalid() {
    let um = UserManager::init();
    let am = ApiUserManager::init();
    let none: Vec<String> = Vec::new();
    let two = vec!["a".to_string(), "b".to_string()];
    let bad = vec!["unknown-token".to_string()];
    assert_eq!(authenticate_user(&none, &um, NOW).unwrap_err(), UserTokenError::Missing);
    assert_eq!(authenticate_user(&two, &um, NOW).unwrap_err(), UserTokenError::BadCount);
    assert_eq!(authenticate_user(&bad, &um, NOW).unwrap_err(), UserTokenError::Invalid);
    assert_eq!(authenticate_apiuser(&none, &am, NOW).unwrap_err(), ApiUserTokenError::Missing);
    assert_eq!(authenticate_apiuser(&two, &am, NOW).unwrap_err(), ApiUserTokenError::BadCount);
    assert_eq!(authenticate_apiuser(&bad, &am, NOW).unwrap_err(), ApiUserTokenError::Invalid);
}

#[test]
fn guard_resolves_a_live_token() {
    let api = admin_guard();
    let mut um = UserManager::init();
    let infos = admin_account::signup(&api, &mut um, &"dora".to_string(), b"pw", NOW).unwrap();
    let keys = vec![infos.token.clone()];
    let resolved = authenticate_user(&keys, &um, NOW + 1).unwrap();
    assert_eq!(resolved.user.username, "dora");
    // the same value after expiry is invalid
    let late = authenticate_user(&keys, &um, NOW + DAY_MS + 1);
    assert_eq!(late.unwrap_err(), UserTokenError::Invalid);
}

#[test]
fn bootstrap_seeding_is_idempotent() {
    let mut am = ApiUserManager::init();
    seed_admin(&mut am, &"first-secret".to_string(), NOW);
    seed_admin(&mut am, &"second-secret".to_string(), NOW + 1);
    let admin = am.get_apiuser(Some(&"admin".to_string()), None).unwrap();
    assert_eq!(admin.token.as_ref().unwrap().token, "second-secret");
    // exactly one bootstrap record: deleting it leaves none
    assert_eq!(am.delete_apiuser(Some(&"admin".to_string()), None), Some(1));
    assert!(am.get_apiuser(Some(&"admin".to_string()), None).is_none());
}

#[test]
fn api_signup_login_and_revocation() {
    let api = admin_guard();
    let mut am = ApiUserManager::init();
    let account = api_account::signup(&api, &mut am, &"svc".to_string(), b"svc-pw", NOW).unwrap();
    assert_eq!(account.username.as_deref(), Some("svc"));
    // the signup token is live
    assert!(am.get_apiuser_from_token(&account.token, NOW + 1).is_some());
    // login replaces it
    let logged = api_account::login(&mut am, &"svc".to_string(), b"svc-pw", NOW + 2).unwrap();
    assert!(am.get_apiuser_from_token(&account.token, NOW + 3).is_none());
    assert!(am.get_apiuser_from_token(&logged.token, NOW + 3).is_some());
    // wrong password authenticates nothing
    let wrong = api_account::login(&mut am, &"svc".to_string(), b"bad", NOW + 4);
    assert_eq!(wrong.unwrap_err(), AccountError::AuthenticationFailure);
    // revoke by value
    api_account::clear_tokens(&mut am, &logged.token, NOW + 5).unwrap();
    assert!(am.get_apiuser_from_token(&logged.token, NOW + 6).is_none());
    let again = api_account::clear_tokens(&mut am, &logged.token, NOW + 7);
    assert_eq!(again.unwrap_err(), AccountError::NotFound);
}

#[test]
fn api_admin_provisioning_flow() {
    let api = admin_guard();
    let mut am = ApiUserManager::init();
    let mut um = UserManager::init();
    let human = admin_account::signup(&api, &mut um, &"erin".to_string(), b"pw", NOW).unwrap();
    // provisioning requires the human account to exist
    let missing = api_admin_account::signup(&api, &mut am, &um, &"ghost".to_string(), NOW);
    assert_eq!(missing.unwrap_err(), AccountError::NotFound);
    let infos = api_admin_account::signup(&api, &mut am, &um, &human.uuid, NOW).unwrap();
    assert_eq!(infos.uuid, human.uuid);
    // provisioning twice is a conflict
    let twice = api_admin_account::signup(&api, &mut am, &um, &human.uuid, NOW);
    assert_eq!(twice.unwrap_err(), AccountError::Conflict);
    // refresh replaces the provisioned token
    let fresh = api_admin_account::refresh_token(&api, &mut am, &human.uuid, NOW + 10).unwrap();
    assert!(am.get_apiuser_from_token(&infos.token, NOW + 11).is_none());
    let checked = api_admin_account::check_token(&api, &am, &fresh.token, NOW + 12).unwrap();
    assert_eq!(checked.uuid, human.uuid);
    // clear, then delete
    api_admin_account::clear_tokens(&api, &mut am, &human.uuid).unwrap();
    let cleared_again = api_admin_account::clear_tokens(&api, &mut am, &human.uuid);
    assert_eq!(cleared_again.unwrap_err(), AccountError::NotFound);
    api_admin_account::delete(&api, &mut am, &human.uuid).unwrap();
    let gone = api_admin_account::delete(&api, &mut am, &human.uuid);
    assert_eq!(gone.unwrap_err(), AccountError::NotFound);
}

#[test]
fn api_root_self_service_flow() {
    let admin = admin_guard();
    let mut am = ApiUserManager::init();
    let mut um = UserManager::init();
    let human = admin_account::signup(&admin, &mut um, &"frank".to_string(), b"pw", NOW).unwrap();
    let user_guard = authenticate_user(&vec![human.token.clone()], &um, NOW + 1).unwrap();
    let infos = api_root_account::signup(&user_guard, &mut am, NOW + 2).unwrap();
    assert_eq!(infos.uuid, human.uuid);
    let twice = api_root_account::signup(&user_guard, &mut am, NOW + 3);
    assert_eq!(twice.unwrap_err(), AccountError::Conflict);
    let fresh = api_root_account::refresh_token(&user_guard, &mut am, NOW + 4).unwrap();
    let api_guard = authenticate_apiuser(&vec![fresh.token.clone()], &am, NOW + 5).unwrap();
    let checked = api_root_account::check_token(&api_guard).unwrap();
    assert_eq!(checked.token, fresh.token);
    assert_eq!(checked.uuid, human.uuid);
    api_root_account::clear_tokens(&api_guard, &mut am, NOW + 6).unwrap();
    assert!(am.get_apiuser_from_token(&fresh.token, NOW + 7).is_none());
}

#[test]
fn user_routes_check_the_presented_value() {
    let admin = admin_guard();
    let mut am = ApiUserManager::init();
    let mut um = UserManager::init();
    let human = admin_account::signup(&admin, &mut um, &"grace".to_string(), b"pw", NOW).unwrap();
    // a guard whose identity key matches the human account
    let mut caller = ApiUser::create(human.uuid.clone(), NOW);
    caller.new_token(86_400, NOW);
    let api = ApiUserToken { apiuser: caller };
    let checked = user_account::check_token(&api, &um, &human.token).unwrap();
    assert_eq!(checked.token, human.token);
    assert_eq!(checked.uuid, human.uuid);
    let wrong = user_account::check_token(&api, &um, &"not-a-token".to_string());
    assert_eq!(wrong.unwrap_err(), AccountError::NotFound);
    user_account::delete(&api, &um, &mut am, &human.token, NOW + 1).unwrap();
    user_account::clear_tokens(&api, &um, &mut am, &human.token).unwrap();
}

#[test]
fn api_check_token_is_reserved_for_the_dev_role() {
    let mut am = ApiUserManager::init();
    let mut caller = ApiUser::create("dev-uuid".to_string(), NOW);
    caller.access.role = ApiUserRoleType::Dev;
    let token = caller.new_token(86_400, NOW);
    am.create_apiuser(&caller);
    let api = ApiUserToken { apiuser: caller };
    let account = api_account::check_token(&api, &am, NOW + 1).unwrap();
    assert_eq!(account.uuid, "dev-uuid");
    assert_eq!(account.token, token.token);
    // any other role is refused
    let admin = admin_guard();
    let refused = api_account::check_token(&admin, &am, NOW + 1);
    assert_eq!(refused.unwrap_err(), AccountError::AuthorizationFailure);
}

#[test]
fn error_codes_follow_the_taxonomy() {
    assert_eq!(AccountError::Conflict.status_code(), 400);
    assert_eq!(AccountError::NotFound.status_code(), 400);
    assert_eq!(AccountError::AuthenticationFailure.status_code(), 400);
    assert_eq!(AccountError::AuthorizationFailure.status_code(), 400);
    assert_eq!(AccountError::StoreFailure.status_code(), 500);
}

#[test]
fn api_delete_by_own_token() {
    let admin = admin_guard();
    let mut am = ApiUserManager::init();
    let account = api_account::signup(&admin, &mut am, &"henry".to_string(), b"pw", NOW).unwrap();
    let guard = authenticate_apiuser(&vec![account.token.clone()], &am, NOW + 1).unwrap();
    api_account::delete(&guard, &mut am, NOW + 2).unwrap();
    assert!(am.get_apiuser(Some(&"henry".to_string()), None).is_none());
    // deleting again through the stale guard finds nothing
    let again = api_account::delete(&guard, &mut am, NOW + 3);
    assert_eq!(again.unwrap_err(), AccountError::NotFound);
}
