//! Service-account routes: signup and login for credentialed API accounts,
//! plus token inspection and revocation.

use vstd::prelude::*;
use crate::account_model::{AccountError, ApiAccount};
use crate::api_manager::{
    ApiUserManager, apiuser_username_is, first_apiuser_match_at, no_apiuser_match,
    no_apiuser_username_match, opt_username_view,
};
use crate::apiuser_model::{ApiUser, ApiUserRoleType, apiuser_with_token, apiuser_without_token};
use crate::auth::ApiUserToken;
use crate::filter::StoreSelector;
use crate::password::{hash_password, is_correct_password, password_matches};
use crate::token::{TOKEN_DURATION, TokenView};

verus! {

/// Sign a new credentialed service account up. Only an admin caller with a
/// token may provision one; a taken username is a conflict. The stored
/// record carries a hashed credential and one fresh day-long token.
pub fn signup(
    api: &ApiUserToken,
    am: &mut ApiUserManager,
    username: &String,
    password: &[u8],
    now: u64,
) -> (r: Result<ApiAccount, AccountError>)
    requires
        password@.len() <= 0xFFFF_FFFF,
        now + TOKEN_DURATION * 1000 <= u64::MAX,
    ensures
        !(api.apiuser@.access.role == ApiUserRoleType::Admin) || api.apiuser@.token is None ==> r
            == Err::<ApiAccount, AccountError>(AccountError::AuthorizationFailure) && final(am)@
            == old(am)@,
        api.apiuser@.access.role == ApiUserRoleType::Admin && api.apiuser@.token is Some
            && !no_apiuser_match(old(am)@, StoreSelector::ByUsername(username@)) ==> r == Err::<
            ApiAccount,
            AccountError,
        >(AccountError::Conflict) && final(am)@ == old(am)@,
        api.apiuser@.access.role == ApiUserRoleType::Admin && api.apiuser@.token is Some
            && no_apiuser_match(old(am)@, StoreSelector::ByUsername(username@)) ==> (r is Ok && ({
            let acc = r.unwrap();
            let u = final(am)@.last();
            &&& final(am)@ == old(am)@.push(u)
            &&& u.username == Some(username@)
            &&& opt_username_view(acc.username) == Some(username@)
            &&& u.uuid == acc.uuid@
            &&& u.uuid.len() == 36
            &&& u.timestamp == now
            &&& (u.password matches Some(c) && password_matches(password@, c))
            &&& u.token == Some(
                TokenView {
                    token: acc.token@,
                    timestamp: now,
                    expiration_timestamp: (now + TOKEN_DURATION * 1000) as u64,
                },
            )
            &&& acc.token@.len() == 128
        })),
{
    if !(api.apiuser.access.role == ApiUserRoleType::Admin) || api.apiuser.token.is_none() {
        return Err(AccountError::AuthorizationFailure);
    }
    if am.username_exists(username) {
        return Err(AccountError::Conflict);
    }
    let mut user = ApiUser::create_with_password(username.clone(), hash_password(password), None, now);
    let token = user.new_token(TOKEN_DURATION, now);
    proof {
        assert forall|j: int| 0 <= j < old(am)@.len() implies !apiuser_username_is(
            #[trigger] old(am)@[j],
            Some(username@),
        ) by {
            assert(!crate::api_manager::apiuser_matches(
                old(am)@[j],
                StoreSelector::ByUsername(username@),
            ));
        }
        assert(no_apiuser_username_match(old(am)@, user@.username));
    }
    am.create_apiuser(&user);
    Ok(ApiAccount { username: user.username, uuid: user.uuid, token: token.token })
}

/// Login succeeds on record `u` iff it carries a credential and `password`
/// is the plaintext behind it.
pub open spec fn login_accepted(u: crate::apiuser_model::ApiUserView, password: Seq<u8>) -> bool {
    u.password is Some && password_matches(password, u.password.unwrap())
}

/// What a successful login leaves behind: the returned account mirrors the
/// matched record `u`, its token is 128 fresh characters, and the store
/// `post` is `pre` with the first record keyed like `u` carrying exactly
/// that token, its prior one displaced.
pub open spec fn login_issued(
    pre: Seq<crate::apiuser_model::ApiUserView>,
    post: Seq<crate::apiuser_model::ApiUserView>,
    u: crate::apiuser_model::ApiUserView,
    acc: ApiAccount,
    now: u64,
) -> bool {
    &&& acc.uuid@ == u.uuid
    &&& opt_username_view(acc.username) == u.username
    &&& acc.token@.len() == 128
    &&& forall|j: int|
        #[trigger] first_apiuser_match_at(pre, StoreSelector::ByUuid(u.uuid), j) ==> post
            == pre.update(
            j,
            apiuser_with_token(
                pre[j],
                TokenView {
                    token: acc.token@,
                    timestamp: now,
                    expiration_timestamp: (now + TOKEN_DURATION * 1000) as u64,
                },
            ),
        )
}

/// Log a credentialed service account in: verify the password against the
/// stored credential and, on success, issue a fresh day-long token that
/// replaces the account's previous one. A wrong password, or an account
/// without a credential, authenticates nothing and mutates nothing.
pub fn login(am: &mut ApiUserManager, username: &String, password: &[u8], now: u64) -> (r: Result<
    ApiAccount,
    AccountError,
>)
    requires
        now + TOKEN_DURATION * 1000 <= u64::MAX,
    ensures
        no_apiuser_match(old(am)@, StoreSelector::ByUsername(username@)) ==> r == Err::<
            ApiAccount,
            AccountError,
        >(AccountError::NotFound) && final(am)@ == old(am)@,
        forall|i: int|
            #[trigger] first_apiuser_match_at(old(am)@, StoreSelector::ByUsername(username@), i)
                ==> ({
                let u = old(am)@[i];
                &&& (!login_accepted(u, password@) ==> r == Err::<ApiAccount, AccountError>(
                    AccountError::AuthenticationFailure,
                ) && final(am)@ == old(am)@)
                &&& (login_accepted(u, password@) ==> (r is Ok && login_issued(
                    old(am)@,
                    final(am)@,
                    u,
                    r.unwrap(),
                    now,
                )))
            }),
{
    match am.get_apiuser(Some(username), None) {
        Option::None => Err(AccountError::NotFound),
        Option::Some(mut user) => {
            let credential_ok = match &user.password {
                Option::Some(p) => is_correct_password(password, p),
                Option::None => false,
            };
            if credential_ok {
                let token = user.new_token(TOKEN_DURATION, now);
                let _ = am.set_token(&user.uuid, &token);
                Ok(ApiAccount { username: user.username, uuid: user.uuid, token: token.token })
            } else {
                Err(AccountError::AuthenticationFailure)
            }
        },
    }
}

/// Report the caller's own account as resolved from its token; the route
/// is reserved for the `Dev` role.
pub fn check_token(api: &ApiUserToken, am: &ApiUserManager, now: u64) -> (r: Result<
    ApiAccount,
    AccountError,
>)
    ensures
        !(api.apiuser@.access.role == ApiUserRoleType::Dev) || api.apiuser@.token is None ==> r
            == Err::<ApiAccount, AccountError>(AccountError::AuthorizationFailure),
        api.apiuser@.access.role == ApiUserRoleType::Dev && api.apiuser@.token is Some ==> ({
            let k = StoreSelector::ByLiveToken(api.apiuser@.token.unwrap().token, now);
            match r {
                Result::Err(e) => e == AccountError::NotFound && no_apiuser_match(am@, k),
                Result::Ok(acc) => exists|i: int|
                    #[trigger] first_apiuser_match_at(am@, k, i) && acc.uuid@ == am@[i].uuid
                        && opt_username_view(acc.username) == am@[i].username && acc.token@
                        == api.apiuser@.token.unwrap().token,
            }
        }),
{
    if !(api.apiuser.access.role == ApiUserRoleType::Dev) {
        return Err(AccountError::AuthorizationFailure);
    }
    match &api.apiuser.token {
        Option::None => Err(AccountError::AuthorizationFailure),
        Option::Some(t) => {
            let value = t.token.clone();
            match am.get_apiuser_from_token(&value, now) {
                Option::Some(user) => Ok(
                    ApiAccount { username: user.username, uuid: user.uuid, token: value },
                ),
                Option::None => Err(AccountError::NotFound),
            }
        },
    }
}

/// Delete the account holding the caller's own live token.
pub fn delete(api: &ApiUserToken, am: &mut ApiUserManager, now: u64) -> (r: Result<
    (),
    AccountError,
>)
    ensures
        api.apiuser@.token is None ==> r == Err::<(), AccountError>(
            AccountError::AuthorizationFailure,
        ) && final(am)@ == old(am)@,
        api.apiuser@.token is Some ==> ({
            let k = StoreSelector::ByLiveToken(api.apiuser@.token.unwrap().token, now);
            &&& no_apiuser_match(old(am)@, k) ==> r == Err::<(), AccountError>(
                AccountError::NotFound,
            ) && final(am)@ == old(am)@
            &&& forall|i: int|
                #[trigger] first_apiuser_match_at(old(am)@, k, i) ==> r is Ok && final(am)@ == old(am)@.remove(i)
        }),
{
    match &api.apiuser.token {
        Option::None => Err(AccountError::AuthorizationFailure),
        Option::Some(t) => {
            let count = am.delete_apiuser_from_token(&t.token, now);
            if count >= 1 {
                Ok(())
            } else {
                Err(AccountError::NotFound)
            }
        },
    }
}

/// Revoke by value: unset the single token of the account whose live token
/// equals `token`.
pub fn clear_tokens(am: &mut ApiUserManager, token: &String, now: u64) -> (r: Result<
    (),
    AccountError,
>)
    ensures
        ({
            let k = StoreSelector::ByLiveToken(token@, now);
            &&& no_apiuser_match(old(am)@, k) ==> r == Err::<(), AccountError>(
                AccountError::NotFound,
            ) && final(am)@ == old(am)@
            &&& forall|i: int|
                #[trigger] first_apiuser_match_at(old(am)@, k, i) ==> r is Ok && final(am)@ == old(am)@.update(i, apiuser_without_token(old(am)@[i]))
        }),
{
    let modified = am.clear_tokens_from_token(token, now);
    if modified == 1 {
        Ok(())
    } else {
        Err(AccountError::NotFound)
    }
}

} // verus!
