//! Admin-guarded provisioning routes for token-only service accounts.
//!
//! A service account is provisioned here for an already existing human
//! account, keyed by that account's identity key; it carries no username
//! and no credential of its own.

use vstd::prelude::*;
use crate::account_model::{AccountError, AccountTokenInfos};
use crate::api_manager::{
    ApiUserManager, first_apiuser_match_at, first_apiuser_username_match_at, no_apiuser_match,
    no_apiuser_username_match,
};
use crate::apiuser_model::{
    ApiUser, ApiUserAccessView, ApiUserRoleType, ApiUserView, apiuser_with_token,
    apiuser_without_token,
};
use crate::auth::ApiUserToken;
use crate::filter::StoreSelector;
use crate::token::{TOKEN_DURATION, TokenView};
use crate::user_manager::{UserManager, no_user_match};

verus! {

/// The caller holds the administrator role of the service domain.
pub open spec fn caller_is_admin(api: &ApiUserToken) -> bool {
    api.apiuser@.access.role == ApiUserRoleType::Admin
}

/// The token-only record that provisioning stores: keyed by `uuid`,
/// stamped `now`, no username, no credential, the default role, and the
/// single token `tv`.
pub open spec fn provisioned_record(uuid: Seq<char>, tv: TokenView, now: u64) -> ApiUserView {
    ApiUserView {
        timestamp: now,
        uuid: uuid,
        username: None,
        password: None,
        token: Some(tv),
        access: ApiUserAccessView { role: ApiUserRoleType::User, permissions: None },
    }
}

/// Provision a service account for the human account keyed by `uuid`: the
/// key must not already have a service account, must belong to an existing
/// human account, and the stored record gets one fresh day-long token.
/// Storage is the domain's upsert, keyed by the (absent) username.
pub fn signup(
    api: &ApiUserToken,
    am: &mut ApiUserManager,
    um: &UserManager,
    uuid: &String,
    now: u64,
) -> (r: Result<AccountTokenInfos, AccountError>)
    requires
        now + TOKEN_DURATION * 1000 <= u64::MAX,
    ensures
        !caller_is_admin(api) ==> r == Err::<AccountTokenInfos, AccountError>(
            AccountError::AuthorizationFailure,
        ) && final(am)@ == old(am)@,
        caller_is_admin(api) && !no_apiuser_match(old(am)@, StoreSelector::ByUuid(uuid@)) ==> r
            == Err::<AccountTokenInfos, AccountError>(AccountError::Conflict) && final(am)@ == old(am)@,
        caller_is_admin(api) && no_apiuser_match(old(am)@, StoreSelector::ByUuid(uuid@))
            && no_user_match(um@, StoreSelector::ByUuid(uuid@)) ==> r == Err::<
            AccountTokenInfos,
            AccountError,
        >(AccountError::NotFound) && final(am)@ == old(am)@,
        caller_is_admin(api) && no_apiuser_match(old(am)@, StoreSelector::ByUuid(uuid@))
            && !no_user_match(um@, StoreSelector::ByUuid(uuid@)) ==> (r is Ok && ({
            let infos = r.unwrap();
            let u = provisioned_record(
                uuid@,
                TokenView {
                    token: infos.token@,
                    timestamp: now,
                    expiration_timestamp: (now + TOKEN_DURATION * 1000) as u64,
                },
                now,
            );
            &&& (no_apiuser_username_match(old(am)@, Option::None) ==> final(am)@
                == old(am)@.push(u))
            &&& forall|i: int|
                #[trigger] first_apiuser_username_match_at(old(am)@, Option::None, i)
                    ==> final(am)@ == old(am)@.update(i, u)
            &&& infos.uuid@ == uuid@
            &&& infos.token@.len() == 128
            &&& infos.timestamp == now
            &&& infos.expiration_timestamp == now + TOKEN_DURATION * 1000
        })),
{
    if !(api.apiuser.access.role == ApiUserRoleType::Admin) {
        return Err(AccountError::AuthorizationFailure);
    }
    match am.get_apiuser(None, Some(uuid)) {
        Option::Some(_) => {
            return Err(AccountError::Conflict);
        },
        Option::None => {},
    }
    if !um.uuid_exists(uuid) {
        return Err(AccountError::NotFound);
    }
    let mut user = ApiUser::create(uuid.clone(), now);
    let token = user.new_token(TOKEN_DURATION, now);
    am.create_apiuser(&user);
    Ok(
        AccountTokenInfos {
            token: token.token,
            timestamp: token.timestamp,
            expiration_timestamp: token.expiration_timestamp,
            uuid: user.uuid,
        },
    )
}

/// Issue a fresh day-long token for the service account keyed by `uuid`,
/// displacing its previous one.
pub fn refresh_token(api: &ApiUserToken, am: &mut ApiUserManager, uuid: &String, now: u64) -> (r:
    Result<AccountTokenInfos, AccountError>)
    requires
        now + TOKEN_DURATION * 1000 <= u64::MAX,
    ensures
        !caller_is_admin(api) ==> r == Err::<AccountTokenInfos, AccountError>(
            AccountError::AuthorizationFailure,
        ) && final(am)@ == old(am)@,
        caller_is_admin(api) && no_apiuser_match(old(am)@, StoreSelector::ByUuid(uuid@)) ==> r
            == Err::<AccountTokenInfos, AccountError>(AccountError::NotFound) && final(am)@
            == old(am)@,
        forall|i: int|
            (caller_is_admin(api) && #[trigger] first_apiuser_match_at(
                old(am)@,
                StoreSelector::ByUuid(uuid@),
                i,
            )) ==> (r is Ok && ({
                let infos = r.unwrap();
                &&& final(am)@ == old(am)@.update(
                    i,
                    apiuser_with_token(
                        old(am)@[i],
                        TokenView {
                            token: infos.token@,
                            timestamp: now,
                            expiration_timestamp: (now + TOKEN_DURATION * 1000) as u64,
                        },
                    ),
                )
                &&& infos.uuid@ == old(am)@[i].uuid
                &&& infos.token@.len() == 128
                &&& infos.timestamp == now
                &&& infos.expiration_timestamp == now + TOKEN_DURATION * 1000
            })),
{
    if !(api.apiuser.access.role == ApiUserRoleType::Admin) {
        return Err(AccountError::AuthorizationFailure);
    }
    match am.get_apiuser(None, Some(uuid)) {
        Option::None => Err(AccountError::NotFound),
        Option::Some(mut user) => {
            let token = user.new_token(TOKEN_DURATION, now);
            let _ = am.set_token(&user.uuid, &token);
            Ok(
                AccountTokenInfos {
                    token: token.token,
                    timestamp: token.timestamp,
                    expiration_timestamp: token.expiration_timestamp,
                    uuid: user.uuid,
                },
            )
        },
    }
}

/// Resolve a live service token and report its record: value, issue and
/// expiry timestamps, and the holder's identity key.
pub fn check_token(api: &ApiUserToken, am: &ApiUserManager, token: &String, now: u64) -> (r: Result<
    AccountTokenInfos,
    AccountError,
>)
    ensures
        !caller_is_admin(api) ==> r == Err::<AccountTokenInfos, AccountError>(
            AccountError::AuthorizationFailure,
        ),
        caller_is_admin(api) && no_apiuser_match(am@, StoreSelector::ByLiveToken(token@, now)) ==> r
            == Err::<AccountTokenInfos, AccountError>(AccountError::NotFound),
        forall|i: int|
            (caller_is_admin(api) && #[trigger] first_apiuser_match_at(
                am@,
                StoreSelector::ByLiveToken(token@, now),
                i,
            )) ==> (r is Ok && ({
                let infos = r.unwrap();
                &&& (am@[i].token matches Some(t) && infos.token@ == t.token && infos.timestamp
                    == t.timestamp && infos.expiration_timestamp == t.expiration_timestamp)
                &&& infos.uuid@ == am@[i].uuid
            })),
{
    if !(api.apiuser.access.role == ApiUserRoleType::Admin) {
        return Err(AccountError::AuthorizationFailure);
    }
    match am.get_apiuser_from_token(token, now) {
        Option::None => Err(AccountError::NotFound),
        Option::Some(user) => match &user.token {
            Option::Some(t) => Ok(
                AccountTokenInfos {
                    token: t.token.clone(),
                    timestamp: t.timestamp,
                    expiration_timestamp: t.expiration_timestamp,
                    uuid: user.uuid.clone(),
                },
            ),
            Option::None => {
                proof {
                    assert(false);
                }
                Err(AccountError::NotFound)
            },
        },
    }
}

/// Delete the service account keyed by `uuid`; a key that matches nothing
/// is reported as not found.
pub fn delete(api: &ApiUserToken, am: &mut ApiUserManager, uuid: &String) -> (r: Result<
    (),
    AccountError,
>)
    ensures
        !caller_is_admin(api) ==> r == Err::<(), AccountError>(AccountError::AuthorizationFailure)
            && final(am)@ == old(am)@,
        caller_is_admin(api) && no_apiuser_match(old(am)@, StoreSelector::ByUuid(uuid@)) ==> r
            == Err::<(), AccountError>(AccountError::NotFound) && final(am)@ == old(am)@,
        forall|i: int|
            (caller_is_admin(api) && #[trigger] first_apiuser_match_at(
                old(am)@,
                StoreSelector::ByUuid(uuid@),
                i,
            )) ==> r is Ok && final(am)@ == old(am)@.remove(i),
{
    if !(api.apiuser.access.role == ApiUserRoleType::Admin) {
        return Err(AccountError::AuthorizationFailure);
    }
    match am.delete_apiuser(None, Some(uuid)) {
        Option::Some(count) => {
            if count >= 1 {
                Ok(())
            } else {
                Err(AccountError::NotFound)
            }
        },
        Option::None => {
            proof {
                assert(false);
            }
            Err(AccountError::NotFound)
        },
    }
}

/// Unset the token of the service account keyed by `uuid`. Not-found
/// covers both a missing account and one that held no token, mirroring a
/// modified-count of zero.
pub fn clear_tokens(api: &ApiUserToken, am: &mut ApiUserManager, uuid: &String) -> (r: Result<
    (),
    AccountError,
>)
    ensures
        !caller_is_admin(api) ==> r == Err::<(), AccountError>(AccountError::AuthorizationFailure)
            && final(am)@ == old(am)@,
        caller_is_admin(api) && no_apiuser_match(old(am)@, StoreSelector::ByUuid(uuid@)) ==> r
            == Err::<(), AccountError>(AccountError::NotFound) && final(am)@ == old(am)@,
        forall|i: int|
            (caller_is_admin(api) && #[trigger] first_apiuser_match_at(
                old(am)@,
                StoreSelector::ByUuid(uuid@),
                i,
            )) ==> final(am)@ == old(am)@.update(i, apiuser_without_token(old(am)@[i])) && (r is Ok
                <==> old(am)@[i].token is Some) && (r is Err ==> r == Err::<(), AccountError>(
                AccountError::NotFound,
            )),
{
    if !(api.apiuser.access.role == ApiUserRoleType::Admin) {
        return Err(AccountError::AuthorizationFailure);
    }
    let modified = am.clear_tokens(uuid);
    if modified == 1 {
        Ok(())
    } else {
        Err(AccountError::NotFound)
    }
}

} // verus!
