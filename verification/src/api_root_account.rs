//! Self-service routes of the service domain: a logged-in human account
//! provisions or refreshes its own service account, and a service caller
//! inspects, deletes or revokes through its own token.

use vstd::prelude::*;
use crate::account_model::{AccountError, AccountTokenInfos};
use crate::api_admin_account::provisioned_record;
use crate::api_manager::{
    ApiUserManager, first_apiuser_match_at, first_apiuser_username_match_at, no_apiuser_match,
    no_apiuser_username_match,
};
use crate::apiuser_model::{ApiUser, apiuser_with_token, apiuser_without_token};
use crate::auth::{ApiUserToken, UserToken};
use crate::filter::StoreSelector;
use crate::token::{TOKEN_DURATION, TokenView};

verus! {

/// Provision a service account for the calling human account's own
/// identity key, with one fresh day-long token. The key must not already
/// have a service account; storage is the domain's upsert, keyed by the
/// (absent) username.
pub fn signup(user: &UserToken, am: &mut ApiUserManager, now: u64) -> (r: Result<
    AccountTokenInfos,
    AccountError,
>)
    requires
        now + TOKEN_DURATION * 1000 <= u64::MAX,
    ensures
        !no_apiuser_match(old(am)@, StoreSelector::ByUuid(user.user@.uuid)) ==> r == Err::<
            AccountTokenInfos,
            AccountError,
        >(AccountError::Conflict) && final(am)@ == old(am)@,
        no_apiuser_match(old(am)@, StoreSelector::ByUuid(user.user@.uuid)) ==> (r is Ok && ({
            let infos = r.unwrap();
            let u = provisioned_record(
                user.user@.uuid,
                TokenView {
                    token: infos.token@,
                    timestamp: now,
                    expiration_timestamp: (now + TOKEN_DURATION * 1000) as u64,
                },
                now,
            );
            &&& (no_apiuser_username_match(old(am)@, Option::None) ==> final(am)@
                == old(am)@.push(u))
            &&& forall|i: int|
                #[trigger] first_apiuser_username_match_at(old(am)@, Option::None, i)
                    ==> final(am)@ == old(am)@.update(i, u)
            &&& infos.uuid@ == user.user@.uuid
            &&& infos.token@.len() == 128
            &&& infos.timestamp == now
            &&& infos.expiration_timestamp == now + TOKEN_DURATION * 1000
        })),
{
    match am.get_apiuser(None, Some(&user.user.uuid)) {
        Option::Some(_) => {
            return Err(AccountError::Conflict);
        },
        Option::None => {},
    }
    let mut apiuser = ApiUser::create(user.user.uuid.clone(), now);
    let token = apiuser.new_token(TOKEN_DURATION, now);
    am.create_apiuser(&apiuser);
    Ok(
        AccountTokenInfos {
            token: token.token,
            timestamp: token.timestamp,
            expiration_timestamp: token.expiration_timestamp,
            uuid: apiuser.uuid,
        },
    )
}

/// Issue a fresh day-long token for the calling human account's own
/// service account, displacing its previous one.
pub fn refresh_token(user: &UserToken, am: &mut ApiUserManager, now: u64) -> (r: Result<
    AccountTokenInfos,
    AccountError,
>)
    requires
        now + TOKEN_DURATION * 1000 <= u64::MAX,
    ensures
        no_apiuser_match(old(am)@, StoreSelector::ByUuid(user.user@.uuid)) ==> r == Err::<
            AccountTokenInfos,
            AccountError,
        >(AccountError::NotFound) && final(am)@ == old(am)@,
        forall|i: int|
            #[trigger] first_apiuser_match_at(
                old(am)@,
                StoreSelector::ByUuid(user.user@.uuid),
                i,
            ) ==> (r is Ok && ({
                let infos = r.unwrap();
                &&& final(am)@ == old(am)@.update(
                    i,
                    apiuser_with_token(
                        old(am)@[i],
                        TokenView {
                            token: infos.token@,
                            timestamp: now,
                            expiration_timestamp: (now + TOKEN_DURATION * 1000) as u64,
                        },
                    ),
                )
                &&& infos.uuid@ == old(am)@[i].uuid
                &&& infos.token@.len() == 128
                &&& infos.timestamp == now
                &&& infos.expiration_timestamp == now + TOKEN_DURATION * 1000
            })),
{
    match am.get_apiuser(None, Some(&user.user.uuid)) {
        Option::None => Err(AccountError::NotFound),
        Option::Some(mut apiuser) => {
            let token = apiuser.new_token(TOKEN_DURATION, now);
            let _ = am.set_token(&apiuser.uuid, &token);
            Ok(
                AccountTokenInfos {
                    token: token.token,
                    timestamp: token.timestamp,
                    expiration_timestamp: token.expiration_timestamp,
                    uuid: apiuser.uuid,
                },
            )
        },
    }
}

/// Report the caller's own token record, straight from the resolved guard.
pub fn check_token(api: &ApiUserToken) -> (r: Result<AccountTokenInfos, AccountError>)
    requires
        api.apiuser@.token is Some,
    ensures
        r is Ok && ({
            let infos = r.unwrap();
            let t = api.apiuser@.token.unwrap();
            &&& infos.token@ == t.token
            &&& infos.timestamp == t.timestamp
            &&& infos.expiration_timestamp == t.expiration_timestamp
            &&& infos.uuid@ == api.apiuser@.uuid
        }),
{
    match &api.apiuser.token {
        Option::Some(t) => Ok(
            AccountTokenInfos {
                token: t.token.clone(),
                timestamp: t.timestamp,
                expiration_timestamp: t.expiration_timestamp,
                uuid: api.apiuser.uuid.clone(),
            },
        ),
        Option::None => {
            proof {
                assert(false);
            }
            Err(AccountError::NotFound)
        },
    }
}

/// Delete the account holding the caller's own live token. A token that no
/// longer resolves deletes nothing, and the route still reports success.
pub fn delete(api: &ApiUserToken, am: &mut ApiUserManager, now: u64) -> (r: Result<
    (),
    AccountError,
>)
    requires
        api.apiuser@.token is Some,
    ensures
        r is Ok,
        ({
            let k = StoreSelector::ByLiveToken(api.apiuser@.token.unwrap().token, now);
            &&& no_apiuser_match(old(am)@, k) ==> final(am)@ == old(am)@
            &&& forall|i: int|
                #[trigger] first_apiuser_match_at(old(am)@, k, i) ==> final(am)@
                    == old(am)@.remove(i)
        }),
{
    match &api.apiuser.token {
        Option::Some(t) => {
            let _ = am.delete_apiuser_from_token(&t.token, now);
            Ok(())
        },
        Option::None => {
            proof {
                assert(false);
            }
            Ok(())
        },
    }
}

/// Unset the caller's own token, located by its live value. A token that
/// no longer resolves revokes nothing, and the route still reports
/// success.
pub fn clear_tokens(api: &ApiUserToken, am: &mut ApiUserManager, now: u64) -> (r: Result<
    (),
    AccountError,
>)
    requires
        api.apiuser@.token is Some,
    ensures
        r is Ok,
        ({
            let k = StoreSelector::ByLiveToken(api.apiuser@.token.unwrap().token, now);
            &&& no_apiuser_match(old(am)@, k) ==> final(am)@ == old(am)@
            &&& forall|i: int|
                #[trigger] first_apiuser_match_at(old(am)@, k, i) ==> final(am)@
                    == old(am)@.update(i, apiuser_without_token(old(am)@[i]))
        }),
{
    match &api.apiuser.token {
        Option::Some(t) => {
            let _ = am.clear_tokens_from_token(&t.token, now);
            Ok(())
        },
        Option::None => {
            proof {
                assert(false);
            }
            Ok(())
        },
    }
}

} // verus!
