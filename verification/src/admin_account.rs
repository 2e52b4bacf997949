//! Human-account administration routes, guarded by an admin service token.
//!
//! Every route first checks that the resolved service caller holds role
//! `Admin`; a mismatch is an authorization failure distinct from the
//! authentication the guard already did, and mutates nothing.

use vstd::prelude::*;
use crate::account_model::{Account, AccountError, AccountTokenInfos};
use crate::apiuser_model::ApiUserRoleType;
use crate::auth::ApiUserToken;
use crate::filter::StoreSelector;
use crate::password::{hash_password, password_matches};
use crate::token::{TOKEN_DURATION, TokenView, first_token_value_at};
use crate::user_manager::{UserManager, first_user_match_at, no_user_match};
use crate::user_model::{
    User, UserAccessView, UserRoleType, find_token_by_value, user_push_token, user_without_tokens,
};

verus! {

/// The caller holds the administrator role of the service domain.
pub open spec fn caller_is_admin(api: &ApiUserToken) -> bool {
    api.apiuser@.access.role == ApiUserRoleType::Admin
}

/// Sign a new human account up: reject a taken username, then insert the
/// record with a hashed credential and one fresh day-long token.
pub fn signup(
    api: &ApiUserToken,
    um: &mut UserManager,
    username: &String,
    password: &[u8],
    now: u64,
) -> (r: Result<AccountTokenInfos, AccountError>)
    requires
        password@.len() <= 0xFFFF_FFFF,
        now + TOKEN_DURATION * 1000 <= u64::MAX,
    ensures
        !caller_is_admin(api) ==> r == Err::<AccountTokenInfos, AccountError>(
            AccountError::AuthorizationFailure,
        ) && final(um)@ == old(um)@,
        caller_is_admin(api) && !no_user_match(
            old(um)@,
            StoreSelector::ByUsername(username@),
        ) ==> r == Err::<AccountTokenInfos, AccountError>(AccountError::Conflict) && final(um)@
            == old(um)@,
        caller_is_admin(api) && no_user_match(old(um)@, StoreSelector::ByUsername(username@)) ==> (
        r is Ok && ({
            let infos = r.unwrap();
            let u = final(um)@.last();
            &&& final(um)@ == old(um)@.push(u)
            &&& u.username == username@
            &&& u.uuid == infos.uuid@
            &&& u.uuid.len() == 36
            &&& u.timestamp == now
            &&& (u.password matches Some(c) && password_matches(password@, c))
            &&& u.logs is None
            &&& u.access == (UserAccessView { role: UserRoleType::User, permissions: None })
            &&& u.tokens == Some(
                seq![
                    TokenView {
                        token: infos.token@,
                        timestamp: now,
                        expiration_timestamp: (now + TOKEN_DURATION * 1000) as u64,
                    },
                ],
            )
            &&& infos.token@.len() == 128
            &&& infos.timestamp == now
            &&& infos.expiration_timestamp == now + TOKEN_DURATION * 1000
        })),
{
    if !(api.apiuser.access.role == ApiUserRoleType::Admin) {
        return Err(AccountError::AuthorizationFailure);
    }
    let mut user = User::create(username.clone(), hash_password(password), None, now);
    if um.username_exists(username) {
        return Err(AccountError::Conflict);
    }
    let token = user.new_token(TOKEN_DURATION, now);
    um.create_user(&user);
    Ok(
        AccountTokenInfos {
            token: token.token,
            timestamp: token.timestamp,
            expiration_timestamp: token.expiration_timestamp,
            uuid: user.uuid,
        },
    )
}

/// Look a human account up by identity key and return its public identity.
pub fn profile(api: &ApiUserToken, um: &UserManager, uuid: &String) -> (r: Result<
    Account,
    AccountError,
>)
    ensures
        !caller_is_admin(api) ==> r == Err::<Account, AccountError>(
            AccountError::AuthorizationFailure,
        ),
        caller_is_admin(api) ==> match r {
            Result::Err(e) => e == AccountError::NotFound && no_user_match(
                um@,
                StoreSelector::ByUuid(uuid@),
            ),
            Result::Ok(acc) => exists|i: int|
                #[trigger] first_user_match_at(um@, StoreSelector::ByUuid(uuid@), i) && acc.uuid@
                    == um@[i].uuid && acc.username@ == um@[i].username,
        },
{
    if !(api.apiuser.access.role == ApiUserRoleType::Admin) {
        return Err(AccountError::AuthorizationFailure);
    }
    match um.get_user(None, Some(uuid)) {
        Option::Some(user) => Ok(Account { uuid: user.uuid, username: user.username }),
        Option::None => Err(AccountError::NotFound),
    }
}

/// Look a human account up by a live bearer token and return its public
/// identity.
pub fn profile_from_token(api: &ApiUserToken, um: &UserManager, token: &String, now: u64) -> (r:
    Result<Account, AccountError>)
    ensures
        !caller_is_admin(api) ==> r == Err::<Account, AccountError>(
            AccountError::AuthorizationFailure,
        ),
        caller_is_admin(api) ==> match r {
            Result::Err(e) => e == AccountError::NotFound && no_user_match(
                um@,
                StoreSelector::ByLiveToken(token@, now),
            ),
            Result::Ok(acc) => exists|i: int|
                #[trigger] first_user_match_at(um@, StoreSelector::ByLiveToken(token@, now), i)
                    && acc.uuid@ == um@[i].uuid && acc.username@ == um@[i].username,
        },
{
    if !(api.apiuser.access.role == ApiUserRoleType::Admin) {
        return Err(AccountError::AuthorizationFailure);
    }
    match um.get_user_from_token(token, now) {
        Option::Some(user) => Ok(Account { uuid: user.uuid, username: user.username }),
        Option::None => Err(AccountError::NotFound),
    }
}

/// Issue one more day-long token for the account keyed by `uuid` and
/// append it; prior tokens stay live.
pub fn refresh_token(api: &ApiUserToken, um: &mut UserManager, uuid: &String, now: u64) -> (r:
    Result<AccountTokenInfos, AccountError>)
    requires
        now + TOKEN_DURATION * 1000 <= u64::MAX,
    ensures
        !caller_is_admin(api) ==> r == Err::<AccountTokenInfos, AccountError>(
            AccountError::AuthorizationFailure,
        ) && final(um)@ == old(um)@,
        caller_is_admin(api) && no_user_match(old(um)@, StoreSelector::ByUuid(uuid@)) ==> r == Err::<
            AccountTokenInfos,
            AccountError,
        >(AccountError::NotFound) && final(um)@ == old(um)@,
        forall|i: int|
            (caller_is_admin(api) && #[trigger] first_user_match_at(
                old(um)@,
                StoreSelector::ByUuid(uuid@),
                i,
            )) ==> (r is Ok && ({
                let infos = r.unwrap();
                &&& final(um)@ == old(um)@.update(
                    i,
                    user_push_token(
                        old(um)@[i],
                        TokenView {
                            token: infos.token@,
                            timestamp: now,
                            expiration_timestamp: (now + TOKEN_DURATION * 1000) as u64,
                        },
                    ),
                )
                &&& infos.uuid@ == old(um)@[i].uuid
                &&& infos.token@.len() == 128
                &&& infos.timestamp == now
                &&& infos.expiration_timestamp == now + TOKEN_DURATION * 1000
            })),
{
    if !(api.apiuser.access.role == ApiUserRoleType::Admin) {
        return Err(AccountError::AuthorizationFailure);
    }
    match um.get_user(None, Some(uuid)) {
        Option::None => Err(AccountError::NotFound),
        Option::Some(mut user) => {
            let token = user.new_token(TOKEN_DURATION, now);
            let _ = um.save_token(&user.uuid, &token);
            Ok(
                AccountTokenInfos {
                    token: token.token,
                    timestamp: token.timestamp,
                    expiration_timestamp: token.expiration_timestamp,
                    uuid: user.uuid,
                },
            )
        },
    }
}

/// Resolve a live token and report that token's own record: value, issue
/// and expiry timestamps, and the identity key of its holder. The first
/// stored token with this value is reported, live or not.
pub fn check_token(api: &ApiUserToken, um: &UserManager, token: &String, now: u64) -> (r: Result<
    AccountTokenInfos,
    AccountError,
>)
    ensures
        !caller_is_admin(api) ==> r == Err::<AccountTokenInfos, AccountError>(
            AccountError::AuthorizationFailure,
        ),
        caller_is_admin(api) && no_user_match(um@, StoreSelector::ByLiveToken(token@, now)) ==> r
            == Err::<AccountTokenInfos, AccountError>(AccountError::NotFound),
        forall|i: int|
            (caller_is_admin(api) && #[trigger] first_user_match_at(
                um@,
                StoreSelector::ByLiveToken(token@, now),
                i,
            )) ==> (r is Ok && ({
                let infos = r.unwrap();
                &&& (um@[i].tokens matches Some(ts) && exists|j: int|
                    #[trigger] first_token_value_at(ts, token@, j) && infos.token@ == ts[j].token
                        && infos.timestamp == ts[j].timestamp && infos.expiration_timestamp
                        == ts[j].expiration_timestamp)
                &&& infos.uuid@ == um@[i].uuid
            })),
{
    if !(api.apiuser.access.role == ApiUserRoleType::Admin) {
        return Err(AccountError::AuthorizationFailure);
    }
    match um.get_user_from_token(token, now) {
        Option::None => Err(AccountError::NotFound),
        Option::Some(user) => match &user.tokens {
            Option::Some(ts) => match find_token_by_value(ts, token) {
                Option::Some(j) => Ok(
                    AccountTokenInfos {
                        token: ts[j].token.clone(),
                        timestamp: ts[j].timestamp,
                        expiration_timestamp: ts[j].expiration_timestamp,
                        uuid: user.uuid.clone(),
                    },
                ),
                Option::None => {
                    proof {
                        assert(false);
                    }
                    Err(AccountError::NotFound)
                },
            },
            Option::None => {
                proof {
                    assert(false);
                }
                Err(AccountError::NotFound)
            },
        },
    }
}

/// Delete the account keyed by `uuid`; a key that matches nothing is
/// reported as not found.
pub fn delete(api: &ApiUserToken, um: &mut UserManager, uuid: &String) -> (r: Result<
    (),
    AccountError,
>)
    ensures
        !caller_is_admin(api) ==> r == Err::<(), AccountError>(AccountError::AuthorizationFailure)
            && final(um)@ == old(um)@,
        caller_is_admin(api) && no_user_match(old(um)@, StoreSelector::ByUuid(uuid@)) ==> r
            == Err::<(), AccountError>(AccountError::NotFound) && final(um)@ == old(um)@,
        forall|i: int|
            (caller_is_admin(api) && #[trigger] first_user_match_at(
                old(um)@,
                StoreSelector::ByUuid(uuid@),
                i,
            )) ==> r is Ok && final(um)@ == old(um)@.remove(i),
{
    if !(api.apiuser.access.role == ApiUserRoleType::Admin) {
        return Err(AccountError::AuthorizationFailure);
    }
    match um.delete_user(None, Some(uuid)) {
        Option::Some(count) => {
            if count >= 1 {
                Ok(())
            } else {
                Err(AccountError::NotFound)
            }
        },
        Option::None => {
            proof {
                assert(false);
            }
            Err(AccountError::NotFound)
        },
    }
}

/// Unset the whole token collection of the account keyed by `uuid`. The
/// route reports not-found both for a missing account and for one that had
/// no collection to unset, mirroring a modified-count of zero.
pub fn clear_tokens(api: &ApiUserToken, um: &mut UserManager, uuid: &String) -> (r: Result<
    (),
    AccountError,
>)
    ensures
        !caller_is_admin(api) ==> r == Err::<(), AccountError>(AccountError::AuthorizationFailure)
            && final(um)@ == old(um)@,
        caller_is_admin(api) && no_user_match(old(um)@, StoreSelector::ByUuid(uuid@)) ==> r
            == Err::<(), AccountError>(AccountError::NotFound) && final(um)@ == old(um)@,
        forall|i: int|
            (caller_is_admin(api) && #[trigger] first_user_match_at(
                old(um)@,
                StoreSelector::ByUuid(uuid@),
                i,
            )) ==> final(um)@ == old(um)@.update(i, user_without_tokens(old(um)@[i])) && (r is Ok
                <==> old(um)@[i].tokens is Some) && (r is Err ==> r == Err::<(), AccountError>(
                AccountError::NotFound,
            )),
{
    if !(api.apiuser.access.role == ApiUserRoleType::Admin) {
        return Err(AccountError::AuthorizationFailure);
    }
    let modified = um.clear_tokens(uuid);
    if modified == 1 {
        Ok(())
    } else {
        Err(AccountError::NotFound)
    }
}

} // verus!
