//! Routes where a service caller acts on the human account that shares its
//! identity key, presenting one of that account's token values.

use vstd::prelude::*;
use crate::account_model::{AccountError, AccountTokenInfos};
use crate::api_manager::{ApiUserManager, first_apiuser_match_at, no_apiuser_match};
use crate::apiuser_model::{apiuser_without_token, ApiUserView};
use crate::auth::ApiUserToken;
use crate::filter::StoreSelector;
use crate::token::first_token_value_at;
use crate::user_model::user_tokens_view;
use crate::user_manager::{UserManager, first_user_match_at, no_user_match};
use crate::user_model::{User, find_token_by_value, user_has_token_value};

verus! {

/// Resolve the human account that shares the caller's identity key and
/// check that it holds a token with value `token`, live or not. Both a
/// missing account and a missing token value are not-found outcomes.
pub fn get_user(api: &ApiUserToken, um: &UserManager, token: &String) -> (r: Result<
    User,
    AccountError,
>)
    ensures
        no_user_match(um@, StoreSelector::ByUuid(api.apiuser@.uuid)) ==> r == Err::<
            User,
            AccountError,
        >(AccountError::NotFound),
        forall|i: int|
            #[trigger] first_user_match_at(um@, StoreSelector::ByUuid(api.apiuser@.uuid), i)
                ==> match r {
                Result::Ok(u) => u@ == um@[i] && user_has_token_value(um@[i], token@),
                Result::Err(e) => e == AccountError::NotFound && !user_has_token_value(
                    um@[i],
                    token@,
                ),
            },
{
    match um.get_user(None, Some(&api.apiuser.uuid)) {
        Option::None => Err(AccountError::NotFound),
        Option::Some(user) => {
            let holds_value = match &user.tokens {
                Option::None => false,
                Option::Some(ts) => match find_token_by_value(ts, token) {
                    Option::Some(j) => {
                        proof {
                            let tsv = user@.tokens.unwrap();
                            assert(tsv == user_tokens_view(*ts));
                            assert((j as int) < tsv.len() && tsv[j as int].token == token@);
                            assert(user_has_token_value(user@, token@));
                        }
                        true
                    },
                    Option::None => {
                        proof {
                            assert(user.tokens == Some(*ts));
                            assert(!user_has_token_value(user@, token@));
                        }
                        false
                    },
                },
            };
            proof {
                assert(holds_value == user_has_token_value(user@, token@));
            }
            if holds_value {
                Ok(user)
            } else {
                Err(AccountError::NotFound)
            }
        },
    }
}

/// Report the record of the presented token value on the caller's human
/// account: the first stored token with that value, live or not.
pub fn check_token(api: &ApiUserToken, um: &UserManager, token: &String) -> (r: Result<
    AccountTokenInfos,
    AccountError,
>)
    ensures
        no_user_match(um@, StoreSelector::ByUuid(api.apiuser@.uuid)) ==> r == Err::<
            AccountTokenInfos,
            AccountError,
        >(AccountError::NotFound),
        forall|i: int|
            #[trigger] first_user_match_at(um@, StoreSelector::ByUuid(api.apiuser@.uuid), i)
                ==> match r {
                Result::Ok(infos) => ({
                    &&& infos.uuid@ == um@[i].uuid
                    &&& (um@[i].tokens matches Some(ts) && exists|j: int|
                        #[trigger] first_token_value_at(ts, token@, j) && infos.token@
                            == ts[j].token && infos.timestamp == ts[j].timestamp
                            && infos.expiration_timestamp == ts[j].expiration_timestamp)
                }),
                Result::Err(e) => e == AccountError::NotFound && !user_has_token_value(
                    um@[i],
                    token@,
                ),
            },
{
    match get_user(api, um, token) {
        Result::Err(e) => Err(e),
        Result::Ok(user) => {
            proof {
                crate::user_manager::lemma_user_first_match_exists(
                    um@,
                    StoreSelector::ByUuid(api.apiuser@.uuid),
                );
                let i0 = choose|i0: int|
                    first_user_match_at(um@, StoreSelector::ByUuid(api.apiuser@.uuid), i0);
                assert(user@ == um@[i0] && user_has_token_value(um@[i0], token@));
            }
            match &user.tokens {
                Option::Some(ts) => match find_token_by_value(ts, token) {
                    Option::Some(j) => {
                        proof {
                            assert(user_tokens_view(*ts)[j as int] == ts@[j as int]@);
                        }
                        Ok(
                            AccountTokenInfos {
                                token: ts[j].token.clone(),
                                timestamp: ts[j].timestamp,
                                expiration_timestamp: ts[j].expiration_timestamp,
                                uuid: user.uuid.clone(),
                            },
                        )
                    },
                    Option::None => {
                        proof {
                            assert(false);
                        }
                        Err(AccountError::NotFound)
                    },
                },
                Option::None => {
                    proof {
                        assert(false);
                    }
                    Err(AccountError::NotFound)
                },
            }
        },
    }
}

/// The effect of deleting by a live token value: the store is unchanged
/// where no record holds `token` live at `now`, and the first record that
/// does is removed.
pub open spec fn service_account_deleted(
    pre: Seq<ApiUserView>,
    post: Seq<ApiUserView>,
    token: Seq<char>,
    now: u64,
) -> bool {
    &&& (no_apiuser_match(pre, StoreSelector::ByLiveToken(token, now)) ==> post == pre)
    &&& forall|j: int|
        #[trigger] first_apiuser_match_at(pre, StoreSelector::ByLiveToken(token, now), j) ==> post
            == pre.remove(j)
}

/// The effect of revoking keyed by the raw value `token`: the store is
/// unchanged where no record's identity key equals it, and the first
/// record whose key does loses its token.
pub open spec fn service_account_cleared(
    pre: Seq<ApiUserView>,
    post: Seq<ApiUserView>,
    token: Seq<char>,
) -> bool {
    &&& (no_apiuser_match(pre, StoreSelector::ByUuid(token)) ==> post == pre)
    &&& forall|j: int|
        #[trigger] first_apiuser_match_at(pre, StoreSelector::ByUuid(token), j) ==> post
            == pre.update(j, apiuser_without_token(pre[j]))
}

/// After checking the presented token value on the caller's human account,
/// delete the service account holding that value as a live token, if any;
/// the deletion itself always reports success.
pub fn delete(
    api: &ApiUserToken,
    um: &UserManager,
    am: &mut ApiUserManager,
    token: &String,
    now: u64,
) -> (r: Result<(), AccountError>)
    ensures
        no_user_match(um@, StoreSelector::ByUuid(api.apiuser@.uuid)) ==> r == Err::<
            (),
            AccountError,
        >(AccountError::NotFound) && final(am)@ == old(am)@,
        forall|i: int|
            #[trigger] first_user_match_at(um@, StoreSelector::ByUuid(api.apiuser@.uuid), i)
                ==> ({
                &&& (!user_has_token_value(um@[i], token@) ==> r == Err::<(), AccountError>(
                    AccountError::NotFound,
                ) && final(am)@ == old(am)@)
                &&& (user_has_token_value(um@[i], token@) ==> r is Ok && service_account_deleted(
                    old(am)@,
                    final(am)@,
                    token@,
                    now,
                ))
            }),
{
    match get_user(api, um, token) {
        Result::Err(e) => Err(e),
        Result::Ok(_) => {
            let _ = am.delete_apiuser_from_token(token, now);
            Ok(())
        },
    }
}

/// After checking the presented token value on the caller's human account,
/// unset the token of the service account whose identity key equals that
/// raw value; the revocation itself always reports success. The service
/// clear is keyed by the presented value, not by the caller's key.
pub fn clear_tokens(
    api: &ApiUserToken,
    um: &UserManager,
    am: &mut ApiUserManager,
    token: &String,
) -> (r: Result<(), AccountError>)
    ensures
        no_user_match(um@, StoreSelector::ByUuid(api.apiuser@.uuid)) ==> r == Err::<
            (),
            AccountError,
        >(AccountError::NotFound) && final(am)@ == old(am)@,
        forall|i: int|
            #[trigger] first_user_match_at(um@, StoreSelector::ByUuid(api.apiuser@.uuid), i)
                ==> ({
                &&& (!user_has_token_value(um@[i], token@) ==> r == Err::<(), AccountError>(
                    AccountError::NotFound,
                ) && final(am)@ == old(am)@)
                &&& (user_has_token_value(um@[i], token@) ==> r is Ok && service_account_cleared(
                    old(am)@,
                    final(am)@,
                    token@,
                ))
            }),
{
    match get_user(api, um, token) {
        Result::Err(e) => Err(e),
        Result::Ok(_) => {
            let _ = am.clear_tokens(token);
            Ok(())
        },
    }
}

} // verus!
