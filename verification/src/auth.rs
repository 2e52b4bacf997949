//! The request guard: bearer-token extraction and resolution.
//!
//! An inbound request carries its bearer token in one designated header.
//! Exactly one occurrence is required: none is `Missing`, several are
//! `BadCount`. A single value is resolved through the domain's manager; a
//! token no live account holds is `Invalid`.

use vstd::prelude::*;
use crate::api_manager::{ApiUserManager, first_apiuser_match_at, no_apiuser_match};
use crate::apiuser_model::ApiUser;
use crate::filter::StoreSelector;
use crate::user_manager::{UserManager, first_user_match_at, no_user_match};
use crate::user_model::User;

verus! {

/// A human account resolved from a request's bearer token.
#[derive(Debug)]
pub struct UserToken {
    pub user: User,
}

/// Why a request failed user authentication.
#[derive(Clone, Copy, Debug, PartialEq, Eq, Structural)]
pub enum UserTokenError {
    BadCount,
    Missing,
    Invalid,
}

/// A service account resolved from a request's bearer token.
#[derive(Debug)]
pub struct ApiUserToken {
    pub apiuser: ApiUser,
}

/// Why a request failed service authentication.
#[derive(Clone, Copy, Debug, PartialEq, Eq, Structural)]
pub enum ApiUserTokenError {
    BadCount,
    Missing,
    Invalid,
}

/// Resolve the values of the user-token header (`keys`) to a live human
/// account at time `now`. Zero occurrences are `Missing`, more than one
/// `BadCount`; a single value either resolves to the first record holding
/// it live, or is `Invalid`.
pub fn authenticate_user(keys: &Vec<String>, manager: &UserManager, now: u64) -> (r: Result<
    UserToken,
    UserTokenError,
>)
    ensures
        keys@.len() == 0 ==> (r matches Err(e) && e == UserTokenError::Missing),
        keys@.len() > 1 ==> (r matches Err(e) && e == UserTokenError::BadCount),
        keys@.len() == 1 ==> ({
            let k = StoreSelector::ByLiveToken(keys@[0]@, now);
            match r {
                Result::Err(e) => e == UserTokenError::Invalid && no_user_match(manager@, k),
                Result::Ok(g) => exists|i: int|
                    #[trigger] first_user_match_at(manager@, k, i) && g.user@ == manager@[i],
            }
        }),
{
    if keys.len() == 0 {
        Err(UserTokenError::Missing)
    } else if keys.len() > 1 {
        Err(UserTokenError::BadCount)
    } else {
        match manager.get_user_from_token(&keys[0], now) {
            Option::Some(user) => Ok(UserToken { user }),
            Option::None => Err(UserTokenError::Invalid),
        }
    }
}

/// Resolve the values of the service-token header (`keys`) to a live
/// service account at time `now`; same occurrence rule as the user guard.
pub fn authenticate_apiuser(keys: &Vec<String>, manager: &ApiUserManager, now: u64) -> (r: Result<
    ApiUserToken,
    ApiUserTokenError,
>)
    ensures
        keys@.len() == 0 ==> (r matches Err(e) && e == ApiUserTokenError::Missing),
        keys@.len() > 1 ==> (r matches Err(e) && e == ApiUserTokenError::BadCount),
        keys@.len() == 1 ==> ({
            let k = StoreSelector::ByLiveToken(keys@[0]@, now);
            match r {
                Result::Err(e) => e == ApiUserTokenError::Invalid && no_apiuser_match(manager@, k),
                Result::Ok(g) => exists|i: int|
                    #[trigger] first_apiuser_match_at(manager@, k, i) && g.apiuser@ == manager@[i],
            }
        }),
{
    if keys.len() == 0 {
        Err(ApiUserTokenError::Missing)
    } else if keys.len() > 1 {
        Err(ApiUserTokenError::BadCount)
    } else {
        match manager.get_apiuser_from_token(&keys[0], now) {
            Option::Some(apiuser) => Ok(ApiUserToken { apiuser }),
            Option::None => Err(ApiUserTokenError::Invalid),
        }
    }
}

} // verus!
