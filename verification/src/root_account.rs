//! The public login route of the human-account domain.

use vstd::prelude::*;
use crate::account_model::{AccountError, AccountTokenInfos};
use crate::filter::StoreSelector;
use crate::password::{is_correct_password, password_matches};
use crate::token::{TOKEN_DURATION, TokenView};
use crate::user_manager::{UserManager, first_user_match_at, no_user_match};
use crate::user_model::{UserView, user_push_token};

verus! {

/// Login succeeds on record `u` iff it carries a credential and `password`
/// is the plaintext behind it; a record without a credential has login
/// disabled.
pub open spec fn login_accepted(u: UserView, password: Seq<u8>) -> bool {
    u.password is Some && password_matches(password, u.password.unwrap())
}

/// What a successful login leaves behind: the returned record mirrors the
/// matched account, its token is 128 fresh characters live for a day, and
/// the store `post` is `pre` with that token appended to the first record
/// keyed like `u`; prior tokens stay.
pub open spec fn login_issued(
    pre: Seq<UserView>,
    post: Seq<UserView>,
    u: UserView,
    infos: AccountTokenInfos,
    now: u64,
) -> bool {
    &&& infos.uuid@ == u.uuid
    &&& infos.token@.len() == 128
    &&& infos.timestamp == now
    &&& infos.expiration_timestamp == now + TOKEN_DURATION * 1000
    &&& forall|j: int|
        #[trigger] first_user_match_at(pre, StoreSelector::ByUuid(u.uuid), j) ==> post
            == pre.update(
            j,
            user_push_token(
                pre[j],
                TokenView {
                    token: infos.token@,
                    timestamp: now,
                    expiration_timestamp: (now + TOKEN_DURATION * 1000) as u64,
                },
            ),
        )
}

/// Log a human account in by username and password. Success appends a
/// fresh day-long token; a wrong password, or an account whose login is
/// disabled for want of a credential, authenticates nothing and mutates
/// nothing.
pub fn login(um: &mut UserManager, username: &String, password: &[u8], now: u64) -> (r: Result<
    AccountTokenInfos,
    AccountError,
>)
    requires
        now + TOKEN_DURATION * 1000 <= u64::MAX,
    ensures
        no_user_match(old(um)@, StoreSelector::ByUsername(username@)) ==> r == Err::<
            AccountTokenInfos,
            AccountError,
        >(AccountError::NotFound) && final(um)@ == old(um)@,
        forall|i: int|
            #[trigger] first_user_match_at(old(um)@, StoreSelector::ByUsername(username@), i)
                ==> ({
                let u = old(um)@[i];
                &&& (!login_accepted(u, password@) ==> r == Err::<AccountTokenInfos, AccountError>(
                    AccountError::AuthenticationFailure,
                ) && final(um)@ == old(um)@)
                &&& (login_accepted(u, password@) ==> (r is Ok && login_issued(
                    old(um)@,
                    final(um)@,
                    u,
                    r.unwrap(),
                    now,
                )))
            }),
{
    match um.get_user(Some(username), None) {
        Option::None => Err(AccountError::NotFound),
        Option::Some(mut user) => {
            let credential_ok = match &user.password {
                Option::Some(p) => is_correct_password(password, p),
                Option::None => false,
            };
            if credential_ok {
                let token = user.new_token(TOKEN_DURATION, now);
                let _ = um.save_token(&user.uuid, &token);
                Ok(
                    AccountTokenInfos {
                        token: token.token,
                        timestamp: token.timestamp,
                        expiration_timestamp: token.expiration_timestamp,
                        uuid: user.uuid,
                    },
                )
            } else {
                Err(AccountError::AuthenticationFailure)
            }
        },
    }
}

} // verus!
