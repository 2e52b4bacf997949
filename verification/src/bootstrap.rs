//! The idempotent seeding step that runs at every process start.

use vstd::prelude::*;
use crate::api_manager::{
    ApiUserManager, first_apiuser_username_match_at, no_apiuser_username_match,
};
use crate::apiuser_model::{ApiUser, ApiUserAccessView, ApiUserRoleType, ApiUserView};
use crate::token::TokenView;

verus! {

/// The bootstrap record: the reserved administrator identity, holding a
/// token whose value is the configured secret and whose expiry is
/// effectively unbounded.
pub open spec fn admin_record(admin_token: Seq<char>, now: u64) -> ApiUserView {
    ApiUserView {
        timestamp: 0,
        uuid: "admin"@,
        username: Some("admin"@),
        password: None,
        token: Some(
            TokenView {
                token: admin_token,
                timestamp: now,
                expiration_timestamp: 0x7FFF_FFFF_FFFF_FFFF,
            },
        ),
        access: ApiUserAccessView { role: ApiUserRoleType::Admin, permissions: None },
    }
}

/// Seed the single bootstrap administrator. Safe to run on every start:
/// creation in the service domain is an upsert by username, so a prior
/// bootstrap record is replaced whole rather than duplicated.
pub fn seed_admin(am: &mut ApiUserManager, admin_token: &String, now: u64)
    ensures
        no_apiuser_username_match(old(am)@, Some("admin"@)) ==> final(am)@ == old(am)@.push(
            admin_record(admin_token@, now),
        ),
        forall|i: int|
            #[trigger] first_apiuser_username_match_at(old(am)@, Some("admin"@), i) ==> final(am)@
                == old(am)@.update(i, admin_record(admin_token@, now)),
{
    let user = ApiUser::create_default(admin_token.clone(), now);
    am.create_apiuser(&user);
}

} // verus!
