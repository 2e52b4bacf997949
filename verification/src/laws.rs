//! The library's cross-cutting guarantees, each proved from the managers'
//! and stores' stated semantics. The credential laws (salted determinism
//! and the verification round-trip) live beside the credential code in
//! `password`.

use vstd::prelude::*;
use crate::api_manager::{
    apiuser_matches, apiuser_username_is, first_apiuser_username_match_at, no_apiuser_match,
    no_apiuser_username_match,
};
use crate::apiuser_model::{apiuser_with_token, ApiUserView};
use crate::filter::{StoreSelector, selector_of};
use crate::token::TokenView;
use crate::user_manager::user_matches;
use crate::user_model::{user_has_live_token, user_push_token, user_without_tokens, UserView};

verus! {

/// Token liveness: a token whose expiry has passed never answers a
/// live-token query of the human-account store, even with an exact value
/// match. Where every stored token carrying the value is expired at `now`,
/// the query matches no record at all.
pub proof fn lemma_expired_token_never_matches_user(s: Seq<UserView>, token: Seq<char>, now: u64)
    requires
        forall|i: int, j: int|
            #![trigger s[i].tokens.unwrap()[j]]
            (0 <= i < s.len() && s[i].tokens is Some && 0 <= j < s[i].tokens.unwrap().len()
                && s[i].tokens.unwrap()[j].token == token) ==> s[i].tokens.unwrap()[
                j
            ].expiration_timestamp < now,
    ensures
        crate::user_manager::no_user_match(s, StoreSelector::ByLiveToken(token, now)),
{
    assert forall|i: int| 0 <= i < s.len() implies !user_matches(
        #[trigger] s[i],
        StoreSelector::ByLiveToken(token, now),
    ) by {
        if user_has_live_token(s[i], token, now) {
            let ts = s[i].tokens.unwrap();
            let j = choose|j: int|
                0 <= j < ts.len() && ts[j].token == token && ts[j].expiration_timestamp >= now;
            assert(s[i].tokens.unwrap()[j].expiration_timestamp < now);
        }
    }
}

/// Token liveness in the service domain: an expired token never answers a
/// live-token query, whatever its value.
pub proof fn lemma_expired_token_never_matches_apiuser(a: ApiUserView, token: Seq<char>, now: u64)
    requires
        (a.token is Some && a.token.unwrap().token == token) ==> a.token.unwrap()
            .expiration_timestamp < now,
    ensures
        !apiuser_matches(a, StoreSelector::ByLiveToken(token, now)),
{
}

/// Lookup tie-break: where both a username and an identity key are
/// supplied, the query is by username alone; the key is discarded, not
/// combined.
pub proof fn lemma_lookup_tie_break(username: Seq<char>, uuid: Seq<char>)
    ensures
        selector_of(Some(username), Some(uuid)) == Some(StoreSelector::ByUsername(username)),
{
}

/// Single-token replacement in the service domain: overwriting the token
/// of the one record that held `old_value` leaves `old_value` matching no
/// record at all.
pub proof fn lemma_set_token_invalidates_previous(
    pre: Seq<ApiUserView>,
    post: Seq<ApiUserView>,
    i: int,
    t2: TokenView,
    old_value: Seq<char>,
    now: u64,
)
    requires
        0 <= i < pre.len(),
        post == pre.update(i, apiuser_with_token(pre[i], t2)),
        t2.token != old_value,
        forall|j: int|
            (0 <= j < pre.len() && j != i) ==> !apiuser_matches(
                #[trigger] pre[j],
                StoreSelector::ByLiveToken(old_value, now),
            ),
    ensures
        no_apiuser_match(post, StoreSelector::ByLiveToken(old_value, now)),
{
    assert forall|j: int| 0 <= j < post.len() implies !apiuser_matches(
        #[trigger] post[j],
        StoreSelector::ByLiveToken(old_value, now),
    ) by {
        if j == i {
            assert(post[j].token == Some(t2));
        } else {
            assert(post[j] == pre[j]);
        }
    }
}

/// Multi-token accumulation in the human domain: appending a token leaves
/// a value live exactly when it was live before or the new token carries
/// it; no prior token is displaced.
pub proof fn lemma_push_token_keeps_tokens(u: UserView, t: TokenView, v: Seq<char>, now: u64)
    ensures
        user_has_live_token(user_push_token(u, t), v, now) <==> (user_has_live_token(u, v, now) || (
        t.token == v && t.expiration_timestamp >= now)),
{
    let ts2 = user_push_token(u, t).tokens.unwrap();
    match u.tokens {
        Option::None => {
            assert(ts2 == seq![t]);
            if user_has_live_token(user_push_token(u, t), v, now) {
                let j = choose|j: int|
                    0 <= j < ts2.len() && ts2[j].token == v && ts2[j].expiration_timestamp >= now;
                assert(ts2[j] == t);
            }
            if t.token == v && t.expiration_timestamp >= now {
                assert(ts2[0] == t);
                assert(user_has_live_token(user_push_token(u, t), v, now));
            }
        },
        Option::Some(ts) => {
            assert(ts2 == ts.push(t));
            if user_has_live_token(user_push_token(u, t), v, now) {
                let j = choose|j: int|
                    0 <= j < ts2.len() && ts2[j].token == v && ts2[j].expiration_timestamp >= now;
                if j < ts.len() {
                    assert(ts2[j] == ts[j]);
                    assert(user_has_live_token(u, v, now));
                } else {
                    assert(ts2[j] == t);
                }
            }
            if user_has_live_token(u, v, now) {
                let j = choose|j: int|
                    0 <= j < ts.len() && ts[j].token == v && ts[j].expiration_timestamp >= now;
                assert(ts2[j] == ts[j]);
                assert(user_has_live_token(user_push_token(u, t), v, now));
            }
            if t.token == v && t.expiration_timestamp >= now {
                assert(ts2[ts.len() as int] == t);
                assert(user_has_live_token(user_push_token(u, t), v, now));
            }
        },
    }
}

/// No partial revocation in the human domain: unsetting a record's token
/// collection kills every value at once, whichever token located the
/// record.
pub proof fn lemma_clear_tokens_removes_every_token(u: UserView, v: Seq<char>, now: u64)
    ensures
        !user_has_live_token(user_without_tokens(u), v, now),
{
}

/// Upsert idempotence in the service domain: after storing `a1` under a
/// fresh username, a second upsert carrying the same username lands on
/// `a1`'s record and replaces it whole — the store ends exactly as if only
/// the second record had ever been written.
pub proof fn lemma_upsert_second_wins(s0: Seq<ApiUserView>, a1: ApiUserView, a2: ApiUserView)
    requires
        a1.username == a2.username,
        no_apiuser_username_match(s0, a1.username),
    ensures
        first_apiuser_username_match_at(s0.push(a1), a2.username, s0.len() as int),
        s0.push(a1).update(s0.len() as int, a2) == s0.push(a2),
{
    assert forall|j: int| 0 <= j < s0.len() implies !apiuser_username_is(
        #[trigger] s0.push(a1)[j],
        a2.username,
    ) by {
        assert(s0.push(a1)[j] == s0[j]);
    }
    assert(s0.push(a1)[s0.len() as int] == a1);
    assert(s0.push(a1).update(s0.len() as int, a2) =~= s0.push(a2));
}

} // verus!
