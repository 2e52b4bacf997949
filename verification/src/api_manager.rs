//! CRUD and token operations for the service-account domain.
//!
//! Same store discipline as the human-account manager, with the domain's
//! two deliberate differences: creation is an unconditional upsert keyed by
//! username (service accounts are idempotently provisioned), and a record
//! holds at most one token, which issuing a new one replaces.

use vstd::prelude::*;
use crate::apiuser_model::{
    ApiUser, ApiUserToken, ApiUserView, apiuser_has_live_token, apiuser_with_token,
    apiuser_without_token,
};
use crate::filter::{Filter, StoreSelector, lookup_filter, opt_view, selector_of};

verus! {

/// Record `a` answers query `k`. A username query only matches a record
/// that carries a username, and it must be exactly equal.
pub open spec fn apiuser_matches(a: ApiUserView, k: StoreSelector) -> bool {
    match k {
        StoreSelector::ByUsername(n) => a.username == Some(n),
        StoreSelector::ByUuid(i) => a.uuid == i,
        StoreSelector::ByLiveToken(t, now) => apiuser_has_live_token(a, t, now),
    }
}

/// No record of `s` answers query `k`.
pub open spec fn no_apiuser_match(s: Seq<ApiUserView>, k: StoreSelector) -> bool {
    forall|j: int| 0 <= j < s.len() ==> !apiuser_matches(#[trigger] s[j], k)
}

/// Index `i` holds the first record of `s` answering query `k`.
pub open spec fn first_apiuser_match_at(s: Seq<ApiUserView>, k: StoreSelector, i: int) -> bool {
    &&& 0 <= i < s.len()
    &&& apiuser_matches(s[i], k)
    &&& forall|j: int| 0 <= j < i ==> !apiuser_matches(#[trigger] s[j], k)
}

/// Where some record answers a query, a first such record exists.
pub proof fn lemma_apiuser_first_match_exists(s: Seq<ApiUserView>, k: StoreSelector)
    requires
        !no_apiuser_match(s, k),
    ensures
        exists|i: int| first_apiuser_match_at(s, k, i),
    decreases s.len(),
{
    let j = choose|j: int| 0 <= j < s.len() && apiuser_matches(s[j], k);
    if apiuser_matches(s[0], k) {
        assert(first_apiuser_match_at(s, k, 0));
    } else {
        let sub = s.subrange(1, s.len() as int);
        assert(sub[j - 1] == s[j]);
        assert(!no_apiuser_match(sub, k));
        lemma_apiuser_first_match_exists(sub, k);
        let i = choose|i: int| first_apiuser_match_at(sub, k, i);
        assert(forall|j2: int| 1 <= j2 < i + 1 ==> s[j2] == sub[j2 - 1]);
        assert(first_apiuser_match_at(s, k, i + 1));
    }
}

/// Record `a` carries exactly the (optional) username `name`: an absent
/// username only matches an absent one, as absent fields do in a document
/// store's equality filter.
pub open spec fn apiuser_username_is(a: ApiUserView, name: Option<Seq<char>>) -> bool {
    a.username == name
}

/// No record of `s` carries username `name`.
pub open spec fn no_apiuser_username_match(s: Seq<ApiUserView>, name: Option<Seq<char>>) -> bool {
    forall|j: int| 0 <= j < s.len() ==> !apiuser_username_is(#[trigger] s[j], name)
}

/// Index `i` holds the first record of `s` carrying username `name`.
pub open spec fn first_apiuser_username_match_at(
    s: Seq<ApiUserView>,
    name: Option<Seq<char>>,
    i: int,
) -> bool {
    &&& 0 <= i < s.len()
    &&& apiuser_username_is(s[i], name)
    &&& forall|j: int| 0 <= j < i ==> !apiuser_username_is(#[trigger] s[j], name)
}

/// The mathematical content of a store of service accounts.
pub open spec fn apiusers_view(v: Vec<ApiUser>) -> Seq<ApiUserView> {
    v@.map_values(|a: ApiUser| a@)
}

/// Whether record `a` answers filter `f`.
fn apiuser_matches_filter(a: &ApiUser, f: &Filter) -> (b: bool)
    ensures
        b == apiuser_matches(a@, f@),
{
    match f {
        Filter::ByUsername(n) => match &a.username {
            Option::Some(own) => own.eq(*n),
            Option::None => false,
        },
        Filter::ByUuid(i) => a.uuid.eq(*i),
        Filter::ByLiveToken(t, now) => apiuser_holds_live_token(a, t, *now),
    }
}

/// Whether record `a` holds a token with value `token` live at `now`.
pub fn apiuser_holds_live_token(a: &ApiUser, token: &String, now: u64) -> (b: bool)
    ensures
        b == apiuser_has_live_token(a@, token@, now),
{
    match &a.token {
        Option::None => false,
        Option::Some(t) => t.token.eq(token) && t.expiration_timestamp >= now,
    }
}

/// Whether two optional usernames are the same criterion: equal strings, or
/// both absent.
fn same_username(a: &Option<String>, b: &Option<String>) -> (r: bool)
    ensures
        r == (match (a, b) {
            (Option::Some(x), Option::Some(y)) => x@ == y@,
            (Option::None, Option::None) => true,
            _ => false,
        }),
{
    match (a, b) {
        (Option::Some(x), Option::Some(y)) => x.eq(y),
        (Option::None, Option::None) => true,
        _ => false,
    }
}

/// The index of the first record answering `f`, if any record does.
fn find_first_apiuser(apiusers: &Vec<ApiUser>, f: &Filter) -> (r: Option<usize>)
    ensures
        r is None ==> no_apiuser_match(apiusers_view(*apiusers), f@),
        r is Some ==> first_apiuser_match_at(apiusers_view(*apiusers), f@, r.unwrap() as int),
{
    let mut i: usize = 0;
    while i < apiusers.len()
        invariant
            i <= apiusers@.len(),
            forall|j: int|
                0 <= j < i ==> !apiuser_matches(#[trigger] apiusers_view(*apiusers)[j], f@),
        decreases apiusers@.len() - i,
    {
        if apiuser_matches_filter(&apiusers[i], f) {
            proof {
                assert(apiusers_view(*apiusers)[i as int] == apiusers@[i as int]@);
            }
            return Some(i);
        }
        proof {
            assert(apiusers_view(*apiusers)[i as int] == apiusers@[i as int]@);
        }
        i = i + 1;
    }
    None
}

/// The index of the first record carrying exactly the optional username
/// `name`, if any record does.
fn find_first_by_username(apiusers: &Vec<ApiUser>, name: &Option<String>) -> (r: Option<usize>)
    ensures
        r is None ==> no_apiuser_username_match(apiusers_view(*apiusers), opt_username_view(*name)),
        r is Some ==> first_apiuser_username_match_at(
            apiusers_view(*apiusers),
            opt_username_view(*name),
            r.unwrap() as int,
        ),
{
    let mut i: usize = 0;
    while i < apiusers.len()
        invariant
            i <= apiusers@.len(),
            forall|j: int|
                0 <= j < i ==> !apiuser_username_is(
                    #[trigger] apiusers_view(*apiusers)[j],
                    opt_username_view(*name),
                ),
        decreases apiusers@.len() - i,
    {
        if same_username(&apiusers[i].username, name) {
            proof {
                assert(apiusers_view(*apiusers)[i as int] == apiusers@[i as int]@);
            }
            return Some(i);
        }
        proof {
            assert(apiusers_view(*apiusers)[i as int] == apiusers@[i as int]@);
        }
        i = i + 1;
    }
    None
}

/// The view of an optional owned username.
pub open spec fn opt_username_view(s: Option<String>) -> Option<Seq<char>> {
    match s {
        Option::None => None,
        Option::Some(x) => Some(x@),
    }
}

/// The service-account manager: all reads and writes of the ApiUser domain
/// go through it.
pub struct ApiUserManager {
    pub apiusers: Vec<ApiUser>,
}

impl View for ApiUserManager {
    type V = Seq<ApiUserView>;

    open spec fn view(&self) -> Seq<ApiUserView> {
        apiusers_view(self.apiusers)
    }
}

impl ApiUserManager {
    /// A manager over an empty store.
    pub fn init() -> (r: Self)
        ensures
            r@ == Seq::<ApiUserView>::empty(),
    {
        let r = ApiUserManager { apiusers: Vec::new() };
        proof {
            assert(r@ =~= Seq::<ApiUserView>::empty());
        }
        r
    }

    /// Whether some record carries exactly this username.
    pub fn username_exists(&self, username: &String) -> (r: bool)
        ensures
            r == !no_apiuser_match(self@, StoreSelector::ByUsername(username@)),
    {
        match find_first_apiuser(&self.apiusers, &Filter::ByUsername(username)) {
            Option::Some(i) => {
                proof {
                    assert(!no_apiuser_match(self@, StoreSelector::ByUsername(username@)));
                }
                true
            },
            Option::None => false,
        }
    }

    /// Upsert keyed by the record's own username: the first record carrying
    /// the same (possibly absent) username is replaced whole, and the
    /// record is appended where none does. Creation in this domain is
    /// deliberately idempotent; it never reports a conflict.
    pub fn create_apiuser(&mut self, apiuser: &ApiUser)
        ensures
            no_apiuser_username_match(old(self)@, apiuser@.username) ==> final(self)@ == old(self)@.push(apiuser@),
            forall|i: int|
                #[trigger] first_apiuser_username_match_at(old(self)@, apiuser@.username, i) ==> final(self)@
                    == old(self)@.update(i, apiuser@),
    {
        let a = apiuser.clone();
        match find_first_by_username(&self.apiusers, &apiuser.username) {
            Option::None => {
                self.apiusers.push(a);
                proof {
                    assert(self@ =~= old(self)@.push(apiuser@));
                }
            },
            Option::Some(i) => {
                let ghost pre = self@;
                self.apiusers.remove(i);
                self.apiusers.insert(i, a);
                proof {
                    vstd::seq_lib::lemma_update_is_remove_insert(pre, i as int, apiuser@);
                    assert(self@ =~= pre.remove(i as int).insert(i as int, apiuser@));
                    assert(self@ =~= pre.update(i as int, apiuser@));
                }
            },
        }
    }

    /// Lookup by optional username and identity key, username winning
    /// outright where both are given; the first matching record is
    /// returned, and no query runs where neither criterion is given.
    pub fn get_apiuser(&self, username: Option<&String>, uuid: Option<&String>) -> (r: Option<
        ApiUser,
    >)
        ensures
            ({
                let sel = selector_of(opt_view(username), opt_view(uuid));
                match sel {
                    Option::None => r is None,
                    Option::Some(k) => match r {
                        Option::None => no_apiuser_match(self@, k),
                        Option::Some(a) => exists|i: int|
                            #[trigger] first_apiuser_match_at(self@, k, i) && a@ == self@[i],
                    },
                }
            }),
    {
        match lookup_filter(username, uuid) {
            Option::None => None,
            Option::Some(f) => match find_first_apiuser(&self.apiusers, &f) {
                Option::None => None,
                Option::Some(i) => {
                    let a = self.apiusers[i].clone();
                    proof {
                        assert(a@ == self@[i as int]);
                    }
                    Some(a)
                },
            },
        }
    }

    /// Lookup by live token: returns the first record whose single token
    /// has this exact value and has not expired at `now`; an expired token
    /// never matches, whatever its value.
    pub fn get_apiuser_from_token(&self, token: &String, now: u64) -> (r: Option<ApiUser>)
        ensures
            ({
                let k = StoreSelector::ByLiveToken(token@, now);
                match r {
                    Option::None => no_apiuser_match(self@, k),
                    Option::Some(a) => exists|i: int|
                        #[trigger] first_apiuser_match_at(self@, k, i) && a@ == self@[i],
                }
            }),
    {
        match find_first_apiuser(&self.apiusers, &Filter::ByLiveToken(token, now)) {
            Option::None => None,
            Option::Some(i) => {
                let a = self.apiusers[i].clone();
                proof {
                    assert(a@ == self@[i as int]);
                }
                Some(a)
            },
        }
    }

    /// Delete by optional username and identity key, with the same
    /// username-wins precedence as lookup. `None` means no criterion was
    /// given and nothing ran; otherwise the count of removed records (zero
    /// or one) comes back, a zero match being an outcome, not an error.
    pub fn delete_apiuser(&mut self, username: Option<&String>, uuid: Option<&String>) -> (r:
        Option<u64>)
        ensures
            ({
                let sel = selector_of(opt_view(username), opt_view(uuid));
                match sel {
                    Option::None => r is None && final(self)@ == old(self)@,
                    Option::Some(k) => {
                        &&& r is Some
                        &&& no_apiuser_match(old(self)@, k) ==> r == Some(0u64) && final(self)@
                            == old(self)@
                        &&& forall|i: int|
                            #[trigger] first_apiuser_match_at(old(self)@, k, i) ==> r == Some(1u64)
                                && final(self)@ == old(self)@.remove(i)
                    },
                }
            }),
    {
        match lookup_filter(username, uuid) {
            Option::None => None,
            Option::Some(f) => match find_first_apiuser(&self.apiusers, &f) {
                Option::None => Some(0),
                Option::Some(i) => {
                    self.apiusers.remove(i);
                    proof {
                        assert(self@ =~= old(self)@.remove(i as int));
                    }
                    Some(1)
                },
            },
        }
    }

    /// Delete the record currently holding this live token, if any.
    pub fn delete_apiuser_from_token(&mut self, token: &String, now: u64) -> (r: u64)
        ensures
            ({
                let k = StoreSelector::ByLiveToken(token@, now);
                &&& no_apiuser_match(old(self)@, k) ==> r == 0 && final(self)@ == old(self)@
                &&& forall|i: int|
                    #[trigger] first_apiuser_match_at(old(self)@, k, i) ==> r == 1
                        && final(self)@ == old(self)@.remove(i)
            }),
    {
        match find_first_apiuser(&self.apiusers, &Filter::ByLiveToken(token, now)) {
            Option::None => 0,
            Option::Some(i) => {
                self.apiusers.remove(i);
                proof {
                    assert(self@ =~= old(self)@.remove(i as int));
                }
                1
            },
        }
    }

    /// Overwrite the single token field of the record keyed by `uuid`,
    /// displacing whatever token it held. The count of modified records
    /// comes back: one only where the record existed and the field actually
    /// changed.
    pub fn set_token(&mut self, uuid: &String, token: &ApiUserToken) -> (r: u64)
        ensures
            ({
                let k = StoreSelector::ByUuid(uuid@);
                &&& no_apiuser_match(old(self)@, k) ==> r == 0 && final(self)@ == old(self)@
                &&& forall|i: int|
                    #[trigger] first_apiuser_match_at(old(self)@, k, i) ==> final(self)@ == old(self)@.update(
                        i,
                        apiuser_with_token(old(self)@[i], token@),
                    ) && (r == 1 <==> old(self)@[i].token != Some(token@))
            }),
    {
        match find_first_apiuser(&self.apiusers, &Filter::ByUuid(uuid)) {
            Option::None => 0,
            Option::Some(i) => {
                let ghost pre = self@;
                let a = self.apiusers.remove(i);
                let changed = match &a.token {
                    Option::None => true,
                    Option::Some(t) => !(t.token.eq(&token.token) && t.timestamp == token.timestamp
                        && t.expiration_timestamp == token.expiration_timestamp),
                };
                let ApiUser { timestamp, uuid: key, username, password, token: _, access } = a;
                let a2 = ApiUser {
                    timestamp,
                    uuid: key,
                    username,
                    password,
                    token: Some(token.clone()),
                    access,
                };
                proof {
                    assert(a2@ =~= apiuser_with_token(pre[i as int], token@));
                }
                self.apiusers.insert(i, a2);
                proof {
                    vstd::seq_lib::lemma_update_is_remove_insert(
                        pre,
                        i as int,
                        apiuser_with_token(pre[i as int], token@),
                    );
                    assert(self@ =~= pre.remove(i as int).insert(i as int, a2@));
                    assert(self@ =~= pre.update(
                        i as int,
                        apiuser_with_token(pre[i as int], token@),
                    ));
                }
                if changed {
                    1
                } else {
                    0
                }
            },
        }
    }

    /// Unset the single token field of the record keyed by `uuid`. The
    /// count of modified records comes back: one only where the record
    /// existed and actually held a token.
    pub fn clear_tokens(&mut self, uuid: &String) -> (r: u64)
        ensures
            ({
                let k = StoreSelector::ByUuid(uuid@);
                &&& no_apiuser_match(old(self)@, k) ==> r == 0 && final(self)@ == old(self)@
                &&& forall|i: int|
                    #[trigger] first_apiuser_match_at(old(self)@, k, i) ==> final(self)@ == old(self)@.update(
                        i,
                        apiuser_without_token(old(self)@[i]),
                    ) && (r == 1 <==> old(self)@[i].token is Some)
            }),
    {
        match find_first_apiuser(&self.apiusers, &Filter::ByUuid(uuid)) {
            Option::None => 0,
            Option::Some(i) => {
                let ghost pre = self@;
                let a = self.apiusers.remove(i);
                let had_token = a.token.is_some();
                let ApiUser { timestamp, uuid: key, username, password, token: _, access } = a;
                let a2 = ApiUser { timestamp, uuid: key, username, password, token: None, access };
                proof {
                    assert(a2@ =~= apiuser_without_token(pre[i as int]));
                }
                self.apiusers.insert(i, a2);
                proof {
                    vstd::seq_lib::lemma_update_is_remove_insert(
                        pre,
                        i as int,
                        apiuser_without_token(pre[i as int]),
                    );
                    assert(self@ =~= pre.remove(i as int).insert(i as int, a2@));
                    assert(self@ =~= pre.update(i as int, apiuser_without_token(pre[i as int])));
                }
                if had_token {
                    1
                } else {
                    0
                }
            },
        }
    }

    /// Unset the single token field of the record holding this live token;
    /// only a token still live at `now` locates its record.
    pub fn clear_tokens_from_token(&mut self, token: &String, now: u64) -> (r: u64)
        ensures
            ({
                let k = StoreSelector::ByLiveToken(token@, now);
                &&& no_apiuser_match(old(self)@, k) ==> r == 0 && final(self)@ == old(self)@
                &&& forall|i: int|
                    #[trigger] first_apiuser_match_at(old(self)@, k, i) ==> r == 1
                        && final(self)@ == old(self)@.update(
                        i,
                        apiuser_without_token(old(self)@[i]),
                    )
            }),
    {
        match find_first_apiuser(&self.apiusers, &Filter::ByLiveToken(token, now)) {
            Option::None => 0,
            Option::Some(i) => {
                let ghost pre = self@;
                let a = self.apiusers.remove(i);
                let ApiUser { timestamp, uuid: key, username, password, token: _, access } = a;
                let a2 = ApiUser { timestamp, uuid: key, username, password, token: None, access };
                proof {
                    assert(a2@ =~= apiuser_without_token(pre[i as int]));
                }
                self.apiusers.insert(i, a2);
                proof {
                    vstd::seq_lib::lemma_update_is_remove_insert(
                        pre,
                        i as int,
                        apiuser_without_token(pre[i as int]),
                    );
                    assert(self@ =~= pre.remove(i as int).insert(i as int, a2@));
                    assert(self@ =~= pre.update(i as int, apiuser_without_token(pre[i as int])));
                }
                1
            },
        }
    }
}

} // verus!
