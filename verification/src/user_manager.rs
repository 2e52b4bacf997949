//! CRUD and token operations for the human-account domain.
//!
//! The manager owns the domain's document store, here an in-memory sequence
//! of records. Queries run a tagged filter (username equality, key
//! equality, or live-token possession) and always act on the first matching
//! record; a document store's single-document write discipline is mirrored
//! by every mutation touching at most one record.

use vstd::prelude::*;
use crate::filter::{Filter, StoreSelector, lookup_filter, opt_view, selector_of};
use crate::user_model::{
    User, UserToken, UserView, user_has_live_token, user_push_token, user_without_tokens,
};

verus! {

/// Record `u` answers query `k`.
pub open spec fn user_matches(u: UserView, k: StoreSelector) -> bool {
    match k {
        StoreSelector::ByUsername(n) => u.username == n,
        StoreSelector::ByUuid(i) => u.uuid == i,
        StoreSelector::ByLiveToken(t, now) => user_has_live_token(u, t, now),
    }
}

/// No record of `s` answers query `k`.
pub open spec fn no_user_match(s: Seq<UserView>, k: StoreSelector) -> bool {
    forall|j: int| 0 <= j < s.len() ==> !user_matches(#[trigger] s[j], k)
}

/// Index `i` holds the first record of `s` answering query `k`.
pub open spec fn first_user_match_at(s: Seq<UserView>, k: StoreSelector, i: int) -> bool {
    &&& 0 <= i < s.len()
    &&& user_matches(s[i], k)
    &&& forall|j: int| 0 <= j < i ==> !user_matches(#[trigger] s[j], k)
}

/// Where some record answers a query, a first such record exists.
pub proof fn lemma_user_first_match_exists(s: Seq<UserView>, k: StoreSelector)
    requires
        !no_user_match(s, k),
    ensures
        exists|i: int| first_user_match_at(s, k, i),
    decreases s.len(),
{
    let j = choose|j: int| 0 <= j < s.len() && user_matches(s[j], k);
    if user_matches(s[0], k) {
        assert(first_user_match_at(s, k, 0));
    } else {
        let sub = s.subrange(1, s.len() as int);
        assert(sub[j - 1] == s[j]);
        assert(!no_user_match(sub, k));
        lemma_user_first_match_exists(sub, k);
        let i = choose|i: int| first_user_match_at(sub, k, i);
        assert(forall|j2: int| 1 <= j2 < i + 1 ==> s[j2] == sub[j2 - 1]);
        assert(first_user_match_at(s, k, i + 1));
    }
}

/// The mathematical content of a store of human accounts.
pub open spec fn users_view(v: Vec<User>) -> Seq<UserView> {
    v@.map_values(|u: User| u@)
}

/// Whether record `u` answers filter `f`.
fn user_matches_filter(u: &User, f: &Filter) -> (b: bool)
    ensures
        b == user_matches(u@, f@),
{
    match f {
        Filter::ByUsername(n) => u.username.eq(*n),
        Filter::ByUuid(i) => u.uuid.eq(*i),
        Filter::ByLiveToken(t, now) => user_holds_live_token(u, t, *now),
    }
}

/// Whether record `u` holds a token with value `token` live at `now`.
pub fn user_holds_live_token(u: &User, token: &String, now: u64) -> (b: bool)
    ensures
        b == user_has_live_token(u@, token@, now),
{
    match &u.tokens {
        Option::None => false,
        Option::Some(ts) => {
            let mut i: usize = 0;
            while i < ts.len()
                invariant
                    i <= ts@.len(),
                    u.tokens == Some(*ts),
                    forall|j: int|
                        0 <= j < i ==> !(#[trigger] ts@[j]@.token == token@
                            && ts@[j]@.expiration_timestamp >= now),
                decreases ts@.len() - i,
            {
                if ts[i].token.eq(token) && ts[i].expiration_timestamp >= now {
                    proof {
                        let tvs = u@.tokens.unwrap();
                        assert(tvs[i as int] == ts@[i as int]@);
                    }
                    return true;
                }
                i = i + 1;
            }
            proof {
                let tvs = u@.tokens.unwrap();
                assert(forall|j: int| 0 <= j < tvs.len() ==> #[trigger] tvs[j] == ts@[j]@);
            }
            false
        },
    }
}

/// The index of the first record answering `f`, if any record does.
fn find_first_user(users: &Vec<User>, f: &Filter) -> (r: Option<usize>)
    ensures
        r is None ==> no_user_match(users_view(*users), f@),
        r is Some ==> first_user_match_at(users_view(*users), f@, r.unwrap() as int),
{
    let mut i: usize = 0;
    while i < users.len()
        invariant
            i <= users@.len(),
            forall|j: int| 0 <= j < i ==> !user_matches(#[trigger] users_view(*users)[j], f@),
        decreases users@.len() - i,
    {
        if user_matches_filter(&users[i], f) {
            proof {
                assert(users_view(*users)[i as int] == users@[i as int]@);
            }
            return Some(i);
        }
        proof {
            assert(users_view(*users)[i as int] == users@[i as int]@);
        }
        i = i + 1;
    }
    None
}

/// The human-account manager: all reads and writes of the User domain go
/// through it.
pub struct UserManager {
    pub users: Vec<User>,
}

impl View for UserManager {
    type V = Seq<UserView>;

    open spec fn view(&self) -> Seq<UserView> {
        users_view(self.users)
    }
}

impl UserManager {
    /// A manager over an empty store.
    pub fn init() -> (r: Self)
        ensures
            r@ == Seq::<UserView>::empty(),
    {
        let r = UserManager { users: Vec::new() };
        proof {
            assert(r@ =~= Seq::<UserView>::empty());
        }
        r
    }

    /// Whether some record carries exactly this username.
    pub fn username_exists(&self, username: &String) -> (r: bool)
        ensures
            r == !no_user_match(self@, StoreSelector::ByUsername(username@)),
    {
        match find_first_user(&self.users, &Filter::ByUsername(username)) {
            Option::Some(i) => {
                proof {
                    assert(!no_user_match(self@, StoreSelector::ByUsername(username@)));
                }
                true
            },
            Option::None => false,
        }
    }

    /// Whether some record carries exactly this identity key.
    pub fn uuid_exists(&self, uuid: &String) -> (r: bool)
        ensures
            r == !no_user_match(self@, StoreSelector::ByUuid(uuid@)),
    {
        match find_first_user(&self.users, &Filter::ByUuid(uuid)) {
            Option::Some(i) => {
                proof {
                    assert(!no_user_match(self@, StoreSelector::ByUuid(uuid@)));
                }
                true
            },
            Option::None => false,
        }
    }

    /// Pure insert: the record is appended to the store unconditionally.
    /// Username uniqueness is the caller's check-then-insert concern.
    pub fn create_user(&mut self, user: &User)
        ensures
            final(self)@ == old(self)@.push(user@),
    {
        let u = user.clone();
        self.users.push(u);
        proof {
            assert(self@ =~= old(self)@.push(user@));
        }
    }

    /// Lookup by optional username and identity key, username winning
    /// outright where both are given; the first matching record is
    /// returned, and no query runs where neither criterion is given.
    pub fn get_user(&self, username: Option<&String>, uuid: Option<&String>) -> (r: Option<User>)
        ensures
            ({
                let sel = selector_of(opt_view(username), opt_view(uuid));
                match sel {
                    Option::None => r is None,
                    Option::Some(k) => match r {
                        Option::None => no_user_match(self@, k),
                        Option::Some(u) => exists|i: int|
                            #[trigger] first_user_match_at(self@, k, i) && u@ == self@[i],
                    },
                }
            }),
    {
        match lookup_filter(username, uuid) {
            Option::None => None,
            Option::Some(f) => match find_first_user(&self.users, &f) {
                Option::None => None,
                Option::Some(i) => {
                    let u = self.users[i].clone();
                    proof {
                        assert(u@ == self@[i as int]);
                    }
                    Some(u)
                },
            },
        }
    }

    /// Lookup by live token: returns the first record holding a token with
    /// this exact value that has not expired at `now`; an expired token
    /// never matches, whatever its value.
    pub fn get_user_from_token(&self, token: &String, now: u64) -> (r: Option<User>)
        ensures
            ({
                let k = StoreSelector::ByLiveToken(token@, now);
                match r {
                    Option::None => no_user_match(self@, k),
                    Option::Some(u) => exists|i: int|
                        #[trigger] first_user_match_at(self@, k, i) && u@ == self@[i],
                }
            }),
    {
        match find_first_user(&self.users, &Filter::ByLiveToken(token, now)) {
            Option::None => None,
            Option::Some(i) => {
                let u = self.users[i].clone();
                proof {
                    assert(u@ == self@[i as int]);
                }
                Some(u)
            },
        }
    }

    /// Delete by optional username and identity key, with the same
    /// username-wins precedence as lookup. `None` means no criterion was
    /// given and nothing ran; otherwise the count of removed records (zero
    /// or one) comes back, a zero match being an outcome, not an error.
    pub fn delete_user(&mut self, username: Option<&String>, uuid: Option<&String>) -> (r: Option<
        u64,
    >)
        ensures
            ({
                let sel = selector_of(opt_view(username), opt_view(uuid));
                match sel {
                    Option::None => r is None && final(self)@ == old(self)@,
                    Option::Some(k) => {
                        &&& r is Some
                        &&& no_user_match(old(self)@, k) ==> r == Some(0u64) && final(self)@ == old(self)@
                        &&& forall|i: int|
                            #[trigger] first_user_match_at(old(self)@, k, i) ==> r == Some(1u64)
                                && final(self)@ == old(self)@.remove(i)
                    },
                }
            }),
    {
        match lookup_filter(username, uuid) {
            Option::None => None,
            Option::Some(f) => match find_first_user(&self.users, &f) {
                Option::None => Some(0),
                Option::Some(i) => {
                    self.users.remove(i);
                    proof {
                        assert(self@ =~= old(self)@.remove(i as int));
                    }
                    Some(1)
                },
            },
        }
    }

    /// Delete the record currently holding this live token, if any.
    pub fn delete_user_from_token(&mut self, token: &String, now: u64) -> (r: u64)
        ensures
            ({
                let k = StoreSelector::ByLiveToken(token@, now);
                &&& no_user_match(old(self)@, k) ==> r == 0 && final(self)@ == old(self)@
                &&& forall|i: int|
                    #[trigger] first_user_match_at(old(self)@, k, i) ==> r == 1
                        && final(self)@ == old(self)@.remove(i)
            }),
    {
        match find_first_user(&self.users, &Filter::ByLiveToken(token, now)) {
            Option::None => 0,
            Option::Some(i) => {
                self.users.remove(i);
                proof {
                    assert(self@ =~= old(self)@.remove(i as int));
                }
                1
            },
        }
    }

    /// Append `token` to the token collection of the record keyed by
    /// `uuid`; the count of modified records (zero or one) comes back.
    pub fn save_token(&mut self, uuid: &String, token: &UserToken) -> (r: u64)
        ensures
            ({
                let k = StoreSelector::ByUuid(uuid@);
                &&& no_user_match(old(self)@, k) ==> r == 0 && final(self)@ == old(self)@
                &&& forall|i: int|
                    #[trigger] first_user_match_at(old(self)@, k, i) ==> r == 1
                        && final(self)@ == old(self)@.update(i, user_push_token(old(self)@[i], token@))
            }),
    {
        match find_first_user(&self.users, &Filter::ByUuid(uuid)) {
            Option::None => 0,
            Option::Some(i) => {
                let ghost pre = self@;
                let u = self.users.remove(i);
                let User { timestamp, uuid: key, username, logs, password, tokens, access } = u;
                let mut tvec: Vec<UserToken> = match tokens {
                    Option::None => Vec::new(),
                    Option::Some(v) => v,
                };
                tvec.push(token.clone());
                let u2 = User {
                    timestamp,
                    uuid: key,
                    username,
                    logs,
                    password,
                    tokens: Some(tvec),
                    access,
                };
                proof {
                    assert(u2@.tokens.unwrap() =~= user_push_token(pre[i as int], token@)
                        .tokens.unwrap());
                    assert(u2@ =~= user_push_token(pre[i as int], token@));
                }
                self.users.insert(i, u2);
                proof {
                    vstd::seq_lib::lemma_update_is_remove_insert(
                        pre,
                        i as int,
                        user_push_token(pre[i as int], token@),
                    );
                    assert(self@ =~= pre.remove(i as int).insert(i as int, u2@));
                    assert(self@ =~= pre.update(i as int, user_push_token(pre[i as int], token@)));
                }
                1
            },
        }
    }

    /// Unset the whole token collection of the record keyed by `uuid`.
    /// Partial revocation is not supported: every token goes at once. The
    /// count of modified records comes back: one only where the record
    /// existed and actually carried a collection.
    pub fn clear_tokens(&mut self, uuid: &String) -> (r: u64)
        ensures
            ({
                let k = StoreSelector::ByUuid(uuid@);
                &&& no_user_match(old(self)@, k) ==> r == 0 && final(self)@ == old(self)@
                &&& forall|i: int|
                    #[trigger] first_user_match_at(old(self)@, k, i) ==> final(self)@ == old(self)@.update(
                        i,
                        user_without_tokens(old(self)@[i]),
                    ) && (r == 1 <==> old(self)@[i].tokens is Some)
            }),
    {
        match find_first_user(&self.users, &Filter::ByUuid(uuid)) {
            Option::None => 0,
            Option::Some(i) => {
                let ghost pre = self@;
                let u = self.users.remove(i);
                let had_tokens = u.tokens.is_some();
                let User { timestamp, uuid: key, username, logs, password, tokens: _, access } = u;
                let u2 = User { timestamp, uuid: key, username, logs, password, tokens: None, access };
                proof {
                    assert(u2@ =~= user_without_tokens(pre[i as int]));
                }
                self.users.insert(i, u2);
                proof {
                    vstd::seq_lib::lemma_update_is_remove_insert(
                        pre,
                        i as int,
                        user_without_tokens(pre[i as int]),
                    );
                    assert(self@ =~= pre.remove(i as int).insert(i as int, u2@));
                    assert(self@ =~= pre.update(i as int, user_without_tokens(pre[i as int])));
                }
                if had_tokens {
                    1
                } else {
                    0
                }
            },
        }
    }

    /// Unset the whole token collection of the record holding this live
    /// token; only a token still live at `now` locates its record.
    pub fn clear_tokens_from_token(&mut self, token: &String, now: u64) -> (r: u64)
        ensures
            ({
                let k = StoreSelector::ByLiveToken(token@, now);
                &&& no_user_match(old(self)@, k) ==> r == 0 && final(self)@ == old(self)@
                &&& forall|i: int|
                    #[trigger] first_user_match_at(old(self)@, k, i) ==> r == 1
                        && final(self)@ == old(self)@.update(i, user_without_tokens(old(self)@[i]))
            }),
    {
        match find_first_user(&self.users, &Filter::ByLiveToken(token, now)) {
            Option::None => 0,
            Option::Some(i) => {
                let ghost pre = self@;
                let u = self.users.remove(i);
                let User { timestamp, uuid: key, username, logs, password, tokens: _, access } = u;
                let u2 = User { timestamp, uuid: key, username, logs, password, tokens: None, access };
                proof {
                    assert(u2@ =~= user_without_tokens(pre[i as int]));
                }
                self.users.insert(i, u2);
                proof {
                    vstd::seq_lib::lemma_update_is_remove_insert(
                        pre,
                        i as int,
                        user_without_tokens(pre[i as int]),
                    );
                    assert(self@ =~= pre.remove(i as int).insert(i as int, u2@));
                    assert(self@ =~= pre.update(i as int, user_without_tokens(pre[i as int])));
                }
                1
            },
        }
    }
}

} // verus!
