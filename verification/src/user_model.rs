//! The human-account identity record.
//!
//! A `User` carries its identity key, unique username, optional credential,
//! role/permission set and zero or more live bearer tokens. The User domain
//! supports several concurrently live tokens: refreshing appends, it never
//! replaces.

use vstd::prelude::*;
use crate::ids::{new_uuid, uuid_to_string};
use crate::password::{Password, PasswordView};
use crate::security::{generate_token, is_alphanumeric_char};
use crate::token::TokenView;

verus! {

/// One access-log entry carried on the record; no rule of this library
/// reads it.
#[derive(Debug, PartialEq)]
pub struct UserLog {
    pub ip: String,
    pub timestamp: u64,
}

/// The mathematical content of a log entry.
#[verifier::ext_equal]
pub struct UserLogView {
    pub ip: Seq<char>,
    pub timestamp: u64,
}

impl View for UserLog {
    type V = UserLogView;

    open spec fn view(&self) -> UserLogView {
        UserLogView { ip: self.ip@, timestamp: self.timestamp }
    }
}

impl Clone for UserLog {
    fn clone(&self) -> (r: Self)
        ensures
            r@ == self@,
    {
        UserLog { ip: self.ip.clone(), timestamp: self.timestamp }
    }
}

/// A bearer token of the User domain.
#[derive(Debug, PartialEq)]
pub struct UserToken {
    pub token: String,
    pub timestamp: u64,
    pub expiration_timestamp: u64,
}

impl View for UserToken {
    type V = TokenView;

    open spec fn view(&self) -> TokenView {
        TokenView {
            token: self.token@,
            timestamp: self.timestamp,
            expiration_timestamp: self.expiration_timestamp,
        }
    }
}

impl Clone for UserToken {
    fn clone(&self) -> (r: Self)
        ensures
            r == *self,
    {
        UserToken {
            token: self.token.clone(),
            timestamp: self.timestamp,
            expiration_timestamp: self.expiration_timestamp,
        }
    }
}

/// The role of a human account.
#[derive(Clone, Copy, Debug, PartialEq, Eq, Structural)]
pub enum UserRoleType {
    Admin,
    User,
}

impl Default for UserRoleType {
    /// A new account starts as an ordinary user.
    fn default() -> (r: Self)
        ensures
            r == UserRoleType::User,
    {
        UserRoleType::User
    }
}

/// A fine-grained capability tag of a human account.
#[derive(Clone, Copy, Debug, PartialEq, Eq, Structural)]
pub enum UserPermissionType {
    UserManager,
    NoAccess,
}

impl Default for UserPermissionType {
    fn default() -> (r: Self)
        ensures
            r == UserPermissionType::NoAccess,
    {
        UserPermissionType::NoAccess
    }
}

/// Role and optional capability tags of a human account; written once at
/// creation.
#[derive(Debug, PartialEq)]
pub struct UserAccess {
    pub role: UserRoleType,
    pub permissions: Option<Vec<UserPermissionType>>,
}

/// The mathematical content of a `UserAccess`.
#[verifier::ext_equal]
pub struct UserAccessView {
    pub role: UserRoleType,
    pub permissions: Option<Seq<UserPermissionType>>,
}

impl View for UserAccess {
    type V = UserAccessView;

    open spec fn view(&self) -> UserAccessView {
        UserAccessView {
            role: self.role,
            permissions: match self.permissions {
                Option::None => None,
                Option::Some(v) => Some(v@),
            },
        }
    }
}

impl Clone for UserAccess {
    fn clone(&self) -> (r: Self)
        ensures
            r@ == self@,
    {
        UserAccess {
            role: self.role,
            permissions: match &self.permissions {
                Option::None => None,
                Option::Some(v) => Some(clone_permissions(v)),
            },
        }
    }
}

/// A copy of a capability-tag vector.
fn clone_permissions(v: &Vec<UserPermissionType>) -> (r: Vec<UserPermissionType>)
    ensures
        r@ == v@,
{
    let mut out: Vec<UserPermissionType> = Vec::new();
    let mut i: usize = 0;
    while i < v.len()
        invariant
            i <= v@.len(),
            out@ == v@.subrange(0, i as int),
        decreases v@.len() - i,
    {
        out.push(v[i]);
        proof {
            assert(out@ =~= v@.subrange(0, i + 1 as int));
        }
        i = i + 1;
    }
    proof {
        assert(out@ =~= v@);
    }
    out
}

/// A copy of a token vector, token for token.
pub(crate) fn clone_user_tokens(v: &Vec<UserToken>) -> (r: Vec<UserToken>)
    ensures
        r@ == v@,
{
    let mut out: Vec<UserToken> = Vec::new();
    let mut i: usize = 0;
    while i < v.len()
        invariant
            i <= v@.len(),
            out@ == v@.subrange(0, i as int),
        decreases v@.len() - i,
    {
        out.push(v[i].clone());
        proof {
            assert(out@ =~= v@.subrange(0, i + 1 as int));
        }
        i = i + 1;
    }
    proof {
        assert(out@ =~= v@);
    }
    out
}

/// A copy of a log vector.
fn clone_logs(v: &Vec<UserLog>) -> (r: Vec<UserLog>)
    ensures
        r@.map_values(|l: UserLog| l@) == v@.map_values(|l: UserLog| l@),
{
    let mut out: Vec<UserLog> = Vec::new();
    let mut i: usize = 0;
    while i < v.len()
        invariant
            i <= v@.len(),
            out@.len() == i as int,
            forall|j: int| 0 <= j < i ==> #[trigger] out@[j]@ == v@[j]@,
        decreases v@.len() - i,
    {
        out.push(v[i].clone());
        i = i + 1;
    }
    proof {
        assert(out@.map_values(|l: UserLog| l@) =~= v@.map_values(|l: UserLog| l@));
    }
    out
}

/// The mathematical content of a token vector.
pub open spec fn user_tokens_view(v: Vec<UserToken>) -> Seq<TokenView> {
    v@.map_values(|t: UserToken| t@)
}

/// The index of the first token of `tokens` whose value equals `v`,
/// expired or not, if any.
pub fn find_token_by_value(tokens: &Vec<UserToken>, v: &String) -> (r: Option<usize>)
    ensures
        ({
            let ts = user_tokens_view(*tokens);
            match r {
                Option::None => forall|l: int| 0 <= l < ts.len() ==> (#[trigger] ts[l]).token != v@,
                Option::Some(j) => crate::token::first_token_value_at(ts, v@, j as int),
            }
        }),
{
    let ghost ts = user_tokens_view(*tokens);
    let mut i: usize = 0;
    while i < tokens.len()
        invariant
            i <= tokens@.len(),
            ts == user_tokens_view(*tokens),
            forall|l: int| 0 <= l < i ==> (#[trigger] ts[l]).token != v@,
        decreases tokens@.len() - i,
    {
        if tokens[i].token.eq(v) {
            proof {
                assert(ts[i as int] == tokens@[i as int]@);
            }
            return Some(i);
        }
        proof {
            assert(ts[i as int] == tokens@[i as int]@);
        }
        i = i + 1;
    }
    None
}

/// A human-account identity record.
#[derive(Debug, PartialEq)]
pub struct User {
    pub timestamp: u64,
    pub uuid: String,
    pub username: String,
    pub logs: Option<Vec<UserLog>>,
    pub password: Option<Password>,
    pub tokens: Option<Vec<UserToken>>,
    pub access: UserAccess,
}

/// The mathematical content of a `User` record.
#[verifier::ext_equal]
pub struct UserView {
    pub timestamp: u64,
    pub uuid: Seq<char>,
    pub username: Seq<char>,
    pub logs: Option<Seq<UserLogView>>,
    pub password: Option<PasswordView>,
    pub tokens: Option<Seq<TokenView>>,
    pub access: UserAccessView,
}

impl View for User {
    type V = UserView;

    open spec fn view(&self) -> UserView {
        UserView {
            timestamp: self.timestamp,
            uuid: self.uuid@,
            username: self.username@,
            logs: match self.logs {
                Option::None => None,
                Option::Some(v) => Some(v@.map_values(|l: UserLog| l@)),
            },
            password: match self.password {
                Option::None => None,
                Option::Some(p) => Some(p@),
            },
            tokens: match self.tokens {
                Option::None => None,
                Option::Some(v) => Some(user_tokens_view(v)),
            },
            access: self.access@,
        }
    }
}

impl Clone for User {
    fn clone(&self) -> (r: Self)
        ensures
            r@ == self@,
    {
        let r = User {
            timestamp: self.timestamp,
            uuid: self.uuid.clone(),
            username: self.username.clone(),
            logs: match &self.logs {
                Option::None => None,
                Option::Some(v) => Some(clone_logs(v)),
            },
            password: match &self.password {
                Option::None => None,
                Option::Some(p) => Some(p.clone()),
            },
            tokens: match &self.tokens {
                Option::None => None,
                Option::Some(v) => Some(clone_user_tokens(v)),
            },
            access: self.access.clone(),
        };
        proof {
            assert(r@ =~= self@);
        }
        r
    }
}

/// `u` after appending token `t` to its collection (a record without a
/// collection gains a one-element one).
pub open spec fn user_push_token(u: UserView, t: TokenView) -> UserView {
    UserView {
        tokens: Some(
            match u.tokens {
                Option::None => seq![t],
                Option::Some(s) => s.push(t),
            },
        ),
        ..u
    }
}

/// `u` with its whole token collection unset.
pub open spec fn user_without_tokens(u: UserView) -> UserView {
    UserView { tokens: None, ..u }
}

/// `u` holds a token with value `token`, live or expired.
pub open spec fn user_has_token_value(u: UserView, token: Seq<char>) -> bool {
    match u.tokens {
        Option::None => false,
        Option::Some(ts) => exists|i: int|
            #![trigger ts[i]]
            0 <= i < ts.len() && ts[i].token == token,
    }
}

/// `u` holds a token with value `token` that is live at `now`.
pub open spec fn user_has_live_token(u: UserView, token: Seq<char>, now: u64) -> bool {
    match u.tokens {
        Option::None => false,
        Option::Some(ts) => exists|i: int|
            #![trigger ts[i]]
            0 <= i < ts.len() && ts[i].token == token && ts[i].expiration_timestamp >= now,
    }
}

impl User {
    /// A fresh record for `username`, stamped `now`, with the given
    /// credential, no tokens, no logs, the default role and a fresh random
    /// identity key unless one is supplied.
    pub fn create(username: String, password: Password, uuid: Option<uuid::Uuid>, now: u64) -> (r:
        Self)
        ensures
            r@.timestamp == now,
            r@.uuid.len() == 36,
            r@.username == username@,
            r@.logs is None,
            r@.password == Some(password@),
            r@.tokens is None,
            r@.access == (UserAccessView { role: UserRoleType::User, permissions: None }),
    {
        let uuid_string = match uuid {
            Option::None => {
                let fresh = new_uuid();
                uuid_to_string(&fresh)
            },
            Option::Some(u) => uuid_to_string(&u),
        };
        User {
            timestamp: now,
            uuid: uuid_string,
            username,
            logs: None,
            password: Some(password),
            tokens: None,
            access: UserAccess { role: UserRoleType::default(), permissions: None },
        }
    }

    /// Issue a brand-new random token, live for `seconds` from `now`, and
    /// append it to this record's collection. The value is 128 fresh random
    /// alphanumeric characters; a prior token is never reused or displaced.
    pub fn new_token(&mut self, seconds: u64, now: u64) -> (r: UserToken)
        requires
            now + seconds * 1000 <= u64::MAX,
        ensures
            r@.token.len() == 128,
            forall|i: int| 0 <= i < r@.token.len() ==> is_alphanumeric_char(#[trigger] r@.token[i]),
            r@.timestamp == now,
            r@.expiration_timestamp == now + seconds * 1000,
            final(self)@ == user_push_token(old(self)@, r@),
    {
        let token = UserToken {
            token: generate_token(128),
            timestamp: now,
            expiration_timestamp: now + seconds * 1000,
        };
        let stored = token.clone();
        let mut tokens: Vec<UserToken> = match self.tokens.take() {
            Option::Some(v) => v,
            Option::None => Vec::new(),
        };
        tokens.push(stored);
        self.tokens = Some(tokens);
        proof {
            assert(self@.tokens->Some_0 =~= user_push_token(old(self)@, token@).tokens->Some_0);
            assert(self@ =~= user_push_token(old(self)@, token@));
        }
        token
    }
}

} // verus!
