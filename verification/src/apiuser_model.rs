//! The service-account identity record.
//!
//! An `ApiUser` has the same shape as a human account but holds at most one
//! live bearer token: issuing a new token replaces the old one. The single
//! bootstrap identity with role `Admin` is seeded at process start and is
//! never created through public signup.

use vstd::prelude::*;
use vstd::string::StringExecFns;
use crate::ids::{new_uuid, uuid_to_string};
use crate::password::{Password, PasswordView};
use crate::security::{generate_token, is_alphanumeric_char};
use crate::token::TokenView;

verus! {

/// The bearer token of the ApiUser domain.
#[derive(Debug, PartialEq)]
pub struct ApiUserToken {
    pub token: String,
    pub timestamp: u64,
    pub expiration_timestamp: u64,
}

impl View for ApiUserToken {
    type V = TokenView;

    open spec fn view(&self) -> TokenView {
        TokenView {
            token: self.token@,
            timestamp: self.timestamp,
            expiration_timestamp: self.expiration_timestamp,
        }
    }
}

impl Clone for ApiUserToken {
    fn clone(&self) -> (r: Self)
        ensures
            r == *self,
    {
        ApiUserToken {
            token: self.token.clone(),
            timestamp: self.timestamp,
            expiration_timestamp: self.expiration_timestamp,
        }
    }
}

/// The role of a service account.
#[derive(Clone, Copy, Debug, PartialEq, Eq, Structural)]
pub enum ApiUserRoleType {
    Admin,
    Dev,
    User,
}

impl Default for ApiUserRoleType {
    /// A new service account starts as an ordinary user.
    fn default() -> (r: Self)
        ensures
            r == ApiUserRoleType::User,
    {
        ApiUserRoleType::User
    }
}

/// A fine-grained capability tag of a service account.
#[derive(Clone, Copy, Debug, PartialEq, Eq, Structural)]
pub enum ApiUserPermissionType {
    UserManager,
    NoAccess,
}

impl Default for ApiUserPermissionType {
    fn default() -> (r: Self)
        ensures
            r == ApiUserPermissionType::NoAccess,
    {
        ApiUserPermissionType::NoAccess
    }
}

/// Role and optional capability tags of a service account.
#[derive(Debug, PartialEq)]
pub struct ApiUserAccess {
    pub role: ApiUserRoleType,
    pub permissions: Option<Vec<ApiUserPermissionType>>,
}

/// The mathematical content of an `ApiUserAccess`.
#[verifier::ext_equal]
pub struct ApiUserAccessView {
    pub role: ApiUserRoleType,
    pub permissions: Option<Seq<ApiUserPermissionType>>,
}

impl View for ApiUserAccess {
    type V = ApiUserAccessView;

    open spec fn view(&self) -> ApiUserAccessView {
        ApiUserAccessView {
            role: self.role,
            permissions: match self.permissions {
                Option::None => None,
                Option::Some(v) => Some(v@),
            },
        }
    }
}

impl Clone for ApiUserAccess {
    fn clone(&self) -> (r: Self)
        ensures
            r@ == self@,
    {
        ApiUserAccess {
            role: self.role,
            permissions: match &self.permissions {
                Option::None => None,
                Option::Some(v) => Some(clone_api_permissions(v)),
            },
        }
    }
}

/// A copy of a capability-tag vector.
fn clone_api_permissions(v: &Vec<ApiUserPermissionType>) -> (r: Vec<ApiUserPermissionType>)
    ensures
        r@ == v@,
{
    let mut out: Vec<ApiUserPermissionType> = Vec::new();
    let mut i: usize = 0;
    while i < v.len()
        invariant
            i <= v@.len(),
            out@ == v@.subrange(0, i as int),
        decreases v@.len() - i,
    {
        out.push(v[i]);
        proof {
            assert(out@ =~= v@.subrange(0, i + 1 as int));
        }
        i = i + 1;
    }
    proof {
        assert(out@ =~= v@);
    }
    out
}

/// A service-account identity record. The username and credential are
/// optional: admin-provisioned accounts may be token-only.
#[derive(Debug, PartialEq)]
pub struct ApiUser {
    pub timestamp: u64,
    pub uuid: String,
    pub username: Option<String>,
    pub password: Option<Password>,
    pub token: Option<ApiUserToken>,
    pub access: ApiUserAccess,
}

/// The mathematical content of an `ApiUser` record.
#[verifier::ext_equal]
pub struct ApiUserView {
    pub timestamp: u64,
    pub uuid: Seq<char>,
    pub username: Option<Seq<char>>,
    pub password: Option<PasswordView>,
    pub token: Option<TokenView>,
    pub access: ApiUserAccessView,
}

impl View for ApiUser {
    type V = ApiUserView;

    open spec fn view(&self) -> ApiUserView {
        ApiUserView {
            timestamp: self.timestamp,
            uuid: self.uuid@,
            username: match self.username {
                Option::None => None,
                Option::Some(n) => Some(n@),
            },
            password: match self.password {
                Option::None => None,
                Option::Some(p) => Some(p@),
            },
            token: match self.token {
                Option::None => None,
                Option::Some(t) => Some(t@),
            },
            access: self.access@,
        }
    }
}

impl Clone for ApiUser {
    fn clone(&self) -> (r: Self)
        ensures
            r@ == self@,
    {
        let r = ApiUser {
            timestamp: self.timestamp,
            uuid: self.uuid.clone(),
            username: match &self.username {
                Option::None => None,
                Option::Some(n) => Some(n.clone()),
            },
            password: match &self.password {
                Option::None => None,
                Option::Some(p) => Some(p.clone()),
            },
            token: match &self.token {
                Option::None => None,
                Option::Some(t) => Some(t.clone()),
            },
            access: self.access.clone(),
        };
        proof {
            assert(r@ =~= self@);
        }
        r
    }
}

/// `a` with its token field set to exactly `t`, displacing any prior token.
pub open spec fn apiuser_with_token(a: ApiUserView, t: TokenView) -> ApiUserView {
    ApiUserView { token: Some(t), ..a }
}

/// `a` with its token field unset.
pub open spec fn apiuser_without_token(a: ApiUserView) -> ApiUserView {
    ApiUserView { token: None, ..a }
}

/// `a` holds a token with value `token` that is live at `now`. At most one
/// token exists per service account, so this reads the single field.
pub open spec fn apiuser_has_live_token(a: ApiUserView, token: Seq<char>, now: u64) -> bool {
    match a.token {
        Option::None => false,
        Option::Some(t) => t.token == token && t.expiration_timestamp >= now,
    }
}

impl ApiUser {
    /// The bootstrap administrator identity: the reserved name, role
    /// `Admin`, and an initial token whose value is the configured secret
    /// and whose expiry is effectively unbounded.
    pub fn create_default(token: String, now: u64) -> (r: Self)
        ensures
            r@.timestamp == 0,
            r@.uuid == "admin"@,
            r@.username == Some("admin"@),
            r@.password is None,
            r@.token == Some(
                TokenView {
                    token: token@,
                    timestamp: now,
                    expiration_timestamp: 0x7FFF_FFFF_FFFF_FFFF,
                },
            ),
            r@.access == (ApiUserAccessView { role: ApiUserRoleType::Admin, permissions: None }),
    {
        ApiUser {
            timestamp: 0,
            uuid: String::from_str("admin"),
            username: Some(String::from_str("admin")),
            password: None,
            token: Some(
                ApiUserToken {
                    token,
                    timestamp: now,
                    expiration_timestamp: 0x7FFF_FFFF_FFFF_FFFF,
                },
            ),
            access: ApiUserAccess { role: ApiUserRoleType::Admin, permissions: None },
        }
    }

    /// A fresh token-only service account keyed by `uuid`, stamped `now`,
    /// with no username, no credential and the default role.
    pub fn create(uuid: String, now: u64) -> (r: Self)
        ensures
            r@.timestamp == now,
            r@.uuid == uuid@,
            r@.username is None,
            r@.password is None,
            r@.token is None,
            r@.access == (ApiUserAccessView { role: ApiUserRoleType::User, permissions: None }),
    {
        ApiUser {
            timestamp: now,
            uuid,
            username: None,
            password: None,
            token: None,
            access: ApiUserAccess { role: ApiUserRoleType::default(), permissions: None },
        }
    }

    /// A fresh credentialed service account for `username`, with a fresh
    /// random identity key unless one is supplied.
    pub fn create_with_password(
        username: String,
        password: Password,
        uuid: Option<uuid::Uuid>,
        now: u64,
    ) -> (r: Self)
        ensures
            r@.timestamp == now,
            r@.uuid.len() == 36,
            r@.username == Some(username@),
            r@.password == Some(password@),
            r@.token is None,
            r@.access == (ApiUserAccessView { role: ApiUserRoleType::User, permissions: None }),
    {
        let uuid_string = match uuid {
            Option::None => {
                let fresh = new_uuid();
                uuid_to_string(&fresh)
            },
            Option::Some(u) => uuid_to_string(&u),
        };
        ApiUser {
            timestamp: now,
            uuid: uuid_string,
            username: Some(username),
            password: Some(password),
            token: None,
            access: ApiUserAccess { role: ApiUserRoleType::default(), permissions: None },
        }
    }

    /// Issue a brand-new random token, live for `seconds` from `now`, and
    /// store it as this record's single token, displacing any prior one.
    pub fn new_token(&mut self, seconds: u64, now: u64) -> (r: ApiUserToken)
        requires
            now + seconds * 1000 <= u64::MAX,
        ensures
            r@.token.len() == 128,
            forall|i: int| 0 <= i < r@.token.len() ==> is_alphanumeric_char(#[trigger] r@.token[i]),
            r@.timestamp == now,
            r@.expiration_timestamp == now + seconds * 1000,
            final(self)@ == apiuser_with_token(old(self)@, r@),
    {
        let token = ApiUserToken {
            token: generate_token(128),
            timestamp: now,
            expiration_timestamp: now + seconds * 1000,
        };
        let stored = token.clone();
        self.token = Some(stored);
        proof {
            assert(self@ =~= apiuser_with_token(old(self)@, token@));
        }
        token
    }
}

} // verus!
