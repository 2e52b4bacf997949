//! The values routes hand back, and the error taxonomy.

use vstd::prelude::*;

verus! {

/// Everything a route can fail with. Store failures never arise from the
/// in-memory managers of this crate; the variant exists for callers that
/// run the same routes against a fallible store.
#[derive(Clone, Copy, Debug, PartialEq, Eq, Structural)]
pub enum AccountError {
    /// A duplicate username (or an already-provisioned account) on a
    /// non-upsert creation.
    Conflict,
    /// A lookup or deletion criterion matched nothing that the route
    /// requires to exist.
    NotFound,
    /// Bad or missing credentials: a wrong password, or a token that
    /// resolves to no live account.
    AuthenticationFailure,
    /// The caller authenticated but lacks the role the route demands.
    AuthorizationFailure,
    /// The persistence layer failed; surfaced as an internal error.
    StoreFailure,
}

impl AccountError {
    /// The HTTP-style status code of this error: client errors are
    /// 400-class (an authorization miss included, by design), a store
    /// failure is internal.
    pub fn status_code(&self) -> (r: u16)
        ensures
            r == (if self is StoreFailure {
                500u16
            } else {
                400u16
            }),
    {
        match self {
            AccountError::StoreFailure => 500,
            _ => 400,
        }
    }
}

/// A resolved account's public identity.
#[derive(Debug, PartialEq)]
pub struct Account {
    pub uuid: String,
    pub username: String,
}

/// A freshly issued or inspected token, with the identity it belongs to.
#[derive(Debug, PartialEq)]
pub struct AccountTokenInfos {
    pub token: String,
    pub timestamp: u64,
    pub expiration_timestamp: u64,
    pub uuid: String,
}

/// A service account's public identity with its current token value.
#[derive(Debug, PartialEq)]
pub struct ApiAccount {
    pub username: Option<String>,
    pub uuid: String,
    pub token: String,
}

} // verus!
