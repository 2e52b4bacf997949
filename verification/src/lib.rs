//! Verified core of an account-and-token authentication backend.
//!
//! Two identity domains are served: human accounts (`User`) and service
//! accounts (`ApiUser`). The library covers salted password hashing,
//! bearer-token issue/expiry/revocation, the lookup precedence rules of the
//! two account managers, and the request-guard and route decision logic.
//! Persistence is an in-memory document store per domain whose find, update
//! and delete semantics are stated in the managers' contracts; process-level
//! I/O (HTTP, a database connection) stays outside this crate.
#![allow(unused_imports)]

pub mod security;
pub mod password;
pub mod token;
pub mod ids;
pub mod user_model;
pub mod apiuser_model;
pub mod filter;
pub mod user_manager;
pub mod api_manager;
pub mod account_model;
pub mod auth;
pub mod admin_account;
pub mod api_account;
pub mod api_admin_account;
pub mod api_root_account;
pub mod root_account;
pub mod user_account;
pub mod bootstrap;
pub mod settings;
pub mod laws;
