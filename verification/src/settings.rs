//! Process configuration handed in by the surrounding program.

use vstd::prelude::*;

verus! {

/// The three settings the backend is started with: where the store lives,
/// which database to use, and the bootstrap administrator's token secret.
/// Reading them from the environment is the surrounding program's job.
#[derive(Debug, PartialEq)]
pub struct Settings {
    pub mongodb_uri: String,
    pub mongodb_name: String,
    pub admin_token: String,
}

impl Settings {
    /// Bundle the three settings.
    pub fn new(mongodb_uri: String, mongodb_name: String, admin_token: String) -> (r: Self)
        ensures
            r.mongodb_uri == mongodb_uri,
            r.mongodb_name == mongodb_name,
            r.admin_token == admin_token,
    {
        Settings { mongodb_uri, mongodb_name, admin_token }
    }
}

impl Clone for Settings {
    fn clone(&self) -> (r: Self)
        ensures
            r == *self,
    {
        Settings {
            mongodb_uri: self.mongodb_uri.clone(),
            mongodb_name: self.mongodb_name.clone(),
            admin_token: self.admin_token.clone(),
        }
    }
}

} // verus!
