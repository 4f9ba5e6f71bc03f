//! The credentials that authenticated requests carry.
use vstd::prelude::*;

verus! {

/// A user name and the access token that authenticates requests made for it.
#[derive(Debug, PartialEq, Eq)]
pub struct Config {
    pub username: String,
    pub access_token: String,
}

impl Clone for Config {
    fn clone(&self) -> (r: Config)
        ensures
            r == *self,
    {
        Config { username: self.username.clone(), access_token: self.access_token.clone() }
    }
}

} // verus!
