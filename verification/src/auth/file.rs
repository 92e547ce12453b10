//! The file in which the token is kept.
use vstd::prelude::*;

verus! {

/// What the state file holds: the token.
pub struct AuthFile {
    pub token: String,
}

impl AuthFile {
    /// The file content that keeps `token`.
    pub fn new(token: String) -> (r: AuthFile)
        ensures
            r.token == token,
    {
        AuthFile { token }
    }
}

} // verus!
