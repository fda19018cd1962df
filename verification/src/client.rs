//! The transit-data client value: construction only, bound to the
//! configured base URL and secret. Network behaviour belongs to the
//! collaborator that consumes the value.

use vstd::prelude::*;

verus! {

/// A transit-data client value: the base URL it will address and the
/// secret it will authenticate with. Constructing one performs no I/O.
#[derive(Debug)]
pub struct TTClient {
    base_url: String,
    secret: String,
}

impl TTClient {
    /// The base URL the client is bound to.
    pub closed spec fn spec_base_url(&self) -> Seq<char> {
        self.base_url@
    }

    /// The secret the client is bound to.
    pub closed spec fn spec_secret(&self) -> Seq<char> {
        self.secret@
    }

    /// Binds a new client to `base_url` and `secret`.
    pub fn new(base_url: String, secret: String) -> (r: TTClient)
        ensures
            r.spec_base_url() == base_url@,
            r.spec_secret() == secret@,
    {
        TTClient { base_url, secret }
    }

    /// The base URL the client is bound to.
    pub fn base_url(&self) -> (r: &str)
        ensures
            r@ == self.spec_base_url(),
    {
        self.base_url.as_str()
    }

    /// The secret the client is bound to.
    pub fn secret(&self) -> (r: &str)
        ensures
            r@ == self.spec_secret(),
    {
        self.secret.as_str()
    }
}

} // verus!
