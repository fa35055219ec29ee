use vstd::prelude::*;

use crate::endpoint::{Endpoint, EndpointBuilder};
use crate::error::Error;
use crate::signing::check_hmac_key;

verus! {

/// How the paths built against a server are signed.
#[derive(Debug, Clone, PartialEq, Eq)]
pub enum Security {
    /// No signature: the signature segment is the literal `unsafe`.
    Unsafe,
    /// An HMAC-SHA1 signature keyed with this secret.
    Hmac(String),
}

impl Security {
    /// A copy of the security mode.
    pub fn duplicate(&self) -> (r: Security)
        ensures
            r == *self,
    {
        match self {
            Security::Unsafe => Security::Unsafe,
            Security::Hmac(key) => Security::Hmac(key.clone()),
        }
    }
}

impl Default for Security {
    fn default() -> (r: Security)
        ensures
            r == Security::Unsafe,
    {
        Security::Unsafe
    }
}

/// A server origin with its security mode.
#[derive(Debug, Clone, PartialEq, Eq)]
pub struct Server {
    pub origin: String,
    pub security: Security,
}

impl Server {
    /// A server whose paths are signed with `key`. Fails with
    /// `Error::InvalidKey` if the key cannot initialize the signing primitive,
    /// which HMAC-SHA1 never refuses.
    pub fn new(origin: &str, key: &str) -> (r: Result<Server, Error>)
        ensures
            r is Ok,
            r->Ok_0.origin@ == origin@,
            r->Ok_0.security matches Security::Hmac(k) && k@ == key@,
    {
        match check_hmac_key(key.as_bytes()) {
            Ok(()) => Ok(
                Server { origin: origin.to_owned(), security: Security::Hmac(key.to_owned()) },
            ),
            Err(_) => Err(Error::InvalidKey),
        }
    }

    /// A server whose paths are not signed. Meant for local use only.
    pub fn new_unsafe(origin: &str) -> (r: Server)
        ensures
            r.origin@ == origin@,
            r.security == Security::Unsafe,
    {
        Server { origin: origin.to_owned(), security: Security::Unsafe }
    }

    /// A copy of the server.
    pub fn duplicate(&self) -> (r: Server)
        ensures
            r == *self,
    {
        Server { origin: self.origin.clone(), security: self.security.duplicate() }
    }

    /// A builder for endpoints on this server, with no option set.
    pub fn endpoint_builder(&self) -> (r: EndpointBuilder)
        ensures
            r.endpoint.is_bare_on(*self),
    {
        Endpoint::with_server(self.duplicate())
    }
}

} // verus!
