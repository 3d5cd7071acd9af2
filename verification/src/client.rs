//! The HTTP client abstraction: a capability contract for issuing GET
//! requests, a response value, and a generic wrapper that owns one concrete
//! backend and forwards operations to it.

use vstd::prelude::*;

verus! {

/// An immutable fetched document: the numeric HTTP status and the raw body
/// text, exactly as the backend returned them.
#[derive(Debug, PartialEq, Eq)]
pub struct Response {
    pub status: u16,
    pub body: String,
}

/// A backend error must be reportable for diagnostics.
pub trait ResponseErr: core::fmt::Debug {}

/// The capability contract a networking backend must provide: issue a
/// synchronous GET, and associate a cookie with future requests.
pub trait IClient {
    type Error;

    /// Which outcomes a GET to `path` through this backend can have. A
    /// network fetch is not a function of its inputs, so an implementor
    /// chooses how much this admits (by default, any outcome); the wrapper
    /// forwards only outcomes the backend admits.
    open spec fn get_admits(&self, path: Seq<char>, r: Result<Response, Self::Error>) -> bool {
        true
    }

    /// Issue a synchronous GET to `path`; on success the response carries
    /// the backend's numeric HTTP status and the payload text unchanged.
    fn get(&self, path: &str) -> (r: Result<Response, Self::Error>)
        ensures
            self.get_admits(path@, r),
    ;

    /// Associate a cookie value with future requests scoped to `url`.
    fn add_cookie(&mut self, cookie: &str, url: &str);
}

/// A generic holder that owns exactly one concrete backend and forwards
/// operations to it.
pub struct Client<C: IClient> {
    client: C,
}

impl<C: IClient> Client<C> {
    /// The backend this wrapper owns.
    pub closed spec fn backend(&self) -> C {
        self.client
    }

    /// Wrap a concrete backend.
    pub fn new(client: C) -> (r: Self)
        ensures
            r.backend() == client,
    {
        Self { client }
    }

    /// Issue a GET through the backend, forwarding its result unchanged:
    /// the outcome is one the backend itself admits for this path, never a
    /// substitute made up by the wrapper.
    pub fn get(&self, path: &str) -> (r: Result<Response, C::Error>) where
        C::Error: ResponseErr,

        ensures
            self.backend().get_admits(path@, r),
    {
        self.client.get(path)
    }

    /// Cookie association is not yet wired to a session store; the wrapper
    /// and its backend are left exactly as they were.
    pub fn add_coockie(&mut self, coockie: &str) -> (r: &mut Self)
        ensures
            *r == *old(self),
            *final(self) == *final(r),
    {
        self
    }
}

} // verus!
