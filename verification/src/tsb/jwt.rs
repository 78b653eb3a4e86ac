//! Where the bearer token of a TSB request comes from.
use crate::secret::Secret;
use vstd::prelude::*;

verus! {

/// Supplies the current bearer JWT for TSB requests.
///
/// It is asked on every request, so that a provider that refreshes its token
/// does so unnoticed.
pub trait JwtProvider: Send + Sync + core::fmt::Debug {
    /// The bearer token to use for the next request.
    fn current(&self) -> (token: Secret);
}

/// A fixed, non-refreshing JWT (sandbox / long-lived tokens).
#[derive(Debug)]
pub struct StaticJwt(Secret);

impl View for StaticJwt {
    type V = Seq<char>;

    closed spec fn view(&self) -> Seq<char> {
        self.0@
    }
}

impl StaticJwt {
    /// Wrap a static bearer token.
    pub fn new(jwt: Secret) -> (provider: StaticJwt)
        ensures
            provider@ == jwt@,
    {
        StaticJwt(jwt)
    }
}

impl Clone for StaticJwt {
    fn clone(&self) -> (copy: StaticJwt)
        ensures
            copy@ == self@,
    {
        StaticJwt(self.0.clone())
    }
}

impl JwtProvider for StaticJwt {
    fn current(&self) -> (token: Secret)
        ensures
            token@ == self@,
    {
        self.0.clone()
    }
}

/// A static provider gives the token it was made with, on every call.
pub proof fn law_static_token(provider: StaticJwt, token: Secret)
    requires
        call_ensures(StaticJwt::current, (&provider,), token),
    ensures
        token@ == provider@,
{
}

} // verus!
