//! The internal-access guard: a shared-secret header check gating the read
//! endpoints, independent of end-user identity.

use vstd::prelude::*;
use crate::opt_view;

verus! {

/// Whether a received `X-Internal-Token` header value authorizes the request:
/// the header must be present and equal, character for character, to the
/// configured shared secret.
pub open spec fn header_authorized(token: Seq<char>, header: Option<Seq<char>>) -> bool {
    header == Option::Some(token)
}

/// Configuration of the guard: the shared secret it compares against.
pub struct InternalAuthLayer {
    pub token: String,
}

impl InternalAuthLayer {
    pub fn new(token: String) -> (r: Self)
        ensures
            r.token@ == token@,
    {
        InternalAuthLayer { token }
    }

    /// Produces the guard that checks requests against this layer's secret.
    pub fn layer(&self) -> (r: InternalAuth)
        ensures
            r.token@ == self.token@,
    {
        InternalAuth { token: self.token.clone() }
    }
}

/// The guard itself. The surrounding service runs [`InternalAuth::authorize`]
/// on each gated request before any store access and rejects the request as
/// unauthorized when it returns false.
pub struct InternalAuth {
    pub token: String,
}

impl InternalAuth {
    /// Exact equality check of the internal token header against the shared
    /// secret; a missing header never authorizes.
    pub fn authorize(&self, header: &Option<String>) -> (r: bool)
        ensures
            r == header_authorized(self.token@, opt_view(*header)),
    {
        match header {
            Option::Some(h) => *h == self.token,
            Option::None => false,
        }
    }
}

} // verus!
