//! Identity resolution: turning an opaque bearer credential into a verified
//! user identity or "anonymous".

use vstd::prelude::*;
use vstd::string::StrSliceExecFns;
use vstd::string::StringExecFns;

verus! {

/// A minimal external identity: an opaque id string. Not stored by this
/// library; resolved per request and attached to an event by value.
#[derive(Debug)]
pub struct User {
    pub id: String,
}

impl Clone for User {
    fn clone(&self) -> (r: Self)
        ensures
            r == *self,
    {
        User { id: self.id.clone() }
    }
}

/// How identity resolution can fail. An unresolvable credential is the normal
/// non-error outcome (`Ok(None)` of [`UsersApi::fetch_user`]); these are the
/// failures proper.
#[derive(Debug)]
pub enum FetchUserError {
    /// The presented credential was rejected outright by the directory.
    InvalidAuthorization,
    /// An upstream transport or protocol failure, with internal detail for
    /// logging. Distinct from an invalid credential: it surfaces as a server
    /// error, not as unauthorized.
    Unknown(Option<String>),
}

/// The spec-level outcome of a successful directory answer: the id of the
/// resolved user, or `None` when the directory does not know the credential.
pub open spec fn resolved_user_id(u: Option<User>) -> Option<Seq<char>> {
    match u {
        Option::Some(user) => Option::Some(user.id@),
        Option::None => Option::None,
    }
}

/// A user directory. `known_user` is the resolution the implementation
/// answers by whenever it answers at all; `infallible` says whether every
/// call is answered (true of the deterministic mock, not of a networked
/// directory, whose calls may also fail in transport).
pub trait UsersApi {
    spec fn known_user(&self, credential: Seq<char>) -> Option<Seq<char>>;

    spec fn infallible(&self) -> bool;

    /// Resolves a raw bearer credential. `Ok(None)` means the directory does
    /// not know the credential: a normal outcome, distinguished from the
    /// failures of [`FetchUserError`].
    fn fetch_user(&self, authorization: &str) -> (r: Result<Option<User>, FetchUserError>)
        ensures
            r matches Ok(u) ==> resolved_user_id(u) == self.known_user(authorization@),
            self.infallible() ==> r is Ok,
    ;

    /// A cheaper existence check: whether the credential resolves at all,
    /// without materializing the user.
    fn validate(&self, credential: &str) -> (r: Result<bool, FetchUserError>)
        ensures
            r matches Ok(b) ==> b == (self.known_user(credential@) is Some),
            self.infallible() ==> r is Ok,
    ;
}

/// The decision a networked directory client makes of the introspection
/// answer: an upstream 400 means the credential is unknown — a normal
/// outcome — and any other status must come with a parsed user body, else the
/// exchange failed with the given detail.
pub fn introspection_outcome(status: u16, parsed_user: Option<User>, detail: Option<String>) -> (r:
    Result<Option<User>, FetchUserError>)
    ensures
        status == 400 ==> (r matches Ok(u) && u is None),
        (status != 400 && parsed_user is Some) ==> (r matches Ok(u) && u == parsed_user),
        (status != 400 && parsed_user is None) ==> (r matches Err(e) && e matches
            FetchUserError::Unknown(d) && d == detail),
{
    if status == 400 {
        Result::Ok(Option::None)
    } else {
        match parsed_user {
            Option::Some(user) => Result::Ok(Option::Some(user)),
            Option::None => Result::Err(FetchUserError::Unknown(detail)),
        }
    }
}

/// A deterministic directory for exercising the pipeline without network
/// access: a credential resolves iff it is at least ten characters long, and
/// always to the same user.
pub struct MockUsersClient;

impl UsersApi for MockUsersClient {
    open spec fn known_user(&self, credential: Seq<char>) -> Option<Seq<char>> {
        if credential.len() >= 10 {
            Option::Some("1234567890"@)
        } else {
            Option::None
        }
    }

    open spec fn infallible(&self) -> bool {
        true
    }

    fn fetch_user(&self, authorization: &str) -> (r: Result<Option<User>, FetchUserError>)
    {
        if authorization.unicode_len() >= 10 {
            Result::Ok(Option::Some(User { id: String::from_str("1234567890") }))
        } else {
            Result::Ok(Option::None)
        }
    }

    fn validate(&self, credential: &str) -> (r: Result<bool, FetchUserError>)
    {
        Result::Ok(credential.unicode_len() >= 10)
    }
}

} // verus!
