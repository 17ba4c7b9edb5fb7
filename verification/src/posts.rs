//! Post validation: confirming a post identifier refers to an existing post.

use vstd::prelude::*;
use vstd::string::StrSliceExecFns;

verus! {

/// A transport or availability failure of the upstream content service, with
/// internal detail for logging. A non-existent post is not an error: it is
/// the `Ok(false)` outcome of [`PostsApi::validate_post_id`].
#[derive(Debug)]
pub struct PostsError {
    pub detail: Option<String>,
}

/// A post-existence oracle. `post_valid` is the validity predicate the
/// implementation answers by whenever it answers at all; `infallible` says
/// whether every call is answered (true of the deterministic mock, not of a
/// networked content service).
pub trait PostsApi {
    spec fn post_valid(&self, post_id: Seq<char>) -> bool;

    spec fn infallible(&self) -> bool;

    /// Confirms a post id refers to a real post. Returns `Ok(false)`, not an
    /// error, for a syntactically fine but non-existent post.
    fn validate_post_id(&self, post_id: &str) -> (r: Result<bool, PostsError>)
        ensures
            r matches Ok(b) ==> b == self.post_valid(post_id@),
            self.infallible() ==> r is Ok,
    ;
}

/// The decision a networked validator makes of the upstream answer: the post
/// exists iff the content service answered the existence probe with 200.
pub fn post_exists_from_status(status: u16) -> (r: bool)
    ensures
        r == (status == 200),
{
    status == 200
}

/// A deterministic validator for exercising the pipeline without network
/// access: a post id is valid iff it is at least ten characters long.
pub struct MockPostsClient;

impl PostsApi for MockPostsClient {
    open spec fn post_valid(&self, post_id: Seq<char>) -> bool {
        post_id.len() >= 10
    }

    open spec fn infallible(&self) -> bool {
        true
    }

    fn validate_post_id(&self, post_id: &str) -> (r: Result<bool, PostsError>)
    {
        Result::Ok(post_id.unicode_len() >= 10)
    }
}

} // verus!
