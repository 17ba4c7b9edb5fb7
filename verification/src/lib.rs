//! Engagement tracking for a blogging platform.
//!
//! The library records user interactions (view/like/share) against posts,
//! optionally attaching deduplicated device metadata, and answers filtered
//! queries and per-kind summaries over the recorded events. Every write is
//! gated by a request pipeline that resolves an optional end-user identity,
//! validates the target post, and only then persists; the read endpoints are
//! gated by a shared-secret internal token.

pub mod api;
pub mod domain;
pub mod guard;
pub mod pipeline;
pub mod posts;
pub mod store;
pub mod users;

use vstd::prelude::*;

verus! {

/// Spec-level view of an optional string: `None` stays `None`, a present
/// string is replaced by its character sequence.
pub open spec fn opt_view(o: Option<String>) -> Option<Seq<char>> {
    match o {
        Option::Some(s) => Option::Some(s@),
        Option::None => Option::None,
    }
}

/// Compares two optional strings by content; absence is a value of its own,
/// equal only to absence.
pub fn opt_str_eq(a: &Option<String>, b: &Option<String>) -> (r: bool)
    ensures
        r == (opt_view(*a) == opt_view(*b)),
{
    match (a, b) {
        (Option::Some(x), Option::Some(y)) => *x == *y,
        (Option::None, Option::None) => true,
        _ => false,
    }
}

/// Clones an optional string; the result is equal to the input.
pub fn clone_opt_string(o: &Option<String>) -> (r: Option<String>)
    ensures
        r == *o,
{
    match o {
        Option::Some(s) => Option::Some(s.clone()),
        Option::None => Option::None,
    }
}

} // verus!
