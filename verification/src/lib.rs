//! Per-route admission control with fixed-window counters.
//!
//! A [`limiter::RateLimiter`] maps a request's method and path to the
//! [`limit::Limit`] of the first configured route that matches, and a
//! [`backend::BackendProvider`] keeps one [`backend::Bucket`] per caller and
//! path to decide whether the request still fits into the current window.

pub mod backend;
pub mod error;
pub mod limit;
pub mod limiter;
pub mod route;
pub mod time;

use vstd::prelude::*;
use vstd::string::StringExecFns;

verus! {

/// Key of one bucket: the caller's identity and the request's path, joined as
/// `{identity}:{path}`.
pub type RequestId = String;

/// The key of the bucket of `identity` on `path`.
pub open spec fn spec_request_id(identity: Seq<char>, path: Seq<char>) -> Seq<char> {
    identity + seq![':'] + path
}

/// Joins the caller's identity and the request's path into the key of
/// their bucket. What the identity holds is of no concern here.
pub fn request_id(identity: &str, path: &str) -> (id: RequestId)
    ensures
        id@ == spec_request_id(identity@, path@),
{
    let mut id = String::from_str(identity);
    id.append(":");
    id.append(path);
    proof {
        reveal_strlit(":");
    }
    id
}

} // verus!
