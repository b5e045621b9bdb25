//! Buckets, the rule that judges a request against one, and the interface
//! of the stores that keep them.
//!
//! The rule is a fixed-window counter. The first request of a key opens a
//! bucket with the full quota and is counted against it at once, so a quota
//! of `N` lets exactly `N` requests through in the first window as in every
//! later one. A window is over once its full length in whole seconds has
//! passed; the request that finds it over opens the next window and is let
//! through. A quota of zero closes a route: every request is turned away,
//! the first one and the one that finds a window over included, and no
//! count ever goes below zero.

pub mod memory;

use vstd::prelude::*;
use crate::limit::Limit;
use crate::time::Timestamp;
use crate::RequestId;

verus! {

/// The answer to one request.
#[derive(Clone, Copy, Debug, PartialEq, Eq, Structural)]
pub enum Decision {
    /// The request fits into the current window.
    Allow,
    /// The quota of the current window is used up.
    Deny,
}

/// What a store can report instead of letting a request through.
#[derive(Debug)]
pub enum BackendError {
    /// The request exceeds the quota of its window.
    RateLimited,
    /// The store could not judge the request; the text says why.
    VerificationError(String),
}

/// The account of one caller on one path within the current window.
#[derive(Clone, Copy, Debug, PartialEq, Eq, Structural, Hash)]
pub struct Bucket {
    /// Requests that the caller may still make in this window.
    pub remaining: i64,
    /// When this window began.
    pub created_at: Timestamp,
}

impl Bucket {
    /// The bucket that a key gets when it is seen for the first time: the
    /// full quota, in a window that starts at `now`.
    pub open spec fn fresh(limit: Limit, now: Timestamp) -> Bucket {
        Bucket { remaining: limit.spec_amount(), created_at: now }
    }

    /// The bucket that opens a new window at `now` and already counts the
    /// request that opened it. It is made only under a quota of at least
    /// one.
    pub open spec fn renewed(limit: Limit, now: Timestamp) -> Bucket {
        Bucket { remaining: (limit.spec_amount() - 1) as i64, created_at: now }
    }

    /// Whether the window of this bucket is over at `now`: at least
    /// `limit.ttl()` whole seconds have passed since it began.
    pub open spec fn expired(&self, limit: Limit, now: Timestamp) -> bool {
        now.spec_seconds_since(&self.created_at) >= limit.spec_ttl()
    }

    /// The same bucket with one request less to go.
    pub open spec fn spent(&self) -> Bucket {
        Bucket { remaining: (self.remaining - 1) as i64, created_at: self.created_at }
    }
}

/// The fixed-window rule. A key without a bucket gets a fresh one, and the
/// request is then judged against it like any other. Under a quota of zero
/// the request is turned away, whatever the bucket holds and whether its
/// window is over or not. Otherwise, if the window is over, a new one opens
/// and the request is let through; if it is not, the request is let through
/// and counted as long as something remains, and turned away once nothing
/// remains. A request that is turned away leaves the bucket as it is.
pub open spec fn spec_judge(existing: Option<Bucket>, limit: Limit, now: Timestamp) -> (
    Bucket,
    Decision,
) {
    let bucket = match existing {
        Some(bucket) => bucket,
        None => Bucket::fresh(limit, now),
    };
    if limit.spec_amount() == 0 {
        (bucket, Decision::Deny)
    } else if bucket.expired(limit, now) {
        (Bucket::renewed(limit, now), Decision::Allow)
    } else if bucket.remaining <= 0 {
        (bucket, Decision::Deny)
    } else {
        (bucket.spent(), Decision::Allow)
    }
}

/// Judges one request at `now` against the bucket of its key, if the key
/// has one, and returns the bucket to keep for the key and the answer.
pub fn judge(existing: Option<Bucket>, limit: Limit, now: Timestamp) -> (r: (Bucket, Decision))
    ensures
        r == spec_judge(existing, limit, now),
{
    let amount = limit.amount();
    let ttl = limit.ttl();
    let bucket = match existing {
        Some(bucket) => bucket,
        None => Bucket { remaining: amount, created_at: now },
    };
    if amount == 0 {
        (bucket, Decision::Deny)
    } else if now.seconds_since(&bucket.created_at) >= ttl as i128 {
        (Bucket { remaining: amount - 1, created_at: now }, Decision::Allow)
    } else if bucket.remaining <= 0 {
        (bucket, Decision::Deny)
    } else {
        (Bucket { remaining: bucket.remaining - 1, created_at: bucket.created_at }, Decision::Allow)
    }
}

/// The bucket that a key has after requests at `times`, one after the
/// other, where `existing` is what it had before the first of them.
pub open spec fn bucket_after(existing: Option<Bucket>, limit: Limit, times: Seq<Timestamp>) -> Option<
    Bucket,
>
    decreases times.len(),
{
    if times.len() == 0 {
        existing
    } else {
        Some(spec_judge(bucket_after(existing, limit, times.drop_last()), limit, times.last()).0)
    }
}

/// The answer to the request at `times[i]`, which comes after the requests
/// at `times[0]` to `times[i - 1]`.
pub open spec fn decision_at(
    existing: Option<Bucket>,
    limit: Limit,
    times: Seq<Timestamp>,
    i: int,
) -> Decision {
    spec_judge(bucket_after(existing, limit, times.take(i)), limit, times[i]).1
}

/// How many of the requests at `times` are let through.
pub open spec fn allowed_count(existing: Option<Bucket>, limit: Limit, times: Seq<Timestamp>) -> nat
    decreases times.len(),
{
    if times.len() == 0 {
        0
    } else {
        let before = allowed_count(existing, limit, times.drop_last());
        if decision_at(existing, limit, times, times.len() - 1) == Decision::Allow {
            before + 1
        } else {
            before
        }
    }
}

/// Whether every request at `times` arrives while the window that began at
/// `start` is still open.
pub open spec fn within_window(start: Timestamp, limit: Limit, times: Seq<Timestamp>) -> bool {
    forall|k: int|
        0 <= k < times.len() ==> (#[trigger] times[k]).spec_seconds_since(&start)
            < limit.spec_ttl()
}

/// What is left of `remaining` after `requests` requests in one window.
pub open spec fn left_after(remaining: i64, requests: nat) -> int {
    if remaining <= 0 {
        remaining as int
    } else if requests <= remaining {
        remaining - requests
    } else {
        0
    }
}

proof fn lemma_bucket_in_open_window(bucket: Bucket, limit: Limit, times: Seq<Timestamp>)
    requires
        limit.valid(),
        limit.spec_amount() >= 1,
        within_window(bucket.created_at, limit, times),
    ensures
        bucket_after(Some(bucket), limit, times) matches Some(after) && after.created_at
            == bucket.created_at && after.remaining == left_after(bucket.remaining, times.len()),
    decreases times.len(),
{
    if times.len() > 0 {
        lemma_bucket_in_open_window(bucket, limit, times.drop_last());
    }
}

proof fn lemma_first_request_opens_bucket(limit: Limit, times: Seq<Timestamp>)
    requires
        times.len() > 0,
    ensures
        bucket_after(None, limit, times) == bucket_after(
            Some(Bucket::fresh(limit, times[0])),
            limit,
            times,
        ),
    decreases times.len(),
{
    let earlier = times.drop_last();
    if earlier.len() > 0 {
        lemma_first_request_opens_bucket(limit, earlier);
    } else {
        assert(bucket_after(None, limit, earlier) == None::<Bucket>);
        assert(bucket_after(Some(Bucket::fresh(limit, times[0])), limit, earlier) == Some(
            Bucket::fresh(limit, times[0]),
        ));
    }
}

/// While the window of a bucket is open, and the quota is not zero, the
/// requests are let through until what remained is used up, and every
/// request after that is turned away: the request at position `i`, counted
/// from zero, is let through exactly if `i` is less than what remained at
/// the start.
pub proof fn lemma_open_window_allows_what_remains(
    bucket: Bucket,
    limit: Limit,
    times: Seq<Timestamp>,
    i: int,
)
    requires
        limit.valid(),
        within_window(bucket.created_at, limit, times),
        0 <= i < times.len(),
    ensures
        decision_at(Some(bucket), limit, times, i) == (if limit.spec_amount() >= 1 && i
            < bucket.remaining {
            Decision::Allow
        } else {
            Decision::Deny
        }),
{
    if limit.spec_amount() >= 1 {
        lemma_bucket_in_open_window(bucket, limit, times.take(i));
    }
}

/// A key that is seen for the first time gets exactly its quota: of the
/// requests that follow one another within the window that the first of
/// them opens, the first `limit.amount()` are let through and every later
/// one is turned away. With a quota of `N >= 1` the `N`-th request is the
/// last one let through and the one after it the first one turned away.
pub proof fn lemma_fresh_key_gets_its_quota(limit: Limit, times: Seq<Timestamp>, i: int)
    requires
        limit.valid(),
        0 <= i < times.len(),
        within_window(times[0], limit, times),
    ensures
        decision_at(None, limit, times, i) == (if i < limit.spec_amount() {
            Decision::Allow
        } else {
            Decision::Deny
        }),
{
    let fresh = Bucket::fresh(limit, times[0]);
    if i > 0 {
        lemma_first_request_opens_bucket(limit, times.take(i));
    }
    lemma_open_window_allows_what_remains(fresh, limit, times, i);
}

/// A quota of zero turns every request away: the first one of a key, every
/// one within a window, and the one that finds a window over. Whatever the
/// key had before and whenever the requests arrive, each of them is
/// refused, and a refused request leaves the bucket as it found it.
pub proof fn lemma_zero_quota_denies_all(
    existing: Option<Bucket>,
    limit: Limit,
    times: Seq<Timestamp>,
    i: int,
)
    requires
        limit.spec_amount() == 0,
        0 <= i < times.len(),
    ensures
        decision_at(existing, limit, times, i) == Decision::Deny,
        forall|bucket: Bucket, now: Timestamp| #[trigger]
            spec_judge(Some(bucket), limit, now) == (bucket, Decision::Deny),
        forall|now: Timestamp| #[trigger]
            spec_judge(None, limit, now) == (Bucket::fresh(limit, now), Decision::Deny),
{
}

/// Once the window of a bucket is over, the next request under a quota of
/// at least one is let through and opens a new window that it is already
/// counted in, whatever the old bucket had left.
pub proof fn lemma_expired_window_reopens(bucket: Bucket, limit: Limit, now: Timestamp)
    requires
        limit.valid(),
        limit.spec_amount() >= 1,
        bucket.expired(limit, now),
    ensures
        spec_judge(Some(bucket), limit, now) == (Bucket::renewed(limit, now), Decision::Allow),
        Bucket::renewed(limit, now).remaining == limit.spec_amount() - 1,
        Bucket::renewed(limit, now).created_at == now,
{
}

/// No count goes below zero: a request that meets no bucket, or a bucket
/// with nothing less than zero remaining, leaves a bucket with nothing less
/// than zero remaining.
pub proof fn lemma_remaining_never_negative(
    existing: Option<Bucket>,
    limit: Limit,
    now: Timestamp,
)
    requires
        limit.valid(),
        existing matches Some(bucket) ==> bucket.remaining >= 0,
    ensures
        spec_judge(existing, limit, now).0.remaining >= 0,
{
}

/// However many requests reach a key within the window that the first of
/// them opens, and in whatever order a store takes them, the number of
/// those let through is the smaller of their number and the quota.
pub proof fn lemma_allowed_is_min_of_requests_and_quota(limit: Limit, times: Seq<Timestamp>)
    requires
        limit.valid(),
        times.len() > 0 ==> within_window(times[0], limit, times),
    ensures
        allowed_count(None, limit, times) == (if times.len() <= limit.spec_amount() {
            times.len() as int
        } else {
            limit.spec_amount() as int
        }),
    decreases times.len(),
{
    if times.len() > 0 {
        lemma_allowed_is_min_of_requests_and_quota(limit, times.drop_last());
        lemma_fresh_key_gets_its_quota(limit, times, times.len() - 1);
    }
}

/// The older way of reporting an answer: a refusal is an error.
pub open spec fn spec_as_result(decision: Decision) -> Result<(), BackendError> {
    match decision {
        Decision::Allow => Ok(()),
        Decision::Deny => Err(BackendError::RateLimited),
    }
}

/// Turns an answer into `Ok` for a request let through and
/// `Err(RateLimited)` for one turned away; a fault of the store is handed on.
pub open spec fn spec_flatten(outcome: Result<Decision, BackendError>) -> Result<
    (),
    BackendError,
> {
    match outcome {
        Ok(decision) => spec_as_result(decision),
        Err(error) => Err(error),
    }
}

/// Turns an answer into `Ok` for a request let through and
/// `Err(RateLimited)` for one turned away; a fault of the store is handed on.
pub fn flatten(outcome: Result<Decision, BackendError>) -> (r: Result<(), BackendError>)
    ensures
        r == spec_flatten(outcome),
{
    match outcome {
        Ok(Decision::Allow) => Ok(()),
        Ok(Decision::Deny) => Err(BackendError::RateLimited),
        Err(error) => Err(error),
    }
}

/// A store of buckets. One call looks up the bucket of a key, judges the
/// request and writes the bucket back, as one step that no other call on
/// the same store can interleave with: the store is borrowed exclusively
/// for the length of the call.
pub trait BackendProvider: Sized {
    /// What one call of this store may do: `pre` and `post` are the store
    /// before and after the call, `outcome` is what the call returned for
    /// `key` under `limit`. A store that says nothing here promises
    /// nothing; one that can say more states it in its own definition.
    open spec fn answers(
        pre: &Self,
        key: Seq<char>,
        limit: Limit,
        post: &Self,
        outcome: Result<Decision, BackendError>,
    ) -> bool {
        true
    }

    /// Judges one request for `key` under `limit` and updates the bucket of
    /// the key. A request over its quota is `Ok(Decision::Deny)`; `Err` is
    /// for a store that could not come to an answer.
    fn check_and_update(&mut self, key: &RequestId, limit: Limit) -> (outcome: Result<
        Decision,
        BackendError,
    >)
        ensures
            Self::answers(old(self), key@, limit, final(self), outcome),
    ;

    /// [`BackendProvider::check_and_update`] with a refusal reported as
    /// `Err(BackendError::RateLimited)`.
    fn validate_request(&mut self, id: &RequestId, limit: Limit) -> (r: Result<(), BackendError>)
        ensures
            exists|outcome: Result<Decision, BackendError>|
                #[trigger] Self::answers(old(self), id@, limit, final(self), outcome) && r
                    == spec_flatten(outcome),
    {
        let outcome = self.check_and_update(id, limit);
        flatten(outcome)
    }
}

} // verus!
