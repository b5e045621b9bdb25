//! A store of buckets in the memory of the process.

use vstd::prelude::*;
use vstd::hash_map::StringHashMap;
use crate::backend::{
    bucket_after, judge, lemma_fresh_key_gets_its_quota, spec_judge, within_window,
    BackendError, BackendProvider, Bucket, Decision,
};
use crate::limit::Limit;
use crate::time::Timestamp;
use crate::RequestId;

verus! {

/// The bucket that `store` keeps for `key`, if it keeps one.
pub open spec fn spec_bucket(store: Map<Seq<char>, Bucket>, key: Seq<char>) -> Option<Bucket> {
    if store.contains_key(key) {
        Some(store[key])
    } else {
        None
    }
}

/// The answer to a request for `key` that reaches `store` at `now`.
pub open spec fn spec_decision(
    store: Map<Seq<char>, Bucket>,
    key: Seq<char>,
    limit: Limit,
    now: Timestamp,
) -> Decision {
    spec_judge(spec_bucket(store, key), limit, now).1
}

/// The store after a request for `key` has reached it at `now`: the bucket
/// of `key` is the one that the rule hands back, every other key keeps its
/// bucket.
pub open spec fn spec_store_after(
    store: Map<Seq<char>, Bucket>,
    key: Seq<char>,
    limit: Limit,
    now: Timestamp,
) -> Map<Seq<char>, Bucket> {
    store.insert(key, spec_judge(spec_bucket(store, key), limit, now).0)
}

/// A request touches the bucket of its own key and no other: after it the
/// key has the bucket that the rule handed back, and every other key has
/// what it had before.
pub proof fn lemma_request_touches_one_key(
    store: Map<Seq<char>, Bucket>,
    key: Seq<char>,
    other: Seq<char>,
    limit: Limit,
    now: Timestamp,
)
    ensures
        spec_bucket(spec_store_after(store, key, limit, now), key) == Some(
            spec_judge(spec_bucket(store, key), limit, now).0,
        ),
        other != key ==> spec_bucket(spec_store_after(store, key, limit, now), other)
            == spec_bucket(store, other),
{
}

/// The store after requests for `key` have reached it at `times`, one
/// after the other.
pub open spec fn spec_store_after_all(
    store: Map<Seq<char>, Bucket>,
    key: Seq<char>,
    limit: Limit,
    times: Seq<Timestamp>,
) -> Map<Seq<char>, Bucket>
    decreases times.len(),
{
    if times.len() == 0 {
        store
    } else {
        spec_store_after(
            spec_store_after_all(store, key, limit, times.drop_last()),
            key,
            limit,
            times.last(),
        )
    }
}

/// A run of requests for one key moves the bucket of that key as the rule
/// says and leaves the bucket of every other key alone.
pub proof fn lemma_store_keeps_one_bucket_per_key(
    store: Map<Seq<char>, Bucket>,
    key: Seq<char>,
    other: Seq<char>,
    limit: Limit,
    times: Seq<Timestamp>,
)
    ensures
        spec_bucket(spec_store_after_all(store, key, limit, times), key) == bucket_after(
            spec_bucket(store, key),
            limit,
            times,
        ),
        other != key ==> spec_bucket(spec_store_after_all(store, key, limit, times), other)
            == spec_bucket(store, other),
    decreases times.len(),
{
    if times.len() > 0 {
        lemma_store_keeps_one_bucket_per_key(store, key, other, limit, times.drop_last());
    }
}

/// A store that has no bucket for a key lets through exactly the quota of
/// requests for it: of the requests that reach the store within the window
/// that the first of them opens, the one at position `i`, counted from
/// zero, is let through exactly if `i` is less than the quota.
pub proof fn lemma_store_grants_fresh_key_its_quota(
    store: Map<Seq<char>, Bucket>,
    key: Seq<char>,
    limit: Limit,
    times: Seq<Timestamp>,
    i: int,
)
    requires
        limit.valid(),
        !store.contains_key(key),
        0 <= i < times.len(),
        within_window(times[0], limit, times),
    ensures
        spec_decision(spec_store_after_all(store, key, limit, times.take(i)), key, limit, times[i])
            == (if i < limit.spec_amount() {
            Decision::Allow
        } else {
            Decision::Deny
        }),
{
    lemma_store_keeps_one_bucket_per_key(store, key, key, limit, times.take(i));
    lemma_fresh_key_gets_its_quota(limit, times, i);
}

/// Keeps the buckets in a hash map. Its view is the map from keys to
/// buckets.
pub struct MemoryBackendProvider {
    usages: StringHashMap<Bucket>,
}

impl View for MemoryBackendProvider {
    type V = Map<Seq<char>, Bucket>;

    closed spec fn view(&self) -> Map<Seq<char>, Bucket> {
        self.usages@
    }
}

impl MemoryBackendProvider {
    /// A store without buckets.
    pub fn new() -> (store: Self)
        ensures
            store@ == Map::<Seq<char>, Bucket>::empty(),
    {
        MemoryBackendProvider { usages: StringHashMap::new() }
    }

    /// The bucket kept for `key`, if there is one.
    pub fn bucket(&self, key: &str) -> (found: Option<Bucket>)
        ensures
            found == spec_bucket(self@, key@),
    {
        match self.usages.get(key) {
            Some(bucket) => Some(*bucket),
            None => None,
        }
    }

    /// Judges a request for `key` that arrives at `now` and writes the
    /// bucket of `key` back.
    pub fn check_and_update_at(&mut self, key: &RequestId, limit: Limit, now: Timestamp) -> (decision:
        Decision)
        ensures
            decision == spec_decision(old(self)@, key@, limit, now),
            final(self)@ == spec_store_after(old(self)@, key@, limit, now),
    {
        let existing = self.bucket(key.as_str());
        let (bucket, decision) = judge(existing, limit, now);
        self.usages.insert(key.clone(), bucket);
        decision
    }
}

impl Default for MemoryBackendProvider {
    fn default() -> (store: Self)
        ensures
            store@ == Map::<Seq<char>, Bucket>::empty(),
    {
        MemoryBackendProvider::new()
    }
}

impl BackendProvider for MemoryBackendProvider {
    /// This store never fails, and what it does is the rule applied at some
    /// instant: the one that the clock showed during the call.
    open spec fn answers(
        pre: &Self,
        key: Seq<char>,
        limit: Limit,
        post: &Self,
        outcome: Result<Decision, BackendError>,
    ) -> bool {
        exists|now: Timestamp|
            {
                &&& outcome == Ok::<Decision, BackendError>(
                    #[trigger] spec_decision(pre@, key, limit, now),
                )
                &&& post@ == spec_store_after(pre@, key, limit, now)
            }
    }

    fn check_and_update(&mut self, key: &RequestId, limit: Limit) -> (outcome: Result<
        Decision,
        BackendError,
    >) {
        let now = Timestamp::now();
        Ok(self.check_and_update_at(key, limit, now))
    }
}

} // verus!
