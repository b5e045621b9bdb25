//! The table of routes and the engine that judges requests by it.

use vstd::prelude::*;
use crate::backend::memory::{
    lemma_store_grants_fresh_key_its_quota, spec_bucket, spec_decision, spec_store_after,
    spec_store_after_all, MemoryBackendProvider,
};
use crate::backend::{within_window, BackendError, BackendProvider, Bucket, Decision};
use crate::limit::Limit;
use crate::route::{Route, RouteView};
use crate::time::Timestamp;
use crate::{request_id, spec_request_id};

verus! {

/// What a table of routes is made of: the rules in the order in which they
/// were added, and the limit for requests that no rule takes.
pub struct RateLimiterView {
    /// The limit of requests that fall under no rule.
    pub default: Limit,
    /// The rules, first added first.
    pub rules: Seq<(RouteView, Limit)>,
}

impl RateLimiterView {
    /// Whether rule `i` takes the request and no rule before it does.
    pub open spec fn is_first_match(self, i: int, route: Seq<char>, method: Seq<char>) -> bool {
        &&& 0 <= i < self.rules.len()
        &&& self.rules[i].0.matches(route, method)
        &&& forall|j: int| 0 <= j < i ==> !(#[trigger] self.rules[j]).0.matches(route, method)
    }

    /// Whether no rule takes the request.
    pub open spec fn unmatched(self, route: Seq<char>, method: Seq<char>) -> bool {
        forall|j: int|
            0 <= j < self.rules.len() ==> !(#[trigger] self.rules[j]).0.matches(route, method)
    }

    /// The limit that applies to a request: that of the first rule that
    /// takes it, or the default where no rule does.
    pub open spec fn resolve(self, route: Seq<char>, method: Seq<char>) -> Limit {
        if exists|i: int| self.is_first_match(i, route, method) {
            self.rules[choose|i: int| self.is_first_match(i, route, method)].1
        } else {
            self.default
        }
    }

    /// The table with one more rule at its end.
    pub open spec fn with_rule(self, route: RouteView, limit: Limit) -> RateLimiterView {
        RateLimiterView { default: self.default, rules: self.rules.push((route, limit)) }
    }
}

/// The view of a table with this default and these rules.
spec fn table_view(default: Limit, mapping: Seq<(Route, Limit)>) -> RateLimiterView {
    RateLimiterView {
        default,
        rules: Seq::new(mapping.len(), |i: int| (mapping[i].0@, mapping[i].1)),
    }
}

/// Where a rule takes the request and no earlier rule does, its limit is
/// the one that applies.
pub proof fn lemma_first_match_wins(
    table: RateLimiterView,
    i: int,
    route: Seq<char>,
    method: Seq<char>,
)
    requires
        table.is_first_match(i, route, method),
    ensures
        table.resolve(route, method) == table.rules[i].1,
{
}

/// The default applies where no rule takes the request.
pub proof fn lemma_unmatched_gets_default(
    table: RateLimiterView,
    route: Seq<char>,
    method: Seq<char>,
)
    requires
        table.unmatched(route, method),
    ensures
        table.resolve(route, method) == table.default,
{
}

proof fn lemma_first_match_exists(table: RateLimiterView, i: int, route: Seq<char>, method: Seq<char>)
    requires
        0 <= i < table.rules.len(),
        table.rules[i].0.matches(route, method),
    ensures
        exists|k: int| 0 <= k <= i && table.is_first_match(k, route, method),
    decreases i,
{
    if exists|j: int| 0 <= j < i && (#[trigger] table.rules[j]).0.matches(route, method) {
        let j = choose|j: int| 0 <= j < i && (#[trigger] table.rules[j]).0.matches(route, method);
        lemma_first_match_exists(table, j, route, method);
    } else {
        assert(table.is_first_match(i, route, method));
    }
}

/// Where two rules take the same request, the one added later does not
/// decide: the limit that applies is that of a rule which takes the request
/// and stands no later than the earlier of the two. With the earlier rule
/// in first place it is that rule's limit.
pub proof fn lemma_earlier_rule_wins(
    table: RateLimiterView,
    earlier: int,
    later: int,
    route: Seq<char>,
    method: Seq<char>,
)
    requires
        0 <= earlier < later < table.rules.len(),
        table.rules[earlier].0.matches(route, method),
        table.rules[later].0.matches(route, method),
    ensures
        !table.is_first_match(later, route, method),
        exists|k: int|
            0 <= k <= earlier && table.is_first_match(k, route, method) && table.resolve(
                route,
                method,
            ) == table.rules[k].1,
        earlier == 0 ==> table.resolve(route, method) == table.rules[0].1,
{
    lemma_first_match_exists(table, earlier, route, method);
    let k = choose|k: int| 0 <= k <= earlier && table.is_first_match(k, route, method);
    lemma_first_match_wins(table, k, route, method);
}

/// The default applies exactly to the requests that no rule takes: a
/// request that some rule takes gets the limit of the first rule that takes
/// it, and resolution falls back to the default for no other request.
pub proof fn lemma_default_only_when_unmatched(
    table: RateLimiterView,
    route: Seq<char>,
    method: Seq<char>,
)
    ensures
        table.unmatched(route, method) ==> table.resolve(route, method) == table.default,
        !table.unmatched(route, method) ==> exists|k: int|
            table.is_first_match(k, route, method) && table.resolve(route, method)
                == table.rules[k].1,
{
    if table.unmatched(route, method) {
        lemma_unmatched_gets_default(table, route, method);
    } else {
        let i = choose|i: int|
            0 <= i < table.rules.len() && (#[trigger] table.rules[i]).0.matches(route, method);
        lemma_first_match_exists(table, i, route, method);
        let k = choose|k: int| 0 <= k <= i && table.is_first_match(k, route, method);
        lemma_first_match_wins(table, k, route, method);
    }
}

/// A rule that asks for another method than the request's is passed over:
/// it is never the rule that decides.
pub proof fn lemma_rule_of_other_method_is_passed_over(
    table: RateLimiterView,
    i: int,
    route: Seq<char>,
    method: Seq<char>,
)
    requires
        0 <= i < table.rules.len(),
        table.rules[i].0.method matches Some(required) && required != method,
    ensures
        !table.is_first_match(i, route, method),
        table.resolve(route, method) == (RateLimiterView {
            default: table.default,
            rules: table.rules.remove(i),
        }).resolve(route, method),
{
    let without = RateLimiterView { default: table.default, rules: table.rules.remove(i) };
    if table.unmatched(route, method) {
        lemma_unmatched_gets_default(table, route, method);
        lemma_unmatched_gets_default(without, route, method);
    } else {
        lemma_default_only_when_unmatched(table, route, method);
        let k = choose|k: int|
            table.is_first_match(k, route, method) && table.resolve(route, method)
                == table.rules[k].1;
        let moved = if k < i {
            k
        } else {
            k - 1
        };
        lemma_first_match_wins(without, moved, route, method);
    }
}

/// Maps requests to limits: the rules are tried in the order in which they
/// were added, and the first that takes the request decides.
#[derive(Debug)]
pub struct RateLimiter {
    default: Limit,
    mapping: Vec<(Route, Limit)>,
}

impl View for RateLimiter {
    type V = RateLimiterView;

    closed spec fn view(&self) -> RateLimiterView {
        table_view(self.default, self.mapping@)
    }
}

fn clone_rules(mapping: &Vec<(Route, Limit)>) -> (copy: Vec<(Route, Limit)>)
    ensures
        forall|default: Limit| #[trigger] table_view(default, copy@) == table_view(default, mapping@),
{
    let mut copy: Vec<(Route, Limit)> = Vec::new();
    let mut i: usize = 0;
    while i < mapping.len()
        invariant
            i <= mapping.len(),
            copy.len() == i,
            forall|j: int| 0 <= j < i ==> copy[j].0@ == mapping[j].0@ && copy[j].1 == mapping[j].1,
        decreases mapping.len() - i,
    {
        let rule = &mapping[i];
        copy.push((rule.0.clone(), rule.1));
        i += 1;
    }
    assert forall|default: Limit| #[trigger]
        table_view(default, copy@) == table_view(default, mapping@) by {
        assert(table_view(default, copy@).rules =~= table_view(default, mapping@).rules);
    }
    copy
}

impl RateLimiter {
    /// The limit that applies to a request for `route` with `method`.
    pub fn get_limit(&self, route: &str, method: &str) -> (limit: Limit)
        ensures
            limit == self@.resolve(route@, method@),
    {
        let mut i: usize = 0;
        while i < self.mapping.len()
            invariant
                i <= self.mapping.len(),
                self@.rules.len() == self.mapping.len(),
                forall|j: int|
                    0 <= j < i ==> !(#[trigger] self@.rules[j]).0.matches(route@, method@),
            decreases self.mapping.len() - i,
        {
            let rule = &self.mapping[i];
            if rule.0.is_match(route, method) {
                proof {
                    lemma_first_match_wins(self@, i as int, route@, method@);
                }
                return rule.1;
            }
            i += 1;
        }
        proof {
            lemma_unmatched_gets_default(self@, route@, method@);
        }
        self.default
    }
}

/// What the engine tells the caller about one request.
#[derive(Debug, PartialEq, Eq)]
pub enum Admission {
    /// The request may go on.
    Allow,
    /// The request exceeds the quota of its route and is to be turned away.
    Deny,
    /// The store could not judge the request; the text says why. Whether
    /// such a request goes on or not is for the caller to decide.
    Fault(String),
}

impl Clone for Admission {
    fn clone(&self) -> (copy: Self)
        ensures
            copy == *self,
    {
        match self {
            Admission::Allow => Admission::Allow,
            Admission::Deny => Admission::Deny,
            Admission::Fault(cause) => Admission::Fault(cause.clone()),
        }
    }
}

/// What the engine makes of a store's answer: a decision is handed on as it
/// is, a refusal reported as an error is a refusal all the same, and a fault
/// stays a fault with its cause.
pub open spec fn spec_admission(outcome: Result<Decision, BackendError>) -> Admission {
    match outcome {
        Ok(Decision::Allow) => Admission::Allow,
        Ok(Decision::Deny) => Admission::Deny,
        Err(BackendError::RateLimited) => Admission::Deny,
        Err(BackendError::VerificationError(cause)) => Admission::Fault(cause),
    }
}

/// Hands a store's answer on to the caller of the engine.
pub fn admission(outcome: Result<Decision, BackendError>) -> (r: Admission)
    ensures
        r == spec_admission(outcome),
{
    match outcome {
        Ok(Decision::Allow) => Admission::Allow,
        Ok(Decision::Deny) => Admission::Deny,
        Err(BackendError::RateLimited) => Admission::Deny,
        Err(BackendError::VerificationError(cause)) => Admission::Fault(cause),
    }
}

/// The identity of a caller as a server in front of the engine sees it: the
/// address that a proxy reported for the client, where there is one, and
/// else the address of the peer.
pub fn client_identity<'a>(forwarded: Option<&'a str>, peer: Option<&'a str>) -> (identity:
    Option<&'a str>)
    ensures
        identity == (if forwarded is Some {
            forwarded
        } else {
            peer
        }),
{
    match forwarded {
        Some(address) => Some(address),
        None => peer,
    }
}

impl RateLimiter {
    /// Judges one request: looks up the limit of its route, asks `backend`
    /// about the bucket of `identity` on `path`, and hands the answer on.
    /// The engine keeps no state of its own.
    pub fn admit_request<B: BackendProvider>(
        &self,
        backend: &mut B,
        identity: &str,
        method: &str,
        path: &str,
    ) -> (r: Admission)
        ensures
            exists|outcome: Result<Decision, BackendError>|
                #[trigger] B::answers(
                    old(backend),
                    spec_request_id(identity@, path@),
                    self@.resolve(path@, method@),
                    final(backend),
                    outcome,
                ) && r == spec_admission(outcome),
    {
        let limit = self.get_limit(path, method);
        let key = request_id(identity, path);
        let outcome = backend.check_and_update(&key, limit);
        admission(outcome)
    }
}

impl RateLimiter {
    /// Judges one request that reaches a store in memory at `now`: the
    /// engine with the clock reading handed in. The limit is that of the
    /// request's route, the bucket that of `identity` on `path`.
    pub fn admit_request_at(
        &self,
        store: &mut MemoryBackendProvider,
        identity: &str,
        method: &str,
        path: &str,
        now: Timestamp,
    ) -> (decision: Decision)
        ensures
            decision == spec_decision(
                old(store)@,
                spec_request_id(identity@, path@),
                self@.resolve(path@, method@),
                now,
            ),
            final(store)@ == spec_store_after(
                old(store)@,
                spec_request_id(identity@, path@),
                self@.resolve(path@, method@),
                now,
            ),
    {
        let limit = self.get_limit(path, method);
        let key = request_id(identity, path);
        store.check_and_update_at(&key, limit, now)
    }
}

/// A caller that a store in memory has not seen on a path gets exactly the
/// quota of the route that the request falls under, or of the default where
/// it falls under none: of the requests that follow one another within the
/// window that the first of them opens, the one at position `i`, counted
/// from zero, is let through exactly if `i` is less than that quota. Under
/// one request per five seconds the first request passes and a second one
/// within five seconds does not; under five per second five pass and the
/// sixth within that second does not.
pub proof fn lemma_engine_grants_the_quota_of_the_route(
    table: RateLimiterView,
    store: Map<Seq<char>, Bucket>,
    identity: Seq<char>,
    method: Seq<char>,
    path: Seq<char>,
    times: Seq<Timestamp>,
    i: int,
)
    requires
        table.resolve(path, method).valid(),
        !store.contains_key(spec_request_id(identity, path)),
        0 <= i < times.len(),
        within_window(times[0], table.resolve(path, method), times),
    ensures
        spec_decision(
            spec_store_after_all(
                store,
                spec_request_id(identity, path),
                table.resolve(path, method),
                times.take(i),
            ),
            spec_request_id(identity, path),
            table.resolve(path, method),
            times[i],
        ) == (if i < table.resolve(path, method).spec_amount() {
            Decision::Allow
        } else {
            Decision::Deny
        }),
{
    lemma_store_grants_fresh_key_its_quota(
        store,
        spec_request_id(identity, path),
        table.resolve(path, method),
        times,
        i,
    );
}

/// The first request of a caller on a path is let through whatever the
/// clock shows, as long as the quota is not zero: whichever instant a store
/// in memory read during the call, it answered with a permission and keeps
/// a bucket for the key that has one request less than the quota left.
pub proof fn lemma_first_request_passes_whatever_the_clock(
    pre: &MemoryBackendProvider,
    key: Seq<char>,
    limit: Limit,
    post: &MemoryBackendProvider,
    outcome: Result<Decision, BackendError>,
)
    requires
        MemoryBackendProvider::answers(pre, key, limit, post, outcome),
        !pre@.contains_key(key),
        limit.valid(),
        limit.spec_amount() >= 1,
    ensures
        outcome == Ok::<Decision, BackendError>(Decision::Allow),
        spec_admission(outcome) == Admission::Allow,
        spec_bucket(post@, key) matches Some(bucket) && bucket.remaining == limit.spec_amount()
            - 1,
{
}

impl Clone for RateLimiter {
    fn clone(&self) -> (copy: Self)
        ensures
            copy@ == self@,
    {
        RateLimiter { default: self.default, mapping: clone_rules(&self.mapping) }
    }
}

/// Collects the rules of a [`RateLimiter`].
#[derive(Debug)]
pub struct RateLimiterBuilder {
    default: Limit,
    mapping: Vec<(Route, Limit)>,
}

impl View for RateLimiterBuilder {
    type V = RateLimiterView;

    closed spec fn view(&self) -> RateLimiterView {
        table_view(self.default, self.mapping@)
    }
}

impl RateLimiterBuilder {
    /// A table without rules, with five requests per second as the default.
    pub fn new() -> (builder: Self)
        ensures
            builder@.rules == Seq::<(RouteView, Limit)>::empty(),
            builder@.default.spec_ttl() == 1,
            builder@.default.spec_amount() == 5,
    {
        Self { default: Limit::default(), mapping: Vec::new() }
    }

    /// Sets the limit of requests that fall under no rule.
    pub fn set_default(&mut self, value: Limit) -> (builder: &mut Self)
        ensures
            builder@ == (RateLimiterView { default: value, rules: old(self)@.rules }),
            *final(self) == *final(builder),
    {
        self.default = value;
        self
    }

    /// Adds a rule behind those added before: it decides for the requests
    /// that it takes and that none of them takes.
    pub fn add_route(&mut self, route: Route, limit: Limit) -> (builder: &mut Self)
        ensures
            builder@ == old(self)@.with_rule(route@, limit),
            *final(self) == *final(builder),
    {
        self.mapping.push((route, limit));
        assert(self@.rules =~= old(self)@.rules.push((route@, limit)));
        self
    }

    /// The table collected so far.
    pub fn build(&self) -> (limiter: RateLimiter)
        ensures
            limiter@ == self@,
    {
        RateLimiter { default: self.default, mapping: clone_rules(&self.mapping) }
    }
}

impl Default for RateLimiterBuilder {
    fn default() -> (builder: Self)
        ensures
            builder@.rules == Seq::<(RouteView, Limit)>::empty(),
            builder@.default.spec_ttl() == 1,
            builder@.default.spec_amount() == 5,
    {
        Self::new()
    }
}

impl Clone for RateLimiterBuilder {
    fn clone(&self) -> (copy: Self)
        ensures
            copy@ == self@,
    {
        RateLimiterBuilder { default: self.default, mapping: clone_rules(&self.mapping) }
    }
}

} // verus!
