//! The quota of a route: how many requests fit into one window.

use vstd::prelude::*;
use crate::error::ConfigError;

verus! {

/// A window length in seconds and the number of requests that one bucket
/// accepts within such a window. The window is always positive and the quota
/// never negative; a quota of zero turns every request away.
#[derive(Clone, Copy, Debug, PartialEq, Eq, Structural, Hash)]
pub struct Limit {
    ttl: i64,
    amount: i64,
}

impl Limit {
    #[verifier::type_invariant]
    spec fn well_formed(self) -> bool {
        self.ttl > 0 && self.amount >= 0
    }

    /// The window length in seconds, as a specification value.
    pub closed spec fn spec_ttl(&self) -> i64 {
        self.ttl
    }

    /// The quota per window, as a specification value.
    pub closed spec fn spec_amount(&self) -> i64 {
        self.amount
    }

    /// What every `Limit` that executable code can hold satisfies. Proofs
    /// that quantify over limits ask for it explicitly.
    pub open spec fn valid(self) -> bool {
        self.spec_ttl() > 0 && self.spec_amount() >= 0
    }

    /// Whether a window of `ttl` seconds with a quota of `amount` requests
    /// makes a limit.
    pub open spec fn accepts(ttl: i64, amount: i64) -> bool {
        ttl > 0 && amount >= 0
    }

    /// Makes a limit of `amount` requests per `ttl` seconds, or refuses the
    /// pair when the window is not positive or the quota is negative.
    pub fn new(ttl: i64, amount: i64) -> (r: Result<Limit, ConfigError>)
        ensures
            Self::accepts(ttl, amount) <==> r is Ok,
            r matches Ok(limit) ==> limit.spec_ttl() == ttl && limit.spec_amount() == amount
                && limit.valid(),
            r matches Err(e) ==> e == ConfigError::InvalidLimit,
    {
        if ttl > 0 && amount >= 0 {
            Ok(Limit { ttl, amount })
        } else {
            Err(ConfigError::InvalidLimit)
        }
    }

    /// The window length in seconds.
    #[verifier::when_used_as_spec(spec_ttl)]
    pub fn ttl(&self) -> (t: i64)
        ensures
            t == self.spec_ttl(),
            self.valid(),
    {
        proof {
            use_type_invariant(self);
        }
        self.ttl
    }

    /// The number of requests that fit into one window.
    #[verifier::when_used_as_spec(spec_amount)]
    pub fn amount(&self) -> (a: i64)
        ensures
            a == self.spec_amount(),
            self.valid(),
    {
        proof {
            use_type_invariant(self);
        }
        self.amount
    }

    /// Two limits with the same window and the same quota are the same limit.
    pub proof fn lemma_same_fields_same_limit(self, other: Limit)
        requires
            self.spec_ttl() == other.spec_ttl(),
            self.spec_amount() == other.spec_amount(),
        ensures
            self == other,
    {
    }
}

impl Default for Limit {
    /// Five requests per second.
    fn default() -> (limit: Limit)
        ensures
            limit.spec_ttl() == 1,
            limit.spec_amount() == 5,
            limit.valid(),
    {
        Limit { ttl: 1, amount: 5 }
    }
}

/// Collects the two numbers of a [`Limit`] before they are checked.
#[derive(Clone, Copy, Debug)]
pub struct LimitBuilder {
    ttl: i64,
    amount: i64,
}

impl LimitBuilder {
    /// The window length set so far.
    pub closed spec fn spec_ttl(self) -> i64 {
        self.ttl
    }

    /// The quota set so far.
    pub closed spec fn spec_amount(self) -> i64 {
        self.amount
    }

    /// Starts from five requests per second.
    pub fn new() -> (builder: Self)
        ensures
            builder.spec_ttl() == 1,
            builder.spec_amount() == 5,
    {
        Self { ttl: 1, amount: 5 }
    }

    /// Sets the window length in seconds.
    pub fn set_ttl(&mut self, ttl: i64) -> (builder: &mut Self)
        ensures
            builder.spec_ttl() == ttl,
            builder.spec_amount() == old(self).spec_amount(),
            *final(self) == *final(builder),
    {
        self.ttl = ttl;
        self
    }

    /// Sets the number of requests that one bucket accepts per window.
    pub fn set_amount(&mut self, amount: i64) -> (builder: &mut Self)
        ensures
            builder.spec_ttl() == old(self).spec_ttl(),
            builder.spec_amount() == amount,
            *final(self) == *final(builder),
    {
        self.amount = amount;
        self
    }

    /// Turns the numbers collected into a [`Limit`], or refuses them when the
    /// window is not positive or the quota is negative.
    pub fn build(self) -> (r: Result<Limit, ConfigError>)
        ensures
            Limit::accepts(self.spec_ttl(), self.spec_amount()) <==> r is Ok,
            r matches Ok(limit) ==> limit.spec_ttl() == self.spec_ttl() && limit.spec_amount()
                == self.spec_amount() && limit.valid(),
            r matches Err(e) ==> e == ConfigError::InvalidLimit,
    {
        Limit::new(self.ttl, self.amount)
    }
}

impl Default for LimitBuilder {
    fn default() -> (builder: Self)
        ensures
            builder.spec_ttl() == 1,
            builder.spec_amount() == 5,
    {
        Self::new()
    }
}

} // verus!
