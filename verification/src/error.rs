//! Errors raised while a configuration is put together.

use vstd::prelude::*;

verus! {

/// Why a piece of configuration was refused. These errors come up while the
/// limiter is being set up and never while a request is being judged.
#[derive(Clone, Copy, Debug, PartialEq, Eq, Structural)]
pub enum ConfigError {
    /// The window length is not positive, or the quota is negative.
    InvalidLimit,
    /// The route's path, taken as a regular expression, does not compile.
    InvalidPattern,
}

} // verus!
