//! The error kinds that the reconciliation logic can report.

use vstd::prelude::*;

verus! {

/// Everything that can go wrong during one reconciliation cycle.
///
/// The distinction matters to the caller: `NotFoundError` before the first
/// cycle is fatal (no zone will ever match), while every kind seen during a
/// steady-state tick is transient and only ends that tick.
#[derive(Clone, Copy, Debug, PartialEq, Eq, Structural)]
pub enum DdnsError {
    /// Transport failed: the request never produced a usable response.
    NetworkError,
    /// A response arrived but its body does not parse as expected,
    /// e.g. a public-IP response that is not a dotted-quad IPv4 literal.
    FormatError,
    /// The provider's API reported a failure (auth rejected, rate limited,
    /// validation error).
    ProviderError,
    /// No zone matches the apex domain of the configured name.
    NotFoundError,
    /// The provider holds more than one A record for the configured name;
    /// reconciliation refuses to guess which one is authoritative.
    AmbiguousStateError,
}

impl DdnsError {
    /// A short human-readable name for the error kind, for diagnostics.
    pub fn describe(&self) -> (r: &'static str)
        ensures
            self is NetworkError ==> r@ == "network failure"@,
            self is FormatError ==> r@ == "malformed response"@,
            self is ProviderError ==> r@ == "provider API failure"@,
            self is NotFoundError ==> r@ == "zone not found"@,
            self is AmbiguousStateError ==> r@ == "ambiguous record state"@,
    {
        match self {
            DdnsError::NetworkError => "network failure",
            DdnsError::FormatError => "malformed response",
            DdnsError::ProviderError => "provider API failure",
            DdnsError::NotFoundError => "zone not found",
            DdnsError::AmbiguousStateError => "ambiguous record state",
        }
    }
}

} // verus!
