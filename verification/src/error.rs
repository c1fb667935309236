//! What can go wrong before and during a search.

use crate::criterion::InvalidPatternError;
use crate::keys::EntropyFailure;
use vstd::prelude::*;

verus! {

/// The configuration cannot be used. It is found before any worker starts.
pub enum ConfigurationError {
    /// The pattern is not a valid regular expression.
    InvalidPattern(InvalidPatternError),
    /// The requested number of workers is not a positive decimal number that
    /// fits the machine.
    InvalidCoreCount,
}

/// Why a run ended without a result.
pub enum SearchError {
    /// The configuration was refused.
    Configuration(ConfigurationError),
    /// The secure random source failed.
    Entropy(EntropyFailure),
}

} // verus!
