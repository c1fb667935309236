//! Vanity key search for WireGuard-style X25519 identities.
//!
//! The library generates candidate key pairs, encodes their public halves and
//! tests them against a match criterion. Everything that decides or computes
//! lives here with a contract; threads, argument handling and printing are left
//! to the program built around it.

pub mod criterion;
pub mod difficulty;
pub mod encoding;
pub mod error;
pub mod keys;
pub mod pool;
pub mod report;
pub mod search;
pub mod text;
pub mod timing;
