//! The probe that measures how long one attempt takes, and the projection of
//! the expected search time from it. Spans of time are counted in
//! nanoseconds.

use crate::criterion::pattern_compiles;
use crate::criterion::MatchCriterion;
use crate::error::ConfigurationError;
use crate::error::SearchError;
use crate::keys::EntropyFailure;
use crate::search::attempt;
use std::time::Duration;
use std::time::Instant;
use vstd::prelude::*;

verus! {

/// A reading of the standard library's monotonic clock.
#[verifier::external_type_specification]
#[verifier::external_body]
pub struct ExInstant(Instant);

/// `Instant::now` reads the monotonic clock. Nothing is promised of the
/// reading.
pub assume_specification[ Instant::now ]() -> (start: Instant)
;

/// `Instant::elapsed` is the time that has passed since the reading was
/// taken. Nothing is promised of it.
pub assume_specification[ Instant::elapsed ](start: &Instant) -> (elapsed: Duration)
;

/// The longest span that the standard library's `Duration` can hold, in
/// nanoseconds: `u64::MAX` seconds and 999,999,999 nanoseconds.
pub const LONGEST_SPAN: u128 = 18_446_744_073_709_551_615_999_999_999;

/// `Duration::as_nanos` is the whole span in nanoseconds. A `Duration` is a
/// number of seconds that fits 64 bits and less than a second beyond them, so
/// the span is never longer than `LONGEST_SPAN`.
pub assume_specification[ Duration::as_nanos ](span: &Duration) -> (nanos: u128)
    ensures
        nanos <= LONGEST_SPAN,
;

/// Attempts that the probe makes.
pub const PROBE_ITERATIONS: u32 = 1000;

/// The longest span that can be shown, in nanoseconds.
pub open spec fn longest_span() -> int {
    u64::MAX * 1_000_000_000 + 999_999_999
}

/// The time of one attempt when `iterations` attempts took `elapsed_nanos`,
/// rounded down to the nanosecond.
pub open spec fn mean_nanos(elapsed_nanos: u128, iterations: u32) -> int {
    elapsed_nanos as int / iterations as int
}

/// The average time of one attempt, rounded down to the nanosecond.
pub fn average(elapsed_nanos: u128, iterations: u32) -> (per_attempt: u128)
    requires
        iterations > 0,
    ensures
        per_attempt == elapsed_nanos / (iterations as u128),
        per_attempt == mean_nanos(elapsed_nanos, iterations),
        per_attempt <= elapsed_nanos,
{
    elapsed_nanos / (iterations as u128)
}

/// Splits a span into whole seconds and the nanoseconds beyond them, as a
/// `Duration` is made of; `None` where the span is longer than the longest
/// that a `Duration` can hold.
pub fn split_span(nanos: u128) -> (parts: Option<(u64, u32)>)
    ensures
        parts is Some <==> nanos <= LONGEST_SPAN,
        parts matches Some((secs, rest)) ==> secs * 1_000_000_000 + rest == nanos && rest
            < 1_000_000_000,
{
    if nanos > LONGEST_SPAN {
        None
    } else {
        let secs = nanos / 1_000_000_000;
        let rest = nanos % 1_000_000_000;
        Some((secs as u64, rest as u32))
    }
}

/// The expected time until a match: the time of one attempt times the
/// expected number of attempts, shared among the workers.
///
/// `None` when there is no worker, or when the total time of the attempts is
/// longer than the longest span that can be shown.
pub fn projected_time(per_attempt_nanos: u128, attempts: u32, workers: usize) -> (projected: Option<
    u128,
>)
    ensures
        projected is Some <==> workers > 0 && per_attempt_nanos * attempts <= longest_span(),
        projected matches Some(nanos) ==> nanos == (per_attempt_nanos * attempts) / (
        workers as int),
        projected matches Some(nanos) ==> nanos <= LONGEST_SPAN,
{
    if workers == 0 {
        return None;
    }
    match per_attempt_nanos.checked_mul(attempts as u128) {
        Some(total) => {
            if total <= LONGEST_SPAN {
                Some(total / (workers as u128))
            } else {
                None
            }
        },
        None => None,
    }
}

/// The text of the pattern that the probe searches for.
pub open spec fn probe_pattern() -> Seq<char> {
    "t[o|0]ast"@
}

/// Measures the average time of one attempt under `criterion` over
/// `iterations` attempts on the calling thread, in nanoseconds. Matches found
/// on the way are discarded. The result is the time that the attempts took,
/// whatever the clock says it was, divided by their number.
pub fn estimate(criterion: &MatchCriterion, iterations: u32) -> (outcome: Result<
    u128,
    EntropyFailure,
>)
    requires
        iterations > 0,
    ensures
        outcome matches Ok(nanos) ==> exists|elapsed_nanos: u128|
            elapsed_nanos <= LONGEST_SPAN && nanos == #[trigger] mean_nanos(
                elapsed_nanos,
                iterations,
            ),
        outcome matches Ok(nanos) ==> nanos <= LONGEST_SPAN,
{
    let start = Instant::now();
    let mut made: u32 = 0;
    while made < iterations
        invariant
            made <= iterations,
        decreases iterations - made,
    {
        match attempt(criterion) {
            Ok(_) => {},
            Err(failure) => {
                return Err(failure);
            },
        }
        made = made + 1;
    }
    let elapsed = start.elapsed().as_nanos();
    Ok(average(elapsed, iterations))
}

/// Whether the probe was refused because its pattern is invalid.
pub open spec fn is_pattern_refusal(outcome: Result<u128, SearchError>) -> bool {
    outcome matches Err(SearchError::Configuration(ConfigurationError::InvalidPattern(_)))
}

/// Runs the probe: a thousand attempts against a fixed criterion, which is
/// the pattern `t[o|0]ast` if `use_regex` is set and the prefix `test`
/// otherwise, so that the timing does not depend on what the user searches
/// for. Returns the average time of one attempt in nanoseconds.
///
/// The probe fails when its pattern does not compile or when the random
/// source fails, and only then.
pub fn time_one(use_regex: bool) -> (outcome: Result<u128, SearchError>)
    ensures
        outcome matches Ok(nanos) ==> exists|elapsed_nanos: u128|
            elapsed_nanos <= LONGEST_SPAN && nanos == #[trigger] mean_nanos(
                elapsed_nanos,
                PROBE_ITERATIONS,
            ),
        outcome matches Ok(nanos) ==> nanos <= LONGEST_SPAN,
        is_pattern_refusal(outcome) <==> use_regex && !pattern_compiles(probe_pattern(), false),
        outcome is Err && !is_pattern_refusal(outcome) ==> outcome matches Err(
            SearchError::Entropy(_),
        ),
{
    let criterion = if use_regex {
        match MatchCriterion::pattern("t[o|0]ast", false) {
            Ok(criterion) => criterion,
            Err(error) => {
                return Err(SearchError::Configuration(ConfigurationError::InvalidPattern(error)));
            },
        }
    } else {
        MatchCriterion::literal("test".to_owned(), false)
    };
    match estimate(&criterion, PROBE_ITERATIONS) {
        Ok(nanos) => Ok(nanos),
        Err(failure) => Err(SearchError::Entropy(failure)),
    }
}

} // verus!
