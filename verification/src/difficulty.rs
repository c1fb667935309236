//! How many candidates a literal prefix is expected to cost.
//!
//! An encoded key is written over an alphabet of 64 symbols, so every
//! character of the prefix multiplies the expected number of attempts by 64.
//! When case is ignored a letter is matched by two of the 64 symbols, which
//! halves its contribution.

use crate::criterion::CriterionModel;
use crate::criterion::MatchCriterion;
use vstd::arithmetic::power::pow;
use vstd::prelude::*;

verus! {

/// The ASCII letters, the only characters with two spellings in the alphabet.
pub open spec fn is_letter(c: char) -> bool {
    ('a' <= c && c <= 'z') || ('A' <= c && c <= 'Z')
}

/// Number of letters in `text`.
pub open spec fn letter_count(text: Seq<char>) -> nat
    decreases text.len(),
{
    if text.len() == 0 {
        0
    } else {
        letter_count(text.drop_last()) + if is_letter(text.last()) {
            1nat
        } else {
            0nat
        }
    }
}

/// Number of characters of `text` whose contribution is halved.
pub open spec fn halvings(text: Seq<char>, ignore_case: bool) -> nat {
    if ignore_case {
        letter_count(text)
    } else {
        0
    }
}

/// Expected attempts per match for the literal prefix `text`: `64^L / 2^k`,
/// with `L` the length of the prefix and `k` the number of halved characters.
pub open spec fn expected_attempts(text: Seq<char>, ignore_case: bool) -> int {
    pow(64, text.len()) / pow(2, halvings(text, ignore_case))
}

/// The estimate is accumulated character by character in 32 bits. This holds
/// when the multiplication by 64 leaves that range at some character.
pub open spec fn exceeds_counter(text: Seq<char>, ignore_case: bool) -> bool {
    exists|i: int|
        0 <= i < text.len() && 64 * #[trigger] expected_attempts(text.take(i), ignore_case)
            > u32::MAX
}

/// The estimate as it is accumulated from left to right: times 64 for each
/// character, then halved at once if the character is a letter and case is
/// ignored.
pub open spec fn stepwise_attempts(text: Seq<char>, ignore_case: bool) -> int
    decreases text.len(),
{
    if text.len() == 0 {
        1
    } else {
        let grown = 64 * stepwise_attempts(text.drop_last(), ignore_case);
        if ignore_case && is_letter(text.last()) {
            grown / 2
        } else {
            grown
        }
    }
}

/// The stepwise estimate times the power of two that was divided out is the
/// full power of 64: no halving ever truncates.
proof fn lemma_stepwise_exact(text: Seq<char>, ignore_case: bool)
    ensures
        stepwise_attempts(text, ignore_case) * pow(2, halvings(text, ignore_case)) == pow(
            64,
            text.len(),
        ),
        stepwise_attempts(text, ignore_case) >= 1,
        pow(2, halvings(text, ignore_case)) >= 1,
    decreases text.len(),
{
    reveal(pow);
    if text.len() == 0 {
    } else {
        let shorter = text.drop_last();
        lemma_stepwise_exact(shorter, ignore_case);
        let r = stepwise_attempts(shorter, ignore_case);
        let p = pow(2, halvings(shorter, ignore_case));
        if ignore_case && is_letter(text.last()) {
            assert(halvings(text, ignore_case) == halvings(shorter, ignore_case) + 1);
            assert((32 * r) * (2 * p) == 64 * (r * p)) by (nonlinear_arith);
        } else {
            assert((64 * r) * p == 64 * (r * p)) by (nonlinear_arith);
        }
    }
}

/// Halving after each letter gives the same number as one division at the
/// end: the stepwise estimate is `64^L / 2^k`.
pub proof fn lemma_stepwise_is_quotient(text: Seq<char>, ignore_case: bool)
    ensures
        stepwise_attempts(text, ignore_case) == expected_attempts(text, ignore_case),
{
    lemma_stepwise_exact(text, ignore_case);
    let r = stepwise_attempts(text, ignore_case);
    let p = pow(2, halvings(text, ignore_case));
    assert((r * p) / p == r) by (nonlinear_arith)
        requires
            p >= 1,
    ;
}

/// The division in `64^L / 2^k` leaves no remainder, and the estimate is at
/// least 1.
pub proof fn lemma_estimate_is_exact_quotient(text: Seq<char>, ignore_case: bool)
    ensures
        expected_attempts(text, ignore_case) * pow(2, halvings(text, ignore_case)) == pow(
            64,
            text.len(),
        ),
        expected_attempts(text, ignore_case) >= 1,
        halvings(text, ignore_case) <= text.len(),
{
    lemma_stepwise_exact(text, ignore_case);
    lemma_stepwise_is_quotient(text, ignore_case);
    lemma_letter_count_bounded(text);
}

/// The estimate never shrinks as the prefix gets longer.
pub proof fn lemma_estimate_grows(text: Seq<char>, ignore_case: bool, shorter: int)
    requires
        0 <= shorter <= text.len(),
    ensures
        expected_attempts(text.take(shorter), ignore_case) <= expected_attempts(text, ignore_case),
    decreases text.len(),
{
    if shorter == text.len() {
        assert(text.take(shorter) == text);
    } else {
        let front = text.drop_last();
        lemma_estimate_grows(front, ignore_case, shorter);
        assert(front.take(shorter) == text.take(shorter));
        lemma_stepwise_is_quotient(front, ignore_case);
        lemma_stepwise_is_quotient(text, ignore_case);
        lemma_stepwise_exact(front, ignore_case);
    }
}

/// If the 32-bit counter is exceeded at all, it is exceeded at the last
/// character.
pub proof fn lemma_counter_is_exceeded_at_the_end(text: Seq<char>, ignore_case: bool)
    ensures
        exceeds_counter(text, ignore_case) <==> text.len() > 0 && 64 * expected_attempts(
            text.drop_last(),
            ignore_case,
        ) > u32::MAX,
{
    if text.len() > 0 {
        let front = text.drop_last();
        if exceeds_counter(text, ignore_case) {
            let i = choose|i: int|
                0 <= i < text.len() && 64 * #[trigger] expected_attempts(
                    text.take(i),
                    ignore_case,
                ) > u32::MAX;
            lemma_estimate_grows(front, ignore_case, i);
            assert(front.take(i) == text.take(i));
        }
    }
}

/// A text has no more letters than characters.
proof fn lemma_letter_count_bounded(text: Seq<char>)
    ensures
        letter_count(text) <= text.len(),
    decreases text.len(),
{
    if text.len() > 0 {
        lemma_letter_count_bounded(text.drop_last());
    }
}

/// Whether `c` is an ASCII letter.
pub fn is_ascii_letter(c: char) -> (letter: bool)
    ensures
        letter == is_letter(c),
{
    ('a' <= c && c <= 'z') || ('A' <= c && c <= 'Z')
}

/// The estimate for a literal prefix as it is handed out: the expected
/// attempts, or nothing where they cannot be accumulated in 32 bits.
pub open spec fn attempts_estimate(text: Seq<char>, ignore_case: bool) -> Option<u32> {
    if exceeds_counter(text, ignore_case) {
        None
    } else {
        Some(expected_attempts(text, ignore_case) as u32)
    }
}

/// Estimates the attempts needed per match for a literal prefix.
///
/// Returns `None` when the estimate cannot be accumulated in 32 bits.
pub fn estimated_attempts(text: &str, ignore_case: bool) -> (estimate: Option<u32>)
    ensures
        estimate is None <==> exceeds_counter(text@, ignore_case),
        estimate matches Some(n) ==> n == expected_attempts(text@, ignore_case),
        estimate == attempts_estimate(text@, ignore_case),
{
    let mut estimate: u32 = 1;
    for c in chars: text.chars()
        invariant
            chars.seq() == text@,
            estimate == stepwise_attempts(text@.take(chars.index()), ignore_case),
            forall|i: int|
                0 <= i < chars.index() ==> 64 * #[trigger] expected_attempts(
                    text@.take(i),
                    ignore_case,
                ) <= u32::MAX,
    {
        let ghost seen = text@.take(chars.index());
        proof {
            lemma_stepwise_is_quotient(seen, ignore_case);
            assert(text@.take(chars.index() + 1).drop_last() == seen);
        }
        let grown = match estimate.checked_mul(64) {
            Some(grown) => grown,
            None => {
                return None;
            },
        };
        if ignore_case && is_ascii_letter(c) {
            estimate = grown / 2;
        } else {
            estimate = grown;
        }
    }
    proof {
        assert(text@.take(text@.len() as int) == text@);
        lemma_stepwise_is_quotient(text@, ignore_case);
    }
    Some(estimate)
}

/// The difficulty of a criterion: the estimate for a literal prefix, and
/// nothing at all for a pattern, whose difficulty is not estimated.
pub open spec fn difficulty_of(criterion: CriterionModel) -> Option<Option<u32>> {
    match criterion {
        CriterionModel::LiteralPrefix { text, case_insensitive } => Some(
            attempts_estimate(text, case_insensitive),
        ),
        CriterionModel::Pattern { .. } => None,
    }
}

/// The difficulty of a criterion: the estimate for its literal prefix, and
/// nothing at all for a pattern, whose difficulty is not estimated.
pub fn difficulty(criterion: &MatchCriterion) -> (estimate: Option<Option<u32>>)
    ensures
        estimate == difficulty_of(criterion@),
        estimate is None <==> criterion is Pattern,
{
    match criterion {
        MatchCriterion::LiteralPrefix { text, case_insensitive } => Some(
            estimated_attempts(text.as_str(), *case_insensitive),
        ),
        MatchCriterion::Pattern { .. } => None,
    }
}

} // verus!
