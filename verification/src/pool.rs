//! How many workers a search runs with, and the plan that is fixed before the
//! first worker starts.

use crate::criterion::pattern_compiles;
use crate::criterion::CriterionModel;
use crate::criterion::MatchCriterion;
use crate::error::ConfigurationError;
use vstd::prelude::*;

verus! {

/// `num_cpus::get` is the number of logical cores that the process may use.
/// Its documentation promises that it is at least 1.
pub assume_specification[ num_cpus::get ]() -> (count: usize)
    ensures
        count >= 1,
;

/// The decimal digits.
pub open spec fn is_digit(c: char) -> bool {
    '0' <= c && c <= '9'
}

/// The number that a digit stands for.
pub open spec fn digit_value(c: char) -> nat {
    (c as nat - '0' as nat) as nat
}

/// The number that a string of digits stands for.
pub open spec fn decimal_value(digits: Seq<char>) -> nat
    decreases digits.len(),
{
    if digits.len() == 0 {
        0
    } else {
        10 * decimal_value(digits.drop_last()) + digit_value(digits.last())
    }
}

/// Whether every character is a decimal digit.
pub open spec fn all_digits(digits: Seq<char>) -> bool {
    forall|i: int| 0 <= i < digits.len() ==> is_digit(#[trigger] digits[i])
}

/// The text without the plus sign that may stand in front of a number.
pub open spec fn without_sign(text: Seq<char>) -> Seq<char> {
    if text.len() > 0 && text[0] == '+' {
        text.skip(1)
    } else {
        text
    }
}

/// Whether `text` is a count: an optional plus sign and one or more decimal
/// digits, with a value that fits in a `usize`.
pub open spec fn is_count(text: Seq<char>) -> bool {
    &&& without_sign(text).len() > 0
    &&& all_digits(without_sign(text))
    &&& decimal_value(without_sign(text)) <= usize::MAX
}

/// A longer string of digits does not stand for a smaller number.
proof fn lemma_decimal_value_grows(digits: Seq<char>, shorter: int)
    requires
        0 <= shorter <= digits.len(),
    ensures
        decimal_value(digits.take(shorter)) <= decimal_value(digits),
    decreases digits.len(),
{
    if shorter == digits.len() {
        assert(digits.take(shorter) == digits);
    } else {
        lemma_decimal_value_grows(digits.drop_last(), shorter);
        assert(digits.drop_last().take(shorter) == digits.take(shorter));
    }
}

/// Whether `c` is a decimal digit, and the number it stands for.
fn digit_of(c: char) -> (digit: Option<usize>)
    ensures
        digit is Some <==> is_digit(c),
        digit matches Some(value) ==> value == digit_value(c),
{
    if '0' <= c && c <= '9' {
        Some((c as u32 - '0' as u32) as usize)
    } else {
        None
    }
}

/// Reads the requested number of workers from its textual form.
pub fn parse_core_count(text: &str) -> (outcome: Result<usize, ConfigurationError>)
    ensures
        outcome is Ok <==> is_count(text@),
        outcome matches Ok(count) ==> count == decimal_value(without_sign(text@)),
        outcome matches Err(error) ==> error is InvalidCoreCount,
{
    let mut value: usize = 0;
    let mut at_start = true;
    let mut any_digit = false;
    let ghost body = without_sign(text@);
    let ghost mut digits: int = 0;
    for c in chars: text.chars()
        invariant
            chars.seq() == text@,
            body == without_sign(text@),
            at_start == (chars.index() == 0),
            any_digit == (digits > 0),
            0 <= digits <= body.len(),
            digits == chars.index() - (text@.len() - body.len()) || (digits == 0 && chars.index()
                == 0),
            all_digits(body.take(digits)),
            value == decimal_value(body.take(digits)),
    {
        if at_start && c == '+' {
            at_start = false;
        } else {
            at_start = false;
            let ghost longer = body.take(digits + 1);
            assert(longer.drop_last() == body.take(digits));
            assert(longer.last() == c);
            let digit = match digit_of(c) {
                Some(digit) => digit,
                None => {
                    return Err(ConfigurationError::InvalidCoreCount);
                },
            };
            proof {
                if all_digits(body) {
                    lemma_decimal_value_grows(body, digits + 1);
                }
            }
            let tenfold = match value.checked_mul(10) {
                Some(tenfold) => tenfold,
                None => {
                    return Err(ConfigurationError::InvalidCoreCount);
                },
            };
            value = match tenfold.checked_add(digit) {
                Some(sum) => sum,
                None => {
                    return Err(ConfigurationError::InvalidCoreCount);
                },
            };
            any_digit = true;
            proof {
                digits = digits + 1;
            }
        }
    }
    assert(body.take(digits) == body);
    if any_digit {
        Ok(value)
    } else {
        Err(ConfigurationError::InvalidCoreCount)
    }
}

/// The number of workers for a request: the requested number, but no more
/// than there are cores; all cores where nothing was requested.
pub open spec fn clamped_workers(requested: Option<usize>, available: usize) -> usize {
    match requested {
        Some(count) => if count <= available {
            count
        } else {
            available
        },
        None => available,
    }
}

/// Clamps the requested number of workers to the cores that are available.
/// A request for no worker at all is refused.
pub fn clamp_workers(requested: Option<usize>, available: usize) -> (outcome: Result<
    usize,
    ConfigurationError,
>)
    requires
        available >= 1,
    ensures
        outcome is Err <==> requested == Some(0usize),
        outcome matches Ok(workers) ==> workers == clamped_workers(requested, available),
        outcome matches Ok(workers) ==> 1 <= workers <= available,
        outcome matches Err(error) ==> error is InvalidCoreCount,
{
    match requested {
        Some(count) => {
            if count == 0 {
                Err(ConfigurationError::InvalidCoreCount)
            } else if count <= available {
                Ok(count)
            } else {
                Ok(available)
            }
        },
        None => Ok(available),
    }
}

/// The number of workers to run on this machine: the request clamped to the
/// number of cores that the machine reports.
pub fn worker_count(requested: Option<usize>) -> (outcome: Result<usize, ConfigurationError>)
    ensures
        outcome is Err <==> requested == Some(0usize),
        outcome matches Ok(workers) ==> exists|available: usize|
            available >= 1 && workers == #[trigger] clamped_workers(requested, available),
        outcome matches Ok(workers) ==> workers >= 1,
        outcome matches Ok(workers) ==> (requested matches Some(count) ==> workers <= count),
        outcome matches Err(error) ==> error is InvalidCoreCount,
{
    clamp_workers(requested, num_cpus::get())
}

/// What is fixed before the first worker starts: the criterion that all
/// workers share, and how many of them there are.
pub struct SearchPlan {
    pub criterion: MatchCriterion,
    pub workers: usize,
}

/// The criterion that the user's input asks for.
pub open spec fn chosen_criterion(
    prefix: Seq<char>,
    use_regex: bool,
    ignore_case: bool,
) -> CriterionModel {
    if use_regex {
        CriterionModel::Pattern { source: prefix, case_insensitive: ignore_case }
    } else {
        CriterionModel::LiteralPrefix { text: prefix, case_insensitive: ignore_case }
    }
}

/// Whether a criterion can be built from the input: a literal prefix always,
/// a pattern when it compiles.
pub open spec fn criterion_is_usable(prefix: Seq<char>, use_regex: bool, ignore_case: bool) -> bool {
    use_regex ==> pattern_compiles(prefix, ignore_case)
}

/// The requested count as plain text, if one was given.
pub open spec fn count_text(core_count: Option<&str>) -> Option<Seq<char>> {
    match core_count {
        Some(text) => Some(text@),
        None => None,
    }
}

/// Whether the requested count can be used: none was given, or what was
/// given is a count of at least one.
pub open spec fn count_is_usable(core_count: Option<Seq<char>>) -> bool {
    core_count matches Some(text) ==> is_count(text) && decimal_value(without_sign(text)) >= 1
}

/// The number of workers that a usable request leads to on a machine with
/// `available` cores.
pub open spec fn planned_workers(core_count: Option<Seq<char>>, available: usize) -> int {
    match core_count {
        Some(text) => if decimal_value(without_sign(text)) <= available {
            decimal_value(without_sign(text)) as int
        } else {
            available as int
        },
        None => available as int,
    }
}

impl SearchPlan {
    /// Whether this is the plan for the given input on a machine with
    /// `available` cores.
    pub open spec fn is_plan_for(
        &self,
        prefix: Seq<char>,
        use_regex: bool,
        ignore_case: bool,
        core_count: Option<Seq<char>>,
        available: usize,
    ) -> bool {
        &&& self.criterion.wf()
        &&& self.criterion@ == chosen_criterion(prefix, use_regex, ignore_case)
        &&& self.workers == planned_workers(core_count, available)
    }
}

/// Builds the criterion that the user's input asks for.
pub fn choose_criterion(prefix: &str, use_regex: bool, ignore_case: bool) -> (outcome: Result<
    MatchCriterion,
    ConfigurationError,
>)
    ensures
        outcome is Ok <==> criterion_is_usable(prefix@, use_regex, ignore_case),
        outcome matches Ok(criterion) ==> criterion.wf(),
        outcome matches Ok(criterion) ==> criterion@ == chosen_criterion(
            prefix@,
            use_regex,
            ignore_case,
        ),
        outcome matches Err(error) ==> error is InvalidPattern,
{
    if use_regex {
        match MatchCriterion::pattern(prefix, ignore_case) {
            Ok(criterion) => Ok(criterion),
            Err(error) => Err(ConfigurationError::InvalidPattern(error)),
        }
    } else {
        Ok(MatchCriterion::literal(prefix.to_owned(), ignore_case))
    }
}

/// Turns the user's input into a plan for a machine with `available` cores,
/// or says what is wrong with the input. The count is looked at first.
pub fn prepare_with(
    prefix: &str,
    use_regex: bool,
    ignore_case: bool,
    core_count: Option<&str>,
    available: usize,
) -> (outcome: Result<SearchPlan, ConfigurationError>)
    requires
        available >= 1,
    ensures
        outcome is Ok <==> count_is_usable(count_text(core_count)) && criterion_is_usable(
            prefix@,
            use_regex,
            ignore_case,
        ),
        outcome matches Ok(plan) ==> plan.is_plan_for(
            prefix@,
            use_regex,
            ignore_case,
            count_text(core_count),
            available,
        ),
        outcome matches Err(error) ==> (error is InvalidCoreCount <==> !count_is_usable(
            count_text(core_count),
        )),
        outcome matches Err(error) ==> (error is InvalidPattern <==> count_is_usable(
            count_text(core_count),
        )),
{
    let requested = match core_count {
        Some(text) => match parse_core_count(text) {
            Ok(count) => Some(count),
            Err(error) => {
                return Err(error);
            },
        },
        None => None,
    };
    let workers = match clamp_workers(requested, available) {
        Ok(workers) => workers,
        Err(error) => {
            return Err(error);
        },
    };
    match choose_criterion(prefix, use_regex, ignore_case) {
        Ok(criterion) => Ok(SearchPlan { criterion, workers }),
        Err(error) => Err(error),
    }
}

/// Turns the user's input into a plan for this machine.
pub fn prepare(prefix: &str, use_regex: bool, ignore_case: bool, core_count: Option<&str>) -> (outcome:
    Result<SearchPlan, ConfigurationError>)
    ensures
        outcome is Ok <==> count_is_usable(count_text(core_count)) && criterion_is_usable(
            prefix@,
            use_regex,
            ignore_case,
        ),
        outcome matches Ok(plan) ==> exists|available: usize|
            available >= 1 && #[trigger] plan.is_plan_for(
                prefix@,
                use_regex,
                ignore_case,
                count_text(core_count),
                available,
            ),
        outcome matches Err(error) ==> (error is InvalidCoreCount <==> !count_is_usable(
            count_text(core_count),
        )),
{
    prepare_with(prefix, use_regex, ignore_case, core_count, num_cpus::get())
}

/// A plan never has more workers than the machine has cores, nor more than
/// were asked for, and it always has at least one.
pub proof fn lemma_workers_are_clamped(
    plan: SearchPlan,
    prefix: Seq<char>,
    use_regex: bool,
    ignore_case: bool,
    core_count: Option<Seq<char>>,
    available: usize,
)
    requires
        available >= 1,
        count_is_usable(core_count),
        plan.is_plan_for(prefix, use_regex, ignore_case, core_count, available),
    ensures
        1 <= plan.workers <= available,
        core_count matches Some(text) ==> plan.workers <= decimal_value(without_sign(text)),
        core_count matches Some(text) && decimal_value(without_sign(text)) > available
            ==> plan.workers == available,
{
}

/// The number of workers has no part in what is accepted: two plans for the
/// same prefix and flags accept the same encoded keys, whatever counts were
/// asked for and whatever machines they were made for.
pub proof fn lemma_matching_ignores_worker_count(
    one: SearchPlan,
    other: SearchPlan,
    prefix: Seq<char>,
    use_regex: bool,
    ignore_case: bool,
    one_count: Option<Seq<char>>,
    other_count: Option<Seq<char>>,
    one_available: usize,
    other_available: usize,
    encoded: Seq<char>,
)
    requires
        one.is_plan_for(prefix, use_regex, ignore_case, one_count, one_available),
        other.is_plan_for(prefix, use_regex, ignore_case, other_count, other_available),
    ensures
        one.criterion.accepts(encoded) == other.criterion.accepts(encoded),
{
    one.criterion.lemma_accepts_as_its_model(encoded);
    other.criterion.lemma_accepts_as_its_model(encoded);
}

} // verus!
