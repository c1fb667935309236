//! The predicate that decides whether an encoded public key is a match.

use crate::text::starts_with;
use crate::text::uppercased;
use regex::Regex;
use regex::RegexBuilder;
use vstd::prelude::*;

verus! {

/// A compiled regular expression of the `regex` crate.
#[verifier::external_type_specification]
#[verifier::external_body]
pub struct ExRegex(Regex);

/// The error with which the `regex` crate refuses a pattern. It is only ever
/// turned into its message.
#[verifier::external_type_specification]
#[verifier::external_body]
pub struct ExRegexError(regex::Error);

/// Whether the regex engine accepts `source` as a pattern, with or without
/// case-insensitive matching switched on: whether `RegexBuilder::build`
/// succeeds on it.
pub uninterp spec fn pattern_compiles(source: Seq<char>, case_insensitive: bool) -> bool;

/// Whether the pattern `source`, compiled with the given case flag and with
/// every other setting of the builder left as it is, matches anywhere in
/// `haystack`: what `Regex::is_match` returns on the regex that
/// `RegexBuilder::new(source).case_insensitive(flag).build()` yields.
pub uninterp spec fn pattern_finds(
    source: Seq<char>,
    case_insensitive: bool,
    haystack: Seq<char>,
) -> bool;

/// The pattern text that a compiled regex was built from: what
/// `Regex::as_str` returns.
pub uninterp spec fn compiled_source(regex: Regex) -> Seq<char>;

/// Whether a compiled regex matches anywhere in `haystack`: what
/// `Regex::is_match` returns on it. It depends on the pattern and on all the
/// settings that the regex was built with.
pub uninterp spec fn regex_finds(regex: Regex, haystack: Seq<char>) -> bool;

/// Whether `regex` answers on every text as the pattern `source` does when it
/// is compiled with the given case flag and nothing else is set.
pub open spec fn answers_as(regex: Regex, source: Seq<char>, case_insensitive: bool) -> bool {
    forall|haystack: Seq<char>| #[trigger]
        regex_finds(regex, haystack) == pattern_finds(source, case_insensitive, haystack)
}

/// A pattern that the regex engine refused.
pub struct InvalidPatternError {
    /// The engine's account of what is wrong with the pattern.
    pub message: String,
}

/// The criterion a candidate is tested against. It is built once, before the
/// search starts, and only read afterwards.
pub enum MatchCriterion {
    /// The encoded key starts with `text`.
    LiteralPrefix { text: String, case_insensitive: bool },
    /// The compiled pattern matches somewhere in the encoded key.
    Pattern { regex: Regex, case_insensitive: bool },
}

/// What a criterion asks for, as plain values.
pub enum CriterionModel {
    LiteralPrefix { text: Seq<char>, case_insensitive: bool },
    Pattern { source: Seq<char>, case_insensitive: bool },
}

/// Whether a literal prefix accepts an encoded key. Case-insensitive matching
/// folds both whole strings to upper case and compares then.
pub open spec fn literal_accepts(text: Seq<char>, case_insensitive: bool, encoded: Seq<char>) -> bool {
    if case_insensitive {
        uppercased(text).is_prefix_of(uppercased(encoded))
    } else {
        text.is_prefix_of(encoded)
    }
}

impl CriterionModel {
    /// Whether the criterion accepts an encoded key.
    pub open spec fn accepts(self, encoded: Seq<char>) -> bool {
        match self {
            CriterionModel::LiteralPrefix { text, case_insensitive } => literal_accepts(
                text,
                case_insensitive,
                encoded,
            ),
            CriterionModel::Pattern { source, case_insensitive } => pattern_finds(
                source,
                case_insensitive,
                encoded,
            ),
        }
    }
}

impl View for MatchCriterion {
    type V = CriterionModel;

    open spec fn view(&self) -> CriterionModel {
        match self {
            MatchCriterion::LiteralPrefix { text, case_insensitive } => {
                CriterionModel::LiteralPrefix { text: text@, case_insensitive: *case_insensitive }
            },
            MatchCriterion::Pattern { regex, case_insensitive } => CriterionModel::Pattern {
                source: compiled_source(*regex),
                case_insensitive: *case_insensitive,
            },
        }
    }
}

/// `RegexBuilder::new(source).case_insensitive(flag).build()`. Whether the
/// build succeeds depends on the pattern and the flag alone. The regex it
/// yields keeps the pattern text, and what it answers on a text depends on
/// the pattern, the flag and the text alone, since no other setting of the
/// builder is touched.
#[verifier::external_body]
fn compile(source: &str, case_insensitive: bool) -> (outcome: Result<Regex, regex::Error>)
    ensures
        outcome is Ok <==> pattern_compiles(source@, case_insensitive),
        outcome is Ok ==> compiled_source(outcome->Ok_0) == source@,
        outcome is Ok ==> forall|haystack: Seq<char>| #[trigger]
            regex_finds(outcome->Ok_0, haystack) == pattern_finds(
                source@,
                case_insensitive,
                haystack,
            ),
{
    RegexBuilder::new(source).case_insensitive(case_insensitive).build()
}

/// `Regex::is_match` is true if and only if the regex matches anywhere in the
/// haystack; the search is not anchored. For a given regex the answer depends
/// on the haystack alone.
pub assume_specification[ Regex::is_match ](regex: &Regex, haystack: &str) -> (found: bool)
    ensures
        found == regex_finds(*regex, haystack@),
;

/// Tests an encoded key against a literal prefix.
pub fn literal_matches(text: &str, case_insensitive: bool, encoded: &str) -> (hit: bool)
    ensures
        hit == literal_accepts(text@, case_insensitive, encoded@),
{
    if case_insensitive {
        let folded_key = encoded.to_uppercase();
        let folded_text = text.to_uppercase();
        starts_with(folded_key.as_str(), folded_text.as_str())
    } else {
        starts_with(encoded, text)
    }
}

impl MatchCriterion {
    /// Whether the criterion accepts an encoded key. A pattern criterion
    /// answers as its regex does, however that regex was built.
    pub open spec fn accepts(&self, encoded: Seq<char>) -> bool {
        match self {
            MatchCriterion::LiteralPrefix { text, case_insensitive } => literal_accepts(
                text@,
                *case_insensitive,
                encoded,
            ),
            MatchCriterion::Pattern { regex, .. } => regex_finds(*regex, encoded),
        }
    }

    /// The regex of a pattern criterion answers as its pattern text does when
    /// compiled with the criterion's case flag and nothing else. It holds of
    /// every criterion that `literal` or `pattern` has made.
    pub open spec fn wf(&self) -> bool {
        match self {
            MatchCriterion::LiteralPrefix { .. } => true,
            MatchCriterion::Pattern { regex, case_insensitive } => answers_as(
                *regex,
                compiled_source(*regex),
                *case_insensitive,
            ),
        }
    }

    /// A well-formed criterion accepts what its plain model accepts.
    pub proof fn lemma_accepts_as_its_model(&self, encoded: Seq<char>)
        requires
            self.wf(),
        ensures
            self.accepts(encoded) == self@.accepts(encoded),
    {
        match self {
            MatchCriterion::LiteralPrefix { .. } => {},
            MatchCriterion::Pattern { regex, case_insensitive } => {
                assert(regex_finds(*regex, encoded) == pattern_finds(
                    compiled_source(*regex),
                    *case_insensitive,
                    encoded,
                ));
            },
        }
    }

    /// A literal prefix criterion.
    pub fn literal(text: String, case_insensitive: bool) -> (criterion: MatchCriterion)
        ensures
            criterion.wf(),
            criterion@ == (CriterionModel::LiteralPrefix { text: text@, case_insensitive }),
    {
        MatchCriterion::LiteralPrefix { text, case_insensitive }
    }

    /// Compiles `source` into a pattern criterion, or reports that the
    /// pattern is invalid.
    pub fn pattern(source: &str, case_insensitive: bool) -> (outcome: Result<
        MatchCriterion,
        InvalidPatternError,
    >)
        ensures
            outcome is Ok <==> pattern_compiles(source@, case_insensitive),
            outcome matches Ok(criterion) ==> criterion.wf() && criterion@ == (
            CriterionModel::Pattern { source: source@, case_insensitive }),
    {
        match compile(source, case_insensitive) {
            Ok(regex) => Ok(MatchCriterion::Pattern { regex, case_insensitive }),
            Err(error) => Err(InvalidPatternError { message: error.to_string() }),
        }
    }

    /// Whether the criterion accepts an encoded public key.
    pub fn matches(&self, encoded: &str) -> (hit: bool)
        ensures
            hit == self.accepts(encoded@),
            self.wf() ==> hit == self@.accepts(encoded@),
    {
        proof {
            if self.wf() {
                self.lemma_accepts_as_its_model(encoded@);
            }
        }
        match self {
            MatchCriterion::LiteralPrefix { text, case_insensitive } => literal_matches(
                text.as_str(),
                *case_insensitive,
                encoded,
            ),
            MatchCriterion::Pattern { regex, .. } => regex.is_match(encoded),
        }
    }
}

} // verus!
