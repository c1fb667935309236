//! One step of the search: draw a key pair, encode its public half, test it,
//! and keep it if it matches.

use crate::criterion::literal_accepts;
use crate::criterion::literal_matches;
use crate::criterion::regex_finds;
use crate::criterion::MatchCriterion;
use crate::encoding::base64_bytes;
use crate::encoding::base64_text;
use crate::encoding::encode_key;
use crate::keys::EntropyFailure;
use crate::keys::Keypair;
use regex::Regex;
use vstd::prelude::*;

verus! {

/// A key pair that matched, in the form in which it is shown.
pub struct FoundKey {
    /// The encoded public key, the one that was tested.
    pub public_key: String,
    /// The encoded private key that belongs to it.
    pub private_key: String,
}

/// A found key as plain values.
pub struct FoundKeyModel {
    pub public_key: Seq<char>,
    pub private_key: Seq<char>,
}

impl View for FoundKey {
    type V = FoundKeyModel;

    open spec fn view(&self) -> FoundKeyModel {
        FoundKeyModel { public_key: self.public_key@, private_key: self.private_key@ }
    }
}

/// The view of what a search step hands back.
pub open spec fn found_view(found: Option<FoundKey>) -> Option<FoundKeyModel> {
    match found {
        Some(key) => Some(key@),
        None => None,
    }
}

/// Whether `key` shows `pair`: both halves in encoded form, 44 characters
/// each, from which the bytes of the pair can be decoded again.
pub open spec fn shows(key: FoundKeyModel, pair: Keypair) -> bool {
    &&& key.public_key == base64_text(pair.public_bytes@)
    &&& key.private_key == base64_text(pair.private_bytes@)
    &&& key.public_key.len() == 44
    &&& key.private_key.len() == 44
    &&& base64_bytes(key.public_key) == Some(pair.public_bytes@)
    &&& base64_bytes(key.private_key) == Some(pair.private_bytes@)
}

/// Whether `found` is what the search makes of `pair` when the test of its
/// encoded public key came out as `accepted`: the pair in encoded form if it
/// was accepted, and nothing otherwise.
pub open spec fn is_verdict(accepted: bool, pair: Keypair, found: Option<FoundKeyModel>) -> bool {
    &&& found is Some <==> accepted
    &&& found matches Some(key) ==> shows(key, pair)
}

/// Whether `found` is the verdict on `pair` under a literal prefix.
pub open spec fn is_literal_verdict(
    prefix: Seq<char>,
    ignore_case: bool,
    pair: Keypair,
    found: Option<FoundKeyModel>,
) -> bool {
    is_verdict(literal_accepts(prefix, ignore_case, base64_text(pair.public_bytes@)), pair, found)
}

/// Whether `found` is the verdict on `pair` under a compiled pattern.
pub open spec fn is_pattern_verdict(
    regex: Regex,
    pair: Keypair,
    found: Option<FoundKeyModel>,
) -> bool {
    is_verdict(regex_finds(regex, base64_text(pair.public_bytes@)), pair, found)
}

/// Whether `found` is the verdict on `pair` under a criterion.
pub open spec fn is_criterion_verdict(
    criterion: MatchCriterion,
    pair: Keypair,
    found: Option<FoundKeyModel>,
) -> bool {
    is_verdict(criterion.accepts(base64_text(pair.public_bytes@)), pair, found)
}

/// Keeps a key pair in encoded form if `accepted` calls for it. The private
/// key is encoded only then.
fn keep_if(accepted: bool, public_key: String, pair: &Keypair) -> (found: Option<FoundKey>)
    requires
        public_key@ == base64_text(pair.public_bytes@),
        public_key@.len() == 44,
        base64_bytes(public_key@) == Some(pair.public_bytes@),
    ensures
        is_verdict(accepted, *pair, found_view(found)),
{
    if accepted {
        Some(FoundKey { public_key, private_key: encode_key(&pair.private_bytes) })
    } else {
        None
    }
}

/// Tests a given key pair against a literal prefix.
pub fn examine_literal(prefix: &str, ignore_case: bool, pair: &Keypair) -> (found: Option<FoundKey>)
    ensures
        is_literal_verdict(prefix@, ignore_case, *pair, found_view(found)),
{
    let public_key = encode_key(&pair.public_bytes);
    let accepted = literal_matches(prefix, ignore_case, public_key.as_str());
    keep_if(accepted, public_key, pair)
}

/// Tests a given key pair against a compiled pattern, however the pattern
/// was compiled.
pub fn examine_pattern(regex: &Regex, pair: &Keypair) -> (found: Option<FoundKey>)
    ensures
        is_pattern_verdict(*regex, *pair, found_view(found)),
{
    let public_key = encode_key(&pair.public_bytes);
    let accepted = regex.is_match(public_key.as_str());
    keep_if(accepted, public_key, pair)
}

/// Tests a given key pair against a criterion. The private key is encoded
/// only when the public key matches.
pub fn examine(criterion: &MatchCriterion, pair: &Keypair) -> (found: Option<FoundKey>)
    ensures
        is_criterion_verdict(*criterion, *pair, found_view(found)),
        criterion.wf() ==> (found is Some <==> criterion@.accepts(
            base64_text(pair.public_bytes@),
        )),
{
    proof {
        if criterion.wf() {
            criterion.lemma_accepts_as_its_model(base64_text(pair.public_bytes@));
        }
    }
    match criterion {
        MatchCriterion::LiteralPrefix { text, case_insensitive } => examine_literal(
            text.as_str(),
            *case_insensitive,
            pair,
        ),
        MatchCriterion::Pattern { regex, .. } => examine_pattern(regex, pair),
    }
}

/// Draws one key pair and tests its encoded public key against a literal
/// prefix: what `examine_literal` makes of the pair that was drawn.
pub fn try_pair(prefix: &str, ignore_case: bool) -> (outcome: Result<
    Option<FoundKey>,
    EntropyFailure,
>)
    ensures
        outcome matches Ok(found) ==> exists|pair: Keypair|
            pair.is_valid() && #[trigger] is_literal_verdict(
                prefix@,
                ignore_case,
                pair,
                found_view(found),
            ),
{
    match Keypair::generate() {
        Ok(pair) => Ok(examine_literal(prefix, ignore_case, &pair)),
        Err(failure) => Err(failure),
    }
}

/// Draws one key pair and tests its encoded public key against a compiled
/// pattern: what `examine_pattern` makes of the pair that was drawn.
pub fn try_regex(regex: &Regex) -> (outcome: Result<Option<FoundKey>, EntropyFailure>)
    ensures
        outcome matches Ok(found) ==> exists|pair: Keypair|
            pair.is_valid() && #[trigger] is_pattern_verdict(*regex, pair, found_view(found)),
{
    match Keypair::generate() {
        Ok(pair) => Ok(examine_pattern(regex, &pair)),
        Err(failure) => Err(failure),
    }
}

/// One iteration of a worker: draws a fresh key pair and tests it against the
/// criterion. Nothing is remembered from one attempt to the next.
pub fn attempt(criterion: &MatchCriterion) -> (outcome: Result<Option<FoundKey>, EntropyFailure>)
    ensures
        outcome matches Ok(found) ==> exists|pair: Keypair|
            pair.is_valid() && #[trigger] is_criterion_verdict(
                *criterion,
                pair,
                found_view(found),
            ),
{
    match criterion {
        MatchCriterion::LiteralPrefix { text, case_insensitive } => {
            let outcome = try_pair(text.as_str(), *case_insensitive);
            proof {
                if outcome is Ok {
                    let found = outcome->Ok_0;
                    let pair = choose|pair: Keypair|
                        pair.is_valid() && #[trigger] is_literal_verdict(
                            text@,
                            *case_insensitive,
                            pair,
                            found_view(found),
                        );
                    assert(is_criterion_verdict(*criterion, pair, found_view(found)));
                }
            }
            outcome
        },
        MatchCriterion::Pattern { regex, .. } => {
            let outcome = try_regex(regex);
            proof {
                if outcome is Ok {
                    let found = outcome->Ok_0;
                    let pair = choose|pair: Keypair|
                        pair.is_valid() && #[trigger] is_pattern_verdict(
                            *regex,
                            pair,
                            found_view(found),
                        );
                    assert(is_criterion_verdict(*criterion, pair, found_view(found)));
                }
            }
            outcome
        },
    }
}

/// Whether every pair that was drawn is a valid key pair.
pub open spec fn all_valid(drawn: Seq<Keypair>) -> bool {
    forall|i: int| 0 <= i < drawn.len() ==> (#[trigger] drawn[i]).is_valid()
}

/// Whether the criterion rejected `pair`.
pub open spec fn rejects(criterion: MatchCriterion, pair: Keypair) -> bool {
    !criterion.accepts(base64_text(pair.public_bytes@))
}

/// Whether `drawn` is the course of a bounded search that ended with `found`:
/// every pair that was drawn is valid, every pair before the last was
/// rejected, and the search ended either with the verdict on the last pair,
/// which was a match, or after `max_attempts` pairs that were all rejected.
pub open spec fn is_search_course(
    criterion: MatchCriterion,
    max_attempts: u64,
    drawn: Seq<Keypair>,
    found: Option<FoundKeyModel>,
) -> bool {
    &&& drawn.len() <= max_attempts
    &&& all_valid(drawn)
    &&& forall|i: int| 0 <= i < drawn.len() - 1 ==> rejects(criterion, #[trigger] drawn[i])
    &&& found is Some ==> drawn.len() >= 1 && is_criterion_verdict(
        criterion,
        drawn.last(),
        found,
    )
    &&& found is None ==> drawn.len() == max_attempts && forall|i: int|
        0 <= i < drawn.len() ==> rejects(criterion, #[trigger] drawn[i])
}

/// Runs attempts until one matches or `max_attempts` have been made, and
/// hands back the first match. Nothing is handed back only when every one of
/// the `max_attempts` pairs was rejected.
pub fn find_match(criterion: &MatchCriterion, max_attempts: u64) -> (outcome: Result<
    Option<FoundKey>,
    EntropyFailure,
>)
    ensures
        outcome matches Ok(found) ==> exists|drawn: Seq<Keypair>| #[trigger]
            is_search_course(*criterion, max_attempts, drawn, found_view(found)),
        outcome matches Ok(Some(key)) ==> criterion.accepts(key.public_key@),
        max_attempts == 0 ==> outcome matches Ok(None),
{
    let mut made: u64 = 0;
    let ghost mut drawn: Seq<Keypair> = Seq::empty();
    while made < max_attempts
        invariant
            made <= max_attempts,
            drawn.len() == made,
            all_valid(drawn),
            forall|i: int| 0 <= i < drawn.len() ==> rejects(*criterion, #[trigger] drawn[i]),
        decreases max_attempts - made,
    {
        match attempt(criterion) {
            Ok(found) => {
                proof {
                    let pair = choose|pair: Keypair|
                        pair.is_valid() && #[trigger] is_criterion_verdict(
                            *criterion,
                            pair,
                            found_view(found),
                        );
                    drawn = drawn.push(pair);
                }
                if let Some(key) = found {
                    proof {
                        assert(is_search_course(*criterion, max_attempts, drawn, Some(key@)));
                    }
                    return Ok(Some(key));
                }
            },
            Err(failure) => {
                return Err(failure);
            },
        }
        made = made + 1;
    }
    proof {
        assert(is_search_course(*criterion, max_attempts, drawn, None));
    }
    Ok(None)
}

} // verus!
