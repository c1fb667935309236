use base64::engine::general_purpose::STANDARD;
use base64::Engine;
use wg_vankey::criterion::MatchCriterion;
use wg_vankey::encoding::decode;
use wg_vankey::keys::Keypair;
use wg_vankey::search::attempt;
use wg_vankey::search::examine;
use wg_vankey::search::examine_literal;
use wg_vankey::search::examine_pattern;
use wg_vankey::search::find_match;
use wg_vankey::search::try_pair;
use wg_vankey::search::try_regex;
use wg_vankey::search::FoundKey;

fn pattern(source: &str, case_insensitive: bool) -> MatchCriterion {
    match MatchCriterion::pattern(source, case_insensitive) {
        Ok(criterion) => criterion,
        Err(error) => panic!("{}", error.message),
    }
}

fn assert_genuine(found: &FoundKey) {
    assert_eq!(found.public_key.len(), 44);
    assert_eq!(found.private_key.len(), 44);
    let private = decode(&found.private_key).expect("private key is no encoding");
    let public = decode(&found.public_key).expect("public key is no encoding");
    let mut seed = [0u8; 32];
    seed.copy_from_slice(&private);
    let pair = Keypair::from_seed(seed);
    assert_eq!(pair.private_bytes.to_vec(), private);
    assert_eq!(pair.public_bytes.to_vec(), public);
}

#[test]
fn examine_keeps_a_pair_whose_public_key_matches() {
    let pair = Keypair::from_seed([7u8; 32]);
    let public = STANDARD.encode(pair.public_bytes);
    let private = STANDARD.encode(pair.private_bytes);
    let criterion = MatchCriterion::literal(public[..3].to_string(), false);
    match examine(&criterion, &pair) {
        Some(found) => {
            assert_eq!(found.public_key, public);
            assert_eq!(found.private_key, private);
            assert_genuine(&found);
        }
        None => panic!("rejected"),
    }
    let whole = MatchCriterion::literal(public.clone(), false);
    assert!(examine(&whole, &pair).is_some());
    let empty = MatchCriterion::literal(String::new(), false);
    assert!(examine(&empty, &pair).is_some());
}

#[test]
fn examine_drops_a_pair_whose_public_key_does_not_match() {
    let pair = Keypair::from_seed([7u8; 32]);
    let public = STANDARD.encode(pair.public_bytes);
    let other = if public.starts_with('A') { "B" } else { "A" };
    assert!(examine(&MatchCriterion::literal(other.to_string(), false), &pair).is_none());
    assert!(examine(&MatchCriterion::literal(private_of(&pair), false), &pair).is_none());
    assert!(examine(&MatchCriterion::literal(format!("{}x", public), false), &pair).is_none());
    assert!(examine(&pattern("^$", false), &pair).is_none());
}

fn private_of(pair: &Keypair) -> String {
    STANDARD.encode(pair.private_bytes)
}

#[test]
fn examine_tests_the_public_key_and_not_the_private_key() {
    for seed in 0u8..40 {
        let pair = Keypair::from_seed([seed; 32]);
        let public = STANDARD.encode(pair.public_bytes);
        for prefix in ["a", "A", "b", "+", "/", "0", "z"] {
            for ignore_case in [false, true] {
                let criterion = MatchCriterion::literal(prefix.to_string(), ignore_case);
                let expected = if ignore_case {
                    public.to_uppercase().starts_with(&prefix.to_uppercase())
                } else {
                    public.starts_with(prefix)
                };
                assert_eq!(examine(&criterion, &pair).is_some(), expected);
            }
        }
        let anywhere = pattern("[aA]", false);
        assert_eq!(examine(&anywhere, &pair).is_some(), public.contains('a') || public.contains('A'));
    }
}

#[test]
fn a_search_for_a_prefix_finds_keys_that_start_with_it() {
    let criterion = MatchCriterion::literal("a".to_string(), false);
    for _ in 0..5 {
        match find_match(&criterion, 100_000) {
            Ok(Some(found)) => {
                assert!(found.public_key.starts_with("a"));
                assert_genuine(&found);
            }
            Ok(None) => panic!("nothing found"),
            Err(failure) => panic!("no entropy: {}", failure.reason),
        }
    }
}

#[test]
fn a_search_without_case_finds_either_spelling_only() {
    let criterion = MatchCriterion::literal("A".to_string(), true);
    let mut lower = 0;
    let mut upper = 0;
    for _ in 0..40 {
        match find_match(&criterion, 100_000) {
            Ok(Some(found)) => {
                if found.public_key.starts_with('a') {
                    lower += 1;
                } else if found.public_key.starts_with('A') {
                    upper += 1;
                } else {
                    panic!("found {}", found.public_key);
                }
                assert_genuine(&found);
            }
            Ok(None) => panic!("nothing found"),
            Err(failure) => panic!("no entropy: {}", failure.reason),
        }
    }
    assert_eq!(lower + upper, 40);
    assert!(lower > 0 && upper > 0);
}

#[test]
fn a_search_for_a_pattern_finds_keys_that_match_it() {
    let criterion = pattern("^t[o0]", true);
    for _ in 0..3 {
        match find_match(&criterion, 1_000_000) {
            Ok(Some(found)) => {
                let start = found.public_key[..2].to_lowercase();
                assert!(start == "to" || start == "t0");
                assert_genuine(&found);
            }
            Ok(None) => panic!("nothing found"),
            Err(failure) => panic!("no entropy: {}", failure.reason),
        }
    }
}

#[test]
fn a_search_with_no_attempts_finds_nothing() {
    let criterion = MatchCriterion::literal(String::new(), false);
    assert!(matches!(find_match(&criterion, 0), Ok(None)));
    assert!(matches!(find_match(&criterion, 1), Ok(Some(_))));
}

#[test]
fn a_search_gives_up_after_the_attempts_it_was_given() {
    let criterion = MatchCriterion::literal("=".to_string(), false);
    assert!(matches!(find_match(&criterion, 200), Ok(None)));
    let nothing = pattern("^$", false);
    assert!(matches!(find_match(&nothing, 200), Ok(None)));
}

#[test]
fn try_pair_hands_back_only_matching_pairs() {
    let mut hits = 0;
    for _ in 0..4000 {
        match try_pair("a", true) {
            Ok(Some(found)) => {
                assert!(found.public_key.starts_with('a') || found.public_key.starts_with('A'));
                assert_genuine(&found);
                hits += 1;
            }
            Ok(None) => {}
            Err(failure) => panic!("no entropy: {}", failure.reason),
        }
    }
    assert!(hits > 0);
    assert!(hits < 4000);
    assert!(matches!(try_pair("", false), Ok(Some(_))));
    assert!(matches!(try_pair("=", false), Ok(None)));
}

#[test]
fn try_regex_hands_back_only_matching_pairs() {
    let regex = match regex::Regex::new("^[a-f]") {
        Ok(regex) => regex,
        Err(error) => panic!("{}", error),
    };
    let mut hits = 0;
    for _ in 0..2000 {
        match try_regex(&regex) {
            Ok(Some(found)) => {
                assert!(regex.is_match(&found.public_key));
                assert_genuine(&found);
                hits += 1;
            }
            Ok(None) => {}
            Err(failure) => panic!("no entropy: {}", failure.reason),
        }
    }
    assert!(hits > 0);
    assert!(hits < 2000);
}

#[test]
fn an_attempt_follows_the_criterion() {
    let always = MatchCriterion::literal(String::new(), true);
    let never = pattern("^$", false);
    let mut seen = std::collections::HashSet::new();
    for _ in 0..200 {
        match attempt(&always) {
            Ok(Some(found)) => {
                assert_genuine(&found);
                assert!(seen.insert(found.public_key));
            }
            Ok(None) => panic!("rejected"),
            Err(failure) => panic!("no entropy: {}", failure.reason),
        }
        assert!(matches!(attempt(&never), Ok(None)));
    }
}

#[test]
fn a_pair_is_judged_by_the_same_rule_whichever_way_it_is_asked() {
    let regex = match regex::Regex::new("^[a-zA-Z]") {
        Ok(regex) => regex,
        Err(error) => panic!("{}", error),
    };
    for seed in 0u8..60 {
        let pair = Keypair::from_seed([seed; 32]);
        let public = STANDARD.encode(pair.public_bytes);
        let private = STANDARD.encode(pair.private_bytes);
        for prefix in ["", "a", "B", "z", "+", "7"] {
            for ignore_case in [false, true] {
                let expected = if ignore_case {
                    public.to_uppercase().starts_with(&prefix.to_uppercase())
                } else {
                    public.starts_with(prefix)
                };
                let criterion = MatchCriterion::literal(prefix.to_string(), ignore_case);
                let direct = examine_literal(prefix, ignore_case, &pair);
                let through = examine(&criterion, &pair);
                assert_eq!(direct.is_some(), expected);
                assert_eq!(through.is_some(), expected);
                if let Some(found) = direct {
                    assert_eq!(found.public_key, public);
                    assert_eq!(found.private_key, private);
                }
            }
        }
        let starts_with_letter = public.chars().next().map_or(false, |c| c.is_ascii_alphabetic());
        let direct = examine_pattern(&regex, &pair);
        assert_eq!(direct.is_some(), starts_with_letter);
        if let Some(found) = direct {
            assert_eq!(found.public_key, public);
            assert_eq!(found.private_key, private);
        }
    }
}

#[test]
fn nothing_is_handed_back_only_when_every_pair_was_rejected() {
    let always = MatchCriterion::literal(String::new(), true);
    for budget in 1..20u64 {
        match find_match(&always, budget) {
            Ok(Some(found)) => assert_genuine(&found),
            Ok(None) => panic!("a pair was dropped that should have been kept"),
            Err(failure) => panic!("no entropy: {}", failure.reason),
        }
    }
    let never = pattern("^$", false);
    for budget in 0..20u64 {
        assert!(matches!(find_match(&never, budget), Ok(None)));
    }
}

#[test]
fn a_regex_answers_as_it_was_built() {
    let plain = match regex::Regex::new("^b") {
        Ok(regex) => regex,
        Err(error) => panic!("{}", error),
    };
    let by_line = match regex::RegexBuilder::new("^b").multi_line(true).build() {
        Ok(regex) => regex,
        Err(error) => panic!("{}", error),
    };
    assert_eq!(plain.as_str(), by_line.as_str());
    let plain = MatchCriterion::Pattern { regex: plain, case_insensitive: false };
    let by_line = MatchCriterion::Pattern { regex: by_line, case_insensitive: false };
    assert!(!plain.matches("a\nb"));
    assert!(by_line.matches("a\nb"));
    assert!(plain.matches("b"));
    assert!(by_line.matches("b"));
    let spaced = match regex::RegexBuilder::new("^ [a-z] ").ignore_whitespace(true).build() {
        Ok(regex) => regex,
        Err(error) => panic!("{}", error),
    };
    for seed in 0u8..40 {
        let pair = Keypair::from_seed([seed; 32]);
        let public = STANDARD.encode(pair.public_bytes);
        let lower = public.chars().next().map_or(false, |c| c.is_ascii_lowercase());
        assert_eq!(examine_pattern(&spaced, &pair).is_some(), lower);
    }
}

#[test]
fn a_found_key_has_forty_four_characters_and_decodes_to_its_pair() {
    let always = MatchCriterion::literal(String::new(), false);
    for seed in 0u8..20 {
        let pair = Keypair::from_seed([seed; 32]);
        let found = examine(&always, &pair).expect("rejected");
        assert_eq!(found.public_key.len(), 44);
        assert_eq!(found.private_key.len(), 44);
        assert_eq!(decode(&found.public_key), Some(pair.public_bytes.to_vec()));
        assert_eq!(decode(&found.private_key), Some(pair.private_bytes.to_vec()));
    }
}
