//! The line that announces a match.

use crate::criterion::MatchCriterion;
use crate::search::FoundKey;
use crate::search::FoundKeyModel;
use chrono::DateTime;
use std::time::Duration;
use std::time::SystemTime;
use std::time::SystemTimeError;
use std::time::UNIX_EPOCH;
use vstd::prelude::*;
use vstd::string::StringExecFns;

verus! {

/// A reading of the standard library's wall clock.
#[verifier::external_type_specification]
#[verifier::external_body]
pub struct ExSystemTime(SystemTime);

/// The error that tells that one reading of the wall clock lies before
/// another. Only the fact is used.
#[verifier::external_type_specification]
#[verifier::external_body]
pub struct ExSystemTimeError(SystemTimeError);

/// `SystemTime::now` reads the wall clock. Nothing is promised of the
/// reading.
pub assume_specification[ SystemTime::now ]() -> (now: SystemTime)
;

/// `SystemTime::duration_since` with `UNIX_EPOCH` as the earlier time: the
/// time from the start of 1970 to the reading, or an error if the reading
/// lies before it. Nothing is promised of either.
#[verifier::external_body]
fn since_epoch(reading: &SystemTime) -> (since: Result<Duration, SystemTimeError>) {
    reading.duration_since(UNIX_EPOCH)
}

/// `Duration::as_secs` is the number of whole seconds in the span.
pub assume_specification[ Duration::as_secs ](span: &Duration) -> (secs: u64)
;

/// `Duration::subsec_nanos` is the part of the span below one second, in
/// nanoseconds; it is always less than one billion.
pub assume_specification[ Duration::subsec_nanos ](span: &Duration) -> (nanos: u32)
    ensures
        nanos < 1_000_000_000,
;

/// The time of day, as hours, minutes, seconds and milliseconds in UTC, of
/// the instant that lies `secs` seconds and `nanos` nanoseconds after the
/// start of 1970: what `chrono` writes for `DateTime::from_timestamp(secs,
/// nanos)` under the format `%T%.3f`, or `None` where it knows no such
/// instant.
pub uninterp spec fn stamp_text(secs: i64, nanos: u32) -> Option<Seq<char>>;

/// `chrono::DateTime::from_timestamp` followed by `DateTime::format` with
/// `%T%.3f` and `DelayedFormat::write_to`. Each of the three reports a
/// refusal in its result, and the text depends on the two numbers alone.
#[verifier::external_body]
fn write_stamp(secs: i64, nanos: u32) -> (stamp: Option<String>)
    ensures
        stamp is Some <==> stamp_text(secs, nanos) is Some,
        stamp matches Some(text) ==> stamp_text(secs, nanos) == Some(text@),
{
    let at = DateTime::from_timestamp(secs, nanos)?;
    let mut text = String::new();
    at.format("%T%.3f").write_to(&mut text).ok()?;
    Some(text)
}

/// The line for a match: both keys in encoded form, each behind its label.
pub open spec fn match_line(found: FoundKeyModel) -> Seq<char> {
    "public: "@ + found.public_key + " private: "@ + found.private_key
}

/// The line for a match with the time of day in front of it.
pub open spec fn stamped_line(stamp: Seq<char>, found: FoundKeyModel) -> Seq<char> {
    stamp + ": "@ + match_line(found)
}

/// The line for a match with a time stamp in front of it, if there is one.
pub open spec fn line_with(stamp: Option<Seq<char>>, found: FoundKeyModel) -> Seq<char> {
    match stamp {
        Some(text) => stamped_line(text, found),
        None => match_line(found),
    }
}

/// A stamp as plain text, if there is one.
pub open spec fn stamp_view(stamp: Option<&str>) -> Option<Seq<char>> {
    match stamp {
        Some(text) => Some(text@),
        None => None,
    }
}

/// The stamp that a clock reading leads to: none where the reading cannot be
/// counted in signed 64 bits, and what `stamp_text` says otherwise.
pub open spec fn stamp_of_reading(secs: u64, nanos: u32) -> Option<Seq<char>> {
    if secs > i64::MAX {
        None
    } else {
        stamp_text(secs as i64, nanos)
    }
}

/// The time of day of a clock reading, given as whole seconds since the
/// start of 1970 and the nanoseconds beyond them.
pub fn stamp_of(secs: u64, nanos: u32) -> (stamp: Option<String>)
    ensures
        stamp is Some <==> stamp_of_reading(secs, nanos) is Some,
        stamp matches Some(text) ==> stamp_of_reading(secs, nanos) == Some(text@),
{
    if secs > 0x7fff_ffff_ffff_ffff {
        None
    } else {
        write_stamp(secs as i64, nanos)
    }
}

/// The time of day by the wall clock, or `None` where the clock reads a time
/// before 1970 or one that has no time of day.
pub fn time_of_day() -> (stamp: Option<String>)
    ensures
        stamp matches Some(text) ==> exists|secs: u64, nanos: u32|
            nanos < 1_000_000_000 && #[trigger] stamp_of_reading(secs, nanos) == Some(text@),
{
    let reading = SystemTime::now();
    match since_epoch(&reading) {
        Ok(since) => {
            let secs = since.as_secs();
            let nanos = since.subsec_nanos();
            stamp_of(secs, nanos)
        },
        Err(_) => None,
    }
}

/// Renders the line for a match, with a time stamp in front if one is given.
pub fn render(found: &FoundKey, stamp: Option<&str>) -> (line: String)
    ensures
        line@ == line_with(stamp_view(stamp), found@),
        stamp matches Some(text) ==> line@ == stamped_line(text@, found@),
        stamp is None ==> line@ == match_line(found@),
{
    let mut line = String::new();
    if let Some(text) = stamp {
        line.append(text);
        line.append(": ");
    }
    line.append("public: ");
    line.append(found.public_key.as_str());
    line.append(" private: ");
    line.append(found.private_key.as_str());
    line
}

/// The line that announces a match under `criterion` when the clock gave
/// `stamp`. Matches of a pattern carry the stamp, if there is one; matches of
/// a literal prefix never do.
pub fn announce_with(criterion: &MatchCriterion, found: &FoundKey, stamp: Option<&str>) -> (line:
    String)
    ensures
        criterion is LiteralPrefix ==> line@ == match_line(found@),
        criterion is Pattern ==> line@ == line_with(stamp_view(stamp), found@),
{
    match criterion {
        MatchCriterion::LiteralPrefix { .. } => render(found, None),
        MatchCriterion::Pattern { .. } => render(found, stamp),
    }
}

/// The line that announces a match under `criterion`. Matches of a pattern
/// carry the time of day at which they are announced, where the clock gives
/// one; matches of a literal prefix do not, and the clock is not read for
/// them.
pub fn announce(criterion: &MatchCriterion, found: &FoundKey) -> (line: String)
    ensures
        criterion is LiteralPrefix ==> line@ == match_line(found@),
        criterion is Pattern ==> exists|stamp: Option<Seq<char>>|
            line@ == #[trigger] line_with(stamp, found@),
{
    match criterion {
        MatchCriterion::LiteralPrefix { .. } => announce_with(criterion, found, None),
        MatchCriterion::Pattern { .. } => {
            let line = match time_of_day() {
                Some(stamp) => announce_with(criterion, found, Some(stamp.as_str())),
                None => announce_with(criterion, found, None),
            };
            line
        },
    }
}

} // verus!
