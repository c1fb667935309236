//! String operations that the matching rules are stated over.

use vstd::prelude::*;
use vstd::std_specs::iter::IteratorSpec;

verus! {

/// What `str::to_uppercase` makes of a text: its upper-case form under the
/// Unicode case mapping, which may differ in length from the text.
pub uninterp spec fn uppercased(text: Seq<char>) -> Seq<char>;

/// `str::to_uppercase` depends on nothing but the characters it is given; its
/// result is the text's upper-case form.
pub assume_specification[ str::to_uppercase ](text: &str) -> (upper: String)
    ensures
        upper@ == uppercased(text@),
;

/// Whether the characters of `prefix` are the first characters of `text`.
pub fn starts_with(text: &str, prefix: &str) -> (found: bool)
    ensures
        found == prefix@.is_prefix_of(text@),
{
    let mut rest = text.chars();
    for wanted in wanted_chars: prefix.chars()
        invariant
            wanted_chars.seq() == prefix@,
            rest.obeys_prophetic_iter_laws(),
            wanted_chars.index() <= text@.len(),
            rest.remaining() == text@.skip(wanted_chars.index()),
            prefix@.take(wanted_chars.index()) == text@.take(wanted_chars.index()),
    {
        match rest.next() {
            Some(given) => {
                if given != wanted {
                    return false;
                }
            },
            None => {
                return false;
            },
        }
    }
    true
}

/// `String::into_boxed_str` keeps the characters of the string.
pub assume_specification[ String::into_boxed_str ](s: String) -> (boxed: Box<str>)
    ensures
        boxed@ == s@,
;

/// `Box::leak` hands out a reference to the very value that the box held.
#[verifier::external_body]
fn leak_boxed_str(boxed: Box<str>) -> (leaked: &'static str)
    ensures
        leaked@ == boxed@,
{
    Box::leak(boxed)
}

/// Gives a string the `'static` lifetime so that any number of workers can
/// read it for as long as the process runs. The memory is never reclaimed.
pub fn string_to_static_str(s: String) -> (leaked: &'static str)
    ensures
        leaked@ == s@,
{
    leak_boxed_str(s.into_boxed_str())
}

} // verus!
