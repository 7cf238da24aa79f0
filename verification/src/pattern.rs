//! Regular-expression search, delegated to the `regex` crate.

use vstd::prelude::*;

verus! {

/// `regex::Error`, opaque: why a pattern was refused. Handed from the
/// wrapper to its callers and never looked into.
#[verifier::external_type_specification]
#[verifier::external_body]
pub struct ExPatternError(regex::Error);

/// Whether `regex::Regex::new` accepts `pattern`.
pub uninterp spec fn pattern_compiles(pattern: Seq<char>) -> bool;

/// The text that capture group `group` holds in the leftmost match of
/// `pattern` in `haystack`, as `regex::Regex::captures` finds it; `None`
/// where nothing matches or the group took no part in the match. Group 0
/// is the whole match.
pub uninterp spec fn captured_text(pattern: Seq<char>, haystack: Seq<char>, group: int) -> Option<
    Seq<char>,
>;

/// Whether `part` occurs in `whole` as one unbroken piece.
pub open spec fn is_part_of(part: Seq<char>, whole: Seq<char>) -> bool {
    exists|from: int, to: int|
        0 <= from <= to <= whole.len() && #[trigger] whole.subrange(from, to) == part
}

/// Compiles `pattern` with `regex::Regex::new`, searches `haystack` with
/// `Regex::captures` and copies out what `Captures::get(group)` matched.
///
/// Assumed, not proved: whether the pattern is accepted depends on the
/// pattern alone, and what is found on the three arguments alone; what is
/// found is a piece of `haystack`.
#[verifier::external_body]
pub(crate) fn capture(pattern: &str, haystack: &str, group: usize) -> (r: Result<
    Option<String>,
    regex::Error,
>)
    ensures
        r is Ok <==> pattern_compiles(pattern@),
        match r {
            Ok(Some(text)) => captured_text(pattern@, haystack@, group as int) == Some(text@)
                && is_part_of(text@, haystack@),
            Ok(None) => captured_text(pattern@, haystack@, group as int) is None,
            Err(_) => true,
        },
{
    let re = regex::Regex::new(pattern)?;
    Ok(re.captures(haystack).and_then(|found| found.get(group)).map(|m| m.as_str().to_string()))
}

} // verus!
