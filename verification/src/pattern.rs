//! Searching a text for a regular expression, with `regex`.

use vstd::prelude::*;

verus! {

/// What `regex` finds of a pattern in a text: nothing where the pattern does not
/// compile; else the matches from left to right, none overlapping another, each
/// with the text of every group (group 0 is the whole match), and no text for a
/// group that took no part.
pub uninterp spec fn regex_captures(pattern: Seq<char>, text: Seq<char>) -> Option<
    Seq<Seq<Option<Seq<char>>>>,
>;

/// Calls `Regex::new` and `Regex::captures_iter` and copies the text of each group
/// of each match. What comes out depends on the pattern and the text alone.
#[verifier::external_body]
pub(crate) fn find_captures(pattern: &str, text: &str) -> (found: Option<
    Vec<Vec<Option<String>>>,
>)
    ensures
        found.deep_view() == regex_captures(pattern@, text@),
{
    let compiled = regex::Regex::new(pattern).ok()?;
    Some(
        compiled.captures_iter(text).map(
            |found| found.iter().map(|group| group.map(|m| m.as_str().to_string())).collect(),
        ).collect(),
    )
}

} // verus!
