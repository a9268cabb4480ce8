//! Matching a text against a regular expression.

use vstd::prelude::*;

verus! {

/// What the `regex` crate finds when it searches `text` for `pattern`: the
/// capture groups of the leftmost match, the whole match at index 0 and a
/// group that took no part as `None`. Where the pattern is no valid regular
/// expression, or matches nowhere in the text, this is `None`.
pub uninterp spec fn captures(pattern: Seq<char>, text: Seq<char>) -> Option<
    Seq<Option<Seq<char>>>,
>;

/// The text of capture group `index`, if there was a match and the group took
/// part in it.
pub open spec fn group(found: Option<Seq<Option<Seq<char>>>>, index: int) -> Option<Seq<char>> {
    match found {
        Some(groups) => if 0 <= index < groups.len() {
            groups[index]
        } else {
            None
        },
        None => None,
    }
}

/// Compiles `pattern` with `regex::Regex::new` and searches `text` with
/// `Regex::captures`, handing each group out as an owned string. The search
/// depends on the two arguments alone; the contract gives its outcome the
/// name [`captures`] and claims nothing else of it.
#[verifier::external_body]
pub(crate) fn find_captures(pattern: &str, text: &str) -> (found: Option<Vec<Option<String>>>)
    ensures
        found.deep_view() == captures(pattern@, text@),
{
    let compiled = regex::Regex::new(pattern).ok()?;
    let matched = compiled.captures(text)?;
    Some(matched.iter().map(|group| group.map(|part| part.as_str().to_string())).collect())
}

/// Hands out capture group `index` of a search result.
pub fn take_group(found: &Option<Vec<Option<String>>>, index: usize) -> (text: Option<String>)
    ensures
        text.deep_view() == group(found.deep_view(), index as int),
{
    match found {
        Some(groups) => {
            if index < groups.len() {
                groups[index].clone()
            } else {
                None
            }
        },
        None => None,
    }
}

} // verus!
