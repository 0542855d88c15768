//! What the supervisor asks of a regular-expression engine.

use vstd::prelude::*;

verus! {

/// What the first capture group of a pattern holds in each match of the
/// pattern in a text, match by match from the left: what
/// `regex::Regex::captures_iter` and `regex::Captures::get` with index 1
/// find. An entry is `None` where the group took no part in the match.
/// The whole is `None` where `regex::Regex::new` refuses the pattern.
pub uninterp spec fn first_group_matches(pattern: Seq<char>, text: Seq<char>) -> Option<
    Seq<Option<Seq<char>>>,
>;

/// What a vector of optional strings holds.
pub open spec fn groups_view(groups: Seq<Option<String>>) -> Seq<Option<Seq<char>>> {
    Seq::new(
        groups.len(),
        |i: int|
            match groups[i] {
                Some(text) => Some(text@),
                None => None,
            },
    )
}

pub open spec fn matches_view(found: Option<Vec<Option<String>>>) -> Option<Seq<Option<Seq<char>>>> {
    match found {
        Some(groups) => Some(groups_view(groups@)),
        None => None,
    }
}

/// The first capture group of each match of `pattern` in `text`.
///
/// The body compiles the pattern with `regex::Regex::new`, walks the
/// matches with `Regex::captures_iter`, which yields the successive
/// matches that do not overlap, and takes from each the text of group 1
/// with `Captures::get`. The contract claims that the result depends on
/// the two arguments alone, under the name `first_group_matches`.
#[verifier::external_body]
pub(crate) fn capture_first_groups(pattern: &str, text: &str) -> (r: Option<Vec<Option<String>>>)
    ensures
        matches_view(r) == first_group_matches(pattern@, text@),
{
    let compiled = regex::Regex::new(pattern).ok()?;
    let mut groups = Vec::new();
    for found in compiled.captures_iter(text) {
        match found.get(1) {
            Some(group) => groups.push(Some(group.as_str().to_string())),
            None => groups.push(None),
        }
    }
    Some(groups)
}

} // verus!
