//! File-name patterns, written as regular expressions and matched by the
//! `regex` crate.

use vstd::prelude::*;

verus! {

/// What searching `haystack` with the regular expression `pattern` gives:
/// whether there is a match anywhere in it, or `None` where the engine does
/// not accept `pattern`.
pub uninterp spec fn regex_search(pattern: Seq<char>, haystack: Seq<char>) -> Option<bool>;

/// `regex::Regex::new` on `pattern`, then `regex::Regex::is_match` on
/// `haystack`. The result is taken to depend on the two texts alone;
/// nothing is claimed about which texts match. An error of `Regex::new`
/// becomes `None`.
#[verifier::external_body]
fn search(pattern: &str, haystack: &str) -> (found: Option<bool>)
    ensures
        found == regex_search(pattern@, haystack@),
{
    match regex::Regex::new(pattern) {
        Ok(compiled) => Some(compiled.is_match(haystack)),
        Err(_) => None,
    }
}

/// Whether one of the patterns is a regular expression that matches in `name`.
pub open spec fn matches_any(patterns: Seq<&'static str>, name: Seq<char>) -> bool {
    exists|i: int|
        0 <= i < patterns.len() && regex_search((#[trigger] patterns[i])@, name) == Some(true)
}

/// Whether one of the outcomes is a match.
pub open spec fn any_match(hits: Seq<Option<bool>>) -> bool {
    exists|i: int| 0 <= i < hits.len() && #[trigger] hits[i] == Some(true)
}

/// Searches `name` with each pattern in turn.
pub fn pattern_hits(patterns: &Vec<&'static str>, name: &str) -> (hits: Vec<Option<bool>>)
    ensures
        hits@.len() == patterns@.len(),
        forall|i: int|
            0 <= i < hits@.len() ==> #[trigger] hits@[i] == regex_search(patterns@[i]@, name@),
        any_match(hits@) == matches_any(patterns@, name@),
{
    let mut hits: Vec<Option<bool>> = Vec::new();
    let mut i: usize = 0;
    while i < patterns.len()
        invariant
            i <= patterns.len(),
            hits@.len() == i,
            forall|k: int| 0 <= k < i ==> #[trigger] hits@[k] == regex_search(patterns@[k]@, name@),
        decreases patterns.len() - i,
    {
        hits.push(search(patterns[i], name));
        i += 1;
    }
    proof {
        if any_match(hits@) {
            let k = choose|k: int| 0 <= k < hits@.len() && #[trigger] hits@[k] == Some(true);
            assert(regex_search(patterns@[k]@, name@) == Some(true));
        }
        if matches_any(patterns@, name@) {
            let k = choose|k: int|
                0 <= k < patterns@.len() && regex_search((#[trigger] patterns@[k])@, name@) == Some(
                    true,
                );
            assert(hits@[k] == Some(true));
        }
    }
    hits
}

/// Whether one of the outcomes of a search is a match. A pattern that the
/// engine did not accept counts as no match.
pub fn any_hit(hits: &Vec<Option<bool>>) -> (b: bool)
    ensures
        b == any_match(hits@),
{
    let mut i: usize = 0;
    while i < hits.len()
        invariant
            i <= hits.len(),
            forall|k: int| 0 <= k < i ==> #[trigger] hits@[k] != Some(true),
        decreases hits.len() - i,
    {
        match hits[i] {
            Some(true) => {
                return true;
            },
            _ => {},
        }
        i += 1;
    }
    false
}

} // verus!
