//! Regular expressions, matched by the `regex` crate.

use regex::Regex;
use vstd::prelude::*;

verus! {

/// What the capture groups of the first match of the regular
/// expression `pattern` in `text` hold: for each group, from the whole
/// match on, the text that it matched, if it took part in the match.
/// `None` where the pattern matches nowhere in the text, or is no
/// regular expression.
pub uninterp spec fn first_match(pattern: Seq<char>, text: Seq<char>) -> Option<
    Seq<Option<Seq<char>>>,
>;

/// The groups of a match as text.
pub open spec fn groups_text(groups: Option<Vec<Option<String>>>) -> Option<
    Seq<Option<Seq<char>>>,
> {
    match groups {
        Some(g) => Some(Seq::new(g@.len(), |i: int| crate::text::opt_text(g@[i]))),
        None => None,
    }
}

/// What the group at position `i` of a match holds, if there is a
/// match, it has such a group, and the group took part in the match.
pub open spec fn group_at(groups: Option<Seq<Option<Seq<char>>>>, i: int) -> Option<Seq<char>> {
    match groups {
        Some(g) => if 0 <= i < g.len() {
            g[i]
        } else {
            None
        },
        None => None,
    }
}

/// Compiles `pattern` with `Regex::new` and searches `text` with
/// `Regex::captures`. The result holds, for each capture group of the
/// first match, the text that `Match::as_str` gives for it. Nothing is
/// claimed of which text matches: the result is named, not described.
#[verifier::external_body]
pub(crate) fn captures(pattern: &str, text: &str) -> (r: Option<Vec<Option<String>>>)
    ensures
        groups_text(r) == first_match(pattern@, text@),
{
    let re = Regex::new(pattern).ok()?;
    let caps = re.captures(text)?;
    Some(caps.iter().map(|m| m.map(|m| m.as_str().to_string())).collect())
}

/// The text of the group at position `i` of a match.
pub fn group(groups: &Option<Vec<Option<String>>>, i: usize) -> (r: Option<&str>)
    ensures
        match r {
            Some(s) => group_at(groups_text(*groups), i as int) == Some(s@),
            None => group_at(groups_text(*groups), i as int) is None,
        },
{
    match groups {
        Some(g) => {
            if i < g.len() {
                match &g[i] {
                    Some(s) => Some(s.as_str()),
                    None => None,
                }
            } else {
                None
            }
        },
        None => None,
    }
}

} // verus!
