//! Regular expressions, matched by the `regex` crate.
//!
//! What a pattern matches takes the regex crate's documentation to state, so
//! its results are named here (`regex_accepts`, `regex_captures`,
//! `regex_captures_all`) and the functions that read them are stated over
//! those names.

use vstd::prelude::*;

verus! {

#[verifier::external_type_specification]
#[verifier::external_body]
pub struct ExRegex(regex::Regex);

#[verifier::external_type_specification]
#[verifier::external_body]
pub struct ExRegexError(regex::Error);

/// Whether `regex::Regex::new` compiles `pattern` (it refuses invalid
/// syntax and programs over its default size limit).
pub uninterp spec fn regex_accepts(pattern: Seq<char>) -> bool;

/// The capture groups of the leftmost-first match of `pattern` in
/// `haystack`, as `regex::Regex::captures` finds them: `None` without a
/// match, else one entry per group (group 0 is the whole match), each the
/// matched text or `None` when the group took no part in the match.
pub uninterp spec fn regex_captures(pattern: Seq<char>, haystack: Seq<char>) -> Option<
    Seq<Option<Seq<char>>>,
>;

/// The capture groups of each successive non-overlapping match of
/// `pattern` in `haystack`, as `regex::Regex::captures_iter` yields them.
pub uninterp spec fn regex_captures_all(pattern: Seq<char>, haystack: Seq<char>) -> Seq<
    Seq<Option<Seq<char>>>,
>;

/// A compiled regular expression together with its source text.
pub struct Pattern {
    regex: regex::Regex,
    source: String,
}

impl View for Pattern {
    type V = Seq<char>;

    closed spec fn view(&self) -> Seq<char> {
        self.source@
    }
}

/// The text of each capture group, by view.
pub open spec fn groups_view(groups: Vec<Option<String>>) -> Seq<Option<Seq<char>>> {
    groups@.map_values(
        |g: Option<String>|
            match g {
                Some(t) => Some(t@),
                None => None,
            },
    )
}

/// The capture groups of a match, by view.
pub open spec fn captures_view(c: Option<Vec<Option<String>>>) -> Option<Seq<Option<Seq<char>>>> {
    match c {
        Some(groups) => Some(groups_view(groups)),
        None => None,
    }
}

/// Compiles `source` with `regex::Regex::new`. Claimed: it succeeds exactly
/// when the regex crate accepts the pattern, and the result remembers its
/// source.
#[verifier::external_body]
pub(crate) fn compile(source: &str) -> (r: Result<Pattern, regex::Error>)
    ensures
        r is Ok <==> regex_accepts(source@),
        r matches Ok(p) ==> p@ == source@,
{
    match regex::Regex::new(source) {
        Ok(regex) => Ok(Pattern { regex, source: source.to_owned() }),
        Err(e) => Err(e),
    }
}

/// The capture groups of the leftmost-first match (`regex::Regex::captures`).
/// Claimed: the groups are those that the regex crate finds for this
/// pattern and haystack.
#[verifier::external_body]
pub(crate) fn captures(p: &Pattern, haystack: &str) -> (r: Option<Vec<Option<String>>>)
    ensures
        captures_view(r) == regex_captures(p@, haystack@),
{
    p.regex.captures(haystack).map(
        |c| c.iter().map(|m| m.map(|m| m.as_str().to_owned())).collect(),
    )
}

/// The capture groups of every successive non-overlapping match
/// (`regex::Regex::captures_iter`). Claimed: they are those that the regex
/// crate yields for this pattern and haystack, in order.
#[verifier::external_body]
pub(crate) fn captures_all(p: &Pattern, haystack: &str) -> (r: Vec<Vec<Option<String>>>)
    ensures
        r@.map_values(|g: Vec<Option<String>>| groups_view(g)) == regex_captures_all(
            p@,
            haystack@,
        ),
{
    p.regex.captures_iter(haystack).map(
        |c| c.iter().map(|m| m.map(|m| m.as_str().to_owned())).collect(),
    ).collect()
}

/// Group `i` of a match: its text when the match exists and the group took
/// part in it.
pub open spec fn group_spec(c: Option<Seq<Option<Seq<char>>>>, i: int) -> Option<Seq<char>> {
    match c {
        Some(groups) => if 0 <= i < groups.len() {
            groups[i]
        } else {
            None
        },
        None => None,
    }
}

/// Group `i` of one match's groups.
pub fn group_in(groups: &Vec<Option<String>>, i: usize) -> (r: Option<String>)
    ensures
        r matches Some(t) ==> group_spec(Some(groups_view(*groups)), i as int) == Some(t@),
        r is None ==> group_spec(Some(groups_view(*groups)), i as int) is None,
{
    if i < groups.len() {
        match &groups[i] {
            Some(t) => Some(t.clone()),
            None => None,
        }
    } else {
        None
    }
}

/// Group `i` of a match found by `captures`.
pub fn group(c: &Option<Vec<Option<String>>>, i: usize) -> (r: Option<String>)
    ensures
        r matches Some(t) ==> group_spec(captures_view(*c), i as int) == Some(t@),
        r is None ==> group_spec(captures_view(*c), i as int) is None,
{
    match c {
        Some(groups) => group_in(groups, i),
        None => None,
    }
}

} // verus!
