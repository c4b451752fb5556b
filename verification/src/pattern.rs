//! The calls into the regular-expression engine, and what is taken on
//! trust of them.

use vstd::prelude::*;

verus! {

/// Where capture group `group` of the regular expression `pattern` matched
/// in the first match within `haystack`: the position of its first character
/// and the position behind its last, both counted in characters. `None`
/// where `pattern` is no valid expression, nothing matches, or the group took
/// no part in the match.
pub uninterp spec fn group_span(pattern: Seq<char>, haystack: Seq<char>, group: nat) -> Option<
    (int, int),
>;

/// Where the first match of the regular expression `pattern` lies in
/// `haystack`, as the stretch that a replacement rewrites: the position of
/// its first character and the position behind its last, both counted in
/// characters. `None` where `pattern` is no valid expression or nothing
/// matches.
pub uninterp spec fn first_match_span(pattern: Seq<char>, haystack: Seq<char>) -> Option<
    (int, int),
>;

/// Compiles `pattern` with `regex::Regex::new`, searches `haystack` with
/// `Regex::captures` and copies out what `Captures::get(group)` matched, as
/// `Match::as_str` gives it: the stretch of the haystack between the two ends
/// of the group's match. Which stretch that is, is only named.
#[verifier::external_body]
pub(crate) fn capture(pattern: &str, haystack: &str, group: usize) -> (r: Option<String>)
    ensures
        match r {
            Some(text) => {
                &&& group_span(pattern@, haystack@, group as nat) matches Some((start, end))
                &&& 0 <= start <= end <= haystack@.len()
                &&& text@ == haystack@.subrange(start, end)
            },
            None => group_span(pattern@, haystack@, group as nat) is None,
        },
{
    let re = regex::Regex::new(pattern).ok()?;
    let caps = re.captures(haystack)?;
    Some(caps.get(group)?.as_str().to_string())
}

/// Compiles `pattern` with `regex::Regex::new` and rewrites `haystack` with
/// `Regex::replace`, which copies the haystack with `replacement` in the
/// place of the first match, and copies it unchanged where nothing matches.
/// Which stretch the first match is, is only named. A replacement with a
/// dollar sign would be expanded, so it is left out. A pattern that does not
/// compile matches nothing.
#[verifier::external_body]
pub(crate) fn replace_first(pattern: &str, haystack: &str, replacement: &str) -> (r: String)
    requires
        !replacement@.contains('$'),
    ensures
        match first_match_span(pattern@, haystack@) {
            Some((start, end)) => {
                &&& 0 <= start <= end <= haystack@.len()
                &&& r@ == haystack@.take(start) + replacement@ + haystack@.skip(end)
            },
            None => r@ == haystack@,
        },
{
    match regex::Regex::new(pattern) {
        Ok(re) => re.replace(haystack, replacement).into_owned(),
        Err(_) => haystack.to_string(),
    }
}

} // verus!
