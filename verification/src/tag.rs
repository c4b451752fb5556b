//! Detection of a leading emotion tag on one line of text.

use vstd::prelude::*;
use vstd::string::StrSliceExecFns;
use crate::emotion::Emotion;
use crate::pattern::{capture, first_match_span, group_span, replace_first};
use crate::text::case::lowercase_of;

verus! {

/// The tag pattern: at the start of the line an opening bracket, one or more
/// word characters, a closing bracket, then any run of white space.
pub const TAG_PATTERN: &'static str = r"^\[(\w+)\]\s*";

/// Whether `line` starts with an opening bracket, as every tag does.
pub open spec fn opens_with_bracket(line: Seq<char>) -> bool {
    line.len() > 0 && line.first() == '['
}

/// What the group of the pattern captured in `line`: the word between the
/// brackets. `None` where the pattern does not match the line.
pub open spec fn tag_word(line: Seq<char>) -> Option<Seq<char>> {
    match group_span(TAG_PATTERN@, line, 1) {
        Some((start, end)) => Some(line.subrange(start, end)),
        None => None,
    }
}

/// `line` without the stretch that the pattern matched in it; the whole
/// line where it matched nothing.
pub open spec fn without_tag(line: Seq<char>) -> Seq<char> {
    match first_match_span(TAG_PATTERN@, line) {
        Some((start, end)) => line.take(start) + line.skip(end),
        None => line,
    }
}

/// What a line parses to: the emotion that the word of its tag names,
/// whatever the case of its letters, and the line without the tag; `None`
/// where the line does not start with an opening bracket, the pattern does
/// not match it, or the word names no emotion.
pub open spec fn parsed_tag(line: Seq<char>) -> Option<(Emotion, Seq<char>)> {
    if !opens_with_bracket(line) {
        None
    } else {
        match tag_word(line) {
            Some(word) => match Emotion::named(lowercase_of(word)) {
                Some(emotion) => Some((emotion, without_tag(line))),
                None => None,
            },
            None => None,
        }
    }
}

/// A line parses to `emotion` and `rest` exactly where it starts with an
/// opening bracket, the pattern matches it, the lower-cased word of the tag
/// is the emotion's identifier, and `rest` is the line without the tag.
pub proof fn lemma_tag_is_recognised_exactly(line: Seq<char>, emotion: Emotion, rest: Seq<char>)
    ensures
        parsed_tag(line) == Some((emotion, rest)) <==> {
            &&& opens_with_bracket(line)
            &&& tag_word(line) matches Some(word)
            &&& lowercase_of(word) == emotion.name()
            &&& rest == without_tag(line)
        },
{
    if let Some(word) = tag_word(line) {
        Emotion::lemma_named_inverts_name(lowercase_of(word), emotion);
    }
}

/// Splits a leading emotion tag from `line`: returns the emotion that the
/// tag names and the line without the tag, or `None` where the line starts
/// with no tag that names an emotion. Whatever is returned as the rest is
/// the line with one stretch taken out and nothing else changed.
///
/// A line that does not start with an opening bracket is answered at once.
/// For any other line the pattern is compiled and matched, anew on every
/// call.
pub fn parse_emotion_tag(line: &str) -> (r: Option<(Emotion, String)>)
    ensures
        match r {
            Some((emotion, rest)) => parsed_tag(line@) == Some((emotion, rest@)),
            None => parsed_tag(line@) is None,
        },
        r matches Some((_, rest)) ==> exists|start: int, end: int|
            #![trigger line@.take(start), line@.skip(end)]
            0 <= start <= end <= line@.len() && rest@ == line@.take(start) + line@.skip(end),
{
    if line.is_empty() || line.get_char(0) != '[' {
        return None;
    }
    match capture(TAG_PATTERN, line, 1) {
        Some(word) => match Emotion::from_str(word.as_str()) {
            Some(emotion) => {
                proof {
                    reveal_strlit("");
                }
                let rest = replace_first(TAG_PATTERN, line, "");
                proof {
                    if first_match_span(TAG_PATTERN@, line@) is None {
                        assert(rest@ =~= line@.take(0) + line@.skip(0));
                    }
                }
                Some((emotion, rest))
            },
            None => None,
        },
        None => None,
    }
}

} // verus!
