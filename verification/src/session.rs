//! The per-line policy of one filtering session: the first recognised tag
//! becomes a box, every other line passes through.

use vstd::prelude::*;
use vstd::string::StringExecFns;
use crate::emotion::Emotion;
use crate::render::{emotion_box, format_emotion_box};
use crate::tag::{opens_with_bracket, parse_emotion_tag, parsed_tag, tag_word};
use crate::text::case::lowercase_of;

verus! {

/// What one line becomes, and whether a tag has been consumed afterwards.
/// Once a tag has been consumed every line is kept as it is. Before that, a
/// line with a recognised tag becomes the emotion's box followed by the rest
/// of the line, and any other line is kept.
pub open spec fn processed(line: Seq<char>, consumed: bool) -> (Seq<char>, bool) {
    if consumed {
        (line, true)
    } else {
        match parsed_tag(line) {
            Some((emotion, rest)) => (emotion_box(emotion) + rest, true),
            None => (line, false),
        }
    }
}

/// Processes one line of a session. `emotion_displayed` is the session's
/// flag: the caller starts it at `false` and hands it to every call.
pub fn process_line(line: &str, emotion_displayed: &mut bool) -> (r: String)
    ensures
        (r@, *final(emotion_displayed)) == processed(line@, *old(emotion_displayed)),
{
    if !*emotion_displayed {
        if let Some((emotion, rest)) = parse_emotion_tag(line) {
            *emotion_displayed = true;
            return format_emotion_box(&emotion).concat(rest.as_str());
        }
    }
    line.to_owned()
}

/// What a session writes for `lines`, read in order, when it starts with the
/// flag at `consumed`.
pub open spec fn session_outputs(lines: Seq<Seq<char>>, consumed: bool) -> Seq<Seq<char>>
    decreases lines.len(),
{
    if lines.len() == 0 {
        Seq::empty()
    } else {
        let (output, next) = processed(lines.first(), consumed);
        seq![output] + session_outputs(lines.drop_first(), next)
    }
}

/// A line is kept as it is, and the flag with it, where it does not start
/// with an opening bracket, the pattern does not match it, or the bracketed
/// word names no emotion. The empty line is such a line.
pub proof fn lemma_unrecognised_line_is_kept(line: Seq<char>, consumed: bool)
    requires
        !opens_with_bracket(line) || match tag_word(line) {
            Some(word) => Emotion::named(lowercase_of(word)) is None,
            None => true,
        },
    ensures
        parsed_tag(line) is None,
        processed(line, consumed) == (line, consumed),
{
}

/// The flag never goes back: once a tag has been consumed it stays so.
pub proof fn lemma_flag_is_monotone(line: Seq<char>, consumed: bool)
    ensures
        consumed ==> processed(line, consumed).1,
        processed(line, consumed).1 == (consumed || parsed_tag(line) is Some),
{
}

/// After a tag has been consumed every line passes through unchanged,
/// whatever it holds, however many follow.
pub proof fn lemma_consumed_session_passes_through(lines: Seq<Seq<char>>)
    ensures
        forall|line: Seq<char>| #[trigger] processed(line, true) == (line, true),
        session_outputs(lines, true) == lines,
    decreases lines.len(),
{
    if lines.len() > 0 {
        lemma_consumed_session_passes_through(lines.drop_first());
    }
}

/// A session without any recognised tag writes its lines unchanged.
pub proof fn lemma_untagged_session_passes_through(lines: Seq<Seq<char>>)
    requires
        forall|i: int| 0 <= i < lines.len() ==> parsed_tag(#[trigger] lines[i]) is None,
    ensures
        session_outputs(lines, false) == lines,
    decreases lines.len(),
{
    if lines.len() > 0 {
        lemma_untagged_session_passes_through(lines.drop_first());
    }
}

/// Exactly one box is rendered in a session: where line `k` is the first
/// with a recognised tag, it alone is rewritten, to the box and the rest of
/// the line, and every other line is written as it was read.
pub proof fn lemma_one_box_per_session(lines: Seq<Seq<char>>, k: int)
    requires
        0 <= k < lines.len(),
        parsed_tag(lines[k]) is Some,
        forall|i: int| 0 <= i < k ==> parsed_tag(#[trigger] lines[i]) is None,
    ensures
        session_outputs(lines, false).len() == lines.len(),
        parsed_tag(lines[k]) matches Some((emotion, rest)) && session_outputs(lines, false)[k]
            == emotion_box(emotion) + rest,
        forall|i: int|
            0 <= i < lines.len() && i != k ==> #[trigger] session_outputs(lines, false)[i]
                == lines[i],
    decreases lines.len(),
{
    if k == 0 {
        lemma_consumed_session_passes_through(lines.drop_first());
    } else {
        lemma_one_box_per_session(lines.drop_first(), k - 1);
    }
}

} // verus!
