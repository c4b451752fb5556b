//! The lines that hook the filter into a shell's start-up file.

use vstd::prelude::*;
use vstd::string::StringExecFns;
use crate::text::search::{contains, contains_text, occurs_at};

verus! {

/// What is appended to a start-up file: an empty line, the marker comment
/// and the line that loads the shell functions.
pub open spec fn integration_block(marker: Seq<char>, source_line: Seq<char>) -> Seq<char> {
    "\n"@ + marker + "\n"@ + source_line + "\n"@
}

/// The new content of a start-up file that is not set up yet; `None` for one
/// that is, which shows in that it holds the marker somewhere.
pub open spec fn integrated(content: Seq<char>, marker: Seq<char>, source_line: Seq<char>) -> Option<
    Seq<char>,
> {
    if contains_text(content, marker) {
        None
    } else {
        Some(content + integration_block(marker, source_line))
    }
}

/// Returns what a start-up file with `content` has to be rewritten to, or
/// `None` where it holds `marker` already and needs no change.
pub fn shell_config_update(content: &str, marker: &str, source_line: &str) -> (r: Option<String>)
    ensures
        match r {
            Some(updated) => integrated(content@, marker@, source_line@) == Some(updated@),
            None => integrated(content@, marker@, source_line@) is None,
        },
{
    if contains(content, marker) {
        None
    } else {
        let mut updated = content.to_owned();
        updated.append("\n");
        updated.append(marker);
        updated.append("\n");
        updated.append(source_line);
        updated.append("\n");
        Some(updated)
    }
}

/// Setting up is idempotent: a file that has been rewritten holds the
/// marker, so it is never rewritten again.
pub proof fn lemma_integration_is_idempotent(
    content: Seq<char>,
    marker: Seq<char>,
    source_line: Seq<char>,
)
    ensures
        contains_text(content + integration_block(marker, source_line), marker),
        integrated(content, marker, source_line) matches Some(updated) ==> integrated(
            updated,
            marker,
            source_line,
        ) is None,
{
    reveal_strlit("\n");
    let updated = content + integration_block(marker, source_line);
    let at = (content.len() + 1) as int;
    assert(updated.subrange(at, at + marker.len()) =~= marker);
    assert(occurs_at(updated, marker, at));
}

} // verus!
