//! The framed box that shows an emotion's title above its art.

use vstd::prelude::*;
use vstd::string::StringExecFns;
use crate::emotion::Emotion;
use crate::text::lines::{lines, lines_of};
use crate::text::pad::{centered, left_aligned, push_centered, push_left_aligned};
use crate::text::trim::{trim, trimmed};

verus! {

/// The number of characters between the two sides of the box.
pub const BOX_WIDTH: usize = 21;

/// The upper edge of the box.
pub const TOP_BORDER: &'static str = "╭─────────────────────╮\n";

/// The rule between the title and the art.
pub const SEPARATOR: &'static str = "├─────────────────────┤\n";

/// The lower edge of the box.
pub const BOTTOM_BORDER: &'static str = "╰─────────────────────╯\n";

/// `content` between the two sides of the box, as one row.
pub open spec fn framed(content: Seq<char>) -> Seq<char> {
    "│"@ + content + "│\n"@
}

/// The row that shows `title` in the middle of the box.
pub open spec fn title_row(title: Seq<char>) -> Seq<char> {
    framed(centered(title, BOX_WIDTH as nat))
}

/// The row that shows one line of art at the left of the box.
pub open spec fn art_row(line: Seq<char>) -> Seq<char> {
    framed(left_aligned(line, BOX_WIDTH as nat))
}

/// The rows of the art block: one for each line of the trimmed art.
pub open spec fn art_rows(art: Seq<char>) -> Seq<char> {
    lines_of(trimmed(art)).map_values(|line: Seq<char>| art_row(line)).flatten()
}

/// The box for a title and an art block: the upper edge, the title row, the
/// rule, the rows of art, the lower edge and an empty line.
pub open spec fn box_text(title: Seq<char>, art: Seq<char>) -> Seq<char> {
    TOP_BORDER@ + title_row(title) + SEPARATOR@ + art_rows(art) + BOTTOM_BORDER@ + "\n"@
}

/// The box of `emotion`: its title above its art.
pub open spec fn emotion_box(emotion: Emotion) -> Seq<char> {
    box_text(emotion.title_text(), emotion.art_text())
}

/// A row is never cut: a text that fits between the sides gives a row as
/// wide as the edges of the box, a wider one gives a wider row, and either
/// way the text stands in the row whole, right behind the left side.
pub proof fn lemma_row_holds_line(line: Seq<char>)
    ensures
        TOP_BORDER@.len() == BOX_WIDTH + 3,
        SEPARATOR@.len() == BOX_WIDTH + 3,
        BOTTOM_BORDER@.len() == BOX_WIDTH + 3,
        line.len() <= BOX_WIDTH ==> art_row(line).len() == BOX_WIDTH + 3,
        line.len() <= BOX_WIDTH ==> title_row(line).len() == BOX_WIDTH + 3,
        line.len() > BOX_WIDTH ==> art_row(line) == framed(line),
        line.len() > BOX_WIDTH ==> title_row(line) == framed(line),
        art_row(line).skip(1).take(line.len() as int) == line,
{
    reveal_strlit("╭─────────────────────╮\n");
    reveal_strlit("├─────────────────────┤\n");
    reveal_strlit("╰─────────────────────╯\n");
    reveal_strlit("│");
    reveal_strlit("│\n");
}

/// Renders the box of `emotion`.
pub fn format_emotion_box(emotion: &Emotion) -> (r: String)
    ensures
        r@ == emotion_box(*emotion),
{
    let title = emotion.title();
    let art = emotion.art();
    let mut out = String::new();
    out.append(TOP_BORDER);
    out.append("│");
    push_centered(&mut out, title, BOX_WIDTH);
    out.append("│\n");
    out.append(SEPARATOR);
    let ghost head = TOP_BORDER@ + title_row(title@) + SEPARATOR@;
    let art_lines = lines(trim(art));
    let ghost all = lines_of(trimmed(art@));
    let ghost row = |line: Seq<char>| art_row(line);
    let mut i: usize = 0;
    while i < art_lines.len()
        invariant
            i <= art_lines.len(),
            art_lines.deep_view() == all,
            row == |line: Seq<char>| art_row(line),
            out@ == head + all.take(i as int).map_values(row).flatten(),
        decreases art_lines.len() - i,
    {
        let line = art_lines[i];
        out.append("│");
        push_left_aligned(&mut out, line, BOX_WIDTH);
        out.append("│\n");
        proof {
            let done = all.take(i as int).map_values(row);
            assert(all.take(i + 1).map_values(row) =~= done.push(art_row(line@)));
            done.lemma_flatten_push(art_row(line@));
        }
        i = i + 1;
    }
    assert(all.take(i as int) =~= all);
    out.append(BOTTOM_BORDER);
    out.append("\n");
    out
}

} // verus!
