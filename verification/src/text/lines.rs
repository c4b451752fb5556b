//! Splitting of a text into its lines.

use vstd::prelude::*;
use vstd::string::StrSliceExecFns;

verus! {

/// `line` without a carriage return at its end.
pub open spec fn without_carriage_return(line: Seq<char>) -> Seq<char> {
    if line.len() > 0 && line.last() == '\r' {
        line.drop_last()
    } else {
        line
    }
}

/// The lines of `s`. A line ends at a line feed, or at a carriage return and
/// the line feed behind it; neither belongs to the line. What follows the
/// last line feed is a line of its own unless it is empty.
pub open spec fn lines_of(s: Seq<char>) -> Seq<Seq<char>>
    decreases s.len(),
{
    if s.len() == 0 {
        Seq::empty()
    } else {
        match s.index_of_first('\n') {
            Some(k) => {
                proof {
                    s.index_of_first_ensures('\n');
                }
                seq![without_carriage_return(s.take(k))] + lines_of(s.skip(k + 1))
            },
            None => seq![s],
        }
    }
}

/// Where the first line feed of `s` stands at `k`, the first line is what
/// precedes it and the other lines are those of what follows it.
pub proof fn lemma_lines_split_at(s: Seq<char>, k: int)
    requires
        0 <= k < s.len(),
        s[k] == '\n',
        forall|i: int| 0 <= i < k ==> #[trigger] s[i] != '\n',
    ensures
        lines_of(s) == seq![without_carriage_return(s.take(k))] + lines_of(s.skip(k + 1)),
{
    s.index_of_first_ensures('\n');
}

/// A text without a line feed is its own single line, or no line at all
/// where it is empty.
pub proof fn lemma_lines_of_last(s: Seq<char>)
    requires
        forall|i: int| 0 <= i < s.len() ==> #[trigger] s[i] != '\n',
    ensures
        lines_of(s) == if s.len() == 0 {
            Seq::<Seq<char>>::empty()
        } else {
            seq![s]
        },
{
    s.index_of_first_ensures('\n');
}

/// Splits `s` into its lines.
pub fn lines<'a>(s: &'a str) -> (r: Vec<&'a str>)
    ensures
        r.deep_view() == lines_of(s@),
{
    let total = s.unicode_len();
    let mut out: Vec<&'a str> = Vec::new();
    let mut line_start: usize = 0;
    let mut after_cr = false;
    let mut i: usize = 0;
    assert(s@.skip(0) =~= s@);
    for c in it: s.chars()
        invariant
            it.seq() == s@,
            total == s@.len(),
            i == it.index(),
            line_start <= i,
            forall|j: int| line_start <= j < i ==> #[trigger] s@[j] != '\n',
            after_cr == (line_start < i && s@[i - 1] == '\r'),
            lines_of(s@) == out.deep_view() + lines_of(s@.skip(line_start as int)),
    {
        if c == '\n' {
            let line_end = if after_cr {
                i - 1
            } else {
                i
            };
            let line = s.substring_char(line_start, line_end);
            proof {
                let rest = s@.skip(line_start as int);
                let k = i - line_start;
                lemma_lines_split_at(rest, k);
                assert(rest.skip(k + 1) =~= s@.skip(i + 1));
                assert(without_carriage_return(rest.take(k)) =~= line@);
            }
            out.push(line);
            line_start = i + 1;
            after_cr = false;
        } else {
            after_cr = c == '\r';
        }
        i = i + 1;
    }
    proof {
        lemma_lines_of_last(s@.skip(line_start as int));
    }
    if line_start < total {
        out.push(s.substring_char(line_start, total));
    }
    out
}

} // verus!
