//! Widening of a text to a column width with spaces.

use vstd::prelude::*;
use vstd::string::StrSliceExecFns;
use vstd::string::StringExecFns;

verus! {

/// `n` spaces.
pub open spec fn spaces(n: nat) -> Seq<char> {
    Seq::new(n, |i: int| ' ')
}

/// The number of spaces that widen a text of `len` characters to `width`.
pub open spec fn fill(len: nat, width: nat) -> nat {
    if len < width {
        (width - len) as nat
    } else {
        0
    }
}

/// `s` followed by the spaces that widen it to `width` characters. A text
/// that is wider already stays as it is.
pub open spec fn left_aligned(s: Seq<char>, width: nat) -> Seq<char> {
    s + spaces(fill(s.len(), width))
}

/// `s` between the spaces that widen it to `width` characters: half of them
/// in front, rounded down, and the others behind. A text that is wider
/// already stays as it is.
pub open spec fn centered(s: Seq<char>, width: nat) -> Seq<char> {
    let gap = fill(s.len(), width);
    spaces(gap / 2) + s + spaces((gap - gap / 2) as nat)
}

/// Appends `n` spaces to `out`.
pub fn push_spaces(out: &mut String, n: usize)
    ensures
        final(out)@ == old(out)@ + spaces(n as nat),
{
    proof {
        reveal_strlit(" ");
    }
    let mut i: usize = 0;
    while i < n
        invariant
            i <= n,
            " "@ == seq![' '],
            out@ == old(out)@ + spaces(i as nat),
        decreases n - i,
    {
        out.append(" ");
        i = i + 1;
    }
}

/// Appends `s` to `out`, widened to `width` characters by spaces behind it.
pub fn push_left_aligned(out: &mut String, s: &str, width: usize)
    ensures
        final(out)@ == old(out)@ + left_aligned(s@, width as nat),
{
    let len = s.unicode_len();
    let gap = if len < width {
        width - len
    } else {
        0
    };
    out.append(s);
    push_spaces(out, gap);
}

/// Appends `s` to `out`, widened to `width` characters by spaces on both
/// sides.
pub fn push_centered(out: &mut String, s: &str, width: usize)
    ensures
        final(out)@ == old(out)@ + centered(s@, width as nat),
{
    let len = s.unicode_len();
    let gap = if len < width {
        width - len
    } else {
        0
    };
    let front = gap / 2;
    push_spaces(out, front);
    out.append(s);
    push_spaces(out, gap - front);
}

} // verus!
