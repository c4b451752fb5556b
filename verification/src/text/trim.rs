//! White space and its removal from the two ends of a text.

use vstd::prelude::*;
use vstd::string::StrSliceExecFns;

verus! {

/// Whether `c` is white space: one of the code points with the Unicode
/// property `White_Space`.
pub open spec fn white_space(c: char) -> bool {
    let n = c as u32;
    ||| 0x09 <= n <= 0x0D
    ||| n == 0x20
    ||| n == 0x85
    ||| n == 0xA0
    ||| n == 0x1680
    ||| 0x2000 <= n <= 0x200A
    ||| n == 0x2028
    ||| n == 0x2029
    ||| n == 0x202F
    ||| n == 0x205F
    ||| n == 0x3000
}

/// `s` without its leading white space.
pub open spec fn trim_start(s: Seq<char>) -> Seq<char>
    decreases s.len(),
{
    if s.len() > 0 && white_space(s.first()) {
        trim_start(s.drop_first())
    } else {
        s
    }
}

/// `s` without its trailing white space.
pub open spec fn trim_end(s: Seq<char>) -> Seq<char>
    decreases s.len(),
{
    if s.len() > 0 && white_space(s.last()) {
        trim_end(s.drop_last())
    } else {
        s
    }
}

/// `s` without its leading and trailing white space.
pub open spec fn trimmed(s: Seq<char>) -> Seq<char> {
    trim_end(trim_start(s))
}

/// Trimming at the start cuts at the first character that is no white space.
pub proof fn lemma_trim_start_cuts_at(s: Seq<char>, start: int)
    requires
        0 <= start <= s.len(),
        forall|i: int| 0 <= i < start ==> white_space(#[trigger] s[i]),
        start < s.len() ==> !white_space(s[start]),
    ensures
        trim_start(s) == s.subrange(start, s.len() as int),
    decreases start,
{
    if start > 0 {
        lemma_trim_start_cuts_at(s.drop_first(), start - 1);
    }
}

/// Trimming at the end cuts behind the last character that is no white space.
pub proof fn lemma_trim_end_cuts_at(s: Seq<char>, end: int)
    requires
        0 <= end <= s.len(),
        forall|i: int| end <= i < s.len() ==> white_space(#[trigger] s[i]),
        0 < end ==> !white_space(s[end - 1]),
    ensures
        trim_end(s) == s.subrange(0, end),
    decreases s.len() - end,
{
    if end < s.len() {
        lemma_trim_end_cuts_at(s.drop_last(), end);
    }
}

/// Tells whether `c` is white space.
#[verifier::when_used_as_spec(white_space)]
pub fn is_whitespace(c: char) -> (r: bool)
    ensures
        r == white_space(c),
{
    let n: u32 = c as u32;
    (0x09 <= n && n <= 0x0D) || n == 0x20 || n == 0x85 || n == 0xA0 || n == 0x1680 || (0x2000 <= n
        && n <= 0x200A) || n == 0x2028 || n == 0x2029 || n == 0x202F || n == 0x205F || n == 0x3000
}

/// Returns `s` without its leading and trailing white space.
pub fn trim<'a>(s: &'a str) -> (r: &'a str)
    ensures
        r@ == trimmed(s@),
{
    let total = s.unicode_len();
    let mut start: usize = 0;
    let mut end: usize = 0;
    let mut found = false;
    let mut i: usize = 0;
    for c in it: s.chars()
        invariant
            it.seq() == s@,
            total == s@.len(),
            i == it.index(),
            !found ==> forall|j: int| 0 <= j < i ==> white_space(#[trigger] s@[j]),
            found ==> {
                &&& start < end <= i
                &&& !white_space(s@[start as int])
                &&& !white_space(s@[end - 1])
                &&& forall|j: int| 0 <= j < start ==> white_space(#[trigger] s@[j])
                &&& forall|j: int| end <= j < i ==> white_space(#[trigger] s@[j])
            },
    {
        if !is_whitespace(c) {
            if !found {
                start = i;
                found = true;
            }
            end = i + 1;
        }
        i = i + 1;
    }
    if !found {
        start = total;
        end = total;
    }
    proof {
        lemma_trim_start_cuts_at(s@, start as int);
        lemma_trim_end_cuts_at(s@.subrange(start as int, total as int), end - start);
    }
    s.substring_char(start, end)
}

} // verus!
