//! Lower-casing of text.

use vstd::prelude::*;

verus! {

/// The lower-case form of `s`, as `str::to_lowercase` computes it by the
/// rules of Unicode.
pub uninterp spec fn lowercase_of(s: Seq<char>) -> Seq<char>;

/// `str::to_lowercase` returns the lower-case form of its argument. Nothing
/// is claimed of the mapping itself; the result is only given its name.
pub assume_specification[ str::to_lowercase ](s: &str) -> (r: String)
    ensures
        r@ == lowercase_of(s@),
;

} // verus!
