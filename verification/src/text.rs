//! Small helpers on texts.

use vstd::prelude::*;

verus! {

/// `String::push_str` appends a string slice to the end of a string.
pub assume_specification[ String::push_str ](text: &mut String, piece: &str)
    ensures
        final(text)@ == old(text)@ + piece@,
;

/// A text without the white space at its two ends, as `str::trim` gives
/// it.
pub uninterp spec fn trimmed(text: Seq<char>) -> Seq<char>;

/// A text in upper case, as `str::to_uppercase` gives it.
pub uninterp spec fn uppercased(text: Seq<char>) -> Seq<char>;

/// `str::trim` returns the slice without leading and trailing white space.
pub assume_specification[ str::trim ](text: &str) -> (inner: &str)
    ensures
        inner@ == trimmed(text@),
;

/// `str::to_uppercase` returns the upper case equivalent of the slice as a
/// new string.
pub assume_specification[ str::to_uppercase ](text: &str) -> (upper: String)
    ensures
        upper@ == uppercased(text@),
;

/// Whether two texts are the same.
pub fn same_text(a: &str, b: &str) -> (same: bool)
    ensures
        same == (a@ == b@),
{
    let left = a.to_owned();
    let right = b.to_owned();
    left == right
}

/// Two texts, one after the other.
pub fn joined(first: &str, second: &str) -> (both: String)
    ensures
        both@ == first@ + second@,
{
    let mut both = first.to_owned();
    both.push_str(second);
    both
}

} // verus!
