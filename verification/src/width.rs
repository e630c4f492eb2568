//! Display widths of text in terminal columns, as the `unicode-width` crate
//! computes them.

use vstd::prelude::*;

verus! {

/// The display width in columns that `unicode-width` assigns to a whole string
/// (its `UnicodeWidthStr::width`, ambiguous characters counted as narrow).
pub uninterp spec fn unicode_str_width(s: Seq<char>) -> nat;

/// The display width that `unicode-width` assigns to a single character
/// (its `UnicodeWidthChar::width`): `None` for control characters.
pub uninterp spec fn unicode_char_width(c: char) -> Option<usize>;

/// Every character of `s` is a printable ASCII character (space to tilde).
pub open spec fn is_printable_ascii(s: Seq<char>) -> bool {
    forall|i: int| 0 <= i < s.len() ==> is_printable_ascii_char(#[trigger] s[i])
}

/// `c` is a printable ASCII character (U+0020 to U+007E).
pub open spec fn is_printable_ascii_char(c: char) -> bool {
    ' ' <= c && c <= '~'
}

/// Width of a string in columns: `unicode_width::UnicodeWidthStr::width`.
///
/// Trusted: the result is the crate's string width. Beside that name, two facts
/// read off the crate's `str_width`: each character adds at most 3 columns
/// (so the total is at most three times the number of characters), and a
/// string made of printable ASCII characters only is exactly as wide as it is
/// long (each such character takes the one-column path of `width_in_str`).
#[verifier::external_body]
pub(crate) fn display_width(s: &str) -> (w: usize)
    ensures
        w as nat == unicode_str_width(s@),
        w <= 3 * s@.len(),
        is_printable_ascii(s@) ==> w == s@.len(),
{
    unicode_width::UnicodeWidthStr::width(s)
}

/// Width of one character: `unicode_width::UnicodeWidthChar::width`.
///
/// Trusted: the result is the crate's character width; printable ASCII
/// characters are one column wide (the crate's first branch of
/// `single_char_width`), and no character is wider than 3 columns.
#[verifier::external_body]
pub(crate) fn char_display_width(c: char) -> (w: Option<usize>)
    ensures
        w == unicode_char_width(c),
        is_printable_ascii_char(c) ==> w == Some(1usize),
        w matches Some(x) ==> x <= 3,
{
    unicode_width::UnicodeWidthChar::width(c)
}

} // verus!
