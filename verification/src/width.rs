//! How many terminal columns a character takes.

use unicode_width::UnicodeWidthChar;
use vstd::prelude::*;

verus! {

/// The displayed width that the Unicode width tables give a character
/// (`None` for a control character).
pub uninterp spec fn unicode_char_width(c: char) -> Option<usize>;

/// Calls `UnicodeWidthChar::width` of the `unicode-width` crate.
///
/// The result is named by `unicode_char_width`. Besides that, the contract
/// states what the crate's `single_char_width` shows in its source: printable
/// ASCII is one column wide, the C0 and C1 control codes (and DEL) have no
/// width, every other character has one, and no width exceeds three columns
/// (the widest entry of its tables). Which characters are wide or
/// zero-width beyond ASCII is left to the tables and not stated.
#[verifier::external_body]
pub(crate) fn char_width(c: char) -> (r: Option<usize>)
    ensures
        r == unicode_char_width(c),
        r is None <==> ((c as u32) < 0x20 || (0x7f <= (c as u32) && (c as u32) < 0xa0)),
        (0x20 <= (c as u32) && (c as u32) < 0x7f) ==> r == Some(1usize),
        r matches Some(w) ==> w <= 3,
{
    UnicodeWidthChar::width(c)
}

} // verus!
