//! Display width: how many terminal columns a text takes.

use vstd::prelude::*;

verus! {

/// The number of terminal columns that `text` takes, by the Unicode width
/// tables of `unicode_width`.
pub uninterp spec fn display_width(text: Seq<char>) -> nat;

/// `UnicodeWidthStr::width`: the display width of `text`.
#[verifier::external_body]
pub(crate) fn width_of(text: &str) -> (w: usize)
    ensures
        w == display_width(text@),
{
    unicode_width::UnicodeWidthStr::width(text)
}

} // verus!
