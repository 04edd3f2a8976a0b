//! Visual width measurement: escape sequences are stripped first, then the
//! remaining text is measured in terminal columns.

use vstd::prelude::*;

verus! {

/// The characters that remain once every ANSI escape sequence has been
/// removed from `s`.
pub uninterp spec fn ansi_stripped(s: Seq<char>) -> Seq<char>;

/// The number of terminal columns that the text `s` occupies when displayed,
/// per the Unicode East-Asian-width rules.
pub uninterp spec fn display_width_of(s: Seq<char>) -> nat;

/// The visual width of a string: the columns its text occupies once ANSI
/// escape sequences are removed.
pub open spec fn visual_width(s: Seq<char>) -> nat {
    display_width_of(ansi_stripped(s))
}

/// Relies on strip_ansi_escapes::strip_str: removes the ANSI escape
/// sequences from the text, a function of the characters alone.
#[verifier::external_body]
fn strip_ansi(s: &str) -> (r: String)
    ensures
        r@ == ansi_stripped(s@),
{
    strip_ansi_escapes::strip_str(s)
}

/// Relies on unicode_width::UnicodeWidthStr::width: the displayed width of
/// the text in columns, a function of the characters alone.
#[verifier::external_body]
fn str_display_width(s: &str) -> (r: usize)
    ensures
        r == display_width_of(s@),
{
    unicode_width::UnicodeWidthStr::width(s)
}

/// The visual width of `s`: non-printing escape sequences do not count, wide
/// glyphs count as two columns, combining marks as zero.
pub fn width(s: &str) -> (r: usize)
    ensures
        r == visual_width(s@),
{
    let stripped = strip_ansi(s);
    str_display_width(stripped.as_str())
}

} // verus!
