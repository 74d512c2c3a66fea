//! A label and a value on one line, the value starting at a fixed column
//! counted in user-perceived characters.
use vstd::prelude::*;

use unicode_segmentation::UnicodeSegmentation;

verus! {

/// The column at which the second text starts when none is given.
pub const DEFAULT_OFFSET: usize = 20;

/// The number of extended grapheme clusters of a text, as Unicode segments it.
pub uninterp spec fn grapheme_count_of(s: Seq<char>) -> nat;

/// Relies on unicode-segmentation's `UnicodeSegmentation::graphemes` with
/// extended clusters: the number of clusters it yields.
#[verifier::external_body]
fn grapheme_count(s: &str) -> (r: usize)
    ensures
        r as nat == grapheme_count_of(s@),
{
    s.graphemes(true).count()
}

/// The spaces between a first column `width` wide and a second one at
/// `offset`: what reaches `offset`, or a single space when the first column
/// is already wider.
pub open spec fn padding_for(width: nat, offset: nat) -> nat {
    if width <= offset {
        (offset - width) as nat
    } else {
        1
    }
}

/// `n` spaces.
pub open spec fn spaces(n: nat) -> Seq<char> {
    Seq::new(n, |i: int| ' ')
}

/// The line that holds `first`, `width` columns wide, and `second` at
/// `offset`.
pub open spec fn column_line(first: Seq<char>, width: nat, second: Seq<char>, offset: nat) -> Seq<
    char,
> {
    first + spaces(padding_for(width, offset)) + second + "\n\r"@
}

/// The spaces between a first column `width` wide and a second one at
/// `offset` (20 when not given).
pub fn column_padding(width: usize, offset: Option<usize>) -> (r: usize)
    ensures
        r == padding_for(width as nat, offset.unwrap_or(DEFAULT_OFFSET) as nat),
{
    let offset = match offset {
        Some(o) => o,
        None => DEFAULT_OFFSET,
    };
    if width <= offset {
        offset - width
    } else {
        1
    }
}

/// The line with `first`, whose display width is `width`, and `second`
/// starting at column `offset` (20 when not given).
pub fn format_column_with_width(first: &str, width: usize, second: &str, offset: Option<usize>) -> (r:
    String)
    ensures
        r@ == column_line(first@, width as nat, second@, offset.unwrap_or(DEFAULT_OFFSET) as nat),
{
    let pad = column_padding(width, offset);
    let mut out = String::from_str(first);
    let mut i: usize = 0;
    while i < pad
        invariant
            i <= pad,
            out@ == first@ + spaces(i as nat),
        decreases pad - i,
    {
        out.append(" ");
        proof {
            reveal_strlit(" ");
            assert(spaces((i + 1) as nat) == spaces(i as nat) + " "@);
        }
        i = i + 1;
    }
    out.append(second);
    out.append("\n\r");
    out
}

/// The line with `first` and `second` in two columns, `second` starting at
/// column `offset` (20 when not given), the width of `first` counted in
/// grapheme clusters.
pub fn format_column(first: &str, second: &str, offset: Option<usize>) -> (r: String)
    ensures
        r@ == column_line(
            first@,
            grapheme_count_of(first@),
            second@,
            offset.unwrap_or(DEFAULT_OFFSET) as nat,
        ),
{
    let width = grapheme_count(first);
    format_column_with_width(first, width, second, offset)
}

/// The second column starts at exactly `offset` whenever the first fits
/// before it, and two labels of the same display width, however they are
/// encoded, get the same padding.
pub proof fn lemma_second_column_at_offset(a: Seq<char>, b: Seq<char>, offset: nat)
    requires
        grapheme_count_of(a) == grapheme_count_of(b),
        grapheme_count_of(a) <= offset,
    ensures
        grapheme_count_of(a) + padding_for(grapheme_count_of(a), offset) == offset,
        padding_for(grapheme_count_of(a), offset) == padding_for(grapheme_count_of(b), offset),
{
}

} // verus!
