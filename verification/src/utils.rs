//! Text helpers shared by cells, rows and table formats.

use unicode_width::UnicodeWidthStr;
use crate::format::Alignment;
use vstd::prelude::*;

verus! {

/// The displayed width, in terminal columns, that unicode-width gives a string.
pub uninterp spec fn display_width(s: Seq<char>) -> usize;

/// Calls `UnicodeWidthStr::width` of unicode-width on `s`.
/// Its result depends on the characters of `s` alone; the contract names it
/// `display_width` and says nothing of its value, which unicode-width computes
/// from its Unicode tables.
#[verifier::external_body]
pub fn str_width(s: &str) -> (w: usize)
    ensures
        w == display_width(s@),
{
    UnicodeWidthStr::width(s)
}

/// Calls `String::push` of std, which appends one character.
#[verifier::external_body]
pub fn push_char(s: &mut String, c: char)
    ensures
        final(s)@ == old(s)@.push(c),
{
    s.push(c)
}

/// `n` copies of the character `c`.
pub open spec fn repeat(c: char, n: nat) -> Seq<char> {
    Seq::new(n, |_i: int| c)
}

/// Appends `n` copies of `c` to `out`.
pub fn push_repeat(out: &mut String, c: char, n: usize)
    ensures
        final(out)@ == old(out)@ + repeat(c, n as nat),
{
    let mut i: usize = 0;
    while i < n
        invariant
            i <= n,
            out@ == old(out)@ + repeat(c, i as nat),
        decreases n - i,
    {
        push_char(out, c);
        i = i + 1;
        assert(out@ =~= old(out)@ + repeat(c, i as nat));
    }
}

/// `text` aligned as `align` says in a field `size` columns wide, filled with
/// `fill`: the fill goes to the right (left alignment), to the left (right
/// alignment) or half to the left, rounded down, and the rest to the right
/// (centered). The fill on the right is left out when `skip_right_fill`.
/// A text wider than the field gets no fill.
pub open spec fn align_text(align: Alignment, text: Seq<char>, fill: char, size: nat, skip_right_fill: bool) -> Seq<char> {
    let tw = display_width(text) as nat;
    let nfill: nat = if tw < size { (size - tw) as nat } else { 0 };
    let n: nat = match align {
        Alignment::LEFT => 0,
        Alignment::RIGHT => nfill,
        Alignment::CENTER => nfill / 2,
    };
    repeat(fill, n) + text + if skip_right_fill { seq![] } else { repeat(fill, (nfill - n) as nat) }
}

/// Append `text` to `out`, aligned as `align` says in a field `size` columns
/// wide and filled with `fill`.
pub fn print_align(out: &mut String, align: Alignment, text: &str, fill: char, size: usize, skip_right_fill: bool)
    ensures
        final(out)@ == old(out)@ + align_text(align, text@, fill, size as nat, skip_right_fill),
{
    let text_len = str_width(text);
    let mut nfill: usize = if text_len < size { size - text_len } else { 0 };
    let n: usize = match align {
        Alignment::LEFT => 0,
        Alignment::RIGHT => nfill,
        Alignment::CENTER => nfill / 2,
    };
    push_repeat(out, fill, n);
    nfill = nfill - n;
    out.append(text);
    if !skip_right_fill {
        push_repeat(out, fill, nfill);
    }
    assert(out@ =~= old(out)@ + align_text(align, text@, fill, size as nat, skip_right_fill));
}

} // verus!
