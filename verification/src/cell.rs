//! A table cell: lines of text and an alignment.

use crate::format::Alignment;
use crate::utils::{align_text, display_width, print_align, push_char, str_width};
use vstd::prelude::*;

verus! {

broadcast use vstd::string::group_string_axioms;

/// The pieces of `s` between its newline characters: one more than the
/// number of newlines in `s`.
pub open spec fn split_at_newlines(s: Seq<char>) -> Seq<Seq<char>>
    decreases s.len(),
{
    if s.len() == 0 {
        seq![seq![]]
    } else {
        let prev = split_at_newlines(s.drop_last());
        if s.last() == '\n' {
            prev.push(seq![])
        } else {
            prev.update(prev.len() - 1, prev.last().push(s.last()))
        }
    }
}

/// `l` without a final carriage return.
pub open spec fn strip_cr(l: Seq<char>) -> Seq<char> {
    if l.len() > 0 && l.last() == '\r' {
        l.drop_last()
    } else {
        l
    }
}

/// The lines of a text, as `str::lines` gives them: the text is split at each
/// newline, a carriage return that ends a line before its newline is dropped,
/// and a final empty piece (after a final newline, or of an empty text) is no line.
pub open spec fn text_lines(s: Seq<char>) -> Seq<Seq<char>> {
    let pieces = split_at_newlines(s);
    let ended = pieces.drop_last().map_values(|l: Seq<char>| strip_cr(l));
    if pieces.last().len() == 0 {
        ended
    } else {
        ended.push(pieces.last())
    }
}

/// There is always at least one piece.
pub proof fn lemma_split_nonempty(s: Seq<char>)
    ensures
        split_at_newlines(s).len() >= 1,
    decreases s.len(),
{
    if s.len() > 0 {
        lemma_split_nonempty(s.drop_last());
    }
}

/// The widest of the displayed widths of `lines` (0 for no line).
pub open spec fn max_line_width(lines: Seq<Seq<char>>) -> nat
    decreases lines.len(),
{
    if lines.len() == 0 {
        0
    } else {
        let prev = max_line_width(lines.drop_last());
        let w = display_width(lines.last()) as nat;
        if w > prev {
            w
        } else {
            prev
        }
    }
}

/// `max_line_width` is at least the width of every line, and is the width
/// of one of them when there is one.
pub proof fn lemma_max_line_width(lines: Seq<Seq<char>>)
    ensures
        forall|i: int| 0 <= i < lines.len() ==> display_width(#[trigger] lines[i]) <= max_line_width(lines),
        lines.len() == 0 ==> max_line_width(lines) == 0,
        lines.len() > 0 ==> exists|i: int| 0 <= i < lines.len() && display_width(#[trigger] lines[i]) == max_line_width(lines),
        max_line_width(lines) <= usize::MAX,
    decreases lines.len(),
{
    if lines.len() > 0 {
        let prev = lines.drop_last();
        lemma_max_line_width(prev);
        assert forall|i: int| 0 <= i < lines.len() implies display_width(#[trigger] lines[i]) <= max_line_width(lines) by {
            if i < lines.len() - 1 {
                assert(lines[i] == prev[i]);
            }
        }
        if display_width(lines.last()) as nat > max_line_width(prev) {
            assert(display_width(lines[lines.len() - 1]) == max_line_width(lines));
        } else if prev.len() > 0 {
            let k = choose|k: int| 0 <= k < prev.len() && display_width(#[trigger] prev[k]) == max_line_width(prev);
            assert(lines[k] == prev[k]);
        } else {
            assert(display_width(lines[0]) == max_line_width(lines));
        }
    }
}

/// The lines of `lines` joined with newlines between them.
pub open spec fn join_lines(lines: Seq<Seq<char>>) -> Seq<char>
    decreases lines.len(),
{
    if lines.len() == 0 {
        seq![]
    } else if lines.len() == 1 {
        lines[0]
    } else {
        join_lines(lines.drop_last()) + seq!['\n'] + lines.last()
    }
}

/// A table cell: some lines of text, aligned in their column as `align` says.
#[derive(Clone, Debug)]
pub struct Cell {
    content: Vec<String>,
    align: Alignment,
}

impl View for Cell {
    type V = Seq<Seq<char>>;

    /// The lines of the cell.
    closed spec fn view(&self) -> Seq<Seq<char>> {
        self.content@.map_values(|l: String| l@)
    }
}

impl Cell {
    /// The alignment of the cell.
    pub closed spec fn alignment(self) -> Alignment {
        self.align
    }

    /// The displayed width of the cell: that of its widest line.
    pub open spec fn width_spec(self) -> nat {
        max_line_width(self@)
    }

    /// The `i`-th line of the cell, or an empty text past its last line.
    pub open spec fn line(self, i: int) -> Seq<char> {
        if 0 <= i < self@.len() {
            self@[i]
        } else {
            seq![]
        }
    }

    /// Create a cell holding the lines of `string`, with alignment `align`.
    pub fn new_align(string: &str, align: Alignment) -> (c: Cell)
        ensures
            c@ == text_lines(string@),
            c.alignment() == align,
    {
        let mut content: Vec<String> = Vec::new();
        let mut cur = String::new();
        let mut pending_cr = false;
        proof {
            lemma_split_nonempty(seq![]);
        }
        for ch in it: string.chars()
            invariant
                it.seq() == string@,
                split_at_newlines(string@.take(it.index() as int)).len() >= 1,
                content@.map_values(|l: String| l@) == split_at_newlines(
                    string@.take(it.index() as int),
                ).drop_last().map_values(|l: Seq<char>| strip_cr(l)),
                (if pending_cr { cur@.push('\r') } else { cur@ }) == split_at_newlines(
                    string@.take(it.index() as int),
                ).last(),
                !pending_cr ==> (cur@.len() == 0 || cur@.last() != '\r'),
        {
            let ghost before = string@.take(it.index() as int);
            let ghost after = string@.take(it.index() + 1);
            proof {
                assert(after.drop_last() =~= before);
                assert(after.last() == ch);
            }
            if ch == '\n' {
                let line = cur;
                let ghost old_content = content@;
                content.push(line);
                cur = String::new();
                pending_cr = false;
                proof {
                    let pa = split_at_newlines(after);
                    let pb = split_at_newlines(before);
                    assert(pa.drop_last() =~= pb);
                    assert(strip_cr(pb.last()) == line@);
                    assert(content@ == old_content.push(line));
                    assert(content@.map_values(|l: String| l@) =~= old_content.map_values(|l: String| l@).push(line@));
                    assert(pa.drop_last().map_values(|l: Seq<char>| strip_cr(l)) =~= pb.drop_last().map_values(|l: Seq<char>| strip_cr(l)).push(strip_cr(pb.last())));
                    assert(content@.map_values(|l: String| l@) =~= pa.drop_last().map_values(
                        |l: Seq<char>| strip_cr(l),
                    ));
                }
            } else {
                if pending_cr {
                    push_char(&mut cur, '\r');
                }
                if ch == '\r' {
                    pending_cr = true;
                } else {
                    push_char(&mut cur, ch);
                    pending_cr = false;
                }
                proof {
                    let pa = split_at_newlines(after);
                    let pb = split_at_newlines(before);
                    assert(pa.drop_last() =~= pb.drop_last());
                    assert((if pending_cr { cur@.push('\r') } else { cur@ }) =~= pa.last());
                }
            }
        }
        assert(string@.take(string@.len() as int) =~= string@);
        let ghost pieces = split_at_newlines(string@);
        if pending_cr {
            push_char(&mut cur, '\r');
        }
        if !cur.as_str().is_empty() {
            content.push(cur);
            assert(content@.map_values(|l: String| l@) =~= text_lines(string@));
        } else {
            assert(content@.map_values(|l: String| l@) =~= text_lines(string@));
        }
        Cell { content, align }
    }

    /// Create a left-aligned cell holding the lines of `string`.
    pub fn new(string: &str) -> (c: Cell)
        ensures
            c@ == text_lines(string@),
            c.alignment() == Alignment::LEFT,
    {
        Cell::new_align(string, Alignment::LEFT)
    }

    /// Set the alignment of the cell.
    pub fn align(&mut self, align: Alignment)
        ensures
            final(self)@ == old(self)@,
            final(self).alignment() == align,
    {
        self.align = align;
    }

    /// The height of the cell: its number of lines.
    pub fn get_height(&self) -> (h: usize)
        ensures
            h == self@.len(),
    {
        self.content.len()
    }

    /// The displayed width of the cell: that of its widest line.
    pub fn get_width(&self) -> (w: usize)
        ensures
            w == self.width_spec(),
    {
        let n = self.content.len();
        let mut width: usize = 0;
        let mut i: usize = 0;
        while i < n
            invariant
                n == self.content@.len(),
                i <= n,
                width == max_line_width(self@.take(i as int)),
            decreases n - i,
        {
            let l = str_width(self.content[i].as_str());
            proof {
                assert(self@.take(i + 1).drop_last() =~= self@.take(i as int));
                assert(self@.take(i + 1).last() == self.content@[i as int]@);
            }
            if l > width {
                width = l;
            }
            i = i + 1;
        }
        assert(self@.take(n as int) =~= self@);
        width
    }

    /// The content of the cell: its lines joined with newlines.
    pub fn get_content(&self) -> (s: String)
        ensures
            s@ == join_lines(self@),
    {
        let n = self.content.len();
        let mut s = String::new();
        let mut i: usize = 0;
        while i < n
            invariant
                n == self.content@.len(),
                i <= n,
                s@ == join_lines(self@.take(i as int)),
            decreases n - i,
        {
            proof {
                assert(self@.take(i + 1).drop_last() =~= self@.take(i as int));
                assert(self@.take(i + 1).last() == self.content@[i as int]@);
            }
            if i > 0 {
                push_char(&mut s, '\n');
            } else {
                assert(self@.take(i + 1) =~= seq![self.content@[0]@]);
            }
            s.append(self.content[i].as_str());
            i = i + 1;
        }
        assert(self@.take(n as int) =~= self@);
        s
    }

    /// Append line `idx` of the cell to `out`, aligned in a column of width
    /// `col_width`; the fill on its right is left out when `skip_right_fill`.
    pub fn print(&self, out: &mut String, idx: usize, col_width: usize, skip_right_fill: bool)
        ensures
            final(out)@ == old(out)@ + align_text(
                self.alignment(),
                self.line(idx as int),
                ' ',
                col_width as nat,
                skip_right_fill,
            ),
    {
        if idx < self.content.len() {
            assert(self@[idx as int] == self.content@[idx as int]@);
            print_align(out, self.align, self.content[idx].as_str(), ' ', col_width, skip_right_fill);
        } else {
            proof {
                reveal_strlit("");
                assert(""@ =~= Seq::<char>::empty());
            }
            print_align(out, self.align, "", ' ', col_width, skip_right_fill);
        }
    }
}

impl Default for Cell {
    /// A left-aligned cell of one empty line.
    fn default() -> (c: Cell)
        ensures
            c@ == seq![Seq::<char>::empty()],
            c.alignment() == Alignment::LEFT,
    {
        let content = vec![String::new()];
        assert(content@.map_values(|l: String| l@) =~= seq![Seq::<char>::empty()]);
        Cell { content, align: Alignment::LEFT }
    }
}

} // verus!
