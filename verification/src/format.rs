//! Table format: column separators, borders, line separators and padding.

use crate::utils::{push_char, push_repeat, repeat};
use vstd::prelude::*;

pub mod consts;

verus! {

/// Alignment of a cell's content within its column.
#[derive(Clone, Copy, Debug, PartialEq, Eq, Structural)]
pub enum Alignment {
    LEFT,
    CENTER,
    RIGHT,
}

/// Position of a line separator in a table.
#[derive(Clone, Copy, Debug, PartialEq, Eq, Structural)]
pub enum LinePosition {
    /// Line above the first row (or the titles).
    Top,
    /// Line between the titles and the first row.
    Title,
    /// Line between two rows.
    Intern,
    /// Line below the last row.
    Bottom,
}

/// Position of a column separator in a row.
#[derive(Clone, Copy, Debug, PartialEq, Eq, Structural)]
pub enum ColumnPosition {
    /// Left border.
    Left,
    /// Separator between two columns.
    Intern,
    /// Right border.
    Right,
}

/// The characters of a horizontal line: the line itself, the junction under
/// a column separator, and the left and right junctions under the borders.
#[derive(Clone, Copy, Debug, PartialEq, Eq, Structural)]
pub struct LineSeparator {
    line: char,
    junc: char,
    ljunc: char,
    rjunc: char,
}

/// The optional character `c` as a text of length 0 or 1.
pub open spec fn opt_char(c: Option<char>) -> Seq<char> {
    match c {
        Some(ch) => seq![ch],
        None => seq![],
    }
}

impl LineSeparator {
    /// The line character.
    pub closed spec fn line_char(self) -> char {
        self.line
    }

    /// The junction drawn under a column separator.
    pub closed spec fn junc_char(self) -> char {
        self.junc
    }

    /// The junction drawn under the left border.
    pub closed spec fn ljunc_char(self) -> char {
        self.ljunc
    }

    /// The junction drawn under the right border.
    pub closed spec fn rjunc_char(self) -> char {
        self.rjunc
    }

    /// Create a new line separator from its line character, its column
    /// junction, and its left and right junctions.
    pub fn new(line: char, junc: char, ljunc: char, rjunc: char) -> (s: LineSeparator)
        ensures
            s.line_char() == line,
            s.junc_char() == junc,
            s.ljunc_char() == ljunc,
            s.rjunc_char() == rjunc,
    {
        LineSeparator { line, junc, ljunc, rjunc }
    }

    /// The columns part of the line over the first `widths.len()` columns:
    /// each column is `width + left padding + right padding` line characters,
    /// and a junction stands between two columns when there is a column separator.
    pub open spec fn columns_text(self, widths: Seq<usize>, pad: (usize, usize), colsep: bool) -> Seq<char>
        decreases widths.len(),
    {
        if widths.len() == 0 {
            seq![]
        } else {
            self.columns_text(widths.drop_last(), pad, colsep)
                + (if colsep && widths.len() > 1 { seq![self.junc_char()] } else { seq![] })
                + repeat(self.line_char(), (widths.last() + pad.0 + pad.1) as nat)
        }
    }

    /// The whole line, borders and end of line included.
    pub open spec fn line_text(
        self,
        widths: Seq<usize>,
        pad: (usize, usize),
        colsep: bool,
        lborder: bool,
        rborder: bool,
    ) -> Seq<char> {
        (if lborder { seq![self.ljunc_char()] } else { seq![] })
            + self.columns_text(widths, pad, colsep)
            + (if rborder { seq![self.rjunc_char()] } else { seq![] })
            + seq!['\n']
    }

    /// Append the line over columns of widths `col_width` to `out`.
    pub fn print(
        &self,
        out: &mut String,
        col_width: &[usize],
        padding: (usize, usize),
        colsep: bool,
        lborder: bool,
        rborder: bool,
    )
        ensures
            final(out)@ == old(out)@ + self.line_text(col_width@, padding, colsep, lborder, rborder),
    {
        if lborder {
            push_char(out, self.ljunc);
        }
        let ghost start = out@;
        let n = col_width.len();
        let mut i: usize = 0;
        while i < n
            invariant
                n == col_width@.len(),
                i <= n,
                out@ == start + self.columns_text(col_width@.take(i as int), padding, colsep),
            decreases n - i,
        {
            if colsep && i > 0 {
                push_char(out, self.junc);
            }
            push_repeat(out, self.line, col_width[i]);
            push_repeat(out, self.line, padding.0);
            push_repeat(out, self.line, padding.1);
            proof {
                let w = col_width@.take(i + 1);
                assert(w.drop_last() =~= col_width@.take(i as int));
                assert(repeat(self.line, col_width@[i as int] as nat) + repeat(self.line, padding.0 as nat)
                    + repeat(self.line, padding.1 as nat) =~= repeat(
                    self.line,
                    (col_width@[i as int] + padding.0 + padding.1) as nat,
                ));
            }
            i = i + 1;
        }
        assert(col_width@.take(n as int) =~= col_width@);
        if rborder {
            push_char(out, self.rjunc);
        }
        push_char(out, '\n');
    }
}

impl Default for LineSeparator {
    /// The separator `-`, with `+` for every junction.
    fn default() -> (s: LineSeparator)
        ensures
            s.line_char() == '-',
            s.junc_char() == '+',
            s.ljunc_char() == '+',
            s.rjunc_char() == '+',
    {
        LineSeparator::new('-', '+', '+', '+')
    }
}


/// A table format: which characters separate columns, draw the borders and the
/// horizontal lines, and how many spaces pad each cell.
#[derive(Clone, Copy, Debug)]
pub struct TableFormat {
    csep: Option<char>,
    lborder: Option<char>,
    rborder: Option<char>,
    lsep: Option<LineSeparator>,
    tsep: Option<LineSeparator>,
    top_sep: Option<LineSeparator>,
    bottom_sep: Option<LineSeparator>,
    pad_left: usize,
    pad_right: usize,
}

impl TableFormat {
    /// The separator between two columns.
    pub closed spec fn csep_spec(self) -> Option<char> {
        self.csep
    }

    /// The left border.
    pub closed spec fn lborder_spec(self) -> Option<char> {
        self.lborder
    }

    /// The right border.
    pub closed spec fn rborder_spec(self) -> Option<char> {
        self.rborder
    }

    /// The line separator set for `pos`, as it was set.
    pub closed spec fn sep_spec(self, pos: LinePosition) -> Option<LineSeparator> {
        match pos {
            LinePosition::Top => self.top_sep,
            LinePosition::Title => self.tsep,
            LinePosition::Intern => self.lsep,
            LinePosition::Bottom => self.bottom_sep,
        }
    }

    /// The left and right padding.
    pub closed spec fn padding_spec(self) -> (usize, usize) {
        (self.pad_left, self.pad_right)
    }

    /// The separator drawn at a column position.
    pub open spec fn column_sep(self, pos: ColumnPosition) -> Option<char> {
        match pos {
            ColumnPosition::Left => self.lborder_spec(),
            ColumnPosition::Intern => self.csep_spec(),
            ColumnPosition::Right => self.rborder_spec(),
        }
    }

    /// The line separator drawn at a line position: the title line falls back
    /// to the line between rows when none is set for it.
    pub open spec fn line_sep(self, pos: LinePosition) -> Option<LineSeparator> {
        match pos {
            LinePosition::Title => match self.sep_spec(LinePosition::Title) {
                Some(s) => Some(s),
                None => self.sep_spec(LinePosition::Intern),
            },
            _ => self.sep_spec(pos),
        }
    }

    /// The text of the line at `pos` over columns of widths `widths`: empty when
    /// no separator is drawn there.
    pub open spec fn line_text(self, pos: LinePosition, widths: Seq<usize>) -> Seq<char> {
        match self.line_sep(pos) {
            Some(l) => l.line_text(
                widths,
                self.padding_spec(),
                self.csep_spec() is Some,
                self.lborder_spec() is Some,
                self.rborder_spec() is Some,
            ),
            None => seq![],
        }
    }

    /// `self` and `other` are the same format but for the column separator and borders.
    pub open spec fn same_lines(self, other: TableFormat) -> bool {
        &&& forall|pos: LinePosition| #[trigger] self.sep_spec(pos) == other.sep_spec(pos)
        &&& self.padding_spec() == other.padding_spec()
    }

    /// `self` and `other` are the same format but for the line separators.
    pub open spec fn same_columns(self, other: TableFormat) -> bool {
        &&& self.csep_spec() == other.csep_spec()
        &&& self.lborder_spec() == other.lborder_spec()
        &&& self.rborder_spec() == other.rborder_spec()
        &&& self.padding_spec() == other.padding_spec()
    }

    /// Create a format with no separator, no border and no padding.
    pub fn new() -> (f: TableFormat)
        ensures
            f.csep_spec() is None,
            f.lborder_spec() is None,
            f.rborder_spec() is None,
            forall|pos: LinePosition| (#[trigger] f.sep_spec(pos)) is None,
            f.padding_spec() == (0usize, 0usize),
    {
        TableFormat {
            csep: None,
            lborder: None,
            rborder: None,
            lsep: None,
            tsep: None,
            top_sep: None,
            bottom_sep: None,
            pad_left: 0,
            pad_right: 0,
        }
    }

    /// Return a tuple with the left and right padding.
    pub fn get_padding(&self) -> (p: (usize, usize))
        ensures
            p == self.padding_spec(),
    {
        (self.pad_left, self.pad_right)
    }

    /// Set the left and right padding.
    pub fn padding(&mut self, left: usize, right: usize)
        ensures
            final(self).padding_spec() == (left, right),
            final(self).same_columns_but_padding(*old(self)),
            forall|pos: LinePosition| #[trigger] final(self).sep_spec(pos) == old(self).sep_spec(pos),
    {
        self.pad_left = left;
        self.pad_right = right;
    }

    /// `self` has the column separator and borders of `other`.
    pub open spec fn same_columns_but_padding(self, other: TableFormat) -> bool {
        &&& self.csep_spec() == other.csep_spec()
        &&& self.lborder_spec() == other.lborder_spec()
        &&& self.rborder_spec() == other.rborder_spec()
    }

    /// Set the character used for the separator between columns.
    pub fn column_separator(&mut self, separator: char)
        ensures
            final(self).csep_spec() == Some(separator),
            final(self).lborder_spec() == old(self).lborder_spec(),
            final(self).rborder_spec() == old(self).rborder_spec(),
            final(self).same_lines(*old(self)),
    {
        self.csep = Some(separator);
    }

    /// Set the character used for the left and right borders.
    pub fn borders(&mut self, border: char)
        ensures
            final(self).csep_spec() == old(self).csep_spec(),
            final(self).lborder_spec() == Some(border),
            final(self).rborder_spec() == Some(border),
            final(self).same_lines(*old(self)),
    {
        self.lborder = Some(border);
        self.rborder = Some(border);
    }

    /// Set a line separator at position `what`.
    pub fn separator(&mut self, what: LinePosition, separator: LineSeparator)
        ensures
            final(self).sep_spec(what) == Some(separator),
            forall|pos: LinePosition|
                pos != what ==> #[trigger] final(self).sep_spec(pos) == old(self).sep_spec(pos),
            final(self).same_columns(*old(self)),
    {
        match what {
            LinePosition::Top => self.top_sep = Some(separator),
            LinePosition::Title => self.tsep = Some(separator),
            LinePosition::Intern => self.lsep = Some(separator),
            LinePosition::Bottom => self.bottom_sep = Some(separator),
        }
    }

    /// Set the line separator at each position of `what`.
    pub fn separators(&mut self, what: &[LinePosition], separator: LineSeparator)
        ensures
            forall|pos: LinePosition|
                #[trigger] final(self).sep_spec(pos) == if what@.contains(pos) {
                    Some(separator)
                } else {
                    old(self).sep_spec(pos)
                },
            final(self).same_columns(*old(self)),
    {
        let n = what.len();
        let mut i: usize = 0;
        while i < n
            invariant
                n == what@.len(),
                i <= n,
                forall|pos: LinePosition|
                    #[trigger] self.sep_spec(pos) == if what@.take(i as int).contains(pos) {
                        Some(separator)
                    } else {
                        old(self).sep_spec(pos)
                    },
                self.same_columns(*old(self)),
            decreases n - i,
        {
            let pos = what[i];
            self.separator(pos, separator);
            proof {
                let before = what@.take(i as int);
                let after = what@.take(i + 1);
                assert(after =~= before.push(pos));
                assert forall|p: LinePosition| #[trigger] after.contains(p) == (before.contains(p) || p == pos) by {
                    if p == pos {
                        assert(after[i as int] == p);
                    }
                    if before.contains(p) {
                        let k = choose|k: int| 0 <= k < before.len() && #[trigger] before[k] == p;
                        assert(after[k] == p);
                    }
                }
            }
            i = i + 1;
        }
        assert(what@.take(n as int) =~= what@);
    }

    /// The line separator drawn at `pos`.
    fn get_sep_for_line(&self, pos: LinePosition) -> (s: Option<LineSeparator>)
        ensures
            s == self.line_sep(pos),
    {
        match pos {
            LinePosition::Intern => self.lsep,
            LinePosition::Top => self.top_sep,
            LinePosition::Bottom => self.bottom_sep,
            LinePosition::Title => match self.tsep {
                Some(s) => Some(s),
                None => self.lsep,
            },
        }
    }

    /// Append the line separator at `pos` over columns of widths `col_width` to `out`.
    pub fn print_line_separator(&self, out: &mut String, col_width: &[usize], pos: LinePosition)
        ensures
            final(out)@ == old(out)@ + self.line_text(pos, col_width@),
    {
        match self.get_sep_for_line(pos) {
            Some(l) => l.print(
                out,
                col_width,
                self.get_padding(),
                self.csep.is_some(),
                self.lborder.is_some(),
                self.rborder.is_some(),
            ),
            None => {
                assert(out@ =~= old(out)@ + self.line_text(pos, col_width@));
            },
        }
    }

    /// The separator drawn at column position `pos`.
    pub fn get_column_separator(&self, pos: ColumnPosition) -> (c: Option<char>)
        ensures
            c == self.column_sep(pos),
    {
        match pos {
            ColumnPosition::Left => self.lborder,
            ColumnPosition::Intern => self.csep,
            ColumnPosition::Right => self.rborder,
        }
    }

    /// Append the separator at column position `pos`, if any, to `out`.
    pub fn print_column_separator(&self, out: &mut String, pos: ColumnPosition)
        ensures
            final(out)@ == old(out)@ + opt_char(self.column_sep(pos)),
    {
        match self.get_column_separator(pos) {
            Some(s) => push_char(out, s),
            None => {
                assert(out@ =~= old(out)@ + opt_char(self.column_sep(pos)));
            },
        }
    }
}

impl Default for TableFormat {
    /// The format with no separator, no border and no padding.
    fn default() -> (f: TableFormat)
        ensures
            f.csep_spec() is None,
            f.lborder_spec() is None,
            f.rborder_spec() is None,
            forall|pos: LinePosition| (#[trigger] f.sep_spec(pos)) is None,
            f.padding_spec() == (0usize, 0usize),
    {
        TableFormat::new()
    }
}

/// `s` is a separator made of the characters `line`, `junc`, `ljunc` and `rjunc`.
pub open spec fn is_separator(s: Option<LineSeparator>, line: char, junc: char, ljunc: char, rjunc: char) -> bool {
    &&& s is Some
    &&& s->0.line_char() == line
    &&& s->0.junc_char() == junc
    &&& s->0.ljunc_char() == ljunc
    &&& s->0.rjunc_char() == rjunc
}

/// Builds a `TableFormat` step by step.
pub struct FormatBuilder {
    format: Box<TableFormat>,
}

impl FormatBuilder {
    /// The format built so far.
    pub closed spec fn built(self) -> TableFormat {
        *self.format
    }

    /// Start from the format with no separator, no border and no padding.
    pub fn new() -> (b: FormatBuilder)
        ensures
            b.built().csep_spec() is None,
            b.built().lborder_spec() is None,
            b.built().rborder_spec() is None,
            forall|pos: LinePosition| (#[trigger] b.built().sep_spec(pos)) is None,
            b.built().padding_spec() == (0usize, 0usize),
    {
        FormatBuilder { format: Box::new(TableFormat::new()) }
    }

    /// Set the character used for the separator between columns.
    pub fn column_separator(self, separator: char) -> (b: FormatBuilder)
        ensures
            b.built().csep_spec() == Some(separator),
            b.built().lborder_spec() == self.built().lborder_spec(),
            b.built().rborder_spec() == self.built().rborder_spec(),
            b.built().same_lines(self.built()),
    {
        let mut b = self;
        b.format.column_separator(separator);
        b
    }

    /// Set the character used for the left and right borders.
    pub fn borders(self, border: char) -> (b: FormatBuilder)
        ensures
            b.built().csep_spec() == self.built().csep_spec(),
            b.built().lborder_spec() == Some(border),
            b.built().rborder_spec() == Some(border),
            b.built().same_lines(self.built()),
    {
        let mut b = self;
        b.format.borders(border);
        b
    }

    /// Set a line separator at position `what`.
    pub fn separator(self, what: LinePosition, separator: LineSeparator) -> (b: FormatBuilder)
        ensures
            b.built().sep_spec(what) == Some(separator),
            forall|pos: LinePosition|
                pos != what ==> #[trigger] b.built().sep_spec(pos) == self.built().sep_spec(pos),
            b.built().same_columns(self.built()),
    {
        let mut b = self;
        b.format.separator(what, separator);
        b
    }

    /// Set the line separator at each position of `what`.
    pub fn separators(self, what: &[LinePosition], separator: LineSeparator) -> (b: FormatBuilder)
        ensures
            forall|pos: LinePosition|
                #[trigger] b.built().sep_spec(pos) == if what@.contains(pos) {
                    Some(separator)
                } else {
                    self.built().sep_spec(pos)
                },
            b.built().same_columns(self.built()),
    {
        let mut b = self;
        b.format.separators(what, separator);
        b
    }

    /// Set the left and right padding.
    pub fn padding(self, left: usize, right: usize) -> (b: FormatBuilder)
        ensures
            b.built().padding_spec() == (left, right),
            b.built().same_columns_but_padding(self.built()),
            forall|pos: LinePosition| #[trigger] b.built().sep_spec(pos) == self.built().sep_spec(pos),
    {
        let mut b = self;
        b.format.padding(left, right);
        b
    }

    /// Return the format built.
    pub fn build(&self) -> (f: TableFormat)
        ensures
            f == self.built(),
    {
        *self.format
    }
}

} // verus!
