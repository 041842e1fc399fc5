//! A table row: a sequence of cells.

use crate::cell::Cell;
use crate::format::{opt_char, Alignment, ColumnPosition, TableFormat};
use crate::utils::{align_text, push_char, push_repeat, repeat};
use vstd::prelude::*;

verus! {

/// The height of a row of `cells`: the height of its tallest cell, and at
/// least 1, so that an empty row still takes a line.
pub open spec fn row_height(cells: Seq<Cell>) -> nat
    decreases cells.len(),
{
    if cells.len() == 0 {
        1
    } else {
        let prev = row_height(cells.drop_last());
        if cells.last()@.len() > prev {
            cells.last()@.len()
        } else {
            prev
        }
    }
}

/// The text of column `j` on line `i` of a row of `cells`: the left padding,
/// the cell's line aligned in the column's width, the right padding and, but
/// after the last column, the column separator. A missing cell prints as an
/// empty left-aligned one; the fill right of the last column is left out when
/// there is no right border.
pub open spec fn row_column_text(cells: Seq<Cell>, format: TableFormat, widths: Seq<usize>, i: int, j: int) -> Seq<char> {
    let pad = format.padding_spec();
    let last = j == widths.len() - 1;
    let skip = last && format.column_sep(ColumnPosition::Right) is None;
    let align = if j < cells.len() { cells[j].alignment() } else { Alignment::LEFT };
    let text = if j < cells.len() { cells[j].line(i) } else { seq![] };
    repeat(' ', pad.0 as nat) + align_text(align, text, ' ', widths[j] as nat, skip) + repeat(' ', pad.1 as nat)
        + if last { seq![] } else { opt_char(format.column_sep(ColumnPosition::Intern)) }
}

/// The text of the first `k` columns on line `i` of a row of `cells`.
pub open spec fn row_columns_text(cells: Seq<Cell>, format: TableFormat, widths: Seq<usize>, i: int, k: nat) -> Seq<char>
    decreases k,
{
    if k == 0 {
        seq![]
    } else {
        row_columns_text(cells, format, widths, i, (k - 1) as nat) + row_column_text(cells, format, widths, i, k - 1)
    }
}

/// Line `i` of a row of `cells`: the left border, the columns, the right border
/// and the end of line.
pub open spec fn row_line_text(cells: Seq<Cell>, format: TableFormat, widths: Seq<usize>, i: int) -> Seq<char> {
    opt_char(format.column_sep(ColumnPosition::Left)) + row_columns_text(cells, format, widths, i, widths.len())
        + opt_char(format.column_sep(ColumnPosition::Right)) + seq!['\n']
}

/// The first `h` lines of a row of `cells`.
pub open spec fn row_lines_text(cells: Seq<Cell>, format: TableFormat, widths: Seq<usize>, h: nat) -> Seq<char>
    decreases h,
{
    if h == 0 {
        seq![]
    } else {
        row_lines_text(cells, format, widths, (h - 1) as nat) + row_line_text(cells, format, widths, h - 1)
    }
}

/// The text of a row of `cells` printed in columns of widths `widths`.
pub open spec fn row_text(cells: Seq<Cell>, format: TableFormat, widths: Seq<usize>) -> Seq<char> {
    row_lines_text(cells, format, widths, row_height(cells))
}

/// The width of the cell in column `column` of a row of `cells`, 0 when there
/// is none.
pub open spec fn cell_width_at(cells: Seq<Cell>, column: int) -> nat {
    if 0 <= column < cells.len() {
        cells[column].width_spec()
    } else {
        0
    }
}

/// A row of cells.
#[derive(Clone, Debug)]
pub struct Row {
    cells: Vec<Cell>,
}

impl View for Row {
    type V = Seq<Cell>;

    /// The cells of the row.
    closed spec fn view(&self) -> Seq<Cell> {
        self.cells@
    }
}

impl Row {
    /// Create a row of `cells`.
    pub fn new(cells: Vec<Cell>) -> (r: Row)
        ensures
            r@ == cells@,
    {
        Row { cells }
    }

    /// Create a row with no cell.
    pub fn empty() -> (r: Row)
        ensures
            r@ == Seq::<Cell>::empty(),
    {
        Row { cells: Vec::new() }
    }

    /// The number of cells.
    pub fn len(&self) -> (n: usize)
        ensures
            n == self@.len(),
    {
        self.cells.len()
    }

    /// Whether the row has no cell.
    pub fn is_empty(&self) -> (b: bool)
        ensures
            b == (self@.len() == 0),
    {
        self.cells.len() == 0
    }

    /// The height of the row: that of its tallest cell, and at least 1.
    pub fn get_height(&self) -> (h: usize)
        ensures
            h == row_height(self@),
    {
        let n = self.cells.len();
        let mut height: usize = 1;
        let mut i: usize = 0;
        while i < n
            invariant
                n == self@.len(),
                i <= n,
                height == row_height(self@.take(i as int)),
            decreases n - i,
        {
            proof {
                assert(self@.take(i + 1).drop_last() =~= self@.take(i as int));
            }
            let h = self.cells[i].get_height();
            if h > height {
                height = h;
            }
            i = i + 1;
        }
        assert(self@.take(n as int) =~= self@);
        height
    }

    /// The width of the cell in column `column`, 0 when there is none.
    pub fn get_cell_width(&self, column: usize) -> (w: usize)
        ensures
            w == cell_width_at(self@, column as int),
    {
        if column < self.cells.len() {
            self.cells[column].get_width()
        } else {
            0
        }
    }

    /// The cell at index `idx`, if there is one.
    pub fn get_cell(&self, idx: usize) -> (c: Option<&Cell>)
        ensures
            idx < self@.len() ==> c == Some(&self@[idx as int]),
            idx >= self@.len() ==> c is None,
    {
        if idx < self.cells.len() {
            Some(&self.cells[idx])
        } else {
            None
        }
    }

    /// A mutable reference to the cell at index `idx`, if there is one.
    pub fn get_mut_cell(&mut self, idx: usize) -> (c: Option<&mut Cell>)
        ensures
            idx < old(self)@.len() ==> c is Some && *c->0 == old(self)@[idx as int] && final(self)@
                == old(self)@.update(idx as int, *final(c->0)),
            idx >= old(self)@.len() ==> c is None && *final(self) == *old(self),
    {
        if idx < self.cells.len() {
            Some(&mut self.cells[idx])
        } else {
            None
        }
    }

    /// Replace the cell at index `column` by `cell`; fails when there is no
    /// such cell.
    pub fn set_cell(&mut self, cell: Cell, column: usize) -> (r: Result<(), &'static str>)
        ensures
            column < old(self)@.len() ==> r is Ok && final(self)@ == old(self)@.update(column as int, cell),
            column >= old(self)@.len() ==> r == Err::<(), &str>("Cannot find cell") && *final(self) == *old(self),
    {
        if column >= self.cells.len() {
            return Err("Cannot find cell");
        }
        self.cells.set(column, cell);
        Ok(())
    }

    /// Append a cell at the end of the row.
    pub fn add_cell(&mut self, cell: Cell)
        ensures
            final(self)@ == old(self)@.push(cell),
    {
        self.cells.push(cell);
    }

    /// Insert `cell` at index `index`; it is appended when `index` is past the
    /// end of the row.
    pub fn insert_cell(&mut self, index: usize, cell: Cell)
        ensures
            index < old(self)@.len() ==> final(self)@ == old(self)@.insert(index as int, cell),
            index >= old(self)@.len() ==> final(self)@ == old(self)@.push(cell),
    {
        if index < self.cells.len() {
            self.cells.insert(index, cell);
        } else {
            self.add_cell(cell);
        }
    }

    /// Remove the cell at index `index`; nothing happens when there is none.
    pub fn remove_cell(&mut self, index: usize)
        ensures
            index < old(self)@.len() ==> final(self)@ == old(self)@.remove(index as int),
            index >= old(self)@.len() ==> final(self)@ == old(self)@,
    {
        if index < self.cells.len() {
            self.cells.remove(index);
        }
    }

    /// Append column `j` of line `i` of the row to `out`.
    fn print_column(&self, out: &mut String, format: &TableFormat, col_width: &[usize], i: usize, j: usize)
        requires
            j < col_width@.len(),
        ensures
            final(out)@ == old(out)@ + row_column_text(self@, *format, col_width@, i as int, j as int),
    {
        let n = col_width.len();
        let (lp, rp) = format.get_padding();
        push_repeat(out, ' ', lp);
        let skip_r_fill = j == n - 1 && format.get_column_separator(ColumnPosition::Right).is_none();
        match self.get_cell(j) {
            Some(c) => c.print(out, i, col_width[j], skip_r_fill),
            None => {
                let d = Cell::default();
                d.print(out, i, col_width[j], skip_r_fill);
                assert(d.line(i as int) =~= Seq::<char>::empty());
            },
        }
        push_repeat(out, ' ', rp);
        if j < n - 1 {
            format.print_column_separator(out, ColumnPosition::Intern);
        }
        assert(out@ =~= old(out)@ + row_column_text(self@, *format, col_width@, i as int, j as int));
    }

    /// Append the row to `out`, in columns of widths `col_width`, as `format` says.
    pub fn print(&self, out: &mut String, format: &TableFormat, col_width: &[usize])
        ensures
            final(out)@ == old(out)@ + row_text(self@, *format, col_width@),
    {
        let height = self.get_height();
        let n = col_width.len();
        let ghost cells = self@;
        let ghost widths = col_width@;
        let mut i: usize = 0;
        while i < height
            invariant
                height == row_height(cells),
                cells == self@,
                widths == col_width@,
                n == widths.len(),
                i <= height,
                out@ == old(out)@ + row_lines_text(cells, *format, widths, i as nat),
            decreases height - i,
        {
            let ghost line_start = out@;
            format.print_column_separator(out, ColumnPosition::Left);
            let ghost cols_start = out@;
            let mut j: usize = 0;
            while j < n
                invariant
                    cells == self@,
                    widths == col_width@,
                    n == widths.len(),
                        j <= n,
                    out@ == cols_start + row_columns_text(cells, *format, widths, i as int, j as nat),
                decreases n - j,
            {
                self.print_column(out, format, col_width, i, j);
                j = j + 1;
            }
            format.print_column_separator(out, ColumnPosition::Right);
            push_char(out, '\n');
            assert(out@ =~= line_start + row_line_text(cells, *format, widths, i as int));
            i = i + 1;
        }
    }
}

impl Default for Row {
    /// A row with no cell.
    fn default() -> (r: Row)
        ensures
            r@ == Seq::<Cell>::empty(),
    {
        Row::empty()
    }
}

} // verus!
