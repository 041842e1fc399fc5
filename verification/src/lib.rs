//! A formatted and aligned table printer.
#![allow(non_camel_case_types)]

pub mod cell;
pub mod format;
pub mod laws;
pub mod row;
pub mod utils;

use crate::cell::{text_lines, Cell};
use crate::format::consts::{format_default, is_format_default};
use crate::format::{LinePosition, TableFormat};
use crate::row::{cell_width_at, row_text, Row};
use core::ops::Range;
use vstd::prelude::*;

verus! {

/// The larger of two numbers.
pub open spec fn max_nat(a: nat, b: nat) -> nat {
    if a >= b {
        a
    } else {
        b
    }
}

/// The number of columns of `rows`: the number of cells of its longest row.
pub open spec fn column_count(rows: Seq<Row>) -> nat
    decreases rows.len(),
{
    if rows.len() == 0 {
        0
    } else {
        max_nat(column_count(rows.drop_last()), rows.last()@.len())
    }
}

/// The width of the widest cell of `rows` in column `col`, 0 when there is none.
pub open spec fn rows_column_width(rows: Seq<Row>, col: int) -> nat
    decreases rows.len(),
{
    if rows.len() == 0 {
        0
    } else {
        max_nat(rows_column_width(rows.drop_last(), col), cell_width_at(rows.last()@, col))
    }
}

/// The width of column `col`: that of its widest cell, titles included.
pub open spec fn column_width(titles: Option<Row>, rows: Seq<Row>, col: int) -> nat {
    let t = match titles {
        Some(t) => cell_width_at(t@, col),
        None => 0,
    };
    max_nat(t, rows_column_width(rows, col))
}

/// The widths of all the columns of a table: there are as many as the longest
/// row (titles aside) has cells.
pub open spec fn column_widths(titles: Option<Row>, rows: Seq<Row>) -> Seq<usize> {
    Seq::new(column_count(rows), |j: int| column_width(titles, rows, j) as usize)
}

/// The text of `rows`, with the line between rows between two of them.
pub open spec fn rows_text(rows: Seq<Row>, format: TableFormat, widths: Seq<usize>) -> Seq<char>
    decreases rows.len(),
{
    if rows.len() == 0 {
        seq![]
    } else {
        rows_text(rows.drop_last(), format, widths) + (if rows.len() > 1 {
            format.line_text(LinePosition::Intern, widths)
        } else {
            seq![]
        }) + row_text(rows.last()@, format, widths)
    }
}

/// The text of a table: the top line, the titles and the line under them
/// when there are titles, the rows with lines between them, and the bottom
/// line, all in columns as wide as their widest cell.
pub open spec fn table_text(format: TableFormat, titles: Option<Row>, rows: Seq<Row>) -> Seq<char> {
    let widths = column_widths(titles, rows);
    format.line_text(LinePosition::Top, widths) + match titles {
        Some(t) => row_text(t@, format, widths) + format.line_text(LinePosition::Title, widths),
        None => seq![],
    } + rows_text(rows, format, widths) + format.line_text(LinePosition::Bottom, widths)
}

/// `rows` with `row` inserted at `index`, or appended when `index` is past the end.
pub open spec fn rows_after_insert(rows: Seq<Row>, index: int, row: Row) -> Seq<Row> {
    if index < rows.len() {
        rows.insert(index, row)
    } else {
        rows.push(row)
    }
}

/// `rows` without the row at `index`, or unchanged when there is none.
pub open spec fn rows_after_remove(rows: Seq<Row>, index: int) -> Seq<Row> {
    if 0 <= index < rows.len() {
        rows.remove(index)
    } else {
        rows
    }
}

/// An owned printable table.
#[derive(Clone, Debug)]
pub struct Table {
    format: Box<TableFormat>,
    titles: Box<Option<Row>>,
    rows: Vec<Row>,
}

/// A borrowed immutable part of a `Table`: its format, its titles and some of
/// its rows. It is obtained by slicing a `Table` with `Slice::slice`.
#[derive(Clone, Copy, Debug)]
pub struct TableSlice<'a> {
    format: &'a TableFormat,
    titles: &'a Option<Row>,
    rows: &'a [Row],
}

impl<'a> View for TableSlice<'a> {
    type V = Seq<Row>;

    /// The rows of the slice.
    closed spec fn view(&self) -> Seq<Row> {
        self.rows@
    }
}

impl<'a> TableSlice<'a> {
    /// The format of the slice.
    pub closed spec fn format_spec(&self) -> TableFormat {
        *self.format
    }

    /// The titles of the slice.
    pub closed spec fn titles_spec(&self) -> Option<Row> {
        *self.titles
    }

    /// Compute and return the number of columns.
    pub fn get_column_num(&self) -> (n: usize)
        ensures
            n == column_count(self@),
    {
        let len = self.rows.len();
        let mut cnum: usize = 0;
        let mut i: usize = 0;
        while i < len
            invariant
                len == self@.len(),
                i <= len,
                cnum == column_count(self@.take(i as int)),
            decreases len - i,
        {
            proof {
                assert(self@.take(i + 1).drop_last() =~= self@.take(i as int));
            }
            let l = self.rows[i].len();
            if l > cnum {
                cnum = l;
            }
            i = i + 1;
        }
        assert(self@.take(len as int) =~= self@);
        cnum
    }

    /// Get the number of rows.
    pub fn len(&self) -> (n: usize)
        ensures
            n == self@.len(),
    {
        self.rows.len()
    }

    /// Get an immutable reference to a row.
    pub fn get_row(&self, row: usize) -> (r: Option<&Row>)
        ensures
            row < self@.len() ==> r == Some(&self@[row as int]),
            row >= self@.len() ==> r is None,
    {
        if row < self.rows.len() {
            Some(&self.rows[row])
        } else {
            None
        }
    }

    /// Get the width of the column at position `col_idx`; 0 if the column
    /// does not exist.
    fn get_column_width(&self, col_idx: usize) -> (w: usize)
        ensures
            w == column_width(self.titles_spec(), self@, col_idx as int),
    {
        let mut width = match self.titles {
            Some(t) => t.get_cell_width(col_idx),
            None => 0,
        };
        let len = self.rows.len();
        let mut i: usize = 0;
        while i < len
            invariant
                len == self@.len(),
                i <= len,
                width == column_width(self.titles_spec(), self@.take(i as int), col_idx as int),
            decreases len - i,
        {
            proof {
                assert(self@.take(i + 1).drop_last() =~= self@.take(i as int));
            }
            let l = self.rows[i].get_cell_width(col_idx);
            if l > width {
                width = l;
            }
            i = i + 1;
        }
        assert(self@.take(len as int) =~= self@);
        width
    }

    /// Get the width of all columns.
    fn get_all_column_width(&self) -> (w: Vec<usize>)
        ensures
            w@ == column_widths(self.titles_spec(), self@),
    {
        let colnum = self.get_column_num();
        let mut col_width: Vec<usize> = Vec::new();
        let mut i: usize = 0;
        while i < colnum
            invariant
                colnum == column_count(self@),
                i <= colnum,
                col_width@ =~= column_widths(self.titles_spec(), self@).take(i as int),
            decreases colnum - i,
        {
            let w = self.get_column_width(i);
            col_width.push(w);
            i = i + 1;
        }
        col_width
    }

    /// Returns an iterator over the cells of the column `column`.
    pub fn column_iter(&self, column: usize) -> (it: ColumnIter<'a>)
        ensures
            it.remaining() == self@,
            it.column() == column,
    {
        ColumnIter { rows: self.rows, column }
    }

    /// Returns the rows of the slice, to iterate over them.
    pub fn row_iter(&self) -> (rows: &'a [Row])
        ensures
            rows@ == self@,
    {
        self.rows
    }

    /// Append the rows to `out`, with the line between rows between two of them.
    fn print_rows(&self, out: &mut String, col_width: &[usize])
        ensures
            final(out)@ == old(out)@ + rows_text(self@, self.format_spec(), col_width@),
    {
        let len = self.rows.len();
        let mut i: usize = 0;
        while i < len
            invariant
                len == self@.len(),
                i <= len,
                out@ == old(out)@ + rows_text(self@.take(i as int), self.format_spec(), col_width@),
            decreases len - i,
        {
            let ghost before = out@;
            if i > 0 {
                self.format.print_line_separator(out, col_width, LinePosition::Intern);
            }
            self.rows[i].print(out, self.format, col_width);
            proof {
                let t = self@.take(i + 1);
                assert(t.drop_last() =~= self@.take(i as int));
                assert(t.last() == self@[i as int]);
                assert(out@ =~= old(out)@ + rows_text(t, self.format_spec(), col_width@));
            }
            i = i + 1;
        }
        assert(self@.take(len as int) =~= self@);
    }

    /// Append the table to `out`.
    pub fn print(&self, out: &mut String)
        ensures
            final(out)@ == old(out)@ + table_text(self.format_spec(), self.titles_spec(), self@),
    {
        let col_width = self.get_all_column_width();
        let ghost start = out@;
        self.format.print_line_separator(out, col_width.as_slice(), LinePosition::Top);
        match self.titles {
            Some(t) => {
                t.print(out, self.format, col_width.as_slice());
                self.format.print_line_separator(out, col_width.as_slice(), LinePosition::Title);
            },
            None => {},
        }
        self.print_rows(out, col_width.as_slice());
        self.format.print_line_separator(out, col_width.as_slice(), LinePosition::Bottom);
        assert(out@ =~= start + table_text(self.format_spec(), self.titles_spec(), self@));
    }

    /// The table printed into a new string.
    pub fn to_string(&self) -> (s: String)
        ensures
            s@ == table_text(self.format_spec(), self.titles_spec(), self@),
    {
        let mut s = String::new();
        self.print(&mut s);
        s
    }
}

/// Types that can be sliced into a `TableSlice`.
pub trait Slice<'a, E> {
    /// Type output after slicing.
    type Output: 'a;

    /// `arg` selects rows that exist.
    spec fn slice_in_bounds(&self, arg: E) -> bool;

    /// Get a slice from self.
    fn slice(&'a self, arg: E) -> Self::Output
        requires
            self.slice_in_bounds(arg),
    ;
}

impl<'a> Slice<'a, Range<usize>> for TableSlice<'a> {
    type Output = TableSlice<'a>;

    open spec fn slice_in_bounds(&self, arg: Range<usize>) -> bool {
        arg.start <= arg.end <= self@.len()
    }

    /// The rows of the range `arg`, with the format and titles of `self`.
    fn slice(&'a self, arg: Range<usize>) -> (s: TableSlice<'a>)
        ensures
            s@ == self@.subrange(arg.start as int, arg.end as int),
            s.format_spec() == self.format_spec(),
            s.titles_spec() == self.titles_spec(),
    {
        TableSlice { format: self.format, titles: self.titles, rows: &self.rows[arg] }
    }
}

impl Table {
    /// The rows of the table.
    pub closed spec fn rows_spec(&self) -> Seq<Row> {
        self.rows@
    }

    /// The format of the table.
    pub closed spec fn format_spec(&self) -> TableFormat {
        *self.format
    }

    /// The titles of the table.
    pub closed spec fn titles_spec(&self) -> Option<Row> {
        *self.titles
    }

    /// Create an empty table.
    pub fn new() -> (t: Table)
        ensures
            t@ == Seq::<Row>::empty(),
            t.titles_spec() is None,
            is_format_default(t.format_spec()),
    {
        Self::init(Vec::new())
    }

    /// Create a table initialized with `rows`.
    pub fn init(rows: Vec<Row>) -> (t: Table)
        ensures
            t@ == rows@,
            t.titles_spec() is None,
            is_format_default(t.format_spec()),
    {
        Table { rows: rows, titles: Box::new(None), format: Box::new(format_default()) }
    }

    /// Change the table format.
    pub fn set_format(&mut self, format: TableFormat)
        ensures
            final(self).format_spec() == format,
            final(self).titles_spec() == old(self).titles_spec(),
            final(self)@ == old(self)@,
    {
        *self.format = format;
    }

    /// The whole table as a `TableSlice`.
    pub fn as_ref(&self) -> (s: TableSlice<'_>)
        ensures
            s@ == self@,
            s.format_spec() == self.format_spec(),
            s.titles_spec() == self.titles_spec(),
    {
        TableSlice { format: &self.format, titles: &self.titles, rows: self.rows.as_slice() }
    }

    /// Compute and return the number of columns.
    pub fn get_column_num(&self) -> (n: usize)
        ensures
            n == column_count(self@),
    {
        self.as_ref().get_column_num()
    }

    /// Get the number of rows.
    pub fn len(&self) -> (n: usize)
        ensures
            n == self@.len(),
    {
        self.rows.len()
    }

    /// Set the title line.
    pub fn set_titles(&mut self, titles: Row)
        ensures
            final(self).titles_spec() == Some(titles),
            final(self).format_spec() == old(self).format_spec(),
            final(self)@ == old(self)@,
    {
        *self.titles = Some(titles);
    }

    /// Unset the title line.
    pub fn unset_titles(&mut self)
        ensures
            final(self).titles_spec() is None,
            final(self).format_spec() == old(self).format_spec(),
            final(self)@ == old(self)@,
    {
        *self.titles = None;
    }

    /// Get a mutable reference to a row.
    pub fn get_mut_row(&mut self, row: usize) -> (r: Option<&mut Row>)
        ensures
            row < old(self)@.len() ==> r is Some && *r->0 == old(self)@[row as int] && final(self)@
                == old(self)@.update(row as int, *final(r->0)),
            row >= old(self)@.len() ==> r is None && final(self)@ == old(self)@,
            final(self).format_spec() == old(self).format_spec(),
            final(self).titles_spec() == old(self).titles_spec(),
    {
        if row < self.rows.len() {
            Some(&mut self.rows[row])
        } else {
            None
        }
    }

    /// Get an immutable reference to a row.
    pub fn get_row(&self, row: usize) -> (r: Option<&Row>)
        ensures
            row < self@.len() ==> r == Some(&self@[row as int]),
            row >= self@.len() ==> r is None,
    {
        if row < self.rows.len() {
            Some(&self.rows[row])
        } else {
            None
        }
    }

    /// Append a row in the table, transferring ownership of this row to the
    /// table and returning a mutable reference to the row.
    pub fn add_row(&mut self, row: Row) -> (r: &mut Row)
        ensures
            *r == row,
            final(self)@ == old(self)@.push(*final(r)),
            final(self).format_spec() == old(self).format_spec(),
            final(self).titles_spec() == old(self).titles_spec(),
    {
        self.rows.push(row);
        let l = self.rows.len() - 1;
        &mut self.rows[l]
    }

    /// Append an empty row in the table. Return a mutable reference to this new row.
    pub fn add_empty_row(&mut self) -> (r: &mut Row)
        ensures
            (*r)@ == Seq::<Cell>::empty(),
            final(self)@ == old(self)@.push(*final(r)),
            final(self).format_spec() == old(self).format_spec(),
            final(self).titles_spec() == old(self).titles_spec(),
    {
        self.add_row(Row::default())
    }

    /// Insert `row` at the position `index`, and return a mutable reference
    /// to this row. If index is higher than current numbers of rows, `row`
    /// is appended at the end of the table.
    pub fn insert_row(&mut self, index: usize, row: Row) -> (r: &mut Row)
        ensures
            *r == row,
            final(self)@ == rows_after_insert(old(self)@, index as int, *final(r)),
            final(self).format_spec() == old(self).format_spec(),
            final(self).titles_spec() == old(self).titles_spec(),
    {
        if index < self.rows.len() {
            self.rows.insert(index, row);
            &mut self.rows[index]
        } else {
            self.add_row(row)
        }
    }

    /// Modify a single element in the table.
    pub fn set_element(&mut self, element: &str, column: usize, row: usize) -> (r: Result<(), &'static str>)
        ensures
            row >= old(self)@.len() ==> r == Err::<(), &str>("Cannot find row") && final(self)@ == old(self)@,
            row < old(self)@.len() && column >= old(self)@[row as int]@.len() ==> r == Err::<(), &str>(
                "Cannot find cell",
            ) && final(self)@ == old(self)@,
            row < old(self)@.len() && column < old(self)@[row as int]@.len() ==> {
                &&& r is Ok
                &&& final(self)@.len() == old(self)@.len()
                &&& forall|i: int| 0 <= i < old(self)@.len() && i != row ==> #[trigger] final(self)@[i] == old(self)@[i]
                &&& final(self)@[row as int]@.len() == old(self)@[row as int]@.len()
                &&& forall|j: int|
                    0 <= j < old(self)@[row as int]@.len() && j != column ==> #[trigger] final(self)@[row as int]@[j]
                        == old(self)@[row as int]@[j]
                &&& final(self)@[row as int]@[column as int]@ == text_lines(element@)
                &&& final(self)@[row as int]@[column as int].alignment() == crate::format::Alignment::LEFT
            },
            final(self).format_spec() == old(self).format_spec(),
            final(self).titles_spec() == old(self).titles_spec(),
    {
        let rowline = match self.get_mut_row(row) {
            Some(r) => r,
            None => return Err("Cannot find row"),
        };
        rowline.set_cell(Cell::new(element), column)
    }

    /// Remove the row at position `index`. Silently skip if the row does not exist.
    pub fn remove_row(&mut self, index: usize)
        ensures
            final(self)@ == rows_after_remove(old(self)@, index as int),
            final(self).format_spec() == old(self).format_spec(),
            final(self).titles_spec() == old(self).titles_spec(),
    {
        if index < self.rows.len() {
            self.rows.remove(index);
        }
    }

    /// Return an iterator over the cells of the column `column`.
    pub fn column_iter(&self, column: usize) -> (it: ColumnIter<'_>)
        ensures
            it.remaining() == self@,
            it.column() == column,
    {
        ColumnIter { rows: self.rows.as_slice(), column }
    }

    /// Returns the rows of the table, to iterate over them.
    pub fn row_iter(&self) -> (rows: &[Row])
        ensures
            rows@ == self@,
    {
        self.rows.as_slice()
    }

    /// Returns the rows of the table, to iterate over them and change them.
    pub fn row_iter_mut(&mut self) -> (rows: &mut [Row])
        ensures
            rows@ == old(self)@,
            final(self)@ == final(rows)@,
            final(self).format_spec() == old(self).format_spec(),
            final(self).titles_spec() == old(self).titles_spec(),
    {
        self.rows.as_mut_slice()
    }

    /// Append the table to `out`.
    pub fn print(&self, out: &mut String)
        ensures
            final(out)@ == old(out)@ + table_text(self.format_spec(), self.titles_spec(), self@),
    {
        self.as_ref().print(out)
    }

    /// The table printed into a new string.
    pub fn to_string(&self) -> (s: String)
        ensures
            s@ == table_text(self.format_spec(), self.titles_spec(), self@),
    {
        self.as_ref().to_string()
    }
}

impl View for Table {
    type V = Seq<Row>;

    /// The rows of the table.
    closed spec fn view(&self) -> Seq<Row> {
        self.rows@
    }
}

impl<'a> Slice<'a, Range<usize>> for Table {
    type Output = TableSlice<'a>;

    open spec fn slice_in_bounds(&self, arg: Range<usize>) -> bool {
        arg.start <= arg.end <= self@.len()
    }

    /// The rows of the range `arg`, with the format and titles of the table.
    fn slice(&'a self, arg: Range<usize>) -> (s: TableSlice<'a>)
        ensures
            s@ == self@.subrange(arg.start as int, arg.end as int),
            s.format_spec() == self.format_spec(),
            s.titles_spec() == self.titles_spec(),
    {
        TableSlice { format: &self.format, titles: &self.titles, rows: &self.rows.as_slice()[arg] }
    }
}

/// Iterator over the cells of a column.
pub struct ColumnIter<'a> {
    rows: &'a [Row],
    column: usize,
}

impl<'a> ColumnIter<'a> {
    /// The rows not visited yet.
    pub closed spec fn remaining(&self) -> Seq<Row> {
        self.rows@
    }

    /// The column visited.
    pub closed spec fn column(&self) -> usize {
        self.column
    }

    /// The cell of the column in the next row: `None` when there is no row
    /// left, or when that row has no cell in the column.
    pub fn next(&mut self) -> (c: Option<&'a Cell>)
        ensures
            final(self).column() == old(self).column(),
            old(self).remaining().len() == 0 ==> c is None && final(self).remaining() == old(self).remaining(),
            old(self).remaining().len() > 0 ==> {
                &&& final(self).remaining() == old(self).remaining().drop_first()
                &&& c == if old(self).column() < old(self).remaining()[0]@.len() {
                    Some(&old(self).remaining()[0]@[old(self).column() as int])
                } else {
                    None
                }
            },
    {
        if self.rows.len() == 0 {
            return None;
        }
        let row = &self.rows[0];
        let n = self.rows.len();
        self.rows = &self.rows[1..n];
        proof {
            assert(old(self).remaining().drop_first() =~= self.rows@);
        }
        row.get_cell(self.column)
    }
}

/// Iterator over the mutable cells of a column: the rows not visited yet,
/// and the column.
pub struct ColumnIterMut<'a> {
    pub rows: &'a mut [Row],
    pub column: usize,
}

impl<'a> ColumnIterMut<'a> {
    /// The cell of the column in the next row: `None` when there is no row
    /// left, or when that row has no cell in the column.
    pub fn next(&mut self) -> (c: Option<&'a mut Cell>)
        ensures
            final(self).column == old(self).column,
            old(self).rows@.len() == 0 ==> c is None && final(self).rows@ == old(self).rows@
                && final(old(self).rows)@ == final(final(self).rows)@,
            old(self).rows@.len() > 0 ==> {
                &&& final(self).rows@ == old(self).rows@.drop_first()
                &&& if old(self).column < old(self).rows@[0]@.len() {
                    &&& c is Some
                    &&& *c->0 == old(self).rows@[0]@[old(self).column as int]
                    &&& final(old(self).rows)@[0]@ == old(self).rows@[0]@.update(old(self).column as int, *final(c->0))
                } else {
                    &&& c is None
                    &&& final(old(self).rows)@[0] == old(self).rows@[0]
                }
                &&& final(old(self).rows)@.drop_first() == final(final(self).rows)@
            },
    {
        let mut rows: &'a mut [Row] = &mut [];
        core::mem::swap(&mut rows, &mut self.rows);
        if rows.len() == 0 {
            self.rows = rows;
            return None;
        }
        let (first, rest) = rows.split_at_mut(1);
        self.rows = rest;
        first[0].get_mut_cell(self.column)
    }
}

impl Table {
    /// Return an iterator over the mutable cells of the column `column`.
    pub fn column_iter_mut(&mut self, column: usize) -> (it: ColumnIterMut<'_>)
        ensures
            it.rows@ == old(self)@,
            it.column == column,
            final(self)@ == final(it.rows)@,
            final(self).format_spec() == old(self).format_spec(),
            final(self).titles_spec() == old(self).titles_spec(),
    {
        ColumnIterMut { rows: self.rows.as_mut_slice(), column }
    }
}

} // verus!
