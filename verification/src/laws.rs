//! Properties that hold of the library as a whole.

use crate::cell::{
    join_lines, lemma_max_line_width, lemma_split_nonempty, split_at_newlines, strip_cr, text_lines, Cell,
};
use crate::format::{opt_char, Alignment, ColumnPosition, LinePosition, TableFormat};
use crate::row::{cell_width_at, row_column_text, row_columns_text, row_height, row_line_text, row_text, Row};
use crate::utils::{align_text, display_width, repeat};
use crate::{
    column_count, column_width, column_widths, rows_after_insert, rows_after_remove, rows_column_width, rows_text,
    table_text,
};
use vstd::prelude::*;

verus! {

/// The number of columns of a table is the number of cells of its longest
/// row: no row has more cells, and, when there are rows, one has that many.
pub proof fn law_column_count_is_longest_row(rows: Seq<Row>)
    ensures
        forall|i: int| 0 <= i < rows.len() ==> (#[trigger] rows[i])@.len() <= column_count(rows),
        rows.len() == 0 ==> column_count(rows) == 0,
        rows.len() > 0 ==> exists|i: int| 0 <= i < rows.len() && (#[trigger] rows[i])@.len() == column_count(rows),
    decreases rows.len(),
{
    if rows.len() > 0 {
        let prev = rows.drop_last();
        law_column_count_is_longest_row(prev);
        assert forall|i: int| 0 <= i < rows.len() implies (#[trigger] rows[i])@.len() <= column_count(rows) by {
            if i < rows.len() - 1 {
                assert(rows[i] == prev[i]);
            }
        }
        if rows.last()@.len() >= column_count(prev) {
            assert(rows[rows.len() - 1]@.len() == column_count(rows));
        } else {
            let k = choose|k: int| 0 <= k < prev.len() && (#[trigger] prev[k])@.len() == column_count(prev);
            assert(rows[k] == prev[k]);
        }
    }
}

/// The width of a cell fits in a `usize`.
pub proof fn lemma_cell_width_bounded(cells: Seq<Cell>, col: int)
    ensures
        cell_width_at(cells, col) <= usize::MAX,
{
    if 0 <= col < cells.len() {
        lemma_max_line_width(cells[col]@);
    }
}

/// The widest cell of `rows` in column `col` is at least as wide as every
/// cell of that column, and is one of them, or 0.
pub proof fn lemma_rows_column_width(rows: Seq<Row>, col: int)
    ensures
        forall|i: int| 0 <= i < rows.len() ==> cell_width_at((#[trigger] rows[i])@, col) <= rows_column_width(rows, col),
        rows_column_width(rows, col) == 0 || exists|i: int|
            0 <= i < rows.len() && cell_width_at((#[trigger] rows[i])@, col) == rows_column_width(rows, col),
        rows_column_width(rows, col) <= usize::MAX,
    decreases rows.len(),
{
    if rows.len() > 0 {
        let prev = rows.drop_last();
        lemma_rows_column_width(prev, col);
        lemma_cell_width_bounded(rows.last()@, col);
        assert forall|i: int| 0 <= i < rows.len() implies cell_width_at((#[trigger] rows[i])@, col) <= rows_column_width(rows, col) by {
            if i < rows.len() - 1 {
                assert(rows[i] == prev[i]);
            }
        }
        if cell_width_at(rows.last()@, col) < rows_column_width(prev, col) {
            let k = choose|k: int|
                0 <= k < prev.len() && cell_width_at((#[trigger] prev[k])@, col) == rows_column_width(prev, col);
            assert(rows[k] == prev[k]);
        } else {
            assert(cell_width_at(rows[rows.len() - 1]@, col) == rows_column_width(rows, col));
        }
    }
}

/// Every column is as wide as its widest cell, titles included: no cell of a
/// row or of the titles is wider than its column, and the column is exactly
/// as wide as one of them, or 0 wide.
pub proof fn law_columns_fit_their_cells(titles: Option<Row>, rows: Seq<Row>)
    ensures
        column_widths(titles, rows).len() == column_count(rows),
        forall|i: int, j: int|
            0 <= i < rows.len() && 0 <= j < column_count(rows) ==> cell_width_at((#[trigger] rows[i])@, j)
                <= #[trigger] column_widths(titles, rows)[j],
        forall|j: int|
            0 <= j < column_count(rows) && titles is Some ==> cell_width_at(titles->0@, j)
                <= #[trigger] column_widths(titles, rows)[j],
        forall|j: int|
            0 <= j < column_count(rows) ==> {
                ||| #[trigger] column_widths(titles, rows)[j] == 0
                ||| (titles is Some && column_widths(titles, rows)[j] == cell_width_at(titles->0@, j))
                ||| exists|i: int|
                    0 <= i < rows.len() && column_widths(titles, rows)[j] == cell_width_at((#[trigger] rows[i])@, j)
            },
{
    assert forall|j: int| 0 <= j < column_count(rows) implies column_widths(titles, rows)[j] == column_width(
        titles,
        rows,
        j,
    ) by {
        lemma_rows_column_width(rows, j);
        if titles is Some {
            lemma_cell_width_bounded(titles->0@, j);
        }
    }
    assert forall|i: int, j: int|
        0 <= i < rows.len() && 0 <= j < column_count(rows) implies cell_width_at((#[trigger] rows[i])@, j)
        <= #[trigger] column_widths(titles, rows)[j] by {
        lemma_rows_column_width(rows, j);
    }
    assert forall|j: int| 0 <= j < column_count(rows) implies {
        ||| #[trigger] column_widths(titles, rows)[j] == 0
        ||| (titles is Some && column_widths(titles, rows)[j] == cell_width_at(titles->0@, j))
        ||| exists|i: int|
            0 <= i < rows.len() && column_widths(titles, rows)[j] == cell_width_at((#[trigger] rows[i])@, j)
    } by {
        lemma_rows_column_width(rows, j);
    }
}

/// Every line of every cell of a table fits in its column: its displayed
/// width is at most the width of the column.
pub proof fn law_cell_lines_fit_their_column(titles: Option<Row>, rows: Seq<Row>, i: int, j: int, k: int)
    requires
        0 <= i < rows.len(),
        0 <= j < rows[i]@.len(),
        0 <= k < rows[i]@[j]@.len(),
    ensures
        j < column_count(rows),
        display_width(rows[i]@[j]@[k]) <= column_widths(titles, rows)[j],
{
    law_column_count_is_longest_row(rows);
    law_columns_fit_their_cells(titles, rows);
    lemma_max_line_width(rows[i]@[j]@);
    assert(cell_width_at(rows[i]@, j) == rows[i]@[j].width_spec());
}

/// Removing the row that `insert_row` (or `add_row`) has just put in gives
/// back the rows as they were.
pub proof fn law_remove_undoes_insert(rows: Seq<Row>, index: int, row: Row)
    requires
        0 <= index,
    ensures
        rows_after_remove(rows_after_insert(rows, index, row), if index < rows.len() { index } else { rows.len() as int })
            == rows,
{
    if index < rows.len() {
        assert(rows.insert(index, row).remove(index) =~= rows);
    } else {
        assert(rows.push(row).remove(rows.len() as int) =~= rows);
    }
}

/// Slicing a slice selects the same rows as one slice of the table with
/// the ranges composed.
pub proof fn law_slice_of_slice(rows: Seq<Row>, a: int, b: int, c: int, d: int)
    requires
        0 <= a <= b <= rows.len(),
        0 <= c <= d <= b - a,
    ensures
        rows.subrange(a, b).subrange(c, d) == rows.subrange(a + c, a + d),
{
    assert(rows.subrange(a, b).subrange(c, d) =~= rows.subrange(a + c, a + d));
}

/// Joining the pieces of a text with newlines gives the text back.
pub proof fn lemma_join_split(s: Seq<char>)
    ensures
        join_lines(split_at_newlines(s)) == s,
        split_at_newlines(s).last().len() == 0 <==> (s.len() == 0 || s.last() == '\n'),
        (forall|i: int| 0 <= i < s.len() ==> s[i] != '\r') ==> forall|k: int|
            0 <= k < split_at_newlines(s).len() ==> forall|m: int|
                0 <= m < (#[trigger] split_at_newlines(s)[k]).len() ==> split_at_newlines(s)[k][m] != '\r',
    decreases s.len(),
{
    lemma_split_nonempty(s);
    if s.len() > 0 {
        let prev = s.drop_last();
        let pp = split_at_newlines(prev);
        lemma_join_split(prev);
        lemma_split_nonempty(prev);
        let p = split_at_newlines(s);
        if s.last() == '\n' {
            assert(p.drop_last() =~= pp);
            assert(join_lines(p) =~= s);
        } else {
            assert(p.drop_last() =~= pp.drop_last());
            if pp.len() == 1 {
                assert(join_lines(pp) == pp[0]);
                assert(p[0] == pp[0].push(s.last()));
                assert(prev.push(s.last()) =~= s);
                assert(p.len() == 1);
                assert(join_lines(p) == p[0]);
            } else {
                assert(join_lines(pp) == join_lines(pp.drop_last()) + seq!['\n'] + pp.last());
                assert(p.len() == pp.len());
                assert(p.last() == pp.last().push(s.last()));
                assert(join_lines(p) == join_lines(p.drop_last()) + seq!['\n'] + p.last());
                assert(prev.push(s.last()) =~= s);
                assert(join_lines(p) =~= s);
            }
        }
        if forall|i: int| 0 <= i < s.len() ==> s[i] != '\r' {
            assert forall|i: int| 0 <= i < prev.len() implies prev[i] != '\r' by {
                assert(prev[i] == s[i]);
            }
            assert forall|k: int| 0 <= k < p.len() implies forall|m: int|
                0 <= m < (#[trigger] p[k]).len() ==> p[k][m] != '\r' by {
                if k < pp.len() - 1 || (k == pp.len() - 1 && s.last() == '\n') {
                    assert(p[k] == pp[k]);
                } else if k == pp.len() - 1 {
                    assert forall|m: int| 0 <= m < p[k].len() implies p[k][m] != '\r' by {
                        if m < pp[k].len() {
                            assert(p[k][m] == pp[k][m]);
                        }
                    }
                }
            }
        }
    }
}

/// A cell made from a text without carriage return nor final newline gives
/// that text back as its content.
pub proof fn law_cell_content_roundtrip(s: Seq<char>)
    requires
        forall|i: int| 0 <= i < s.len() ==> s[i] != '\r',
        s.len() == 0 || s.last() != '\n',
    ensures
        join_lines(text_lines(s)) == s,
{
    lemma_join_split(s);
    lemma_split_nonempty(s);
    let p = split_at_newlines(s);
    let ended = p.drop_last().map_values(|l: Seq<char>| strip_cr(l));
    assert(ended =~= p.drop_last()) by {
        assert forall|k: int| 0 <= k < p.drop_last().len() implies #[trigger] ended[k] == p.drop_last()[k] by {
            assert(p.drop_last()[k] == p[k]);
            if p[k].len() > 0 {
                assert(p[k][p[k].len() - 1] != '\r');
            }
        }
    }
    if s.len() == 0 {
        assert(text_lines(s) =~= Seq::<Seq<char>>::empty());
    } else {
        assert(text_lines(s) =~= p);
    }
}

/// A row is as tall as its tallest cell, and at least one line tall, so that
/// an empty row is still printed.
pub proof fn law_row_height(cells: Seq<Cell>)
    ensures
        row_height(cells) >= 1,
        forall|j: int| 0 <= j < cells.len() ==> (#[trigger] cells[j])@.len() <= row_height(cells),
        row_height(cells) == 1 || exists|j: int| 0 <= j < cells.len() && (#[trigger] cells[j])@.len() == row_height(cells),
    decreases cells.len(),
{
    if cells.len() > 0 {
        let prev = cells.drop_last();
        law_row_height(prev);
        assert forall|j: int| 0 <= j < cells.len() implies (#[trigger] cells[j])@.len() <= row_height(cells) by {
            if j < cells.len() - 1 {
                assert(cells[j] == prev[j]);
            }
        }
        if cells.last()@.len() > row_height(prev) {
            assert(cells[cells.len() - 1]@.len() == row_height(cells));
        } else if row_height(prev) != 1 {
            let k = choose|k: int| 0 <= k < prev.len() && (#[trigger] prev[k])@.len() == row_height(prev);
            assert(cells[k] == prev[k]);
        }
    }
}

/// The text of the first `m` columns of a row line is the start of the text
/// of its first `k` columns, for `m <= k`.
pub proof fn lemma_columns_prefix(cells: Seq<Cell>, format: TableFormat, widths: Seq<usize>, i: int, m: nat, k: nat)
    requires
        m <= k,
    ensures
        exists|rest: Seq<char>| row_columns_text(cells, format, widths, i, k) == row_columns_text(cells, format, widths, i, m) + rest,
    decreases k,
{
    if m == k {
        assert(row_columns_text(cells, format, widths, i, k) == row_columns_text(cells, format, widths, i, m) + Seq::<char>::empty());
    } else {
        lemma_columns_prefix(cells, format, widths, i, m, (k - 1) as nat);
        let rest = choose|rest: Seq<char>|
            row_columns_text(cells, format, widths, i, (k - 1) as nat) == row_columns_text(cells, format, widths, i, m) + rest;
        let last = row_column_text(cells, format, widths, i, k - 1);
        assert(row_columns_text(cells, format, widths, i, k) == row_columns_text(cells, format, widths, i, m) + (rest + last));
    }
}

/// The start of a row line: left border, left padding, first aligned cell.
pub proof fn lemma_row_line_start(cells: Seq<Cell>, format: TableFormat, widths: Seq<usize>, i: int)
    requires
        1 <= widths.len() <= cells.len(),
    ensures
        (opt_char(format.column_sep(ColumnPosition::Left)) + repeat(' ', format.padding_spec().0 as nat) + align_text(
            cells[0].alignment(),
            cells[0].line(i),
            ' ',
            widths[0] as nat,
            widths.len() == 1 && format.column_sep(ColumnPosition::Right) is None,
        )).is_prefix_of(row_line_text(cells, format, widths, i)),
{
    let n = widths.len();
    let l = opt_char(format.column_sep(ColumnPosition::Left));
    let r = opt_char(format.column_sep(ColumnPosition::Right));
    let pad = format.padding_spec();
    // first column
    lemma_columns_prefix(cells, format, widths, i, 1, n);
    let rest = choose|rest: Seq<char>|
        row_columns_text(cells, format, widths, i, n) == row_columns_text(cells, format, widths, i, 1) + rest;
    let c0 = row_column_text(cells, format, widths, i, 0);
    assert(row_columns_text(cells, format, widths, i, 0) == Seq::<char>::empty());
    assert(row_columns_text(cells, format, widths, i, 1) =~= c0);
    let a0 = align_text(
        cells[0].alignment(),
        cells[0].line(i),
        ' ',
        widths[0] as nat,
        n == 1 && format.column_sep(ColumnPosition::Right) is None,
    );
    let after0 = repeat(' ', pad.1 as nat) + if n == 1 { seq![] } else { opt_char(format.column_sep(ColumnPosition::Intern)) };
    assert(c0 =~= repeat(' ', pad.0 as nat) + a0 + after0);
    let line = row_line_text(cells, format, widths, i);
    let pre = l + repeat(' ', pad.0 as nat) + a0;
    assert(line =~= pre + (after0 + rest + r + seq!['\n']));
    assert(pre =~= line.subrange(0, pre.len() as int));
}

/// The end of a row line: last aligned cell, right padding, right border.
pub proof fn lemma_row_line_end(cells: Seq<Cell>, format: TableFormat, widths: Seq<usize>, i: int)
    requires
        1 <= widths.len() <= cells.len(),
    ensures
        (align_text(
            cells[widths.len() - 1].alignment(),
            cells[widths.len() - 1].line(i),
            ' ',
            widths.last() as nat,
            format.column_sep(ColumnPosition::Right) is None,
        ) + repeat(' ', format.padding_spec().1 as nat) + opt_char(format.column_sep(ColumnPosition::Right))
            + seq!['\n']).is_suffix_of(row_line_text(cells, format, widths, i)),
{
    let n = widths.len();
    let l = opt_char(format.column_sep(ColumnPosition::Left));
    let r = opt_char(format.column_sep(ColumnPosition::Right));
    let pad = format.padding_spec();
    let line = row_line_text(cells, format, widths, i);
    // last column
    let prev = row_columns_text(cells, format, widths, i, (n - 1) as nat);
    let cl = row_column_text(cells, format, widths, i, n - 1);
    let al = align_text(
        cells[n - 1].alignment(),
        cells[n - 1].line(i),
        ' ',
        widths.last() as nat,
        format.column_sep(ColumnPosition::Right) is None,
    );
    assert(cl =~= repeat(' ', pad.0 as nat) + al + repeat(' ', pad.1 as nat)) by {
        let j = n - 1;
        assert(j == widths.len() - 1);
        assert(j < cells.len());
    }
    assert(row_columns_text(cells, format, widths, i, n) == prev + cl);
    assert(line == l + (prev + cl) + r + seq!['\n']);
    let suf = al + repeat(' ', pad.1 as nat) + r + seq!['\n'];
    let start = l + prev + repeat(' ', pad.0 as nat);
    assert(line =~= start + suf);
    assert(suf =~= line.subrange(line.len() - suf.len(), line.len() as int));
}

/// Every printed row line begins with the left border, then exactly the
/// left padding in spaces, then the first cell's line aligned in the first
/// column; it ends with the last cell's line aligned in the last column,
/// then exactly the right padding in spaces, then the right border and the
/// end of line.
pub proof fn law_row_line_padding(cells: Seq<Cell>, format: TableFormat, widths: Seq<usize>, i: int)
    requires
        1 <= widths.len() <= cells.len(),
    ensures
        (opt_char(format.column_sep(ColumnPosition::Left)) + repeat(' ', format.padding_spec().0 as nat) + align_text(
            cells[0].alignment(),
            cells[0].line(i),
            ' ',
            widths[0] as nat,
            widths.len() == 1 && format.column_sep(ColumnPosition::Right) is None,
        )).is_prefix_of(row_line_text(cells, format, widths, i)),
        (align_text(
            cells[widths.len() - 1].alignment(),
            cells[widths.len() - 1].line(i),
            ' ',
            widths.last() as nat,
            format.column_sep(ColumnPosition::Right) is None,
        ) + repeat(' ', format.padding_spec().1 as nat) + opt_char(format.column_sep(ColumnPosition::Right))
            + seq!['\n']).is_suffix_of(row_line_text(cells, format, widths, i)),
{
    lemma_row_line_start(cells, format, widths, i);
    lemma_row_line_end(cells, format, widths, i);
}

/// Leaving out the right fill only drops fill characters after the text:
/// adding some fill back gives the text with its right fill.
pub proof fn law_skip_right_fill_only_drops_trailing_fill(align: Alignment, text: Seq<char>, fill: char, size: nat)
    ensures
        exists|k: nat| align_text(align, text, fill, size, true) + repeat(fill, k) == align_text(align, text, fill, size, false),
{
    let tw = display_width(text) as nat;
    let nfill: nat = if tw < size { (size - tw) as nat } else { 0 };
    let n: nat = match align {
        Alignment::LEFT => 0,
        Alignment::RIGHT => nfill,
        Alignment::CENTER => nfill / 2,
    };
    let k = (nfill - n) as nat;
    assert(align_text(align, text, fill, size, true) + repeat(fill, k) =~= align_text(align, text, fill, size, false));
}

/// A right-aligned text is preceded by as much fill as the field is wider
/// than the text, and followed by none, whether the right fill is left out
/// or not; a left-aligned text is followed by that fill unless it is left out.
pub proof fn law_right_and_left_alignment(text: Seq<char>, fill: char, size: nat, skip_right_fill: bool)
    ensures
        display_width(text) < size ==> align_text(Alignment::RIGHT, text, fill, size, skip_right_fill) == repeat(
            fill,
            (size - display_width(text)) as nat,
        ) + text,
        display_width(text) < size && !skip_right_fill ==> align_text(Alignment::LEFT, text, fill, size, skip_right_fill)
            == text + repeat(fill, (size - display_width(text)) as nat),
        display_width(text) >= size ==> align_text(Alignment::RIGHT, text, fill, size, skip_right_fill) == text
            && align_text(Alignment::LEFT, text, fill, size, skip_right_fill) == text,
{
    assert(align_text(Alignment::RIGHT, text, fill, size, skip_right_fill) =~= repeat(
        fill,
        (if display_width(text) < size { size - display_width(text) } else { 0 }) as nat,
    ) + text);
    assert(align_text(Alignment::LEFT, text, fill, size, skip_right_fill) =~= text + (if skip_right_fill {
        seq![]
    } else {
        repeat(fill, (if display_width(text) < size { size - display_width(text) } else { 0 }) as nat)
    }));
}

/// The last piece of a text, when not empty, ends with the text's last character.
pub proof fn lemma_last_piece(s: Seq<char>)
    ensures
        split_at_newlines(s).len() >= 1,
        split_at_newlines(s).last().len() > 0 ==> s.len() > 0 && split_at_newlines(s).last().last() == s.last(),
    decreases s.len(),
{
    lemma_split_nonempty(s);
    if s.len() > 0 {
        lemma_split_nonempty(s.drop_last());
    }
}

/// A CRLF line ending cuts lines as an LF line ending does: the carriage
/// return before a final newline is dropped. This holds for every text that
/// does not itself end with a carriage return (with `s` = "a\r", "a\r\r\n"
/// keeps one carriage return while "a\r\n" keeps none).
pub proof fn law_crlf_ends_lines_like_lf(s: Seq<char>)
    requires
        s.len() == 0 || s.last() != '\r',
    ensures
        text_lines(s + seq!['\r', '\n']) == text_lines(s + seq!['\n']),
{
    lemma_last_piece(s);
    let p = split_at_newlines(s);
    let scr = s + seq!['\r'];
    let scrlf = s + seq!['\r', '\n'];
    let slf = s + seq!['\n'];
    assert(scr.drop_last() =~= s);
    assert(scrlf.drop_last() =~= scr);
    assert(slf.drop_last() =~= s);
    let pcr = split_at_newlines(scr);
    assert(pcr == p.update(p.len() - 1, p.last().push('\r')));
    let a = split_at_newlines(scrlf);
    let b = split_at_newlines(slf);
    assert(a == pcr.push(seq![]));
    assert(b == p.push(seq![]));
    assert(strip_cr(p.last().push('\r')) =~= p.last());
    assert(strip_cr(p.last()) == p.last());
    assert(a.drop_last().map_values(|l: Seq<char>| strip_cr(l)) =~= b.drop_last().map_values(|l: Seq<char>| strip_cr(l)));
}

/// Removing a row that does not exist changes nothing; removing one that
/// exists leaves one row less, the rows before it in place and the rows after
/// it moved up by one.
pub proof fn law_remove_row(rows: Seq<Row>, index: int)
    requires
        0 <= index,
    ensures
        index >= rows.len() ==> rows_after_remove(rows, index) == rows,
        index < rows.len() ==> {
            &&& rows_after_remove(rows, index).len() == rows.len() - 1
            &&& forall|j: int| 0 <= j < index ==> #[trigger] rows_after_remove(rows, index)[j] == rows[j]
            &&& forall|j: int| index <= j < rows.len() - 1 ==> #[trigger] rows_after_remove(rows, index)[j] == rows[j + 1]
        },
{
}

/// The line between rows stands between every two consecutive rows, however
/// tall they are: the rows printed before and after any row boundary are
/// joined by exactly that line.
pub proof fn law_line_between_every_two_rows(rows: Seq<Row>, format: TableFormat, widths: Seq<usize>, k: int)
    requires
        0 < k < rows.len(),
    ensures
        rows_text(rows, format, widths) == rows_text(rows.take(k), format, widths) + format.line_text(
            LinePosition::Intern,
            widths,
        ) + rows_text(rows.skip(k), format, widths),
    decreases rows.len(),
{
    let sep = format.line_text(LinePosition::Intern, widths);
    let last = row_text(rows.last()@, format, widths);
    if k == rows.len() - 1 {
        assert(rows.take(k) =~= rows.drop_last());
        let one = rows.skip(k);
        assert(one.drop_last() =~= Seq::<Row>::empty());
        assert(rows_text(Seq::<Row>::empty(), format, widths) == Seq::<char>::empty());
        assert(one.last() == rows.last());
        assert(rows_text(one, format, widths) =~= last);
    } else {
        let prev = rows.drop_last();
        law_line_between_every_two_rows(prev, format, widths, k);
        assert(prev.take(k) =~= rows.take(k));
        let tail = rows.skip(k);
        assert(tail.drop_last() =~= prev.skip(k));
        assert(tail.last() == rows.last());
        assert(tail.len() > 1);
        assert(rows_text(tail, format, widths) == rows_text(prev.skip(k), format, widths) + sep + last);
    }
}

/// A table of two rows without titles prints as: the top line, the first
/// row, the line between rows, the second row, the bottom line.
#[verifier::rlimit(50)]
pub proof fn law_two_rows_text(format: TableFormat, r1: Row, r2: Row)
    ensures
        ({
            let rows = seq![r1, r2];
            let w = column_widths(None, rows);
            table_text(format, None, rows) == format.line_text(LinePosition::Top, w) + row_text(r1@, format, w)
                + format.line_text(LinePosition::Intern, w) + row_text(r2@, format, w) + format.line_text(
                LinePosition::Bottom,
                w,
            )
        }),
{
    let rows = seq![r1, r2];
    let w = column_widths(None, rows);
    law_line_between_every_two_rows(rows, format, w, 1);
    let a = rows.take(1);
    let b = rows.skip(1);
    assert(a.drop_last() =~= Seq::<Row>::empty());
    assert(a.last() == r1);
    assert(b.drop_last() =~= Seq::<Row>::empty());
    assert(b.last() == r2);
    assert(rows_text(Seq::<Row>::empty(), format, w) == Seq::<char>::empty());
    assert(rows_text(a, format, w) =~= row_text(r1@, format, w));
    assert(rows_text(b, format, w) =~= row_text(r2@, format, w));
    assert(rows_text(rows, format, w) == row_text(r1@, format, w) + format.line_text(LinePosition::Intern, w)
        + row_text(r2@, format, w));
    assert(table_text(format, None, rows) =~= format.line_text(LinePosition::Top, w) + row_text(r1@, format, w)
        + format.line_text(LinePosition::Intern, w) + row_text(r2@, format, w) + format.line_text(
        LinePosition::Bottom,
        w,
    ));
}

} // verus!
