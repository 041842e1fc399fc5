//! Ready-made table formats.

use super::{is_separator, FormatBuilder, LinePosition, LineSeparator, TableFormat};
use vstd::prelude::*;

verus! {

/// The line separator `-` with `+` junctions.
pub fn minus_plus_sep() -> (s: LineSeparator)
    ensures
        is_separator(Some(s), '-', '+', '+', '+'),
{
    LineSeparator::new('-', '+', '+', '+')
}

/// The line separator `=` with `+` junctions.
pub fn equ_plus_sep() -> (s: LineSeparator)
    ensures
        is_separator(Some(s), '=', '+', '+', '+'),
{
    LineSeparator::new('=', '+', '+', '+')
}

/// `f` is the default format: `|` separates the columns and draws the
/// borders, `-` lines with `+` junctions stand above, between and below the
/// rows, a `=` line stands under the titles, and one space pads each side of a cell.
pub open spec fn is_format_default(f: TableFormat) -> bool {
    &&& f.csep_spec() == Some('|')
    &&& f.lborder_spec() == Some('|')
    &&& f.rborder_spec() == Some('|')
    &&& is_separator(f.sep_spec(LinePosition::Top), '-', '+', '+', '+')
    &&& is_separator(f.sep_spec(LinePosition::Title), '=', '+', '+', '+')
    &&& is_separator(f.sep_spec(LinePosition::Intern), '-', '+', '+', '+')
    &&& is_separator(f.sep_spec(LinePosition::Bottom), '-', '+', '+', '+')
    &&& f.padding_spec() == (1usize, 1usize)
}

/// The default format:
/// ```text
/// +----+----+
/// | T1 | T2 |
/// +====+====+
/// | a  | b  |
/// +----+----+
/// | c  | d  |
/// +----+----+
/// ```
pub fn format_default() -> (f: TableFormat)
    ensures
        is_format_default(f),
{
    FormatBuilder::new().column_separator('|').borders('|').separator(
        LinePosition::Intern,
        minus_plus_sep(),
    ).separator(LinePosition::Title, equ_plus_sep()).separator(
        LinePosition::Bottom,
        minus_plus_sep(),
    ).separator(LinePosition::Top, minus_plus_sep()).padding(1, 1).build()
}

/// Like the default format, with the title line drawn as the other lines:
/// ```text
/// +----+----+
/// | T1 | T2 |
/// +----+----+
/// | a  | b  |
/// +----+----+
/// ```
pub fn format_no_title() -> (f: TableFormat)
    ensures
        f.csep_spec() == Some('|'),
        f.lborder_spec() == Some('|'),
        f.rborder_spec() == Some('|'),
        is_separator(f.sep_spec(LinePosition::Top), '-', '+', '+', '+'),
        is_separator(f.sep_spec(LinePosition::Title), '-', '+', '+', '+'),
        is_separator(f.sep_spec(LinePosition::Intern), '-', '+', '+', '+'),
        is_separator(f.sep_spec(LinePosition::Bottom), '-', '+', '+', '+'),
        f.padding_spec() == (1usize, 1usize),
{
    FormatBuilder::new().column_separator('|').borders('|').separator(
        LinePosition::Intern,
        minus_plus_sep(),
    ).separator(LinePosition::Title, minus_plus_sep()).separator(
        LinePosition::Bottom,
        minus_plus_sep(),
    ).separator(LinePosition::Top, minus_plus_sep()).padding(1, 1).build()
}

/// With lines above, below and under the titles only:
/// ```text
/// +----+----+
/// | T1 | T2 |
/// +----+----+
/// | a  | b  |
/// | c  | d  |
/// +----+----+
/// ```
pub fn format_no_linesep_with_title() -> (f: TableFormat)
    ensures
        f.csep_spec() == Some('|'),
        f.lborder_spec() == Some('|'),
        f.rborder_spec() == Some('|'),
        is_separator(f.sep_spec(LinePosition::Top), '-', '+', '+', '+'),
        is_separator(f.sep_spec(LinePosition::Title), '-', '+', '+', '+'),
        f.sep_spec(LinePosition::Intern) is None,
        is_separator(f.sep_spec(LinePosition::Bottom), '-', '+', '+', '+'),
        f.padding_spec() == (1usize, 1usize),
{
    FormatBuilder::new().column_separator('|').borders('|').separator(
        LinePosition::Title,
        minus_plus_sep(),
    ).separator(LinePosition::Bottom, minus_plus_sep()).separator(
        LinePosition::Top,
        minus_plus_sep(),
    ).padding(1, 1).build()
}

/// Column separators and borders, and no line:
/// ```text
/// | T1 | T2 |
/// | a  | b  |
/// | c  | d  |
/// ```
pub fn format_no_linesep() -> (f: TableFormat)
    ensures
        f.csep_spec() == Some('|'),
        f.lborder_spec() == Some('|'),
        f.rborder_spec() == Some('|'),
        forall|pos: LinePosition| (#[trigger] f.sep_spec(pos)) is None,
        f.padding_spec() == (1usize, 1usize),
{
    FormatBuilder::new().column_separator('|').borders('|').padding(1, 1).build()
}

/// Lines, and no column separator or border:
/// ```text
/// ------------
///  T1  T2
/// ============
///  a   b
/// ------------
///  d   c
/// ------------
/// ```
pub fn format_no_colsep() -> (f: TableFormat)
    ensures
        f.csep_spec() is None,
        f.lborder_spec() is None,
        f.rborder_spec() is None,
        is_separator(f.sep_spec(LinePosition::Top), '-', '+', '+', '+'),
        is_separator(f.sep_spec(LinePosition::Title), '=', '+', '+', '+'),
        is_separator(f.sep_spec(LinePosition::Intern), '-', '+', '+', '+'),
        is_separator(f.sep_spec(LinePosition::Bottom), '-', '+', '+', '+'),
        f.padding_spec() == (1usize, 1usize),
{
    FormatBuilder::new().separator(LinePosition::Intern, minus_plus_sep()).separator(
        LinePosition::Title,
        equ_plus_sep(),
    ).separator(LinePosition::Bottom, minus_plus_sep()).separator(
        LinePosition::Top,
        minus_plus_sep(),
    ).padding(1, 1).build()
}

/// No separator and no border at all:
/// ```text
///  T1  T2
///  a   b
///  d   c
/// ```
pub fn format_clean() -> (f: TableFormat)
    ensures
        f.csep_spec() is None,
        f.lborder_spec() is None,
        f.rborder_spec() is None,
        forall|pos: LinePosition| (#[trigger] f.sep_spec(pos)) is None,
        f.padding_spec() == (1usize, 1usize),
{
    FormatBuilder::new().padding(1, 1).build()
}

/// Borders and lines above, below and under the titles:
/// ```text
/// +-------+
/// | T1 T2 |
/// +-------+
/// | a  b  |
/// | d  c  |
/// +-------+
/// ```
pub fn format_borders_only() -> (f: TableFormat)
    ensures
        f.csep_spec() == Some(' '),
        f.lborder_spec() == Some('|'),
        f.rborder_spec() == Some('|'),
        is_separator(f.sep_spec(LinePosition::Top), '-', '+', '+', '+'),
        is_separator(f.sep_spec(LinePosition::Title), '-', '+', '+', '+'),
        f.sep_spec(LinePosition::Intern) is None,
        is_separator(f.sep_spec(LinePosition::Bottom), '-', '+', '+', '+'),
        f.padding_spec() == (1usize, 1usize),
{
    let positions = [LinePosition::Top, LinePosition::Bottom];
    FormatBuilder::new().padding(1, 1).separator(LinePosition::Title, minus_plus_sep()).separators(
        &positions,
        minus_plus_sep(),
    ).column_separator(' ').borders('|').build()
}

} // verus!
