use prettytable::cell::Cell;
use prettytable::format::consts::{format_borders_only, format_no_linesep_with_title, format_no_title};
use prettytable::format::{Alignment, ColumnPosition, FormatBuilder, LinePosition, LineSeparator, TableFormat};
use prettytable::row::Row;
use prettytable::{Slice, Table};

fn row(items: &[&str]) -> Row {
    Row::new(items.iter().map(|s| Cell::new(s)).collect())
}

#[test]
fn empty_table_prints_its_frame() {
    let table = Table::new();
    assert_eq!(table.len(), 0);
    assert_eq!(table.get_column_num(), 0);
    assert_eq!(table.to_string(), "++\n++\n");
}

#[test]
fn column_count_is_longest_row() {
    let mut table = Table::new();
    table.add_row(row(&["a"]));
    table.add_row(row(&["a", "b", "c"]));
    table.add_row(row(&["a", "b"]));
    assert_eq!(table.get_column_num(), 3);
}

#[test]
fn titles_wider_than_rows_are_cut_and_widen_columns() {
    let mut table = Table::new();
    table.set_titles(row(&["title", "t2", "t3"]));
    table.add_row(row(&["a", "b"]));
    let out = "\
+-------+----+
| title | t2 |
+=======+====+
| a     | b  |
+-------+----+
";
    assert_eq!(table.to_string(), out);
}

#[test]
fn short_rows_are_filled_with_empty_cells() {
    let mut table = Table::new();
    table.add_row(row(&["a", "b"]));
    table.add_row(row(&["c"]));
    let out = "\
+---+---+
| a | b |
+---+---+
| c |   |
+---+---+
";
    assert_eq!(table.to_string(), out);
}

#[test]
fn multiline_cells_make_tall_rows() {
    let mut table = Table::new();
    table.add_row(row(&["a\nbb", "c"]));
    let out = "\
+----+---+
| a  | c |
| bb |   |
+----+---+
";
    assert_eq!(table.to_string(), out);
}

#[test]
fn empty_row_takes_one_line() {
    let mut table = Table::new();
    table.add_row(row(&["x"]));
    table.add_empty_row();
    let out = "\
+---+
| x |
+---+
|   |
+---+
";
    assert_eq!(table.to_string(), out);
}

#[test]
fn alignments() {
    let mut table = Table::new();
    table.add_row(row(&["abcde", "abcde", "abcde"]));
    table.add_row(Row::new(vec![
        Cell::new_align("ab", Alignment::LEFT),
        Cell::new_align("ab", Alignment::CENTER),
        Cell::new_align("ab", Alignment::RIGHT),
    ]));
    let out = "\
+-------+-------+-------+
| abcde | abcde | abcde |
+-------+-------+-------+
| ab    |  ab   |    ab |
+-------+-------+-------+
";
    assert_eq!(table.to_string(), out);
}

#[test]
fn align_changes_alignment_only() {
    let mut c = Cell::new("ab");
    c.align(Alignment::RIGHT);
    assert_eq!(c.get_content(), "ab");
    let mut out = String::new();
    c.print(&mut out, 0, 5, false);
    assert_eq!(out, "   ab");
}

#[test]
fn cell_print_skips_right_fill() {
    let c = Cell::new("ab");
    let mut out = String::new();
    c.print(&mut out, 0, 5, true);
    assert_eq!(out, "ab");
    let mut out = String::new();
    c.print(&mut out, 3, 4, false);
    assert_eq!(out, "    ");
}

#[test]
fn cell_width_counts_display_columns() {
    let c = Cell::new("日本");
    assert_eq!(c.get_width(), 4);
    let c = Cell::new("ab\nabcd\nabc");
    assert_eq!(c.get_width(), 4);
    assert_eq!(c.get_height(), 3);
}

#[test]
fn wide_characters_are_aligned_by_width() {
    let mut table = Table::new();
    table.add_row(row(&["日本", "x"]));
    table.add_row(row(&["abc", "y"]));
    let out = "\
+------+---+
| 日本 | x |
+------+---+
| abc  | y |
+------+---+
";
    assert_eq!(table.to_string(), out);
}

#[test]
fn cell_lines_follow_str_lines() {
    let c = Cell::new("a\r\nb\n\nc\n");
    assert_eq!(c.get_height(), 4);
    assert_eq!(c.get_content(), "a\nb\n\nc");
    let c = Cell::new("");
    assert_eq!(c.get_height(), 0);
    assert_eq!(c.get_content(), "");
    let c = Cell::new("x\r");
    assert_eq!(c.get_content(), "x\r");
    let d = Cell::default();
    assert_eq!(d.get_height(), 1);
    assert_eq!(d.get_width(), 0);
}

#[test]
fn cell_content_roundtrip() {
    for s in ["", "a", "a\nb", "a\n\nb", "\nb", "newval"] {
        assert_eq!(Cell::new(s).get_content(), s);
    }
}

#[test]
fn set_element_changes_one_cell() {
    let mut table = Table::new();
    table.add_row(row(&["a", "b"]));
    table.add_row(row(&["c", "d"]));
    assert_eq!(table.set_element("x", 1, 0), Ok(()));
    assert_eq!(table.get_row(0).unwrap().get_cell(1).unwrap().get_content(), "x");
    assert_eq!(table.get_row(0).unwrap().get_cell(0).unwrap().get_content(), "a");
    assert_eq!(table.get_row(1).unwrap().get_cell(1).unwrap().get_content(), "d");
}

#[test]
fn set_element_errors() {
    let mut table = Table::new();
    table.add_row(row(&["a", "b"]));
    assert_eq!(table.set_element("x", 0, 1), Err("Cannot find row"));
    assert_eq!(table.set_element("x", 2, 0), Err("Cannot find cell"));
    assert_eq!(table.get_row(0).unwrap().get_cell(0).unwrap().get_content(), "a");
}

#[test]
fn insert_and_remove_rows() {
    let mut table = Table::new();
    table.add_row(row(&["0"]));
    table.add_row(row(&["1"]));
    table.insert_row(1, row(&["new"]));
    assert_eq!(table.len(), 3);
    assert_eq!(table.get_row(1).unwrap().get_cell(0).unwrap().get_content(), "new");
    assert_eq!(table.get_row(2).unwrap().get_cell(0).unwrap().get_content(), "1");
    table.remove_row(1);
    assert_eq!(table.len(), 2);
    assert_eq!(table.get_row(1).unwrap().get_cell(0).unwrap().get_content(), "1");
    table.insert_row(10, row(&["last"]));
    assert_eq!(table.len(), 3);
    assert_eq!(table.get_row(2).unwrap().get_cell(0).unwrap().get_content(), "last");
    table.remove_row(10);
    assert_eq!(table.len(), 3);
    table.remove_row(2);
    assert_eq!(table.len(), 2);
    assert!(table.get_row(2).is_none());
}

#[test]
fn remove_undoes_insert() {
    let mut table = Table::new();
    table.add_row(row(&["a"]));
    table.add_row(row(&["b"]));
    let before = table.to_string();
    table.insert_row(0, row(&["zzz"]));
    assert_ne!(table.to_string(), before);
    table.remove_row(0);
    assert_eq!(table.to_string(), before);
    table.add_row(row(&["wide cell"]));
    table.remove_row(2);
    assert_eq!(table.to_string(), before);
}

#[test]
fn add_row_returns_the_new_row() {
    let mut table = Table::new();
    let r = table.add_row(row(&["a"]));
    r.add_cell(Cell::new("b"));
    assert_eq!(table.get_row(0).unwrap().len(), 2);
    let r = table.add_empty_row();
    assert!(r.is_empty());
    assert_eq!(table.len(), 2);
}

#[test]
fn titles_set_and_unset() {
    let mut table = Table::new();
    table.add_row(row(&["a"]));
    table.set_titles(row(&["t"]));
    assert_eq!(table.to_string(), "+---+\n| t |\n+===+\n| a |\n+---+\n");
    table.unset_titles();
    assert_eq!(table.to_string(), "+---+\n| a |\n+---+\n");
}

#[test]
fn title_line_falls_back_to_row_line() {
    let mut table = Table::new();
    table.add_row(row(&["a"]));
    table.set_titles(row(&["t"]));
    let f = FormatBuilder::new()
        .borders('|')
        .separator(LinePosition::Intern, LineSeparator::new('~', '+', '<', '>'))
        .build();
    table.set_format(f);
    assert_eq!(table.to_string(), "|t|\n<~>\n|a|\n");
}

#[test]
fn other_formats() {
    let mut table = Table::new();
    table.set_titles(row(&["T1", "T2"]));
    table.add_row(row(&["a", "b"]));
    table.add_row(row(&["c", "d"]));
    table.set_format(format_no_title());
    assert_eq!(
        table.to_string(),
        "+----+----+\n| T1 | T2 |\n+----+----+\n| a  | b  |\n+----+----+\n| c  | d  |\n+----+----+\n"
    );
    table.set_format(format_no_linesep_with_title());
    assert_eq!(
        table.to_string(),
        "+----+----+\n| T1 | T2 |\n+----+----+\n| a  | b  |\n| c  | d  |\n+----+----+\n"
    );
    table.set_format(format_borders_only());
    assert_eq!(
        table.to_string(),
        "+----+----+\n| T1   T2 |\n+----+----+\n| a    b  |\n| c    d  |\n+----+----+\n"
    );
}

#[test]
fn box_characters_format() {
    let mut table = Table::new();
    table.add_row(row(&["Value 1", "Value 2"]));
    table.add_row(row(&["Value three", "Value four"]));
    table.set_titles(row(&["Title 1", "Title 2"]));
    table.set_format(
        FormatBuilder::new()
            .column_separator('│')
            .borders('│')
            .separators(&[LinePosition::Top], LineSeparator::new('─', '┬', '┌', '┐'))
            .separators(&[LinePosition::Intern], LineSeparator::new('─', '┼', '├', '┤'))
            .separators(&[LinePosition::Bottom], LineSeparator::new('─', '┴', '└', '┘'))
            .padding(1, 1)
            .build(),
    );
    let out = "\
┌─────────────┬────────────┐
│ Title 1     │ Title 2    │
├─────────────┼────────────┤
│ Value 1     │ Value 2    │
├─────────────┼────────────┤
│ Value three │ Value four │
└─────────────┴────────────┘
";
    assert_eq!(table.to_string(), out);
}

#[test]
fn format_accessors() {
    let mut f = TableFormat::new();
    assert_eq!(f.get_padding(), (0, 0));
    assert_eq!(f.get_column_separator(ColumnPosition::Intern), None);
    f.padding(2, 3);
    f.column_separator('!');
    f.borders('#');
    assert_eq!(f.get_padding(), (2, 3));
    assert_eq!(f.get_column_separator(ColumnPosition::Left), Some('#'));
    assert_eq!(f.get_column_separator(ColumnPosition::Intern), Some('!'));
    assert_eq!(f.get_column_separator(ColumnPosition::Right), Some('#'));
    let mut out = String::new();
    f.print_line_separator(&mut out, &[1, 2], LinePosition::Top);
    assert_eq!(out, "");
    f.separator(LinePosition::Top, LineSeparator::default());
    f.print_line_separator(&mut out, &[1, 2], LinePosition::Top);
    assert_eq!(out, "+------+-------+\n");
}

#[test]
fn row_operations() {
    let mut r = Row::empty();
    assert!(r.is_empty());
    r.add_cell(Cell::new("a"));
    r.insert_cell(0, Cell::new("b"));
    r.insert_cell(5, Cell::new("c"));
    assert_eq!(r.len(), 3);
    assert_eq!(r.get_cell(0).unwrap().get_content(), "b");
    assert_eq!(r.get_cell(2).unwrap().get_content(), "c");
    assert_eq!(r.set_cell(Cell::new("z"), 1), Ok(()));
    assert_eq!(r.get_cell(1).unwrap().get_content(), "z");
    assert_eq!(r.set_cell(Cell::new("z"), 3), Err("Cannot find cell"));
    r.remove_cell(7);
    assert_eq!(r.len(), 3);
    r.remove_cell(0);
    assert_eq!(r.len(), 2);
    assert_eq!(r.get_cell_width(0), 1);
    assert_eq!(r.get_cell_width(9), 0);
    assert!(r.get_cell(2).is_none());
    assert_eq!(r.get_height(), 1);
}

#[test]
fn column_iterators() {
    let mut table = Table::new();
    table.add_row(row(&["a", "b"]));
    table.add_row(row(&["c"]));
    table.add_row(row(&["d", "e"]));
    let mut it = table.column_iter(1);
    assert_eq!(it.next().unwrap().get_content(), "b");
    assert!(it.next().is_none());
    assert_eq!(it.next().unwrap().get_content(), "e");
    assert!(it.next().is_none());

    let mut it = table.column_iter_mut(0);
    while let Some(c) = it.next() {
        *c = Cell::new("x");
    }
    let contents: Vec<String> = table.row_iter().iter().map(|r| r.get_cell(0).unwrap().get_content()).collect();
    assert_eq!(contents, vec!["x", "x", "x"]);

    for r in table.row_iter_mut() {
        r.add_cell(Cell::new("y"));
    }
    assert_eq!(table.get_column_num(), 3);
    assert_eq!(table.as_ref().row_iter().len(), 3);
    assert_eq!(table.as_ref().column_iter(0).next().unwrap().get_content(), "x");
}

#[test]
fn slices_of_slices() {
    let mut table = Table::new();
    for i in 0..6 {
        table.add_row(row(&[&i.to_string()]));
    }
    let s = table.slice(1..5);
    assert_eq!(s.len(), 4);
    let t = s.slice(1..3);
    assert_eq!(t.to_string(), table.slice(2..4).to_string());
    assert_eq!(t.get_row(0).unwrap().get_cell(0).unwrap().get_content(), "2");
    assert!(t.get_row(2).is_none());
    assert_eq!(t.get_column_num(), 1);
    assert_eq!(table.slice(3..3).to_string(), "++\n++\n");
}

#[test]
fn print_appends() {
    let mut table = Table::init(vec![row(&["a"])]);
    let mut out = String::from("> ");
    table.print(&mut out);
    assert_eq!(out, "> +---+\n| a |\n+---+\n");
    let mut out = String::new();
    table.as_ref().print(&mut out);
    assert_eq!(out, table.to_string());
    table.get_mut_row(0).unwrap().add_cell(Cell::new("b"));
    assert!(table.get_mut_row(1).is_none());
    assert_eq!(table.to_string(), "+---+---+\n| a | b |\n+---+---+\n");
}
