use prettytable::cell::Cell;
use prettytable::format::consts::{format_clean, format_no_colsep, format_no_linesep};
use prettytable::row::Row;
use prettytable::{Slice, Table};

#[test]
fn table() {
    let mut table = Table::new();
    table.add_row(Row::new(vec![Cell::new("a"), Cell::new("bc"), Cell::new("def")]));
    table.add_row(Row::new(vec![Cell::new("def"), Cell::new("bc"), Cell::new("a")]));
    table.set_titles(Row::new(vec![Cell::new("t1"), Cell::new("t2"), Cell::new("t3")]));
    let out = "\
+-----+----+-----+
| t1  | t2 | t3  |
+=====+====+=====+
| a   | bc | def |
+-----+----+-----+
| def | bc | a   |
+-----+----+-----+
";
    assert_eq!(table.to_string().replace("\r\n", "\n"), out);
}

#[test]
fn index() {
    let mut table = Table::new();
    table.add_row(Row::new(vec![Cell::new("a"), Cell::new("bc"), Cell::new("def")]));
    table.add_row(Row::new(vec![Cell::new("def"), Cell::new("bc"), Cell::new("a")]));
    table.set_titles(Row::new(vec![Cell::new("t1"), Cell::new("t2"), Cell::new("t3")]));
    assert_eq!(table.get_row(1).unwrap().get_cell(1).unwrap().get_content(), "bc");

    *table.get_mut_row(1).unwrap().get_mut_cell(1).unwrap() = Cell::new("newval");
    assert_eq!(table.get_row(1).unwrap().get_cell(1).unwrap().get_content(), "newval");

    let out = "\
+-----+--------+-----+
| t1  | t2     | t3  |
+=====+========+=====+
| a   | bc     | def |
+-----+--------+-----+
| def | newval | a   |
+-----+--------+-----+
";
    assert_eq!(table.to_string().replace("\r\n", "\n"), out);
}

#[test]
fn no_linesep() {
    let mut table = Table::new();
    table.set_format(format_no_linesep());
    table.add_row(Row::new(vec![Cell::new("a"), Cell::new("bc"), Cell::new("def")]));
    table.add_row(Row::new(vec![Cell::new("def"), Cell::new("bc"), Cell::new("a")]));
    table.set_titles(Row::new(vec![Cell::new("t1"), Cell::new("t2"), Cell::new("t3")]));
    assert_eq!(table.get_row(1).unwrap().get_cell(1).unwrap().get_content(), "bc");

    *table.get_mut_row(1).unwrap().get_mut_cell(1).unwrap() = Cell::new("newval");
    assert_eq!(table.get_row(1).unwrap().get_cell(1).unwrap().get_content(), "newval");

    let out = "\
| t1  | t2     | t3  |
| a   | bc     | def |
| def | newval | a   |
";
    assert_eq!(table.to_string().replace("\r\n", "\n"), out);
}

#[test]
fn no_colsep() {
    let mut table = Table::new();
    table.set_format(format_no_colsep());
    table.add_row(Row::new(vec![Cell::new("a"), Cell::new("bc"), Cell::new("def")]));
    table.add_row(Row::new(vec![Cell::new("def"), Cell::new("bc"), Cell::new("a")]));
    table.set_titles(Row::new(vec![Cell::new("t1"), Cell::new("t2"), Cell::new("t3")]));
    assert_eq!(table.get_row(1).unwrap().get_cell(1).unwrap().get_content(), "bc");

    *table.get_mut_row(1).unwrap().get_mut_cell(1).unwrap() = Cell::new("newval");
    assert_eq!(table.get_row(1).unwrap().get_cell(1).unwrap().get_content(), "newval");

    let out = "\
------------------
 t1   t2      t3 \n\
==================
 a    bc      def \n\
------------------
 def  newval  a \n\
------------------
";
    println!("{}", out);
    println!("____");
    println!("{}", table.to_string().replace("\r\n", "\n"));
    assert_eq!(table.to_string().replace("\r\n", "\n"), out);
}

#[test]
fn clean() {
    let mut table = Table::new();
    table.set_format(format_clean());
    table.add_row(Row::new(vec![Cell::new("a"), Cell::new("bc"), Cell::new("def")]));
    table.add_row(Row::new(vec![Cell::new("def"), Cell::new("bc"), Cell::new("a")]));
    table.set_titles(Row::new(vec![Cell::new("t1"), Cell::new("t2"), Cell::new("t3")]));
    assert_eq!(table.get_row(1).unwrap().get_cell(1).unwrap().get_content(), "bc");

    *table.get_mut_row(1).unwrap().get_mut_cell(1).unwrap() = Cell::new("newval");
    assert_eq!(table.get_row(1).unwrap().get_cell(1).unwrap().get_content(), "newval");

    let out = "\
\u{0020}t1   t2      t3 \n\
\u{0020}a    bc      def \n\
\u{0020}def  newval  a \n\
";
    println!("{}", out);
    println!("____");
    println!("{}", table.to_string().replace("\r\n", "\n"));
    assert_eq!(out, table.to_string().replace("\r\n", "\n"));
}

#[test]
fn slices() {
    let mut table = Table::new();
    table.set_titles(Row::new(vec![Cell::new("t1"), Cell::new("t2"), Cell::new("t3")]));
    table.add_row(Row::new(vec![Cell::new("0"), Cell::new("0"), Cell::new("0")]));
    table.add_row(Row::new(vec![Cell::new("1"), Cell::new("1"), Cell::new("1")]));
    table.add_row(Row::new(vec![Cell::new("2"), Cell::new("2"), Cell::new("2")]));
    table.add_row(Row::new(vec![Cell::new("3"), Cell::new("3"), Cell::new("3")]));
    table.add_row(Row::new(vec![Cell::new("4"), Cell::new("4"), Cell::new("4")]));
    table.add_row(Row::new(vec![Cell::new("5"), Cell::new("5"), Cell::new("5")]));
    let out = "\
+----+----+----+
| t1 | t2 | t3 |
+====+====+====+
| 1  | 1  | 1  |
+----+----+----+
| 2  | 2  | 2  |
+----+----+----+
| 3  | 3  | 3  |
+----+----+----+
";
    let slice = table.slice(0..table.len());
    let slice = slice.slice(1..slice.len());
    let slice = slice.slice(0..3);
    assert_eq!(out, slice.to_string().replace("\r\n", "\n"));
    assert_eq!(out, table.slice(1..4).to_string().replace("\r\n", "\n"));
}
