# prettytable

A formatted and aligned table printer, verified with Verus.

- `src/cell.rs`: cells (lines of text and an alignment), and how a text is cut into lines.
- `src/row.rs`: rows of cells, and the text of a row printed in columns.
- `src/format.rs`, `src/format/consts.rs`: table formats (column separators,
  borders, line separators, padding), a builder, and ready-made formats.
- `src/lib.rs`: tables and table slices, column widths, and the text of a whole table.
- `src/laws.rs`: properties of the library as a whole (column widths fit their
  cells, removing undoes inserting, slices of slices, cell contents round-trip).
- `src/utils.rs`: display width of a text (from `unicode-width`) and aligned fills.
- `app/lib.rs`: printing to writers, terminals and standard output (`term`,
  `atty`), and the `table!` and `ptable!` macros.

The library renders a table into a `String`; every rendering function states
the exact text it appends, in terms of the displayed width that
`unicode-width` gives each line of text.
