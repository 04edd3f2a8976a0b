use texttable::Alignment;
use texttable::Header;
use texttable::Row;
use texttable::Table;

#[test]
fn it_works() {
    let table = Table::new()
        .header(Header::new("Name"))
        .header(Header::new("Age"))
        .row(Row::new().cell("Alice").cell("20"))
        .row(Row::new().cell("Bob").cell("30"));
    assert_eq!(
        table.render(),
        "Name     Age      \n".to_owned() + "Alice    20       \n" + "Bob      30       \n"
    );
}

#[test]
fn long_header_forces_column_width() {
    let table = Table::new()
        .header(Header::new("LongColumnName"))
        .row(Row::new().cell("x"));
    assert_eq!(table.render(), "LongColumnName \nx              \n");
}

#[test]
fn row_from_header_phase_holds_exactly_that_row() {
    let table = Table::new()
        .header(Header::new("Name"))
        .row(Row::new().cell("Alice"));
    assert_eq!(table.render(), "Name     \nAlice    \n");
}

#[test]
fn implicit_and_explicit_transition_agree() {
    let direct = Table::new()
        .header(Header::new("Name"))
        .row(Row::new().cell("Alice"))
        .row(Row::new().cell("Bob"));
    let explicit = Table::new()
        .header(Header::new("Name"))
        .end_header()
        .row(Row::new().cell("Alice"))
        .row(Row::new().cell("Bob"));
    assert_eq!(direct.render(), explicit.render());
}

#[test]
fn end_header_starts_with_no_rows() {
    let table = Table::new().header(Header::new("Name")).end_header();
    assert_eq!(table.render(), "Name     \n");
}

#[test]
fn empty_table_renders_bare_header_line() {
    let table = Table::new().end_header();
    assert_eq!(table.render(), "\n");
}

#[test]
fn rows_without_headers_render_empty_lines() {
    let table = Table::new().row(Row::new().cell("x")).row(Row::new().cell("y"));
    assert_eq!(table.render(), "\n\n\n");
}

#[test]
fn column_floor_is_eight() {
    let table = Table::new()
        .header(Header::new("A"))
        .row(Row::new().cell("b"));
    assert_eq!(table.render(), "A        \nb        \n");
}

#[test]
fn right_aligned_header_pads_before_text() {
    let table = Table::new()
        .header(Header::with_alignment("Age", Alignment::Right))
        .end_header();
    assert_eq!(table.render(), "     Age \n");
}

#[test]
fn center_aligned_header_splits_padding_smaller_half_first() {
    let table = Table::new()
        .header(Header::with_alignment("abc", Alignment::Center))
        .end_header();
    assert_eq!(table.render(), "  abc    \n");
}

#[test]
fn row_cells_left_aligned_whatever_header_alignment() {
    let table = Table::new()
        .header(Header::with_alignment("Age", Alignment::Right))
        .header(Header::with_alignment("Id", Alignment::Center))
        .row(Row::new().cell("1").cell("2"));
    assert_eq!(table.render(), "     Age    Id    \n1        2        \n");
}

#[test]
fn extra_cells_beyond_declared_columns_are_dropped() {
    let table = Table::new()
        .header(Header::new("AA"))
        .header(Header::new("BB"))
        .row(Row::new().cell("1").cell("2").cell("3"));
    assert_eq!(table.render(), "AA       BB       \n1        2        \n");
}

#[test]
fn short_rows_leave_remaining_columns_out_of_the_line() {
    let table = Table::new()
        .header(Header::new("AA"))
        .header(Header::new("BB"))
        .row(Row::new().cell("only"));
    assert_eq!(table.render(), "AA       BB       \nonly     \n");
}

#[test]
fn widths_grow_with_rows_and_never_shrink() {
    let table = Table::new()
        .header(Header::new("H"))
        .row(Row::new().cell("wide cell ten"))
        .row(Row::new().cell("s"));
    assert_eq!(table.render(), "H             \nwide cell ten \ns             \n");
}

#[test]
fn update_widths_raises_tracked_widths() {
    let mut table = Table::new().header(Header::new("H")).end_header();
    table.update_widths(&Row::new().cell("stretched out"));
    assert_eq!(table.render(), "H             \n");
}

#[test]
fn colored_cell_widths_ignore_escape_sequences() {
    let table = Table::new()
        .header(Header::new("Name"))
        .row(Row::new().cell("\x1b[31mAB\x1b[0m"));
    assert_eq!(table.render(), "Name     \n\x1b[31mAB\x1b[0m       \n");
}

#[test]
fn wide_glyphs_count_two_columns() {
    let table = Table::new()
        .header(Header::new("C"))
        .row(Row::new().cell("你好"));
    // Two wide glyphs occupy four columns, so four spaces complete the
    // eight-column field.
    assert_eq!(table.render(), "C        \n你好     \n");
}

#[test]
fn header_from_plain_text_defaults_to_left() {
    let h = Header::new("x");
    assert_eq!(h.alignment, Alignment::Left);
    assert_eq!(h.text, "x");
    let h2 = Header::with_alignment("y", Alignment::Center);
    assert_eq!(h2.alignment, Alignment::Center);
}
