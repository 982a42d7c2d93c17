use tabledit::column::{CellStatus, Column, ColumnType};
use tabledit::date::Date;
use tabledit::model::{InputMode, NumMode, TableFocus};
use tabledit::table::Table;

fn col(name: &str, width: usize, ty: ColumnType) -> Column {
    Column { name: name.to_string(), width, column_type: ty }
}

fn row(cells: &[&str]) -> Vec<String> {
    cells.iter().map(|c| c.to_string()).collect()
}

fn today() -> Date {
    Date { day: 15, month: 6, year: 2023 }
}

fn sample(focus: TableFocus, num_mode: NumMode, curr_row: usize, curr_col: usize) -> Table {
    Table::new(
        "Tasks".to_string(),
        "this week".to_string(),
        "table.json".to_string(),
        vec![
            col("task", 10, ColumnType::String),
            col("due", 10, ColumnType::Date),
            col("done", 5, ColumnType::Boolean),
            col("hours", 6, ColumnType::Number),
        ],
        vec![
            row(&["write", "03/04/2023", "t", "2"]),
            row(&["review the long report", "15/06/2023", "f", "12"]),
            row(&["ship", "", "", "many"]),
        ],
        curr_row,
        curr_col,
        num_mode,
        focus,
    )
    .unwrap()
}

fn with_rows(n: usize) -> Table {
    Table::new(
        String::new(),
        String::new(),
        String::new(),
        vec![col("a", 2, ColumnType::String)],
        (0..n).map(|_| row(&["x"])).collect(),
        0,
        0,
        NumMode::Absolute,
        TableFocus::Table,
    )
    .unwrap()
}

#[test]
fn headers_carry_name_symbol_width_and_padding() {
    let t = sample(TableFocus::Table, NumMode::Absolute, 0, 1);
    let h = t.draw_headers();
    assert_eq!(h.len(), 4);
    assert_eq!(h[0].name, "task");
    assert_eq!(h[0].symbol, "_");
    assert_eq!(h[0].width, 10);
    assert_eq!(h[0].padding, 5);
    assert_eq!(h[1].symbol, "@");
    assert_eq!(h[1].padding, 6);
    assert_eq!(h[2].symbol, "?");
    assert_eq!(h[2].padding, 0);
    assert_eq!(h[3].symbol, "#");
    assert_eq!(h[3].padding, 0);
    assert!(h.iter().all(|c| !c.highlighted));
}

#[test]
fn the_current_column_is_highlighted_in_the_column_area_only() {
    let t = sample(TableFocus::Column, NumMode::Absolute, 0, 1);
    let h = t.draw_headers();
    let marks: Vec<bool> = h.iter().map(|c| c.highlighted).collect();
    assert_eq!(marks, vec![false, true, false, false]);
    let t = sample(TableFocus::Element, NumMode::Absolute, 0, 1);
    assert!(t.draw_headers().iter().all(|c| !c.highlighted));
}

#[test]
fn number_column_is_as_wide_as_the_row_count_has_digits() {
    assert_eq!(with_rows(0).number_column_width(), 1);
    assert_eq!(with_rows(9).number_column_width(), 1);
    assert_eq!(with_rows(10).number_column_width(), 2);
    assert_eq!(with_rows(100).number_column_width(), 3);
}

#[test]
fn rows_are_numbered_from_one() {
    let t = sample(TableFocus::Table, NumMode::Absolute, 1, 0);
    let rows = t.draw_data(&today());
    assert_eq!(rows.len(), 3);
    let numbers: Vec<usize> = rows.iter().map(|r| r.number).collect();
    assert_eq!(numbers, vec![1, 2, 3]);
    let labels: Vec<&str> = rows.iter().map(|r| r.label.as_str()).collect();
    assert_eq!(labels, vec!["1 ", "2 ", "3 "]);
    let marks: Vec<bool> = rows.iter().map(|r| r.highlighted).collect();
    assert_eq!(marks, vec![false, true, false]);
}

#[test]
fn rows_are_numbered_by_their_distance_from_the_cursor() {
    let t = sample(TableFocus::Table, NumMode::Relative, 1, 0);
    let rows = t.draw_data(&today());
    let numbers: Vec<usize> = rows.iter().map(|r| r.number).collect();
    assert_eq!(numbers, vec![1, 0, 1]);
    let t = sample(TableFocus::Table, NumMode::Relative, 2, 0);
    let numbers: Vec<usize> = t.draw_data(&today()).iter().map(|r| r.number).collect();
    assert_eq!(numbers, vec![2, 1, 0]);
}

#[test]
fn row_labels_are_aligned_to_the_right() {
    let t = with_rows(12);
    let rows = t.draw_data(&today());
    assert_eq!(rows[0].label, " 1 ");
    assert_eq!(rows[8].label, " 9 ");
    assert_eq!(rows[9].label, "10 ");
    assert_eq!(rows[11].label, "12 ");
}

#[test]
fn cells_carry_displayed_text_fitted_text_and_status() {
    let t = sample(TableFocus::Table, NumMode::Absolute, 0, 0);
    let rows = t.draw_data(&today());
    let first = &rows[0].cells;
    assert_eq!(first.len(), 4);
    assert_eq!(first[0].text, "write");
    assert_eq!(first[0].fitted.as_deref(), Some("write     "));
    assert_eq!(first[0].status, CellStatus::Neutral);
    assert_eq!(first[1].text, "03/04/2023");
    assert_eq!(first[1].fitted.as_deref(), Some("03/04/2023"));
    assert_eq!(first[1].status, CellStatus::Past);
    assert_eq!(first[2].text, "[X]");
    assert_eq!(first[2].fitted.as_deref(), Some("[X]  "));
    assert_eq!(first[3].text, "2");
    assert_eq!(first[3].fitted.as_deref(), Some("2     "));
    let second = &rows[1].cells;
    assert_eq!(second[0].text, "review the long report");
    assert_eq!(second[0].fitted.as_deref(), Some("review t.."));
    assert_eq!(second[1].status, CellStatus::Neutral);
    assert_eq!(second[2].text, "[ ]");
    let third = &rows[2].cells;
    assert_eq!(third[1].text, "?");
    assert_eq!(third[1].status, CellStatus::Flagged);
    assert_eq!(third[3].text, "?");
    assert_eq!(third[3].fitted.as_deref(), Some("?     "));
    assert_eq!(third[3].status, CellStatus::Flagged);
}

#[test]
fn a_cell_too_long_for_a_column_of_width_one_has_no_fitted_text() {
    let t = Table::new(
        String::new(),
        String::new(),
        String::new(),
        vec![col("", 1, ColumnType::String)],
        vec![row(&["ab"]), row(&["a"])],
        0,
        0,
        NumMode::Absolute,
        TableFocus::Table,
    )
    .unwrap();
    let rows = t.draw_data(&today());
    assert_eq!(rows[0].cells[0].text, "ab");
    assert_eq!(rows[0].cells[0].fitted, None);
    assert_eq!(rows[1].cells[0].fitted.as_deref(), Some("a"));
}

#[test]
fn the_footer_counts_the_entries() {
    assert_eq!(with_rows(0).draw_footer(), "0 entries");
    assert_eq!(with_rows(1).draw_footer(), "1 entry");
    assert_eq!(with_rows(2).draw_footer(), "2 entries");
    assert_eq!(with_rows(10).draw_footer(), "10 entries");
}

#[test]
fn the_row_detail_lists_a_field_per_column() {
    let t = sample(TableFocus::Element, NumMode::Absolute, 2, 0);
    assert_eq!(t.draw_elem_heading(), "Row 3");
    let fields = t.draw_elem(0, InputMode::Normal, "", &today()).unwrap();
    assert_eq!(fields.len(), 4);
    let labels: Vec<&str> = fields.iter().map(|f| f.label.as_str()).collect();
    assert_eq!(labels, vec!["[1|task_]", "[2|due@]", "[3|done?]", "[4|hours#]"]);
    let values: Vec<&str> = fields.iter().map(|f| f.value.as_str()).collect();
    assert_eq!(values, vec!["ship", "", "", "many"]);
    let status: Vec<CellStatus> = fields.iter().map(|f| f.status).collect();
    assert_eq!(
        status,
        vec![CellStatus::Neutral, CellStatus::Flagged, CellStatus::Neutral, CellStatus::Flagged]
    );
    assert!(fields.iter().all(|f| f.prompt.is_none()));
}

#[test]
fn the_row_detail_shows_the_prompt_on_the_edited_field() {
    let t = sample(TableFocus::Element, NumMode::Absolute, 0, 0);
    let fields = t.draw_elem(2, InputMode::Text, "3/4", &today()).unwrap();
    assert_eq!(fields[0].prompt, None);
    assert_eq!(fields[1].prompt.as_deref(), Some(" -> 3/4"));
    assert_eq!(fields[2].prompt, None);
    let fields = t.draw_elem(2, InputMode::Normal, "3/4", &today()).unwrap();
    assert!(fields.iter().all(|f| f.prompt.is_none()));
    let fields = t.draw_elem(2, InputMode::Cmd, "3/4", &today()).unwrap();
    assert!(fields.iter().all(|f| f.prompt.is_none()));
}

#[test]
fn the_row_detail_of_an_empty_table_is_none() {
    let t = with_rows(0);
    assert!(t.draw_elem(1, InputMode::Text, "", &today()).is_none());
}

#[test]
fn the_column_detail_lists_name_width_and_type() {
    let t = sample(TableFocus::Column, NumMode::Absolute, 0, 1);
    let fields = t.draw_column(0, InputMode::Normal, "").unwrap();
    assert_eq!(fields.len(), 3);
    assert_eq!(fields[0].label, "[1|name]: ");
    assert_eq!(fields[0].value, "due");
    assert_eq!(fields[1].label, "[2|width]:  ");
    assert_eq!(fields[1].value, "10");
    assert_eq!(fields[2].label, "[3|type]: ");
    assert_eq!(fields[2].value, "Date");
    assert!(fields.iter().all(|f| f.prompt.is_none()));
}

#[test]
fn the_column_detail_shows_the_prompt_on_the_edited_field() {
    let t = sample(TableFocus::Column, NumMode::Absolute, 0, 3);
    let fields = t.draw_column(3, InputMode::Text, "Str").unwrap();
    assert_eq!(fields[0].prompt, None);
    assert_eq!(fields[1].prompt, None);
    assert_eq!(fields[2].prompt.as_deref(), Some(" -> Str"));
    assert_eq!(fields[2].value, "Number");
}

#[test]
fn the_column_detail_of_a_table_without_columns_is_none() {
    let t = Table::new(
        String::new(),
        String::new(),
        String::new(),
        Vec::new(),
        Vec::new(),
        0,
        0,
        NumMode::Absolute,
        TableFocus::Column,
    )
    .unwrap();
    assert!(t.draw_column(1, InputMode::Text, "").is_none());
    assert!(t.draw_headers().is_empty());
}
