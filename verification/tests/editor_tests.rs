use tabledit::column::{Column, ColumnType};
use tabledit::date::Date;
use tabledit::editor::{Action, Editor};
use tabledit::model::{InputMode, NumMode, TableFocus};
use tabledit::screen::{Body, StatusLine};
use tabledit::table::Table;

fn col(name: &str, width: usize, ty: ColumnType) -> Column {
    Column { name: name.to_string(), width, column_type: ty }
}

fn row(cells: &[&str]) -> Vec<String> {
    cells.iter().map(|c| c.to_string()).collect()
}

fn today() -> Date {
    Date { day: 15, month: 6, year: 2023 }
}

fn table(focus: TableFocus) -> Table {
    Table::new(
        "Tasks".to_string(),
        "this week".to_string(),
        "table.json".to_string(),
        vec![
            col("task", 10, ColumnType::String),
            col("due", 10, ColumnType::Date),
            col("done", 5, ColumnType::Boolean),
        ],
        vec![
            row(&["write", "03/04/2023", "t"]),
            row(&["review", "15/06/2023", "f"]),
            row(&["ship", "", ""]),
        ],
        0,
        0,
        NumMode::Absolute,
        focus,
    )
    .unwrap()
}

fn editor() -> Editor {
    Editor::new(table(TableFocus::Table))
}

fn keys(e: &mut Editor, text: &str) -> Action {
    let mut last = Action::Continue;
    for c in text.chars() {
        last = e.handle_key(c);
    }
    last
}

fn names(e: &Editor) -> Vec<String> {
    e.table().columns().iter().map(|c| c.name.clone()).collect()
}

#[test]
fn a_new_editor_is_in_normal_mode() {
    let e = editor();
    assert_eq!(e.input_mode(), InputMode::Normal);
    assert_eq!(e.motion_num(), 0);
    assert_eq!(e.input_str(), "");
    assert_eq!(e.command_str(), "");
    assert_eq!(e.message_str(), "");
    assert_eq!(e.error_message_str(), "");
    assert_eq!(e.table().title(), "Tasks");
}

#[test]
fn digits_accumulate_the_pending_count() {
    let mut e = editor();
    e.handle_key('1');
    assert_eq!(e.motion_num(), 1);
    e.handle_key('0');
    assert_eq!(e.motion_num(), 10);
    e.handle_key('\x7f');
    assert_eq!(e.motion_num(), 1);
    e.handle_key('\x08');
    assert_eq!(e.motion_num(), 0);
    e.handle_key('\x08');
    assert_eq!(e.motion_num(), 0);
}

#[test]
fn a_digit_that_does_not_fit_is_dropped() {
    let mut e = editor();
    keys(&mut e, &format!("{}", usize::MAX));
    assert_eq!(e.motion_num(), usize::MAX);
    e.handle_key('9');
    assert_eq!(e.motion_num(), usize::MAX);
    e.handle_key('\x7f');
    assert_eq!(e.motion_num(), usize::MAX / 10);
}

#[test]
fn the_count_is_used_up_by_the_next_command() {
    let mut e = editor();
    keys(&mut e, "2j");
    assert_eq!(e.table().curr_row(), 2);
    assert_eq!(e.motion_num(), 0);
    keys(&mut e, "k");
    assert_eq!(e.table().curr_row(), 1);
    keys(&mut e, "5z");
    assert_eq!(e.motion_num(), 0);
    assert_eq!(e.table().curr_row(), 1);
}

#[test]
fn table_keys_move_the_row_cursor() {
    let mut e = editor();
    keys(&mut e, "j");
    assert_eq!(e.table().curr_row(), 1);
    keys(&mut e, "J");
    assert_eq!(e.table().curr_row(), 2);
    keys(&mut e, "K");
    assert_eq!(e.table().curr_row(), 0);
    keys(&mut e, "3G");
    assert_eq!(e.table().curr_row(), 2);
    keys(&mut e, "9G");
    assert_eq!(e.table().curr_row(), 2);
    keys(&mut e, "1G");
    assert_eq!(e.table().curr_row(), 0);
}

#[test]
fn table_keys_change_focus_and_numbering() {
    let mut e = editor();
    keys(&mut e, "n");
    assert_eq!(e.table().num_mode(), NumMode::Relative);
    keys(&mut e, "\n");
    assert_eq!(e.table().table_focus(), TableFocus::Element);
    keys(&mut e, "q");
    assert_eq!(e.table().table_focus(), TableFocus::Table);
    keys(&mut e, "c");
    assert_eq!(e.table().table_focus(), TableFocus::Column);
    keys(&mut e, "c");
    assert_eq!(e.table().table_focus(), TableFocus::Table);
    keys(&mut e, "v");
    assert_eq!(e.table().table_focus(), TableFocus::View);
}

#[test]
fn areas_without_keys_only_open_the_command_line() {
    let mut e = editor();
    keys(&mut e, "s");
    assert_eq!(e.table().table_focus(), TableFocus::Sort);
    keys(&mut e, "qjk5\x1b");
    assert_eq!(e.table().table_focus(), TableFocus::Sort);
    assert_eq!(e.input_mode(), InputMode::Normal);
    assert_eq!(e.motion_num(), 0);
    keys(&mut e, ":");
    assert_eq!(e.input_mode(), InputMode::Cmd);
    keys(&mut e, "t Chores\n");
    assert_eq!(e.input_mode(), InputMode::Normal);
    assert_eq!(e.table().table_focus(), TableFocus::Sort);
    assert_eq!(e.table().title(), "Chores");
}

#[test]
fn d_deletes_the_current_row() {
    let mut e = editor();
    keys(&mut e, "jd");
    assert_eq!(e.table().row_count(), 2);
    assert_eq!(e.table().cell(1, 0), "ship");
    keys(&mut e, "ddd");
    assert_eq!(e.table().row_count(), 0);
    assert_eq!(e.table().curr_row(), 0);
}

#[test]
fn equals_sizes_every_column() {
    let mut e = editor();
    keys(&mut e, "=");
    let widths: Vec<usize> = e.table().columns().iter().map(|c| c.width).collect();
    assert_eq!(widths, vec![6, 10, 5]);
}

#[test]
fn a_cell_is_edited_from_the_row_detail() {
    let mut e = editor();
    keys(&mut e, "j\n2\n");
    assert_eq!(e.input_mode(), InputMode::Text);
    assert_eq!(e.motion_num(), 2);
    keys(&mut e, "3/4/2023");
    assert_eq!(e.input_str(), "3/4/2023");
    assert_eq!(e.motion_num(), 2);
    keys(&mut e, "\n");
    assert_eq!(e.input_mode(), InputMode::Normal);
    assert_eq!(e.table().table_focus(), TableFocus::Element);
    assert_eq!(e.table().cell(1, 1), "03/04/2023");
    assert_eq!(e.input_str(), "");
    assert_eq!(e.motion_num(), 0);
}

#[test]
fn a_date_input_of_another_shape_is_stored_as_typed() {
    let mut e = editor();
    keys(&mut e, "\n2\n2023-03-04\n");
    assert_eq!(e.table().cell(0, 1), "2023-03-04");
    assert_eq!(e.input_mode(), InputMode::Normal);
}

#[test]
fn an_empty_commit_toggles_a_boolean_cell() {
    let mut e = editor();
    keys(&mut e, "\n3\n\n");
    assert_eq!(e.table().cell(0, 2), "f");
    keys(&mut e, "3\n\n");
    assert_eq!(e.table().cell(0, 2), "t");
    keys(&mut e, "jj3\n\n");
    assert_eq!(e.table().cell(2, 2), "t");
}

#[test]
fn confirm_without_a_field_number_does_not_enter_text_mode() {
    let mut e = editor();
    keys(&mut e, "\n\n");
    assert_eq!(e.input_mode(), InputMode::Normal);
    keys(&mut e, "4\n");
    assert_eq!(e.input_mode(), InputMode::Normal);
    assert_eq!(e.motion_num(), 0);
    keys(&mut e, "0\n");
    assert_eq!(e.input_mode(), InputMode::Normal);
    keys(&mut e, "3\n");
    assert_eq!(e.input_mode(), InputMode::Text);
}

#[test]
fn backspace_takes_back_typed_text() {
    let mut e = editor();
    keys(&mut e, "\n1\nabc\x7f\x08");
    assert_eq!(e.input_str(), "a");
    keys(&mut e, "\x7f\x7f");
    assert_eq!(e.input_str(), "");
    keys(&mut e, "x\n");
    assert_eq!(e.table().cell(0, 0), "x");
}

#[test]
fn escape_in_text_mode_returns_to_the_table_and_drops_the_text() {
    let mut e = editor();
    keys(&mut e, "\n1\nabc\x1b");
    assert_eq!(e.input_mode(), InputMode::Normal);
    assert_eq!(e.table().table_focus(), TableFocus::Table);
    assert_eq!(e.input_str(), "");
    assert_eq!(e.motion_num(), 0);
    assert_eq!(e.table().cell(0, 0), "write");
}

#[test]
fn the_row_wizard_fills_every_cell_and_returns_to_the_table() {
    let mut e = editor();
    keys(&mut e, "i");
    assert_eq!(e.input_mode(), InputMode::Text);
    assert_eq!(e.table().table_focus(), TableFocus::NewElement);
    assert_eq!(e.table().row_count(), 4);
    assert_eq!(e.table().curr_row(), 3);
    assert_eq!(e.motion_num(), 1);
    keys(&mut e, "test\n");
    assert_eq!(e.input_mode(), InputMode::Text);
    assert_eq!(e.motion_num(), 2);
    assert_eq!(e.input_str(), "");
    keys(&mut e, "3/4/2023\n");
    assert_eq!(e.motion_num(), 3);
    keys(&mut e, "\n");
    assert_eq!(e.input_mode(), InputMode::Normal);
    assert_eq!(e.table().table_focus(), TableFocus::Table);
    assert_eq!(e.table().curr_row(), 3);
    assert_eq!(e.motion_num(), 0);
    // The wizard stores what was typed, as it was typed.
    assert_eq!(e.table().data()[3], row(&["test", "3/4/2023", ""]));
}

#[test]
fn the_row_wizard_of_a_table_without_columns_ends_at_once() {
    let t = Table::new(
        String::new(),
        String::new(),
        String::new(),
        Vec::new(),
        Vec::new(),
        0,
        0,
        NumMode::Absolute,
        TableFocus::Table,
    )
    .unwrap();
    let mut e = Editor::new(t);
    keys(&mut e, "i");
    assert_eq!(e.input_mode(), InputMode::Text);
    assert_eq!(e.table().row_count(), 1);
    keys(&mut e, "abc\n");
    assert_eq!(e.input_mode(), InputMode::Normal);
    assert_eq!(e.table().table_focus(), TableFocus::Table);
    assert_eq!(e.table().data()[0].len(), 0);
}

#[test]
fn column_keys_move_and_resize_columns() {
    let mut e = editor();
    keys(&mut e, "cl");
    assert_eq!(e.table().curr_col(), 1);
    keys(&mut e, "h");
    assert_eq!(e.table().curr_col(), 0);
    keys(&mut e, "h");
    assert_eq!(e.table().curr_col(), 2);
    keys(&mut e, "l");
    assert_eq!(e.table().curr_col(), 0);
    keys(&mut e, "L");
    assert_eq!(names(&e), vec!["due", "task", "done"]);
    assert_eq!(e.table().curr_col(), 1);
    keys(&mut e, "H");
    assert_eq!(names(&e), vec!["task", "due", "done"]);
    assert_eq!(e.table().curr_col(), 0);
    keys(&mut e, "H");
    assert_eq!(names(&e), vec!["task", "due", "done"]);
    keys(&mut e, "+");
    assert_eq!(e.table().column(0).width, 11);
    keys(&mut e, "4+");
    assert_eq!(e.table().column(0).width, 15);
    keys(&mut e, "20-");
    assert_eq!(e.table().column(0).width, 5);
    keys(&mut e, "=");
    assert_eq!(e.table().column(0).width, 6);
    assert_eq!(e.table().table_focus(), TableFocus::Column);
}

#[test]
fn d_in_the_column_area_deletes_the_column_and_returns_to_the_table() {
    let mut e = editor();
    keys(&mut e, "cld");
    assert_eq!(names(&e), vec!["task", "done"]);
    assert_eq!(e.table().table_focus(), TableFocus::Table);
    assert_eq!(e.table().data()[0], row(&["write", "t"]));
}

#[test]
fn the_fields_of_a_column_are_edited_one_at_a_time() {
    let mut e = editor();
    keys(&mut e, "c1\nassignment\n");
    assert_eq!(e.input_mode(), InputMode::Normal);
    assert_eq!(e.table().table_focus(), TableFocus::Column);
    assert_eq!(e.table().column(0).name, "assignment");
    assert_eq!(e.table().column(0).width, 11);
    keys(&mut e, "2\n30\n");
    assert_eq!(e.table().column(0).width, 30);
    keys(&mut e, "2\n3\n");
    assert_eq!(e.table().column(0).width, 11);
    keys(&mut e, "3\nNumber\n");
    assert_eq!(e.table().column(0).column_type, ColumnType::Number);
    assert_eq!(e.input_mode(), InputMode::Normal);
}

#[test]
fn a_refused_field_stays_in_text_mode() {
    let mut e = editor();
    keys(&mut e, "c2\nwide\n");
    assert_eq!(e.input_mode(), InputMode::Text);
    assert_eq!(e.motion_num(), 2);
    assert_eq!(e.input_str(), "wide");
    assert_eq!(e.table().column(0).width, 10);
    keys(&mut e, "\x7f\x7f\x7f\x7f12\n");
    assert_eq!(e.input_mode(), InputMode::Normal);
    assert_eq!(e.table().column(0).width, 12);
    keys(&mut e, "3\nnumber\n");
    assert_eq!(e.input_mode(), InputMode::Text);
    assert_eq!(e.table().column(0).column_type, ColumnType::String);
    assert_eq!(e.input_str(), "number");
}

#[test]
fn only_the_three_fields_of_a_column_can_be_edited() {
    let mut e = editor();
    keys(&mut e, "c4\n");
    assert_eq!(e.input_mode(), InputMode::Normal);
    keys(&mut e, "\n");
    assert_eq!(e.input_mode(), InputMode::Normal);
    keys(&mut e, "3\n");
    assert_eq!(e.input_mode(), InputMode::Text);
}

#[test]
fn the_column_wizard_asks_for_name_width_and_type() {
    let mut e = editor();
    keys(&mut e, "ci");
    assert_eq!(e.input_mode(), InputMode::Text);
    assert_eq!(e.table().table_focus(), TableFocus::NewColumn);
    assert_eq!(e.table().column_count(), 4);
    assert_eq!(e.table().curr_col(), 3);
    assert_eq!(e.motion_num(), 1);
    // An empty name is not taken.
    keys(&mut e, "\n");
    assert_eq!(e.motion_num(), 1);
    keys(&mut e, "hours\n");
    assert_eq!(e.motion_num(), 2);
    assert_eq!(e.table().column(3).name, "hours");
    assert_eq!(e.table().column(3).width, 6);
    // A width that is no number is not taken.
    keys(&mut e, "x\n");
    assert_eq!(e.motion_num(), 2);
    assert_eq!(e.input_str(), "x");
    keys(&mut e, "\x7f12\n");
    assert_eq!(e.motion_num(), 3);
    assert_eq!(e.table().column(3).width, 12);
    // A type that is none is not taken.
    keys(&mut e, "Int\n");
    assert_eq!(e.motion_num(), 3);
    assert_eq!(e.input_mode(), InputMode::Text);
    keys(&mut e, "\x7f\x7f\x7fNumber\n");
    assert_eq!(e.input_mode(), InputMode::Normal);
    assert_eq!(e.table().table_focus(), TableFocus::Table);
    assert_eq!(e.table().column(3).column_type, ColumnType::Number);
    assert_eq!(e.table().curr_col(), 3);
    assert_eq!(e.table().data()[0], row(&["write", "03/04/2023", "t", ""]));
    assert_eq!(e.motion_num(), 0);
}

#[test]
fn the_column_wizard_keeps_the_width_on_empty_input() {
    let mut e = editor();
    keys(&mut e, "cinotes\n\n");
    assert_eq!(e.motion_num(), 3);
    assert_eq!(e.table().column(3).width, 6);
    keys(&mut e, "String\n");
    assert_eq!(e.table().table_focus(), TableFocus::Table);
}

#[test]
fn w_without_a_path_writes_to_the_stored_path() {
    let mut e = editor();
    keys(&mut e, ":");
    assert_eq!(e.input_mode(), InputMode::Cmd);
    let a = keys(&mut e, "w\n");
    assert!(matches!(a, Action::Save(p) if p == "table.json"));
    assert_eq!(e.table().table_focus(), TableFocus::Table);
    assert_eq!(e.input_mode(), InputMode::Normal);
    assert_eq!(e.message_str(), "'table.json' written");
    assert_eq!(e.error_message_str(), "");
    assert_eq!(e.command_str(), "");
    assert_eq!(e.table().path(), "table.json");
}

#[test]
fn w_with_a_path_adopts_the_path() {
    let mut e = editor();
    let a = keys(&mut e, ":write other.json\n");
    assert!(matches!(a, Action::Save(p) if p == "other.json"));
    assert_eq!(e.table().path(), "other.json");
    assert_eq!(e.message_str(), "'other.json' written");
    let a = keys(&mut e, ":w\n");
    assert!(matches!(a, Action::Save(p) if p == "other.json"));
}

#[test]
fn q_with_an_argument_is_a_usage_error_and_does_not_quit() {
    let mut e = editor();
    let a = keys(&mut e, ":q now\n");
    assert!(matches!(a, Action::Continue));
    assert_eq!(e.error_message_str(), "Usage Error: Extra argument(s) to '(q|quit)'");
    assert_eq!(e.input_mode(), InputMode::Normal);
    assert_eq!(e.table().table_focus(), TableFocus::Table);
    let a = keys(&mut e, ":q\n");
    assert!(matches!(a, Action::Quit));
    assert_eq!(e.error_message_str(), "");
}

#[test]
fn x_writes_and_quits_from_the_table() {
    let mut e = editor();
    keys(&mut e, "c");
    let a = keys(&mut e, ":x\n");
    assert!(matches!(a, Action::SaveAndQuit(p) if p == "table.json"));
    assert_eq!(e.table().table_focus(), TableFocus::Table);
    assert_eq!(e.message_str(), "'table.json' written");
    let a = keys(&mut e, ":x y\n");
    assert!(matches!(a, Action::Continue));
    assert_eq!(e.error_message_str(), "Usage Error: Extra argument(s) to 'x'");
}

#[test]
fn open_asks_the_driver_to_load() {
    let mut e = editor();
    let a = keys(&mut e, ":o other.json\n");
    assert!(matches!(a, Action::Load(p) if p == "other.json"));
    assert_eq!(e.table().title(), "Tasks");
    let a = keys(&mut e, ":open\n");
    assert!(matches!(a, Action::Continue));
    assert_eq!(
        e.error_message_str(),
        "Usage Error: Insufficient arguments to '(o|open) <filepath>'"
    );
}

#[test]
fn title_and_subtitle_are_replaced() {
    let mut e = editor();
    keys(&mut e, ":title   My list\n");
    assert_eq!(e.table().title(), "My list");
    keys(&mut e, ":s of things\n");
    assert_eq!(e.table().subtitle(), "of things");
    keys(&mut e, ":t\n");
    assert_eq!(e.table().title(), "");
}

#[test]
fn an_unknown_verb_is_reported() {
    let mut e = editor();
    let a = keys(&mut e, ":help\n");
    assert!(matches!(a, Action::Continue));
    assert_eq!(e.error_message_str(), "Error: Unknown command 'help'");
    assert_eq!(e.input_mode(), InputMode::Normal);
    // The next key takes the message down.
    keys(&mut e, "j");
    assert_eq!(e.error_message_str(), "");
}

#[test]
fn commands_leave_the_focus_where_it_was() {
    let mut e = editor();
    keys(&mut e, "c:w\n");
    assert_eq!(e.table().table_focus(), TableFocus::Column);
    keys(&mut e, ":bogus\n");
    assert_eq!(e.table().table_focus(), TableFocus::Column);
    keys(&mut e, ":\n");
    assert_eq!(e.table().table_focus(), TableFocus::Column);
    assert_eq!(e.input_mode(), InputMode::Normal);
    assert_eq!(e.error_message_str(), "");
}

#[test]
fn the_command_line_is_typed_and_taken_back() {
    let mut e = editor();
    keys(&mut e, ":wq\x7f");
    assert_eq!(e.command_str(), "w");
    keys(&mut e, "\t");
    assert_eq!(e.command_str(), "w");
    keys(&mut e, "\x1b");
    assert_eq!(e.command_str(), "");
    assert_eq!(e.input_mode(), InputMode::Normal);
    keys(&mut e, ":\x7f\x7fq");
    assert_eq!(e.command_str(), "q");
}

#[test]
fn replace_table_puts_another_document_in_place() {
    let mut e = editor();
    keys(&mut e, "\n1\nabc");
    let other = Table::new(
        "Other".to_string(),
        String::new(),
        "other.json".to_string(),
        Vec::new(),
        Vec::new(),
        0,
        0,
        NumMode::Relative,
        TableFocus::Table,
    )
    .unwrap();
    e.replace_table(other);
    assert_eq!(e.table().title(), "Other");
    assert_eq!(e.input_mode(), InputMode::Normal);
    assert_eq!(e.input_str(), "");
    assert_eq!(e.motion_num(), 0);
}

#[test]
fn the_status_line_shows_the_focus_by_default() {
    let mut e = editor();
    assert!(matches!(e.status_line(), StatusLine::Focus(t) if t == "--Table--"));
    keys(&mut e, "c");
    assert!(matches!(e.status_line(), StatusLine::Focus(t) if t == "--Column--"));
    keys(&mut e, "i");
    assert!(matches!(e.status_line(), StatusLine::Focus(t) if t == "--NewColumn--"));
}

#[test]
fn the_status_line_shows_command_line_errors_and_messages() {
    let mut e = editor();
    keys(&mut e, ":wri");
    assert!(matches!(e.status_line(), StatusLine::Command(t) if t == ":wri"));
    keys(&mut e, "te\n");
    assert!(matches!(e.status_line(), StatusLine::Message(t) if t == "'table.json' written"));
    keys(&mut e, ":nope\n");
    assert!(matches!(e.status_line(), StatusLine::Error(t) if t == "Error: Unknown command 'nope'"));
}

#[test]
fn the_screen_shows_the_grid_under_the_table_focus() {
    let mut e = editor();
    keys(&mut e, "12");
    let s = e.draw(&today());
    assert_eq!(s.title, "Tasks");
    assert_eq!(s.subtitle, "this week");
    assert_eq!(s.pending, Some(12));
    match s.body {
        Body::Grid { number_width, headers, rows, footer } => {
            assert_eq!(number_width, 1);
            assert_eq!(headers.len(), 3);
            assert_eq!(rows.len(), 3);
            assert_eq!(footer, "3 entries");
        }
        _ => panic!("no grid"),
    }
}

#[test]
fn the_screen_shows_the_details_under_the_other_foci() {
    let mut e = editor();
    keys(&mut e, "j\n");
    let s = e.draw(&today());
    assert_eq!(s.pending, None);
    match s.body {
        Body::Element { heading, fields } => {
            assert_eq!(heading, "Row 2");
            assert_eq!(fields.len(), 3);
            assert!(fields.iter().all(|f| f.prompt.is_none()));
        }
        _ => panic!("no row detail"),
    }
    keys(&mut e, "qci");
    let s = e.draw(&today());
    match s.body {
        Body::Column { number_width, headers, fields } => {
            assert_eq!(number_width, 1);
            assert_eq!(headers.len(), 4);
            assert_eq!(fields[0].prompt.as_deref(), Some(" -> "));
            assert_eq!(fields[1].prompt, None);
        }
        _ => panic!("no column detail"),
    }
    keys(&mut e, "\x1bv");
    assert!(matches!(e.draw(&today()).body, Body::Unimplemented));
}

#[test]
fn the_screen_shows_nothing_where_there_is_no_row_to_detail() {
    let mut e = editor();
    keys(&mut e, "ddd\n");
    assert_eq!(e.table().table_focus(), TableFocus::Element);
    assert!(matches!(e.draw(&today()).body, Body::Nothing));
    keys(&mut e, "1\n");
    assert_eq!(e.input_mode(), InputMode::Normal);
}
