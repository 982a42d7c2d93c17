//! Laws of the table, proved of the model that the operations are stated by.

use vstd::prelude::*;
use crate::column::{checked_glyph, display_text, unchecked_glyph, ColumnType};
use crate::command::{CommandErrorView, CommandView};
use crate::date::{is_canonical_date, is_loose_date, lemma_normalized_is_canonical};
use crate::editor::{add_digit, EditorView};
use crate::model::{
    boolean_width, committed_text, swapped, Direction, InputMode, Resize, TableFocus, TableView,
};
use crate::text::{lemma_ascii_text_len, lemma_empty_text_len, text_len};

verus! {

/// One of the operations that change the shape of the table.
pub enum StructuralOp {
    /// Append a row of empty cells.
    InsertRow,
    /// Remove the row at this index.
    DeleteRow(int),
    /// Append a placeholder column.
    InsertColumn,
    /// Remove the column at this index.
    DeleteColumn(int),
}

/// The document after one structural operation. A deletion at an index where
/// there is nothing to delete leaves the document as it is.
pub open spec fn apply_op(t: TableView, op: StructuralOp) -> TableView {
    match op {
        StructuralOp::InsertRow => t.insert_row_placeholder(),
        StructuralOp::DeleteRow(i) => if 0 <= i < t.data.len() {
            t.delete_row(i)
        } else {
            t
        },
        StructuralOp::InsertColumn => t.insert_column_placeholder(),
        StructuralOp::DeleteColumn(i) => if 0 <= i < t.columns.len() {
            t.delete_column(i)
        } else {
            t
        },
    }
}

/// The document after a sequence of structural operations, first to last.
pub open spec fn apply_ops(t: TableView, ops: Seq<StructuralOp>) -> TableView
    decreases ops.len(),
{
    if ops.len() == 0 {
        t
    } else {
        apply_op(apply_ops(t, ops.drop_last()), ops.last())
    }
}

/// Appending a row keeps the invariant.
pub proof fn lemma_insert_row_wf(t: TableView)
    requires
        t.wf(),
    ensures
        t.insert_row_placeholder().wf(),
{
    let after = t.insert_row_placeholder();
    assert forall|r: int| 0 <= r < after.data.len() implies (#[trigger] after.data[r]).len()
        == after.columns.len() by {
        if r < t.data.len() {
            assert(after.data[r] == t.data[r]);
        }
    }
}

/// Removing a row keeps the invariant.
pub proof fn lemma_delete_row_wf(t: TableView, i: int)
    requires
        t.wf(),
        0 <= i < t.data.len(),
    ensures
        t.delete_row(i).wf(),
{
    let after = t.delete_row(i);
    assert forall|r: int| 0 <= r < after.data.len() implies (#[trigger] after.data[r]).len()
        == after.columns.len() by {
        if r < i {
            assert(after.data[r] == t.data[r]);
        } else {
            assert(after.data[r] == t.data[r + 1]);
        }
    }
}

/// Appending a column keeps the invariant.
pub proof fn lemma_insert_column_wf(t: TableView)
    requires
        t.wf(),
    ensures
        t.insert_column_placeholder().wf(),
{
    let after = t.insert_column_placeholder();
    lemma_empty_text_len();
    assert forall|r: int| 0 <= r < after.data.len() implies (#[trigger] after.data[r]).len()
        == after.columns.len() by {
        assert(t.data[r].len() == t.columns.len());
    }
    assert forall|c: int| 0 <= c < after.columns.len() implies (#[trigger] after.columns[c]).wf() by {
        if c < t.columns.len() {
            assert(t.columns[c].wf());
        }
    }
}

/// Removing a column keeps the invariant.
pub proof fn lemma_delete_column_wf(t: TableView, i: int)
    requires
        t.wf(),
        0 <= i < t.columns.len(),
    ensures
        t.delete_column(i).wf(),
{
    let after = t.delete_column(i);
    assert forall|r: int| 0 <= r < after.data.len() implies (#[trigger] after.data[r]).len()
        == after.columns.len() by {
        assert(t.data[r].len() == t.columns.len());
    }
    assert forall|c: int| 0 <= c < after.columns.len() implies (#[trigger] after.columns[c]).wf() by {
        if c < i {
            assert(t.columns[c].wf());
        } else {
            assert(t.columns[c + 1].wf());
        }
    }
}

/// One structural operation keeps the invariant.
pub proof fn lemma_apply_op_wf(t: TableView, op: StructuralOp)
    requires
        t.wf(),
    ensures
        apply_op(t, op).wf(),
{
    match op {
        StructuralOp::InsertRow => lemma_insert_row_wf(t),
        StructuralOp::DeleteRow(i) => {
            if 0 <= i < t.data.len() {
                lemma_delete_row_wf(t, i);
            }
        },
        StructuralOp::InsertColumn => lemma_insert_column_wf(t),
        StructuralOp::DeleteColumn(i) => {
            if 0 <= i < t.columns.len() {
                lemma_delete_column_wf(t, i);
            }
        },
    }
}

/// After any sequence of row and column insertions and deletions, every row
/// of a well-formed document still has exactly one cell per column, and the
/// rest of the invariant holds as well.
pub proof fn lemma_rows_match_columns(t: TableView, ops: Seq<StructuralOp>)
    requires
        t.wf(),
    ensures
        apply_ops(t, ops).wf(),
        apply_ops(t, ops).rectangular(),
        forall|r: int|
            0 <= r < apply_ops(t, ops).data.len() ==> (#[trigger] apply_ops(t, ops).data[r]).len()
                == apply_ops(t, ops).columns.len(),
    decreases ops.len(),
{
    if ops.len() > 0 {
        lemma_rows_match_columns(t, ops.drop_last());
        lemma_apply_op_wf(apply_ops(t, ops.drop_last()), ops.last());
    }
}

/// Moving a column keeps the invariant.
pub proof fn lemma_move_column_wf(t: TableView, i: int, dir: Direction)
    requires
        t.wf(),
    ensures
        t.move_column(i, dir).wf(),
        t.move_column(i, dir).columns.len() == t.columns.len(),
        t.move_column(i, dir).data.len() == t.data.len(),
{
    if t.can_move_column(i, dir) {
        let j = t.moved_index(i, dir);
        let after = t.move_column(i, dir);
        assert forall|r: int| 0 <= r < after.data.len() implies (#[trigger] after.data[r]).len()
            == after.columns.len() by {
            assert(t.data[r].len() == t.columns.len());
        }
        assert forall|c: int| 0 <= c < after.columns.len() implies (#[trigger] after.columns[c]).wf() by {
            assert(t.columns[c].wf());
            assert(t.columns[i].wf());
            assert(t.columns[j].wf());
        }
    }
}

/// Moving column `i` to the left and then the column at `i - 1` to the right
/// gives back the document one started from, column order and cells alike,
/// whenever the first move has a neighbour to exchange with; the second one
/// then has one too.
pub proof fn lemma_move_left_then_right(t: TableView, i: int)
    requires
        t.rectangular(),
        t.can_move_column(i, Direction::Left),
    ensures
        t.move_column(i, Direction::Left).can_move_column(i - 1, Direction::Right),
        t.move_column(i, Direction::Left).move_column(i - 1, Direction::Right) == t,
{
    let mid = t.move_column(i, Direction::Left);
    let back = mid.move_column(i - 1, Direction::Right);
    assert(back.columns =~= t.columns);
    assert forall|r: int| 0 <= r < t.data.len() implies #[trigger] back.data[r] == t.data[r] by {
        assert(t.data[r].len() == t.columns.len());
        assert(mid.data[r] == swapped(t.data[r], i, i - 1));
        assert(back.data[r] == swapped(mid.data[r], i - 1, i));
        assert(back.data[r] =~= t.data[r]);
    }
    assert(back.data =~= t.data);
}

/// Moving column `i` to the right and then the column at `i + 1` to the left
/// gives back the document one started from, whenever the first move has a
/// neighbour to exchange with.
pub proof fn lemma_move_right_then_left(t: TableView, i: int)
    requires
        t.rectangular(),
        t.can_move_column(i, Direction::Right),
    ensures
        t.move_column(i, Direction::Right).can_move_column(i + 1, Direction::Left),
        t.move_column(i, Direction::Right).move_column(i + 1, Direction::Left) == t,
{
    let mid = t.move_column(i, Direction::Right);
    let back = mid.move_column(i + 1, Direction::Left);
    assert(back.columns =~= t.columns);
    assert forall|r: int| 0 <= r < t.data.len() implies #[trigger] back.data[r] == t.data[r] by {
        assert(t.data[r].len() == t.columns.len());
        assert(mid.data[r] == swapped(t.data[r], i, i + 1));
        assert(back.data[r] == swapped(mid.data[r], i + 1, i));
        assert(back.data[r] =~= t.data[r]);
    }
    assert(back.data =~= t.data);
}

/// Moving the current column to the left and then to the right again gives
/// back the document one started from, cursor included, unless the column
/// was the first.
pub proof fn lemma_move_curr_col_round_trip(t: TableView)
    requires
        t.wf(),
        t.curr_col >= 1,
    ensures
        t.move_curr_col(Direction::Left).move_curr_col(Direction::Right) == t,
{
    let i = t.curr_col as int;
    lemma_move_left_then_right(t, i);
    let mid = t.move_curr_col(Direction::Left);
    let plain = t.move_column(i, Direction::Left);
    assert(mid.move_column(i - 1, Direction::Right) == TableView {
        curr_col: mid.curr_col,
        ..plain.move_column(i - 1, Direction::Right)
    });
}

/// The longest displayed text among the first `rows` rows of a column is at
/// least as long as each of them.
pub proof fn lemma_longest_display_bounds(t: TableView, i: int, rows: nat, r: int)
    requires
        0 <= r < rows,
    ensures
        t.longest_display(i, rows) >= text_len(
            display_text(t.data[r][i], t.columns[i].column_type),
        ),
    decreases rows,
{
    if r < rows - 1 {
        lemma_longest_display_bounds(t, i, (rows - 1) as nat, r);
    }
}

/// The glyphs of a boolean cell have the width kept for boolean columns.
pub proof fn lemma_boolean_display_len(raw: Seq<char>)
    ensures
        text_len(display_text(raw, ColumnType::Boolean)) == boolean_width(),
{
    lemma_ascii_text_len(checked_glyph());
    lemma_ascii_text_len(unchecked_glyph());
}

/// After a column is sized to fit, it is at least one wider than its name is
/// long, a boolean column is wide enough for its glyph, and no cell of the
/// column is displayed with a text longer than the column is wide.
pub proof fn lemma_autosize_fits(t: TableView, i: int)
    requires
        0 <= i < t.columns.len(),
    ensures
        t.autosize_column(i).columns[i].width == t.fitting_width(i),
        t.fitting_width(i) >= text_len(t.columns[i].name) + 1,
        t.columns[i].column_type == ColumnType::Boolean ==> t.fitting_width(i) >= boolean_width(),
        forall|r: int|
            0 <= r < t.data.len() ==> t.fitting_width(i) >= text_len(
                #[trigger] display_text(t.data[r][i], t.columns[i].column_type),
            ),
{
    assert forall|r: int| 0 <= r < t.data.len() implies t.fitting_width(i) >= text_len(
        #[trigger] display_text(t.data[r][i], t.columns[i].column_type),
    ) by {
        if t.columns[i].column_type == ColumnType::Boolean {
            lemma_boolean_display_len(t.data[r][i]);
        } else {
            lemma_longest_display_bounds(t, i, t.data.len(), r);
        }
    }
}

/// Sizing a column to fit changes nothing but that column's width, so the
/// invariant is kept.
pub proof fn lemma_autosize_wf(t: TableView, i: int)
    requires
        t.wf(),
        0 <= i < t.columns.len(),
    ensures
        t.autosize_column(i).wf(),
{
    let after = t.autosize_column(i);
    assert forall|c: int| 0 <= c < after.columns.len() implies (#[trigger] after.columns[c]).wf() by {
        assert(t.columns[c].wf());
    }
}

/// Deleting the only row of a document leaves the row cursor at 0.
pub proof fn lemma_delete_last_remaining_row(t: TableView)
    requires
        t.wf(),
        t.data.len() == 1,
    ensures
        t.delete_row(0).data.len() == 0,
        t.delete_row(0).curr_row == 0,
        t.del_curr_elem().curr_row == 0,
{
}

/// After any row is deleted the row cursor is the old one, or the new last
/// index where the old one no longer exists, or 0 in an empty table.
pub proof fn lemma_delete_row_cursor(t: TableView, i: int)
    requires
        t.wf(),
        0 <= i < t.data.len(),
    ensures
        t.delete_row(i).curr_row == if t.data.len() == 1 {
            0
        } else if t.curr_row > t.data.len() - 2 {
            t.data.len() - 2
        } else {
            t.curr_row as int
        },
{
}

/// A date cell that is committed with an input of the loose shape stores a
/// text of the canonical shape; with any other input it stores the input.
pub proof fn lemma_date_commit(stored: Seq<char>, input: Seq<char>)
    ensures
        is_loose_date(input) ==> is_canonical_date(
            committed_text(stored, input, ColumnType::Date),
        ),
        !is_loose_date(input) ==> committed_text(stored, input, ColumnType::Date) == input,
{
    if is_loose_date(input) {
        lemma_normalized_is_canonical(input);
    }
}

/// An empty commit to a boolean cell stores `f` over `t` and `t` over
/// anything else, so that two of them in a row store `t`.
pub proof fn lemma_boolean_toggle(stored: Seq<char>)
    ensures
        stored == seq!['t'] ==> committed_text(stored, Seq::<char>::empty(), ColumnType::Boolean)
            == seq!['f'],
        stored != seq!['t'] ==> committed_text(stored, Seq::<char>::empty(), ColumnType::Boolean)
            == seq!['t'],
        committed_text(
            committed_text(seq!['t'], Seq::<char>::empty(), ColumnType::Boolean),
            Seq::<char>::empty(),
            ColumnType::Boolean,
        ) == seq!['t'],
{
    assert(seq!['f'] != seq!['t']) by {
        assert(seq!['f'][0] != seq!['t'][0]);
    }
}

/// The backspace key takes back the digit that was typed last: after a digit
/// that fits, a tenth of the count is the count before the digit.
pub proof fn lemma_backspace_takes_back_digit(count: nat, d: int)
    requires
        0 <= d <= 9,
        count * 10 + d <= usize::MAX,
    ensures
        add_digit(count, d) / 10 == count,
{
}

/// Whatever the command line held, after the confirm key the editor is in
/// normal mode with an empty command line and no pending count, and the
/// focus is where it was, except that `x` moves it to the table.
pub proof fn lemma_command_returns_to_normal(
    e: EditorView,
    parsed: Result<CommandView, CommandErrorView>,
)
    ensures
        e.run_command(parsed).state.mode == InputMode::Normal,
        e.run_command(parsed).state.command == Seq::<char>::empty(),
        e.run_command(parsed).state.count == 0,
        e.run_command(parsed).state.table.focus == if parsed == Ok::<
            CommandView,
            CommandErrorView,
        >(CommandView::WriteQuit) {
            TableFocus::Table
        } else {
            e.table.focus
        },
        e.run_command(parsed).state.table.data == e.table.data,
        e.run_command(parsed).state.table.columns == e.table.columns,
{
}

/// Replacing the text of a cell keeps the invariant.
pub proof fn lemma_with_cell_wf(t: TableView, row: int, col: int, text: Seq<char>)
    requires
        t.wf(),
        0 <= row < t.data.len(),
        0 <= col < t.columns.len(),
    ensures
        t.with_cell(row, col, text).wf(),
        t.commit_cell(row, col, text).wf(),
{
    assert forall|r: int| 0 <= r < t.data.len() implies (#[trigger] t.with_cell(
        row,
        col,
        text,
    ).data[r]).len() == t.columns.len() by {
        assert(t.data[r].len() == t.columns.len());
    }
    let stored = committed_text(t.data[row][col], text, t.columns[col].column_type);
    assert forall|r: int| 0 <= r < t.data.len() implies (#[trigger] t.with_cell(
        row,
        col,
        stored,
    ).data[r]).len() == t.columns.len() by {
        assert(t.data[r].len() == t.columns.len());
    }
}

/// Giving a column a width that its name has room in keeps the invariant.
pub proof fn lemma_with_width_wf(t: TableView, i: int, width: nat)
    requires
        t.wf(),
        0 <= i < t.columns.len(),
        width >= t.columns[i].min_width(),
    ensures
        t.with_width(i, width).wf(),
{
    let after = t.with_width(i, width);
    assert forall|c: int| 0 <= c < after.columns.len() implies (#[trigger] after.columns[c]).wf() by {
        assert(t.columns[c].wf());
    }
}

/// Resizing a column keeps the invariant: no column is ever narrower than
/// its name needs.
pub proof fn lemma_resize_column_wf(t: TableView, i: int, delta: nat, how: Resize)
    requires
        t.wf(),
        0 <= i < t.columns.len(),
    ensures
        t.resize_column(i, delta, how).wf(),
        t.resize_column(i, delta, how).columns[i].width >= text_len(t.columns[i].name) + 1,
{
    assert(t.columns[i].wf());
    assert(t.resize_column(i, delta, how).columns[i].width >= t.columns[i].min_width());
    lemma_with_width_wf(t, i, t.resize_column(i, delta, how).columns[i].width);
}

/// Sizing the first `upto` columns to fit keeps the invariant, the number of
/// columns and every cell.
pub proof fn lemma_autosize_columns_wf(t: TableView, upto: nat)
    requires
        t.wf(),
        upto <= t.columns.len(),
    ensures
        t.autosize_columns(upto).wf(),
        t.autosize_columns(upto).columns.len() == t.columns.len(),
        t.autosize_columns(upto).data == t.data,
        t.autosize_columns(upto).curr_row == t.curr_row,
        t.autosize_columns(upto).curr_col == t.curr_col,
        t.autosize_columns(upto).focus == t.focus,
    decreases upto,
{
    if upto > 0 {
        lemma_autosize_columns_wf(t, (upto - 1) as nat);
        lemma_autosize_wf(t.autosize_columns((upto - 1) as nat), upto - 1);
    }
}

/// Committing a name, a width or a type to a column keeps the invariant.
pub proof fn lemma_commit_column_wf(t: TableView, i: int, name: Seq<char>, asked: nat, ty: ColumnType)
    requires
        t.wf(),
        0 <= i < t.columns.len(),
    ensures
        t.commit_column_name(i, name).wf(),
        t.commit_column_width(i, asked).wf(),
        t.commit_column_type(i, ty).wf(),
{
    let named = t.commit_column_name(i, name);
    assert forall|c: int| 0 <= c < named.columns.len() implies (#[trigger] named.columns[c]).wf() by {
        assert(t.columns[c].wf());
    }
    assert(t.columns[i].wf());
    lemma_with_width_wf(t, i, t.commit_column_width(i, asked).columns[i].width);
    let typed = t.commit_column_type(i, ty);
    assert forall|c: int| 0 <= c < typed.columns.len() implies (#[trigger] typed.columns[c]).wf() by {
        assert(t.columns[c].wf());
    }
}

/// Every key in normal mode with the focus on the table keeps the invariant
/// of the editor.
pub proof fn lemma_normal_table_wf(e: EditorView, key: char)
    requires
        e.wf(),
        e.mode == InputMode::Normal,
    ensures
        e.normal_table(key).wf(),
{
    let t = e.table;
    lemma_insert_row_wf(t);
    lemma_autosize_columns_wf(t, t.columns.len());
    if t.data.len() > 0 {
        lemma_delete_row_wf(t, t.curr_row as int);
    }
}

/// Every key in normal mode with the focus on a row keeps the invariant of
/// the editor.
pub proof fn lemma_normal_element_wf(e: EditorView, key: char)
    requires
        e.wf(),
        e.mode == InputMode::Normal,
        e.table.focus == TableFocus::Element,
    ensures
        e.normal_element(key).wf(),
{
    let t = e.table;
    if t.data.len() > 0 {
        lemma_delete_row_wf(t, t.curr_row as int);
    }
}

/// Every key in normal mode with the focus on a column keeps the invariant
/// of the editor.
pub proof fn lemma_normal_column_wf(e: EditorView, key: char)
    requires
        e.wf(),
        e.mode == InputMode::Normal,
        e.table.focus == TableFocus::Column,
    ensures
        e.normal_column(key).wf(),
{
    let t = e.table;
    let c = t.curr_col as int;
    lemma_insert_column_wf(t);
    lemma_move_column_wf(t, c, Direction::Left);
    lemma_move_column_wf(t, c, Direction::Right);
    if t.columns.len() > 0 {
        lemma_delete_column_wf(t, c);
        lemma_autosize_wf(t, c);
        lemma_resize_column_wf(t, c, e.count, Resize::Grow);
        lemma_resize_column_wf(t, c, e.count, Resize::Shrink);
    }
}

/// Every key in text mode keeps the invariant of the editor.
pub proof fn lemma_text_key_wf(e: EditorView, key: char)
    requires
        e.wf(),
        e.mode == InputMode::Text,
    ensures
        e.text_key(key).wf(),
{
    let t = e.table;
    let c = t.curr_col as int;
    if key == '\n' {
        match t.focus {
            TableFocus::Element => {
                lemma_with_cell_wf(t, t.curr_row as int, e.count - 1, e.input);
            },
            TableFocus::NewElement => {
                if t.columns.len() > 0 {
                    lemma_with_cell_wf(t, t.data.len() - 1, e.count - 1, e.input);
                }
            },
            TableFocus::Column | TableFocus::NewColumn => {
                lemma_commit_column_wf(t, c, e.input, 0, ColumnType::String);
                match crate::model::width_of_input(e.input) {
                    Some(w) => lemma_commit_column_wf(t, c, e.input, w, ColumnType::String),
                    None => {},
                }
                match crate::column::type_of_name(e.input) {
                    Some(ty) => lemma_commit_column_wf(t, c, e.input, 0, ty),
                    None => {},
                }
            },
            _ => {},
        }
    }
}

/// Every key keeps the invariant of the editor: the document stays well
/// formed, with every row as long as there are columns, every column wide
/// enough for its name and both cursors in range, and text mode always has a
/// field to type over.
pub proof fn lemma_handle_key_wf(e: EditorView, key: char)
    requires
        e.wf(),
    ensures
        e.handle_key(key).state.wf(),
{
    let s = e.cleared();
    match s.mode {
        InputMode::Normal => {
            match s.table.focus {
                TableFocus::Table => lemma_normal_table_wf(s, key),
                TableFocus::Element => lemma_normal_element_wf(s, key),
                TableFocus::Column => lemma_normal_column_wf(s, key),
                _ => {},
            }
        },
        InputMode::Text => lemma_text_key_wf(s, key),
        InputMode::Cmd => {},
    }
}

} // verus!
