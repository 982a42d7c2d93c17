//! The table as mathematics: what a document holds, when it is well formed,
//! and what each structural operation and each cursor movement makes of it.
//!
//! Every executable operation of the table states its effect by one of the
//! functions here, and the laws of the table are proved about them.

use vstd::prelude::*;
use crate::column::{display_text, ColumnType, ColumnView};
use crate::date::normalized_date;
use crate::number::parse_i32;
use crate::text::text_len;

verus! {

/// How rows are numbered: from the top, or by distance from the cursor.
#[derive(Clone, Copy, Debug, PartialEq, Eq, Structural)]
pub enum NumMode {
    Absolute,
    Relative,
}

/// The area of the editor that owns the keyboard.
#[derive(Clone, Copy, Debug, PartialEq, Eq, Structural)]
pub enum TableFocus {
    Table,
    Element,
    NewElement,
    View,
    Sort,
    Column,
    NewColumn,
}

/// The name of a focus, as the status line shows it.
pub open spec fn focus_name(focus: TableFocus) -> Seq<char> {
    match focus {
        TableFocus::Table => "Table"@,
        TableFocus::Element => "Element"@,
        TableFocus::NewElement => "NewElement"@,
        TableFocus::View => "View"@,
        TableFocus::Sort => "Sort"@,
        TableFocus::Column => "Column"@,
        TableFocus::NewColumn => "NewColumn"@,
    }
}

impl TableFocus {
    /// The name of this focus.
    pub fn name(&self) -> (r: &'static str)
        ensures
            r@ == focus_name(*self),
    {
        match self {
            TableFocus::Table => "Table",
            TableFocus::Element => "Element",
            TableFocus::NewElement => "NewElement",
            TableFocus::View => "View",
            TableFocus::Sort => "Sort",
            TableFocus::Column => "Column",
            TableFocus::NewColumn => "NewColumn",
        }
    }
}

/// The way the keyboard is read: single keys as commands, keys as text for a
/// field, or keys as text for a command line.
#[derive(Clone, Copy, Debug, PartialEq, Eq, Structural)]
pub enum InputMode {
    Normal,
    Text,
    Cmd,
}

/// The side towards which a column moves.
#[derive(Clone, Copy, Debug, PartialEq, Eq, Structural)]
pub enum Direction {
    Left,
    Right,
}

/// The way in which a column's width changes.
#[derive(Clone, Copy, Debug, PartialEq, Eq, Structural)]
pub enum Resize {
    Grow,
    Shrink,
}

/// A document as contracts see it.
pub struct TableView {
    pub title: Seq<char>,
    pub subtitle: Seq<char>,
    pub path: Seq<char>,
    pub columns: Seq<ColumnView>,
    pub data: Seq<Seq<Seq<char>>>,
    pub curr_row: nat,
    pub curr_col: nat,
    pub num_mode: NumMode,
    pub focus: TableFocus,
}

/// A cursor over `count` items is on one of them, or at 0 when there is none.
pub open spec fn cursor_in_range(cursor: nat, count: nat) -> bool {
    if count == 0 {
        cursor == 0
    } else {
        cursor < count
    }
}

/// The cursor brought back into range: unchanged while it is on an item,
/// else on the last item, else 0.
pub open spec fn clamp_cursor(cursor: nat, count: nat) -> nat {
    if count == 0 {
        0
    } else if cursor >= count {
        (count - 1) as nat
    } else {
        cursor
    }
}

/// `s` with the items at `i` and `j` exchanged.
pub open spec fn swapped<T>(s: Seq<T>, i: int, j: int) -> Seq<T> {
    s.update(i, s[j]).update(j, s[i])
}

/// The step that a movement takes: the count, or the default when the count
/// is zero.
pub open spec fn step_of(by: nat, def: nat) -> nat {
    if by == 0 {
        def
    } else {
        by
    }
}

/// A width grown by `delta`. A growth that would take the width beyond the
/// largest machine integer is dropped.
pub open spec fn grown_width(width: nat, delta: nat) -> nat {
    if width + delta <= usize::MAX {
        width + delta
    } else {
        width
    }
}

/// A width shrunk by `delta`, held at `floor`.
pub open spec fn shrunk_width(width: nat, delta: nat, floor: nat) -> nat {
    if width >= delta + floor {
        (width - delta) as nat
    } else {
        floor
    }
}

/// The larger of two numbers.
pub open spec fn larger(a: nat, b: nat) -> nat {
    if a >= b {
        a
    } else {
        b
    }
}

/// The width that a boolean column needs for its glyph.
pub open spec fn boolean_width() -> nat {
    3
}

/// What a cell stores when `input` is committed over `stored` in a column of
/// type `ty`.
pub open spec fn committed_text(stored: Seq<char>, input: Seq<char>, ty: ColumnType) -> Seq<
    char,
> {
    match ty {
        ColumnType::Date => normalized_date(input),
        ColumnType::Boolean => if input.len() == 0 {
            if stored == seq!['t'] {
                seq!['f']
            } else {
                seq!['t']
            }
        } else {
            input
        },
        ColumnType::String => input,
        ColumnType::Number => input,
        ColumnType::Multiselect => input,
    }
}

/// The width that a width field set to `input` asks for: `None` when the
/// input is no 32-bit integer, else that integer, or zero in place of a
/// negative one.
pub open spec fn width_of_input(input: Seq<char>) -> Option<nat> {
    match parse_i32(input) {
        Some(v) => Some(if v < 0 {
            0nat
        } else {
            v as nat
        }),
        None => None,
    }
}

impl TableView {
    /// Every row has one cell per column.
    pub open spec fn rectangular(self) -> bool {
        forall|r: int| 0 <= r < self.data.len() ==> (#[trigger] self.data[r]).len() == self.columns.len()
    }

    /// Every column is wide enough for its name.
    pub open spec fn columns_wf(self) -> bool {
        forall|c: int| 0 <= c < self.columns.len() ==> (#[trigger] self.columns[c]).wf()
    }

    /// The invariant of a document: rows and columns agree, columns are wide
    /// enough, both cursors are in range.
    pub open spec fn wf(self) -> bool {
        &&& self.rectangular()
        &&& self.columns_wf()
        &&& cursor_in_range(self.curr_row, self.data.len())
        &&& cursor_in_range(self.curr_col, self.columns.len())
    }

    /// The document with one more row, of empty cells, at the end.
    pub open spec fn insert_row_placeholder(self) -> TableView {
        TableView {
            data: self.data.push(Seq::new(self.columns.len(), |c: int| Seq::<char>::empty())),
            ..self
        }
    }

    /// The document without row `i`; the row cursor is brought back into
    /// range.
    pub open spec fn delete_row(self, i: int) -> TableView {
        TableView {
            data: self.data.remove(i),
            curr_row: clamp_cursor(self.curr_row, (self.data.len() - 1) as nat),
            ..self
        }
    }

    /// The document with one more column at the end, of empty name, width 1
    /// and type `String`, and one more empty cell at the end of every row.
    pub open spec fn insert_column_placeholder(self) -> TableView {
        TableView {
            columns: self.columns.push(
                ColumnView { name: Seq::<char>::empty(), width: 1, column_type: ColumnType::String },
            ),
            data: Seq::new(self.data.len(), |r: int| self.data[r].push(Seq::<char>::empty())),
            ..self
        }
    }

    /// The document without column `i` and without cell `i` of every row; the
    /// column cursor is brought back into range.
    pub open spec fn delete_column(self, i: int) -> TableView {
        TableView {
            columns: self.columns.remove(i),
            data: Seq::new(self.data.len(), |r: int| self.data[r].remove(i)),
            curr_col: clamp_cursor(self.curr_col, (self.columns.len() - 1) as nat),
            ..self
        }
    }

    /// Whether moving column `i` towards `dir` moves anything: the column
    /// exists and has a neighbour on that side.
    pub open spec fn can_move_column(self, i: int, dir: Direction) -> bool {
        match dir {
            Direction::Left => 1 <= i < self.columns.len(),
            Direction::Right => 0 <= i && i + 1 < self.columns.len(),
        }
    }

    /// Where column `i` is after a move towards `dir`.
    pub open spec fn moved_index(self, i: int, dir: Direction) -> int {
        if self.can_move_column(i, dir) {
            match dir {
                Direction::Left => i - 1,
                Direction::Right => i + 1,
            }
        } else {
            i
        }
    }

    /// The document with column `i` exchanged with its neighbour towards
    /// `dir`, in the header and in every row; unchanged where there is no
    /// such neighbour.
    pub open spec fn move_column(self, i: int, dir: Direction) -> TableView {
        if self.can_move_column(i, dir) {
            let j = self.moved_index(i, dir);
            TableView {
                columns: swapped(self.columns, i, j),
                data: Seq::new(self.data.len(), |r: int| swapped(self.data[r], i, j)),
                ..self
            }
        } else {
            self
        }
    }

    /// The document with column `i` given the width `width`.
    pub open spec fn with_width(self, i: int, width: nat) -> TableView {
        TableView {
            columns: self.columns.update(i, ColumnView { width, ..self.columns[i] }),
            ..self
        }
    }

    /// The document with column `i` grown or shrunk by `delta`, or by 1 when
    /// `delta` is zero. A column never shrinks below the least width for its
    /// name.
    pub open spec fn resize_column(self, i: int, delta: nat, how: Resize) -> TableView {
        let col = self.columns[i];
        let amount = step_of(delta, 1);
        match how {
            Resize::Grow => self.with_width(i, grown_width(col.width, amount)),
            Resize::Shrink => self.with_width(
                i,
                shrunk_width(col.width, amount, col.min_width()),
            ),
        }
    }

    /// The length of the longest text displayed in column `i` among the first
    /// `rows` rows; zero when there are none.
    pub open spec fn longest_display(self, i: int, rows: nat) -> nat
        decreases rows,
    {
        if rows == 0 {
            0
        } else {
            larger(
                self.longest_display(i, (rows - 1) as nat),
                text_len(display_text(self.data[rows - 1][i], self.columns[i].column_type)),
            )
        }
    }

    /// The width that fits column `i`: for a boolean column, room for the
    /// glyph and for the name; for any other, room for the name and for the
    /// longest displayed cell.
    pub open spec fn fitting_width(self, i: int) -> nat {
        let col = self.columns[i];
        if col.column_type == ColumnType::Boolean {
            larger(boolean_width(), col.min_width())
        } else {
            larger(col.min_width(), self.longest_display(i, self.data.len()))
        }
    }

    /// The document with column `i` at its fitting width.
    pub open spec fn autosize_column(self, i: int) -> TableView {
        self.with_width(i, self.fitting_width(i))
    }

    /// The document with every column before `upto` at its fitting width.
    pub open spec fn autosize_columns(self, upto: nat) -> TableView
        decreases upto,
    {
        if upto == 0 {
            self
        } else {
            self.autosize_columns((upto - 1) as nat).autosize_column(upto - 1)
        }
    }

    /// The document with the cell at (`row`, `col`) holding `text`.
    pub open spec fn with_cell(self, row: int, col: int, text: Seq<char>) -> TableView {
        TableView { data: self.data.update(row, self.data[row].update(col, text)), ..self }
    }

    /// The document after `input` is committed to the cell at (`row`, `col`).
    pub open spec fn commit_cell(self, row: int, col: int, input: Seq<char>) -> TableView {
        self.with_cell(
            row,
            col,
            committed_text(self.data[row][col], input, self.columns[col].column_type),
        )
    }

    /// The document with column `i` renamed, and widened where the new name
    /// needs it.
    pub open spec fn commit_column_name(self, i: int, name: Seq<char>) -> TableView {
        TableView {
            columns: self.columns.update(
                i,
                ColumnView {
                    name,
                    width: larger(self.columns[i].width, text_len(name) + 1),
                    ..self.columns[i]
                },
            ),
            ..self
        }
    }

    /// The document with column `i` at the width asked for, or at the least
    /// width for its name where that is more.
    pub open spec fn commit_column_width(self, i: int, asked: nat) -> TableView {
        self.with_width(i, larger(asked, self.columns[i].min_width()))
    }

    /// The document with column `i` of type `ty`.
    pub open spec fn commit_column_type(self, i: int, ty: ColumnType) -> TableView {
        TableView {
            columns: self.columns.update(i, ColumnView { column_type: ty, ..self.columns[i] }),
            ..self
        }
    }

    /// The document with the row cursor moved up by `by` rows, or by `def`
    /// when `by` is zero, and held at the first row.
    pub open spec fn up(self, by: nat, def: nat) -> TableView {
        let amount = step_of(by, def);
        TableView {
            curr_row: if self.curr_row >= amount {
                (self.curr_row - amount) as nat
            } else {
                0
            },
            ..self
        }
    }

    /// The document with the row cursor moved down by `by` rows, or by `def`
    /// when `by` is zero, and held at the last row.
    pub open spec fn down(self, by: nat, def: nat) -> TableView {
        let amount = step_of(by, def);
        TableView {
            curr_row: if self.curr_row + amount < self.data.len() {
                self.curr_row + amount
            } else {
                clamp_cursor(self.data.len(), self.data.len())
            },
            ..self
        }
    }

    /// The document with the row cursor on row `to`, counted from 1; unchanged
    /// when there is no such row.
    pub open spec fn goto_row(self, to: nat) -> TableView {
        if 1 <= to <= self.data.len() {
            TableView { curr_row: (to - 1) as nat, ..self }
        } else {
            self
        }
    }

    /// The document with the column cursor moved left by `by` columns, or by
    /// one when `by` is zero. A single step past the first column lands on
    /// the last; a longer one stops at the first.
    pub open spec fn prev_col(self, by: nat) -> TableView {
        let amount = step_of(by, 1);
        TableView {
            curr_col: if self.curr_col >= amount {
                (self.curr_col - amount) as nat
            } else if amount == 1 {
                clamp_cursor(self.columns.len(), self.columns.len())
            } else {
                0
            },
            ..self
        }
    }

    /// The document with the column cursor moved right by `by` columns, or by
    /// one when `by` is zero. A single step past the last column lands on the
    /// first; a longer one stops at the last.
    pub open spec fn next_col(self, by: nat) -> TableView {
        let amount = step_of(by, 1);
        TableView {
            curr_col: if self.curr_col + amount < self.columns.len() {
                self.curr_col + amount
            } else if amount == 1 {
                0
            } else {
                clamp_cursor(self.columns.len(), self.columns.len())
            },
            ..self
        }
    }

    /// The document with the focus on the column area and the first column
    /// current.
    pub open spec fn to_col_mode(self) -> TableView {
        TableView { curr_col: 0, focus: TableFocus::Column, ..self }
    }

    /// The document with the current column resized, if there is one.
    pub open spec fn resize_curr_col(self, delta: nat, how: Resize) -> TableView {
        if self.columns.len() > 0 {
            self.resize_column(self.curr_col as int, delta, how)
        } else {
            self
        }
    }

    /// The document with the current column at its fitting width, if there is
    /// one.
    pub open spec fn auto_size_curr_col(self) -> TableView {
        if self.columns.len() > 0 {
            self.autosize_column(self.curr_col as int)
        } else {
            self
        }
    }

    /// The document with the other way of numbering rows.
    pub open spec fn switch_num_mode(self) -> TableView {
        TableView {
            num_mode: match self.num_mode {
                NumMode::Absolute => NumMode::Relative,
                NumMode::Relative => NumMode::Absolute,
            },
            ..self
        }
    }

    /// The document with the focus on `focus`.
    pub open spec fn with_focus(self, focus: TableFocus) -> TableView {
        TableView { focus, ..self }
    }

    /// The document with the row cursor on the last row.
    pub open spec fn select_last_row(self) -> TableView {
        TableView { curr_row: clamp_cursor(self.data.len(), self.data.len()), ..self }
    }

    /// The document with the column cursor on the last column.
    pub open spec fn select_last_col(self) -> TableView {
        TableView { curr_col: clamp_cursor(self.columns.len(), self.columns.len()), ..self }
    }

    /// The document after the current row is deleted, if there is one, with
    /// the focus back on the table.
    pub open spec fn del_curr_elem(self) -> TableView {
        if self.data.len() > 0 {
            self.delete_row(self.curr_row as int).with_focus(TableFocus::Table)
        } else {
            self.with_focus(TableFocus::Table)
        }
    }

    /// The document after the current column is deleted, if there is one,
    /// with the focus back on the table.
    pub open spec fn del_curr_col(self) -> TableView {
        if self.columns.len() > 0 {
            self.delete_column(self.curr_col as int).with_focus(TableFocus::Table)
        } else {
            self.with_focus(TableFocus::Table)
        }
    }

    /// The document after the current column has moved towards `dir`, the
    /// column cursor following it.
    pub open spec fn move_curr_col(self, dir: Direction) -> TableView {
        TableView {
            curr_col: self.moved_index(self.curr_col as int, dir) as nat,
            ..self.move_column(self.curr_col as int, dir)
        }
    }
}

} // verus!
