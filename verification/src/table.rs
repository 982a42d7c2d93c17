//! The document: a titled table of typed columns and rows of raw text, with
//! its cursors, its numbering mode and its focus.

use vstd::prelude::*;
use crate::column::{display_len, display_text, type_of_name, Column, ColumnType, ColumnView};
use crate::laws::lemma_autosize_fits;
use crate::date::normalize_date;
use crate::model::{
    boolean_width, clamp_cursor, cursor_in_range, larger, swapped, width_of_input, Direction,
    NumMode, Resize, TableFocus, TableView,
};
use crate::number::parse_int;
use crate::text::{lemma_empty_text_len, owned, str_eq, str_len, text_len};

verus! {

/// The columns of a vector, as contracts see them.
pub open spec fn columns_view(cols: Seq<Column>) -> Seq<ColumnView> {
    Seq::new(cols.len(), |i: int| cols[i]@)
}

/// The cells of a row, as contracts see them.
pub open spec fn row_view(row: Seq<String>) -> Seq<Seq<char>> {
    Seq::new(row.len(), |i: int| row[i]@)
}

/// The rows of a grid, as contracts see them.
pub open spec fn grid_view(data: Seq<Vec<String>>) -> Seq<Seq<Seq<char>>> {
    Seq::new(data.len(), |i: int| row_view(data[i]@))
}

/// The document.
#[derive(Debug)]
pub struct Table {
    title: String,
    subtitle: String,
    columns: Vec<Column>,
    data: Vec<Vec<String>>,
    curr_row: usize,
    curr_col: usize,
    num_mode: NumMode,
    table_focus: TableFocus,
    path: String,
}

impl View for Table {
    type V = TableView;

    closed spec fn view(&self) -> TableView {
        TableView {
            title: self.title@,
            subtitle: self.subtitle@,
            path: self.path@,
            columns: columns_view(self.columns@),
            data: grid_view(self.data@),
            curr_row: self.curr_row as nat,
            curr_col: self.curr_col as nat,
            num_mode: self.num_mode,
            focus: self.table_focus,
        }
    }
}

fn columns_are_wide(columns: &Vec<Column>) -> (b: bool)
    ensures
        b == (forall|c: int|
            0 <= c < columns@.len() ==> (#[trigger] columns_view(columns@)[c]).wf()),
{
    let mut i: usize = 0;
    while i < columns.len()
        invariant
            i <= columns@.len(),
            forall|c: int| 0 <= c < i ==> (#[trigger] columns_view(columns@)[c]).wf(),
        decreases columns@.len() - i,
    {
        let len: usize = str_len(columns[i].name.as_str());
        if len == usize::MAX || columns[i].width < len + 1 {
            assert(!columns_view(columns@)[i as int].wf());
            return false;
        }
        i = i + 1;
    }
    true
}

fn rows_have_len(data: &Vec<Vec<String>>, n: usize) -> (b: bool)
    ensures
        b == (forall|r: int| 0 <= r < data@.len() ==> (#[trigger] grid_view(data@)[r]).len() == n),
{
    let mut i: usize = 0;
    while i < data.len()
        invariant
            i <= data@.len(),
            forall|r: int| 0 <= r < i ==> (#[trigger] grid_view(data@)[r]).len() == n,
        decreases data@.len() - i,
    {
        if data[i].len() != n {
            assert(grid_view(data@)[i as int].len() != n);
            return false;
        }
        i = i + 1;
    }
    true
}

fn cursor_ok(cursor: usize, count: usize) -> (b: bool)
    ensures
        b == cursor_in_range(cursor as nat, count as nat),
{
    if count == 0 {
        cursor == 0
    } else {
        cursor < count
    }
}

fn push_empty_cells(data: &mut Vec<Vec<String>>)
    ensures
        final(data)@.len() == old(data)@.len(),
        forall|r: int|
            0 <= r < old(data)@.len() ==> row_view((#[trigger] final(data)@[r])@) == row_view(
                old(data)@[r]@,
            ).push(Seq::<char>::empty()),
{
    let n: usize = data.len();
    let mut r: usize = 0;
    while r < n
        invariant
            r <= n,
            data@.len() == n,
            n == old(data)@.len(),
            forall|j: int|
                0 <= j < r ==> row_view((#[trigger] data@[j])@) == row_view(old(data)@[j]@).push(
                    Seq::<char>::empty(),
                ),
            forall|j: int| r <= j < n ==> (#[trigger] data@[j]) == old(data)@[j],
        decreases n - r,
    {
        data[r].push(String::new());
        proof {
            assert(row_view(data@[r as int]@) =~= row_view(old(data)@[r as int]@).push(
                Seq::<char>::empty(),
            ));
        }
        r = r + 1;
    }
}

fn remove_cells(data: &mut Vec<Vec<String>>, i: usize)
    requires
        forall|r: int| 0 <= r < old(data)@.len() ==> i < (#[trigger] old(data)@[r])@.len(),
    ensures
        final(data)@.len() == old(data)@.len(),
        forall|r: int|
            0 <= r < old(data)@.len() ==> row_view((#[trigger] final(data)@[r])@) == row_view(
                old(data)@[r]@,
            ).remove(i as int),
{
    let n: usize = data.len();
    let mut r: usize = 0;
    while r < n
        invariant
            r <= n,
            data@.len() == n,
            n == old(data)@.len(),
            forall|j: int| 0 <= j < n ==> i < (#[trigger] old(data)@[j])@.len(),
            forall|j: int|
                0 <= j < r ==> row_view((#[trigger] data@[j])@) == row_view(old(data)@[j]@).remove(
                    i as int,
                ),
            forall|j: int| r <= j < n ==> (#[trigger] data@[j]) == old(data)@[j],
        decreases n - r,
    {
        let _ = data[r].remove(i);
        proof {
            assert(row_view(data@[r as int]@) =~= row_view(old(data)@[r as int]@).remove(i as int));
        }
        r = r + 1;
    }
}

fn swap_adjacent<T>(v: &mut Vec<T>, i: usize)
    requires
        i + 1 < old(v)@.len(),
    ensures
        final(v)@ == swapped(old(v)@, i as int, i + 1),
{
    let next: usize = if i < v.len() - 1 {
        i + 1
    } else {
        i
    };
    let x = v.remove(i);
    v.insert(next, x);
    assert(v@ =~= swapped(old(v)@, i as int, i + 1));
}

fn swap_cells(data: &mut Vec<Vec<String>>, i: usize)
    requires
        forall|r: int| 0 <= r < old(data)@.len() ==> i + 1 < (#[trigger] old(data)@[r])@.len(),
    ensures
        final(data)@.len() == old(data)@.len(),
        forall|r: int|
            0 <= r < old(data)@.len() ==> row_view((#[trigger] final(data)@[r])@) == swapped(
                row_view(old(data)@[r]@),
                i as int,
                i + 1,
            ),
{
    let n: usize = data.len();
    let mut r: usize = 0;
    while r < n
        invariant
            r <= n,
            data@.len() == n,
            n == old(data)@.len(),
            forall|j: int| 0 <= j < n ==> i + 1 < (#[trigger] old(data)@[j])@.len(),
            forall|j: int|
                0 <= j < r ==> row_view((#[trigger] data@[j])@) == swapped(
                    row_view(old(data)@[j]@),
                    i as int,
                    i + 1,
                ),
            forall|j: int| r <= j < n ==> (#[trigger] data@[j]) == old(data)@[j],
        decreases n - r,
    {
        swap_adjacent(&mut data[r], i);
        proof {
            assert(row_view(data@[r as int]@) =~= swapped(
                row_view(old(data)@[r as int]@),
                i as int,
                i + 1,
            ));
        }
        r = r + 1;
    }
}

impl Table {
    /// The invariant of the document, which every operation keeps.
    pub open spec fn wf(&self) -> bool {
        self@.wf()
    }

    /// A document of the given parts, or `None` where they break the
    /// invariant: a row that has not one cell per column, a column narrower
    /// than its name needs, a cursor out of range.
    pub fn new(
        title: String,
        subtitle: String,
        path: String,
        columns: Vec<Column>,
        data: Vec<Vec<String>>,
        curr_row: usize,
        curr_col: usize,
        num_mode: NumMode,
        table_focus: TableFocus,
    ) -> (r: Option<Table>)
        ensures
            r is Some <==> (TableView {
                title: title@,
                subtitle: subtitle@,
                path: path@,
                columns: columns_view(columns@),
                data: grid_view(data@),
                curr_row: curr_row as nat,
                curr_col: curr_col as nat,
                num_mode,
                focus: table_focus,
            }).wf(),
            r matches Some(t) ==> t.wf() && t@ == (TableView {
                title: title@,
                subtitle: subtitle@,
                path: path@,
                columns: columns_view(columns@),
                data: grid_view(data@),
                curr_row: curr_row as nat,
                curr_col: curr_col as nat,
                num_mode,
                focus: table_focus,
            }),
    {
        if rows_have_len(&data, columns.len()) && columns_are_wide(&columns) && cursor_ok(
            curr_row,
            data.len(),
        ) && cursor_ok(curr_col, columns.len()) {
            Some(
                Table {
                    title,
                    subtitle,
                    columns,
                    data,
                    curr_row,
                    curr_col,
                    num_mode,
                    table_focus,
                    path,
                },
            )
        } else {
            None
        }
    }

    /// The title.
    pub fn title(&self) -> (r: &str)
        ensures
            r@ == self@.title,
    {
        self.title.as_str()
    }

    /// The subtitle.
    pub fn subtitle(&self) -> (r: &str)
        ensures
            r@ == self@.subtitle,
    {
        self.subtitle.as_str()
    }

    /// The path under which the document is stored.
    pub fn path(&self) -> (r: &str)
        ensures
            r@ == self@.path,
    {
        self.path.as_str()
    }

    /// The columns, in order.
    pub fn columns(&self) -> (r: &Vec<Column>)
        ensures
            columns_view(r@) == self@.columns,
    {
        &self.columns
    }

    /// The rows, in order.
    pub fn data(&self) -> (r: &Vec<Vec<String>>)
        ensures
            grid_view(r@) == self@.data,
    {
        &self.data
    }

    /// The number of columns.
    pub fn column_count(&self) -> (n: usize)
        ensures
            n == self@.columns.len(),
    {
        self.columns.len()
    }

    /// The number of rows.
    pub fn row_count(&self) -> (n: usize)
        ensures
            n == self@.data.len(),
    {
        self.data.len()
    }

    /// Column `i`.
    pub fn column(&self, i: usize) -> (r: &Column)
        requires
            i < self@.columns.len(),
        ensures
            r@ == self@.columns[i as int],
    {
        &self.columns[i]
    }

    /// The raw text of the cell at (`row`, `col`).
    pub fn cell(&self, row: usize, col: usize) -> (r: &str)
        requires
            row < self@.data.len(),
            col < self@.data[row as int].len(),
        ensures
            r@ == self@.data[row as int][col as int],
    {
        self.data[row][col].as_str()
    }

    /// The index of the current row.
    pub fn curr_row(&self) -> (r: usize)
        ensures
            r == self@.curr_row,
    {
        self.curr_row
    }

    /// The index of the current column.
    pub fn curr_col(&self) -> (r: usize)
        ensures
            r == self@.curr_col,
    {
        self.curr_col
    }

    /// The way rows are numbered.
    pub fn num_mode(&self) -> (r: NumMode)
        ensures
            r == self@.num_mode,
    {
        self.num_mode
    }

    /// The area that owns the keyboard.
    pub fn table_focus(&self) -> (r: TableFocus)
        ensures
            r == self@.focus,
    {
        self.table_focus
    }

    /// Replaces the title.
    pub fn set_title(&mut self, title: String)
        ensures
            final(self)@ == (TableView { title: title@, ..old(self)@ }),
    {
        self.title = title;
    }

    /// Replaces the subtitle.
    pub fn set_subtitle(&mut self, subtitle: String)
        ensures
            final(self)@ == (TableView { subtitle: subtitle@, ..old(self)@ }),
    {
        self.subtitle = subtitle;
    }

    /// Replaces the path under which the document is stored.
    pub fn set_path(&mut self, path: String)
        ensures
            final(self)@ == (TableView { path: path@, ..old(self)@ }),
    {
        self.path = path;
    }

    /// Moves the focus to the row wizard, after appending the row it fills.
    pub fn to_new_elem_mode(&mut self)
        requires
            old(self).wf(),
        ensures
            final(self)@ == old(self)@.insert_row_placeholder().with_focus(TableFocus::NewElement),
            final(self).wf(),
    {
        self.insert_row_placeholder();
        self.table_focus = TableFocus::NewElement;
    }

    /// Moves the focus to the view area.
    pub fn to_view_mode(&mut self)
        ensures
            final(self)@ == old(self)@.with_focus(TableFocus::View),
    {
        self.table_focus = TableFocus::View;
    }

    /// Moves the focus to the sort area.
    pub fn to_sort_mode(&mut self)
        ensures
            final(self)@ == old(self)@.with_focus(TableFocus::Sort),
    {
        self.table_focus = TableFocus::Sort;
    }

    /// Moves the focus back to the table.
    pub fn to_table_mode(&mut self)
        ensures
            final(self)@ == old(self)@.with_focus(TableFocus::Table),
    {
        self.table_focus = TableFocus::Table;
    }

    /// Moves the focus to the column area, with the first column current.
    pub fn to_col_mode(&mut self)
        ensures
            final(self)@ == old(self)@.to_col_mode(),
    {
        self.table_focus = TableFocus::Column;
        self.curr_col = 0;
    }

    /// Moves the focus to the column wizard, after appending the column it
    /// fills.
    pub fn to_new_col_mode(&mut self)
        requires
            old(self).wf(),
        ensures
            final(self)@ == old(self)@.insert_column_placeholder().with_focus(
                TableFocus::NewColumn,
            ),
            final(self).wf(),
    {
        self.insert_column_placeholder();
        self.table_focus = TableFocus::NewColumn;
    }

    /// Moves the focus to the detail of the current row.
    pub fn view_curr_elem(&mut self)
        ensures
            final(self)@ == old(self)@.with_focus(TableFocus::Element),
    {
        self.table_focus = TableFocus::Element;
    }

    /// Moves the row cursor up by `by` rows, or by `def` when `by` is zero.
    pub fn up(&mut self, by: usize, def: usize)
        ensures
            final(self)@ == old(self)@.up(by as nat, def as nat),
            old(self).wf() ==> final(self).wf(),
    {
        let amount: usize = if by == 0 {
            def
        } else {
            by
        };
        if self.curr_row >= amount {
            self.curr_row = self.curr_row - amount;
        } else {
            self.curr_row = 0;
        }
    }

    /// Moves the row cursor down by `by` rows, or by `def` when `by` is zero.
    pub fn down(&mut self, by: usize, def: usize)
        ensures
            final(self)@ == old(self)@.down(by as nat, def as nat),
            old(self).wf() ==> final(self).wf(),
    {
        let amount: usize = if by == 0 {
            def
        } else {
            by
        };
        let len: usize = self.data.len();
        if amount < len && self.curr_row < len - amount {
            self.curr_row = self.curr_row + amount;
        } else if len > 0 {
            self.curr_row = len - 1;
        } else {
            self.curr_row = 0;
        }
    }

    /// Moves the row cursor to row `to`, counted from 1, if there is one.
    pub fn goto_row(&mut self, to: usize)
        ensures
            final(self)@ == old(self)@.goto_row(to as nat),
            old(self).wf() ==> final(self).wf(),
    {
        if to > 0 && to <= self.data.len() {
            self.curr_row = to - 1;
        }
    }

    /// Changes the way rows are numbered.
    pub fn switch_num_mode(&mut self)
        ensures
            final(self)@ == old(self)@.switch_num_mode(),
    {
        match self.num_mode {
            NumMode::Absolute => self.num_mode = NumMode::Relative,
            NumMode::Relative => self.num_mode = NumMode::Absolute,
        }
    }

    /// Moves the column cursor left by `by` columns, or by one when `by` is
    /// zero.
    pub fn prev_col(&mut self, by: usize)
        ensures
            final(self)@ == old(self)@.prev_col(by as nat),
            old(self).wf() ==> final(self).wf(),
    {
        let amount: usize = if by == 0 {
            1
        } else {
            by
        };
        let len: usize = self.columns.len();
        if self.curr_col >= amount {
            self.curr_col = self.curr_col - amount;
        } else if amount == 1 && len > 0 {
            self.curr_col = len - 1;
        } else {
            self.curr_col = 0;
        }
    }

    /// Moves the column cursor right by `by` columns, or by one when `by` is
    /// zero.
    pub fn next_col(&mut self, by: usize)
        ensures
            final(self)@ == old(self)@.next_col(by as nat),
            old(self).wf() ==> final(self).wf(),
    {
        let amount: usize = if by == 0 {
            1
        } else {
            by
        };
        let len: usize = self.columns.len();
        if amount < len && self.curr_col < len - amount {
            self.curr_col = self.curr_col + amount;
        } else if amount == 1 || len == 0 {
            self.curr_col = 0;
        } else {
            self.curr_col = len - 1;
        }
    }

    /// Puts the row cursor on the last row.
    pub fn select_last_row(&mut self)
        ensures
            final(self)@ == old(self)@.select_last_row(),
            old(self).wf() ==> final(self).wf(),
    {
        let len: usize = self.data.len();
        self.curr_row = if len > 0 {
            len - 1
        } else {
            0
        };
    }

    /// Puts the column cursor on the last column.
    pub fn select_last_col(&mut self)
        ensures
            final(self)@ == old(self)@.select_last_col(),
            old(self).wf() ==> final(self).wf(),
    {
        let len: usize = self.columns.len();
        self.curr_col = if len > 0 {
            len - 1
        } else {
            0
        };
    }

    /// Appends a row of empty cells, one per column.
    pub fn insert_row_placeholder(&mut self)
        requires
            old(self).wf(),
        ensures
            final(self)@ == old(self)@.insert_row_placeholder(),
            final(self).wf(),
    {
        let n: usize = self.columns.len();
        let mut row: Vec<String> = Vec::new();
        let mut i: usize = 0;
        while i < n
            invariant
                i <= n,
                row@.len() == i,
                forall|c: int| 0 <= c < i ==> (#[trigger] row@[c])@ == Seq::<char>::empty(),
            decreases n - i,
        {
            row.push(String::new());
            i = i + 1;
        }
        self.data.push(row);
        proof {
            let new_row = Seq::new(old(self)@.columns.len(), |c: int| Seq::<char>::empty());
            assert(row_view(row@) =~= new_row);
            assert(grid_view(self.data@) =~= grid_view(old(self).data@).push(new_row));
        }
    }

    /// Removes row `i`.
    pub fn delete_row(&mut self, i: usize)
        requires
            old(self).wf(),
            i < old(self)@.data.len(),
        ensures
            final(self)@ == old(self)@.delete_row(i as int),
            final(self).wf(),
            final(self)@.curr_row == clamp_cursor(
                old(self)@.curr_row,
                (old(self)@.data.len() - 1) as nat,
            ),
            old(self)@.data.len() == 1 ==> final(self)@.curr_row == 0,
    {
        let _ = self.data.remove(i);
        let len: usize = self.data.len();
        if len == 0 {
            self.curr_row = 0;
        } else if self.curr_row >= len {
            self.curr_row = len - 1;
        }
        proof {
            assert(grid_view(self.data@) =~= grid_view(old(self).data@).remove(i as int));
        }
    }

    /// Appends a column of empty name, width 1 and type `String`, and an
    /// empty cell to every row.
    pub fn insert_column_placeholder(&mut self)
        requires
            old(self).wf(),
        ensures
            final(self)@ == old(self)@.insert_column_placeholder(),
            final(self).wf(),
    {
        let new_col = Column { name: String::new(), width: 1, column_type: ColumnType::String };
        self.columns.push(new_col);
        push_empty_cells(&mut self.data);
        proof {
            lemma_empty_text_len();
            let after = old(self)@.insert_column_placeholder();
            assert(columns_view(self.columns@) =~= after.columns);
            assert(grid_view(self.data@) =~= after.data);
        }
    }

    /// Removes column `i` and cell `i` of every row.
    pub fn delete_column(&mut self, i: usize)
        requires
            old(self).wf(),
            i < old(self)@.columns.len(),
        ensures
            final(self)@ == old(self)@.delete_column(i as int),
            final(self).wf(),
    {
        let _ = self.columns.remove(i);
        proof {
            assert forall|r: int| 0 <= r < self.data@.len() implies i < (
            #[trigger] self.data@[r])@.len() by {
                assert(old(self)@.data[r].len() == old(self)@.columns.len());
            }
        }
        remove_cells(&mut self.data, i);
        let len: usize = self.columns.len();
        if len == 0 {
            self.curr_col = 0;
        } else if self.curr_col >= len {
            self.curr_col = len - 1;
        }
        proof {
            let after = old(self)@.delete_column(i as int);
            assert(columns_view(self.columns@) =~= after.columns);
            assert(grid_view(self.data@) =~= after.data);
            assert forall|k: int| 0 <= k < after.data.len() implies (#[trigger] after.data[k]).len()
                == after.columns.len() by {
                assert(old(self)@.data[k].len() == old(self)@.columns.len());
            }
            assert forall|c: int| 0 <= c < after.columns.len() implies (
            #[trigger] after.columns[c]).wf() by {
                if c < i {
                    assert(old(self)@.columns[c].wf());
                } else {
                    assert(old(self)@.columns[c + 1].wf());
                }
            }
        }
    }
    /// Exchanges column `i` with its neighbour towards `dir`, in the header
    /// and in every row, and returns where the column now stands. Where
    /// there is no such neighbour nothing moves.
    pub fn move_column(&mut self, i: usize, dir: Direction) -> (j: usize)
        requires
            old(self).wf(),
        ensures
            final(self)@ == old(self)@.move_column(i as int, dir),
            j == old(self)@.moved_index(i as int, dir),
            final(self).wf(),
    {
        let len: usize = self.columns.len();
        let movable: bool = match dir {
            Direction::Left => 1 <= i && i < len,
            Direction::Right => i < len && i + 1 < len,
        };
        if !movable {
            return i;
        }
        let low: usize = match dir {
            Direction::Left => i - 1,
            Direction::Right => i,
        };
        let target: usize = match dir {
            Direction::Left => i - 1,
            Direction::Right => i + 1,
        };
        swap_adjacent(&mut self.columns, low);
        proof {
            assert forall|r: int| 0 <= r < self.data@.len() implies low + 1 < (
            #[trigger] self.data@[r])@.len() by {
                assert(old(self)@.data[r].len() == old(self)@.columns.len());
            }
        }
        swap_cells(&mut self.data, low);
        proof {
            let after = old(self)@.move_column(i as int, dir);
            assert(swapped(old(self)@.columns, low as int, low + 1) =~= swapped(
                old(self)@.columns,
                i as int,
                target as int,
            ));
            assert(columns_view(self.columns@) =~= after.columns);
            assert forall|r: int| 0 <= r < after.data.len() implies (#[trigger] grid_view(
                self.data@,
            )[r]) == after.data[r] by {
                assert(swapped(old(self)@.data[r], low as int, low + 1) =~= swapped(
                    old(self)@.data[r],
                    i as int,
                    target as int,
                ));
            }
            assert(grid_view(self.data@) =~= after.data);
            assert forall|r: int| 0 <= r < after.data.len() implies (#[trigger] after.data[r]).len()
                == after.columns.len() by {
                assert(old(self)@.data[r].len() == old(self)@.columns.len());
            }
            assert forall|c: int| 0 <= c < after.columns.len() implies (
            #[trigger] after.columns[c]).wf() by {
                assert(old(self)@.columns[c].wf());
                assert(old(self)@.columns[low as int].wf());
                assert(old(self)@.columns[low + 1].wf());
            }
        }
        target
    }

    /// Moves the current column one place to the left; the cursor follows.
    pub fn move_curr_col_left(&mut self)
        requires
            old(self).wf(),
        ensures
            final(self)@ == old(self)@.move_curr_col(Direction::Left),
            final(self).wf(),
    {
        let at: usize = self.curr_col;
        let to: usize = self.move_column(at, Direction::Left);
        self.curr_col = to;
    }

    /// Moves the current column one place to the right; the cursor follows.
    pub fn move_curr_col_right(&mut self)
        requires
            old(self).wf(),
        ensures
            final(self)@ == old(self)@.move_curr_col(Direction::Right),
            final(self).wf(),
    {
        let at: usize = self.curr_col;
        let to: usize = self.move_column(at, Direction::Right);
        self.curr_col = to;
    }

    fn set_width(&mut self, i: usize, width: usize)
        requires
            old(self).wf(),
            i < old(self)@.columns.len(),
            width >= old(self)@.columns[i as int].min_width(),
        ensures
            final(self)@ == old(self)@.with_width(i as int, width as nat),
            final(self).wf(),
    {
        self.columns[i].width = width;
        proof {
            let after = old(self)@.with_width(i as int, width as nat);
            assert(columns_view(self.columns@) =~= after.columns);
            assert forall|c: int| 0 <= c < after.columns.len() implies (
            #[trigger] after.columns[c]).wf() by {
                assert(old(self)@.columns[c].wf());
            }
        }
    }

    /// Grows or shrinks column `i` by `delta`, or by 1 when `delta` is zero.
    pub fn resize_column(&mut self, i: usize, delta: usize, how: Resize)
        requires
            old(self).wf(),
            i < old(self)@.columns.len(),
        ensures
            final(self)@ == old(self)@.resize_column(i as int, delta as nat, how),
            final(self).wf(),
    {
        let amount: usize = if delta == 0 {
            1
        } else {
            delta
        };
        assert(self@.columns[i as int].wf());
        let width: usize = self.columns[i].width;
        let floor: usize = str_len(self.columns[i].name.as_str()) + 1;
        let new_width: usize = match how {
            Resize::Grow => if width <= usize::MAX - amount {
                width + amount
            } else {
                width
            },
            Resize::Shrink => if amount <= width && width - amount >= floor {
                width - amount
            } else {
                floor
            },
        };
        self.set_width(i, new_width);
    }

    /// Grows the current column by `motion_num`, or by 1 when that is zero.
    pub fn grow_curr_col(&mut self, motion_num: usize)
        requires
            old(self).wf(),
        ensures
            final(self)@ == old(self)@.resize_curr_col(motion_num as nat, Resize::Grow),
            final(self).wf(),
    {
        if self.columns.len() > 0 {
            let at: usize = self.curr_col;
            self.resize_column(at, motion_num, Resize::Grow);
        }
    }

    /// Shrinks the current column by `motion_num`, or by 1 when that is
    /// zero, but never below the least width for its name.
    pub fn shrink_curr_col(&mut self, motion_num: usize)
        requires
            old(self).wf(),
        ensures
            final(self)@ == old(self)@.resize_curr_col(motion_num as nat, Resize::Shrink),
            final(self).wf(),
    {
        if self.columns.len() > 0 {
            let at: usize = self.curr_col;
            self.resize_column(at, motion_num, Resize::Shrink);
        }
    }

    /// Gives column `col` the width that fits its name and its cells.
    pub fn auto_size_col(&mut self, col: usize)
        requires
            old(self).wf(),
            col < old(self)@.columns.len(),
        ensures
            final(self)@ == old(self)@.autosize_column(col as int),
            final(self).wf(),
            final(self)@.columns[col as int].width >= text_len(old(self)@.columns[col as int].name)
                + 1,
            old(self)@.columns[col as int].column_type == ColumnType::Boolean ==> final(self)@.columns[col as int].width
                >= boolean_width(),
            forall|r: int|
                0 <= r < old(self)@.data.len() ==> final(self)@.columns[col as int].width
                    >= text_len(
                    #[trigger] display_text(
                        old(self)@.data[r][col as int],
                        old(self)@.columns[col as int].column_type,
                    ),
                ),
    {
        proof {
            lemma_autosize_fits(self@, col as int);
        }
        assert(self@.columns[col as int].wf());
        let floor: usize = str_len(self.columns[col].name.as_str()) + 1;
        let ty: ColumnType = self.columns[col].column_type;
        let new_size: usize = match ty {
            ColumnType::Boolean => if floor < 3 {
                3
            } else {
                floor
            },
            _ => {
                let mut min_size: usize = floor;
                let n: usize = self.data.len();
                let mut r: usize = 0;
                while r < n
                    invariant
                        r <= n,
                        n == self@.data.len(),
                        self.wf(),
                        col < self@.columns.len(),
                        ty == self@.columns[col as int].column_type,
                        min_size == larger(floor as nat, self@.longest_display(col as int, r as nat)),
                    decreases n - r,
                {
                    assert(self@.data[r as int].len() == self@.columns.len());
                    let shown: usize = display_len(self.data[r][col].as_str(), &ty);
                    if shown > min_size {
                        min_size = shown;
                    }
                    r = r + 1;
                }
                min_size
            },
        };
        self.set_width(col, new_size);
    }

    /// Gives the current column the width that fits it.
    pub fn auto_size_curr_col(&mut self)
        requires
            old(self).wf(),
        ensures
            final(self)@ == old(self)@.auto_size_curr_col(),
            final(self).wf(),
    {
        if self.columns.len() > 0 {
            let at: usize = self.curr_col;
            self.auto_size_col(at);
        }
    }

    /// Gives every column the width that fits it.
    pub fn auto_size_cols(&mut self)
        requires
            old(self).wf(),
        ensures
            final(self)@ == old(self)@.autosize_columns(old(self)@.columns.len()),
            final(self).wf(),
    {
        let num_cols: usize = self.columns.len();
        let mut col_num: usize = 0;
        while col_num < num_cols
            invariant
                col_num <= num_cols,
                self.wf(),
                num_cols == self@.columns.len(),
                num_cols == old(self)@.columns.len(),
                self@ == old(self)@.autosize_columns(col_num as nat),
            decreases num_cols - col_num,
        {
            self.auto_size_col(col_num);
            col_num = col_num + 1;
        }
    }

    /// Deletes the current row, if there is one, and moves the focus back to
    /// the table.
    pub fn del_curr_elem(&mut self)
        requires
            old(self).wf(),
        ensures
            final(self)@ == old(self)@.del_curr_elem(),
            final(self).wf(),
    {
        if self.data.len() > 0 {
            let at: usize = self.curr_row;
            self.delete_row(at);
        }
        self.table_focus = TableFocus::Table;
    }

    /// Deletes the current column, if there is one, and moves the focus back
    /// to the table.
    pub fn del_curr_col(&mut self)
        requires
            old(self).wf(),
        ensures
            final(self)@ == old(self)@.del_curr_col(),
            final(self).wf(),
    {
        if self.columns.len() > 0 {
            let at: usize = self.curr_col;
            self.delete_column(at);
        }
        self.table_focus = TableFocus::Table;
    }

    /// Stores what `input` commits to in the cell at (`row`, `col`): a date
    /// input in its canonical writing, an empty boolean input as the other
    /// of `t` and `f`, anything else as it is.
    pub fn commit_cell(&mut self, row: usize, col: usize, input: String)
        requires
            old(self).wf(),
            row < old(self)@.data.len(),
            col < old(self)@.columns.len(),
        ensures
            final(self)@ == old(self)@.commit_cell(row as int, col as int, input@),
            final(self).wf(),
    {
        assert(self@.data[row as int].len() == self@.columns.len());
        proof {
            reveal_strlit("t");
            reveal_strlit("f");
            assert("t"@ =~= seq!['t']);
            assert("f"@ =~= seq!['f']);
        }
        let new_data: String = match self.columns[col].column_type {
            ColumnType::Date => normalize_date(input.as_str()),
            ColumnType::Boolean => {
                if input.as_str().is_empty() {
                    if str_eq(self.data[row][col].as_str(), "t") {
                        owned("f")
                    } else {
                        owned("t")
                    }
                } else {
                    input
                }
            },
            _ => input,
        };
        self.data[row][col] = new_data;
        proof {
            let after = old(self)@.commit_cell(row as int, col as int, input@);
            assert(row_view(self.data@[row as int]@) =~= after.data[row as int]);
            assert(grid_view(self.data@) =~= after.data);
            assert forall|r: int| 0 <= r < after.data.len() implies (#[trigger] after.data[r]).len()
                == after.columns.len() by {
                assert(old(self)@.data[r].len() == old(self)@.columns.len());
            }
        }
    }

    /// Stores `text` as it is in the cell at (`row`, `col`).
    pub fn set_cell(&mut self, row: usize, col: usize, text: String)
        requires
            old(self).wf(),
            row < old(self)@.data.len(),
            col < old(self)@.columns.len(),
        ensures
            final(self)@ == old(self)@.with_cell(row as int, col as int, text@),
            final(self).wf(),
    {
        assert(self@.data[row as int].len() == self@.columns.len());
        self.data[row][col] = text;
        proof {
            let after = old(self)@.with_cell(row as int, col as int, text@);
            assert(row_view(self.data@[row as int]@) =~= after.data[row as int]);
            assert(grid_view(self.data@) =~= after.data);
            assert forall|r: int| 0 <= r < after.data.len() implies (#[trigger] after.data[r]).len()
                == after.columns.len() by {
                assert(old(self)@.data[r].len() == old(self)@.columns.len());
            }
        }
    }

    /// Renames column `i` and widens it where the new name needs it. A name
    /// too long for any width is rejected: the answer is `false` and nothing
    /// changes.
    pub fn commit_column_name(&mut self, i: usize, name: String) -> (accepted: bool)
        requires
            old(self).wf(),
            i < old(self)@.columns.len(),
        ensures
            accepted == (text_len(name@) + 1 <= usize::MAX),
            final(self)@ == if accepted {
                old(self)@.commit_column_name(i as int, name@)
            } else {
                old(self)@
            },
            final(self).wf(),
    {
        let len: usize = str_len(name.as_str());
        if len == usize::MAX {
            return false;
        }
        let width: usize = self.columns[i].width;
        self.columns[i].name = name;
        if width < len + 1 {
            self.columns[i].width = len + 1;
        }
        proof {
            let after = old(self)@.commit_column_name(i as int, name@);
            assert(columns_view(self.columns@) =~= after.columns);
            assert forall|c: int| 0 <= c < after.columns.len() implies (
            #[trigger] after.columns[c]).wf() by {
                assert(old(self)@.columns[c].wf());
            }
        }
        true
    }

    /// Reads `input` as a width and gives it to column `i`, or the least
    /// width for the column's name where that is more. Input that is no
    /// 32-bit integer is rejected: the answer is `false` and nothing changes.
    pub fn commit_column_width(&mut self, i: usize, input: &str) -> (accepted: bool)
        requires
            old(self).wf(),
            i < old(self)@.columns.len(),
        ensures
            accepted == width_of_input(input@) is Some,
            final(self)@ == if accepted {
                old(self)@.commit_column_width(i as int, width_of_input(input@)->0)
            } else {
                old(self)@
            },
            final(self).wf(),
    {
        match parse_int(input) {
            Some(v) => {
                assert(self@.columns[i as int].wf());
                let asked: usize = if v < 0 {
                    0
                } else {
                    v as usize
                };
                let floor: usize = str_len(self.columns[i].name.as_str()) + 1;
                let width: usize = if asked >= floor {
                    asked
                } else {
                    floor
                };
                self.set_width(i, width);
                true
            },
            None => false,
        }
    }

    /// Reads `input` as the name of a column type and gives that type to
    /// column `i`. Any other input is rejected: the answer is `false` and
    /// nothing changes.
    pub fn commit_column_type(&mut self, i: usize, input: &str) -> (accepted: bool)
        requires
            old(self).wf(),
            i < old(self)@.columns.len(),
        ensures
            accepted == type_of_name(input@) is Some,
            final(self)@ == if accepted {
                old(self)@.commit_column_type(i as int, type_of_name(input@)->0)
            } else {
                old(self)@
            },
            final(self).wf(),
    {
        match ColumnType::from_name(input) {
            Some(new_type) => {
                self.columns[i].column_type = new_type;
                proof {
                    let after = old(self)@.commit_column_type(i as int, new_type);
                    assert(columns_view(self.columns@) =~= after.columns);
                    assert forall|c: int| 0 <= c < after.columns.len() implies (
                    #[trigger] after.columns[c]).wf() by {
                        assert(old(self)@.columns[c].wf());
                    }
                }
                true
            },
            None => false,
        }
    }
}

} // verus!
