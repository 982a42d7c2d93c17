//! What the painter is handed: for each area of the screen, a description in
//! plain values of what stands there.

use vstd::prelude::*;
use crate::column::{
    cell_status, column_symbols, column_type_name, display_text, str_as_col_type, type_symbol,
    CellStatus,
};
use crate::date::Date;
use crate::model::{InputMode, NumMode, TableFocus, TableView};
use crate::table::Table;
use crate::text::{
    can_fit_left, joined, count_digits, decimal, decimal_text, digit_count, fit_left, fit_right,
    fit_to_sizel, fit_to_sizer, fits_left, owned, push_decimal, str_len, text_len,
};

verus! {

/// The header of one column.
#[derive(Debug)]
pub struct HeaderCell {
    /// The column's name.
    pub name: String,
    /// The symbol of the column's type.
    pub symbol: String,
    /// The column's width.
    pub width: usize,
    /// The blanks that fill the header up to the column's width.
    pub padding: usize,
    /// Whether the column is the current one of the column area.
    pub highlighted: bool,
}

/// A column header as contracts see it.
pub struct HeaderView {
    pub name: Seq<char>,
    pub symbol: Seq<char>,
    pub width: nat,
    pub padding: nat,
    pub highlighted: bool,
}

impl View for HeaderCell {
    type V = HeaderView;

    open spec fn view(&self) -> HeaderView {
        HeaderView {
            name: self.name@,
            symbol: self.symbol@,
            width: self.width as nat,
            padding: self.padding as nat,
            highlighted: self.highlighted,
        }
    }
}

/// One cell of a row of the grid.
#[derive(Debug)]
pub struct DataCell {
    /// The text displayed for the cell.
    pub text: String,
    /// That text fitted to the column's width, where it can be fitted.
    pub fitted: Option<String>,
    /// The status of the cell's raw text.
    pub status: CellStatus,
}

/// A grid cell as contracts see it.
pub struct DataCellView {
    pub text: Seq<char>,
    pub fitted: Option<Seq<char>>,
    pub status: CellStatus,
}

impl View for DataCell {
    type V = DataCellView;

    open spec fn view(&self) -> DataCellView {
        DataCellView {
            text: self.text@,
            fitted: match self.fitted {
                Some(t) => Some(t@),
                None => None,
            },
            status: self.status,
        }
    }
}

/// One row of the grid.
#[derive(Debug)]
pub struct DataRow {
    /// The number shown in front of the row.
    pub number: usize,
    /// That number as text, followed by a blank and aligned to the right.
    pub label: String,
    /// Whether the row is the current one.
    pub highlighted: bool,
    /// The cells, one per column.
    pub cells: Vec<DataCell>,
}

/// A grid row as contracts see it.
pub struct DataRowView {
    pub number: nat,
    pub label: Seq<char>,
    pub highlighted: bool,
    pub cells: Seq<DataCellView>,
}

/// The cells of a vector, as contracts see them.
pub open spec fn cells_view(cells: Seq<DataCell>) -> Seq<DataCellView> {
    Seq::new(cells.len(), |i: int| cells[i]@)
}

impl View for DataRow {
    type V = DataRowView;

    open spec fn view(&self) -> DataRowView {
        DataRowView {
            number: self.number as nat,
            label: self.label@,
            highlighted: self.highlighted,
            cells: cells_view(self.cells@),
        }
    }
}

/// One field of a detail area: of a row, the cell under one column; of a
/// column, its name, width or type.
#[derive(Debug)]
pub struct DetailField {
    /// What the field is called.
    pub label: String,
    /// What the field holds.
    pub value: String,
    /// The status of what the field holds.
    pub status: CellStatus,
    /// The text being typed over the field, while it is edited.
    pub prompt: Option<String>,
}

/// A detail field as contracts see it.
pub struct DetailFieldView {
    pub label: Seq<char>,
    pub value: Seq<char>,
    pub status: CellStatus,
    pub prompt: Option<Seq<char>>,
}

impl View for DetailField {
    type V = DetailFieldView;

    open spec fn view(&self) -> DetailFieldView {
        DetailFieldView {
            label: self.label@,
            value: self.value@,
            status: self.status,
            prompt: match self.prompt {
                Some(t) => Some(t@),
                None => None,
            },
        }
    }
}

/// The width of the column of row numbers: the number of decimal digits of
/// the row count.
pub open spec fn number_width(t: TableView) -> nat {
    digit_count(t.data.len())
}

/// The header of column `c`.
pub open spec fn header_of(t: TableView, c: int) -> HeaderView {
    HeaderView {
        name: t.columns[c].name,
        symbol: type_symbol(t.columns[c].column_type),
        width: t.columns[c].width,
        padding: (t.columns[c].width - text_len(t.columns[c].name) - 1) as nat,
        highlighted: t.focus == TableFocus::Column && c == t.curr_col,
    }
}

/// The number shown in front of row `r`: its place counted from 1, or its
/// distance from the current row.
pub open spec fn row_number(t: TableView, r: int) -> nat {
    match t.num_mode {
        NumMode::Absolute => (r + 1) as nat,
        NumMode::Relative => if r >= t.curr_row {
            (r - t.curr_row) as nat
        } else {
            (t.curr_row - r) as nat
        },
    }
}

/// The label of row `r`: its number, a blank, aligned to the right of the
/// number column.
pub open spec fn row_label(t: TableView, r: int) -> Seq<char> {
    fit_right(decimal(row_number(t, r)) + seq![' '], number_width(t) + 1, ' ')
}

/// The text displayed for a cell, fitted to `width` where it can be.
pub open spec fn fitted_text(shown: Seq<char>, width: nat) -> Option<Seq<char>> {
    if can_fit_left(shown, width) {
        Some(fit_left(shown, width, ' '))
    } else {
        None
    }
}

/// The cell at (`r`, `c`) as displayed on the day `today`.
pub open spec fn data_cell_of(t: TableView, r: int, c: int, today: Date) -> DataCellView {
    let shown = display_text(t.data[r][c], t.columns[c].column_type);
    DataCellView {
        text: shown,
        fitted: fitted_text(shown, t.columns[c].width),
        status: cell_status(t.data[r][c], t.columns[c].column_type, today),
    }
}

/// Row `r` as displayed on the day `today`.
pub open spec fn data_row_of(t: TableView, r: int, today: Date) -> DataRowView {
    DataRowView {
        number: row_number(t, r),
        label: row_label(t, r),
        highlighted: r == t.curr_row,
        cells: Seq::new(t.columns.len(), |c: int| data_cell_of(t, r, c, today)),
    }
}

/// The line under the grid: the number of rows and the word for them.
pub open spec fn footer_text(t: TableView) -> Seq<char> {
    decimal(t.data.len()) + seq![' '] + if t.data.len() == 1 {
        "entry"@
    } else {
        "entries"@
    }
}

/// The heading of the row detail: the current row, counted from 1.
pub open spec fn elem_heading(t: TableView) -> Seq<char> {
    "Row "@ + decimal(t.curr_row + 1)
}

/// What is shown behind a field while `input` is typed over it.
pub open spec fn prompt_text(input: Seq<char>) -> Seq<char> {
    " -> "@ + input
}

/// Whether field number `field`, counted from 1, is being edited.
pub open spec fn is_edited(field: int, motion_num: nat, mode: InputMode) -> bool {
    mode == InputMode::Text && motion_num == field
}

/// The prompt of field number `field`.
pub open spec fn prompt_of(field: int, motion_num: nat, mode: InputMode, input: Seq<char>) -> Option<
    Seq<char>,
> {
    if is_edited(field, motion_num, mode) {
        Some(prompt_text(input))
    } else {
        None
    }
}

/// The field of the row detail for column `c`.
pub open spec fn elem_field_of(
    t: TableView,
    c: int,
    motion_num: nat,
    mode: InputMode,
    input: Seq<char>,
    today: Date,
) -> DetailFieldView {
    DetailFieldView {
        label: seq!['['] + decimal((c + 1) as nat) + seq!['|'] + t.columns[c].name + type_symbol(
            t.columns[c].column_type,
        ) + seq![']'],
        value: t.data[t.curr_row as int][c],
        status: cell_status(t.data[t.curr_row as int][c], t.columns[c].column_type, today),
        prompt: prompt_of(c + 1, motion_num, mode, input),
    }
}

/// The three fields of the column detail: name, width and type of the
/// current column.
pub open spec fn column_fields_of(
    t: TableView,
    motion_num: nat,
    mode: InputMode,
    input: Seq<char>,
) -> Seq<DetailFieldView> {
    let col = t.columns[t.curr_col as int];
    seq![
        DetailFieldView {
            label: "[1|name]: "@,
            value: col.name,
            status: CellStatus::Neutral,
            prompt: prompt_of(1, motion_num, mode, input),
        },
        DetailFieldView {
            label: "[2|width]:  "@,
            value: decimal(col.width),
            status: CellStatus::Neutral,
            prompt: prompt_of(2, motion_num, mode, input),
        },
        DetailFieldView {
            label: "[3|type]: "@,
            value: column_type_name(col.column_type),
            status: CellStatus::Neutral,
            prompt: prompt_of(3, motion_num, mode, input),
        },
    ]
}

/// The fields of a vector, as contracts see them.
pub open spec fn fields_view(fields: Seq<DetailField>) -> Seq<DetailFieldView> {
    Seq::new(fields.len(), |i: int| fields[i]@)
}

/// The headers of a vector, as contracts see them.
pub open spec fn headers_view(headers: Seq<HeaderCell>) -> Seq<HeaderView> {
    Seq::new(headers.len(), |i: int| headers[i]@)
}

/// The rows of a vector, as contracts see them.
pub open spec fn rows_view(rows: Seq<DataRow>) -> Seq<DataRowView> {
    Seq::new(rows.len(), |i: int| rows[i]@)
}

fn make_prompt(field: usize, motion_num: usize, input_mode: InputMode, input_str: &str) -> (r:
    Option<String>)
    ensures
        (match r {
            Some(t) => Some(t@),
            None => None,
        }) == prompt_of(field as int, motion_num as nat, input_mode, input_str@),
{
    match input_mode {
        InputMode::Text => {
            if motion_num == field {
                Some(joined(" -> ", input_str))
            } else {
                None
            }
        },
        _ => None,
    }
}

impl Table {
    /// The width of the column of row numbers.
    pub fn number_column_width(&self) -> (n: usize)
        ensures
            n == number_width(self@),
            1 <= n <= 20,
    {
        count_digits(self.row_count())
    }

    /// The headers of the columns, in order.
    pub fn draw_headers(&self) -> (r: Vec<HeaderCell>)
        requires
            self.wf(),
        ensures
            headers_view(r@) == Seq::new(self@.columns.len(), |c: int| header_of(self@, c)),
    {
        let n: usize = self.column_count();
        let in_columns: bool = match self.table_focus() {
            TableFocus::Column => true,
            _ => false,
        };
        let mut out: Vec<HeaderCell> = Vec::new();
        let mut c: usize = 0;
        while c < n
            invariant
                c <= n,
                n == self@.columns.len(),
                self.wf(),
                in_columns == (self@.focus == TableFocus::Column),
                out@.len() == c,
                forall|j: int| 0 <= j < c ==> (#[trigger] out@[j])@ == header_of(self@, j),
            decreases n - c,
        {
            let col = self.column(c);
            assert(self@.columns[c as int].wf());
            let name_len: usize = str_len(col.name.as_str());
            let cell = HeaderCell {
                name: col.name.clone(),
                symbol: owned(column_symbols(&col.column_type)),
                width: col.width,
                padding: col.width - name_len - 1,
                highlighted: in_columns && c == self.curr_col(),
            };
            out.push(cell);
            c = c + 1;
        }
        assert(headers_view(out@) =~= Seq::new(self@.columns.len(), |c: int| header_of(self@, c)));
        out
    }

    fn draw_row(&self, row: usize, today: &Date) -> (r: DataRow)
        requires
            self.wf(),
            row < self@.data.len(),
        ensures
            r@ == data_row_of(self@, row as int, *today),
    {
        let n: usize = self.column_count();
        assert(self@.data[row as int].len() == self@.columns.len());
        let curr: usize = self.curr_row();
        let total: usize = self.row_count();
        let number: usize = match self.num_mode() {
            NumMode::Absolute => row + 1,
            NumMode::Relative => if row >= curr {
                row - curr
            } else {
                curr - row
            },
        };
        let mut number_text = decimal_text(number);
        number_text.push(' ');
        assert(number_text@ =~= decimal(number as nat) + seq![' ']);
        let label = fit_to_sizer(number_text.as_str(), self.number_column_width() + 1, ' ');
        let mut cells: Vec<DataCell> = Vec::new();
        let mut c: usize = 0;
        while c < n
            invariant
                c <= n,
                n == self@.columns.len(),
                self.wf(),
                row < self@.data.len(),
                self@.data[row as int].len() == n,
                cells@.len() == c,
                forall|j: int|
                    0 <= j < c ==> (#[trigger] cells@[j])@ == data_cell_of(
                        self@,
                        row as int,
                        j,
                        *today,
                    ),
            decreases n - c,
        {
            let col = self.column(c);
            let (shown, status) = str_as_col_type(self.cell(row, c), &col.column_type, today);
            let fitted = if fits_left(shown, col.width) {
                Some(fit_to_sizel(shown, col.width, ' '))
            } else {
                None
            };
            cells.push(DataCell { text: owned(shown), fitted, status });
            c = c + 1;
        }
        assert(cells_view(cells@) =~= data_row_of(self@, row as int, *today).cells);
        DataRow { number, label, highlighted: row == curr, cells }
    }

    /// The rows of the grid as displayed on the day `today`, in order.
    pub fn draw_data(&self, today: &Date) -> (r: Vec<DataRow>)
        requires
            self.wf(),
        ensures
            rows_view(r@) == Seq::new(self@.data.len(), |i: int| data_row_of(self@, i, *today)),
    {
        let n: usize = self.row_count();
        let mut out: Vec<DataRow> = Vec::new();
        let mut i: usize = 0;
        while i < n
            invariant
                i <= n,
                n == self@.data.len(),
                self.wf(),
                out@.len() == i,
                forall|j: int| 0 <= j < i ==> (#[trigger] out@[j])@ == data_row_of(self@, j, *today),
            decreases n - i,
        {
            let row = self.draw_row(i, today);
            out.push(row);
            i = i + 1;
        }
        assert(rows_view(out@) =~= Seq::new(
            self@.data.len(),
            |i: int| data_row_of(self@, i, *today),
        ));
        out
    }

    /// The line under the grid: how many entries the table has.
    pub fn draw_footer(&self) -> (r: String)
        ensures
            r@ == footer_text(self@),
    {
        let n: usize = self.row_count();
        let mut out = decimal_text(n);
        out.push(' ');
        if n == 1 {
            out.append("entry");
        } else {
            out.append("entries");
        }
        assert(out@ =~= footer_text(self@));
        out
    }

    /// The heading of the row detail.
    pub fn draw_elem_heading(&self) -> (r: String)
        requires
            self.wf(),
            self@.data.len() > 0,
        ensures
            r@ == elem_heading(self@),
    {
        let total: usize = self.row_count();
        let mut out = owned("Row ");
        push_decimal(&mut out, self.curr_row() + 1);
        out
    }

    /// The detail of the current row: one field per column, with the prompt
    /// on the field that is being edited. `None` when the table has no rows.
    pub fn draw_elem(
        &self,
        motion_num: usize,
        input_mode: InputMode,
        input_str: &str,
        today: &Date,
    ) -> (r: Option<Vec<DetailField>>)
        requires
            self.wf(),
        ensures
            r is Some <==> self@.data.len() > 0,
            r matches Some(fields) ==> fields_view(fields@) == Seq::new(
                self@.columns.len(),
                |c: int| elem_field_of(self@, c, motion_num as nat, input_mode, input_str@, *today),
            ),
    {
        if self.row_count() == 0 {
            return None;
        }
        let row: usize = self.curr_row();
        let n: usize = self.column_count();
        assert(self@.data[row as int].len() == self@.columns.len());
        let mut out: Vec<DetailField> = Vec::new();
        let mut c: usize = 0;
        while c < n
            invariant
                c <= n,
                n == self@.columns.len(),
                self.wf(),
                row == self@.curr_row,
                row < self@.data.len(),
                self@.data[row as int].len() == n,
                out@.len() == c,
                forall|j: int|
                    0 <= j < c ==> (#[trigger] out@[j])@ == elem_field_of(
                        self@,
                        j,
                        motion_num as nat,
                        input_mode,
                        input_str@,
                        *today,
                    ),
            decreases n - c,
        {
            let col = self.column(c);
            let item = self.cell(row, c);
            let (_, status) = str_as_col_type(item, &col.column_type, today);
            let mut label = owned("[");
            push_decimal(&mut label, c + 1);
            label.push('|');
            label.append(col.name.as_str());
            label.append(column_symbols(&col.column_type));
            label.push(']');
            proof {
                reveal_strlit("[");
                assert(label@ =~= elem_field_of(
                    self@,
                    c as int,
                    motion_num as nat,
                    input_mode,
                    input_str@,
                    *today,
                ).label);
            }
            let field = DetailField {
                label,
                value: owned(item),
                status,
                prompt: make_prompt(c + 1, motion_num, input_mode, input_str),
            };
            out.push(field);
            c = c + 1;
        }
        assert(fields_view(out@) =~= Seq::new(
            self@.columns.len(),
            |c: int| elem_field_of(self@, c, motion_num as nat, input_mode, input_str@, *today),
        ));
        Some(out)
    }

    /// The detail of the current column: its name, width and type, with the
    /// prompt on the field that is being edited. `None` when the table has no
    /// columns.
    pub fn draw_column(&self, motion_num: usize, input_mode: InputMode, input_str: &str) -> (r:
        Option<Vec<DetailField>>)
        requires
            self.wf(),
        ensures
            r is Some <==> self@.columns.len() > 0,
            r matches Some(fields) ==> fields_view(fields@) == column_fields_of(
                self@,
                motion_num as nat,
                input_mode,
                input_str@,
            ),
    {
        if self.column_count() == 0 {
            return None;
        }
        let col = self.column(self.curr_col());
        let mut out: Vec<DetailField> = Vec::new();
        out.push(
            DetailField {
                label: owned("[1|name]: "),
                value: col.name.clone(),
                status: CellStatus::Neutral,
                prompt: make_prompt(1, motion_num, input_mode, input_str),
            },
        );
        out.push(
            DetailField {
                label: owned("[2|width]:  "),
                value: decimal_text(col.width),
                status: CellStatus::Neutral,
                prompt: make_prompt(2, motion_num, input_mode, input_str),
            },
        );
        out.push(
            DetailField {
                label: owned("[3|type]: "),
                value: owned(col.column_type.name()),
                status: CellStatus::Neutral,
                prompt: make_prompt(3, motion_num, input_mode, input_str),
            },
        );
        assert(fields_view(out@) =~= column_fields_of(
            self@,
            motion_num as nat,
            input_mode,
            input_str@,
        ));
        Some(out)
    }
}

} // verus!
