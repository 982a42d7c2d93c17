//! Column types, and how a cell's raw text is shown and judged under each.
//!
//! Cells always hold raw text. The type of their column decides what is
//! displayed in their place and with which status.

use vstd::prelude::*;
use crate::date::{
    date_before, date_of_text, has_date_shape, is_canonical_date, parse_date, Date,
};
use crate::number::{parse_i32, parse_int};
use crate::text::{str_eq, str_len, text_len};

verus! {

/// The type of a column.
#[derive(Clone, Copy, Debug, PartialEq, Eq, Structural)]
pub enum ColumnType {
    Date,
    String,
    Boolean,
    Multiselect,
    Number,
}

/// How a cell's text stands under the type of its column.
#[derive(Clone, Copy, Debug, PartialEq, Eq, Structural)]
pub enum CellStatus {
    /// Nothing to remark; for a date, the date is today.
    Neutral,
    /// A date before today.
    Past,
    /// A date after today.
    Future,
    /// Text that the column's type cannot read.
    Flagged,
}

/// The glyph of a checked boolean cell.
pub open spec fn checked_glyph() -> Seq<char> {
    seq!['[', 'X', ']']
}

/// The glyph of an unchecked boolean cell.
pub open spec fn unchecked_glyph() -> Seq<char> {
    seq!['[', ' ', ']']
}

/// The glyph shown in place of text that cannot be read.
pub open spec fn placeholder_glyph() -> Seq<char> {
    seq!['?']
}

/// Whether a boolean cell counts as checked.
pub open spec fn is_checked(raw: Seq<char>) -> bool {
    raw == seq!['T'] || raw == seq!['t']
}

/// The text displayed for a cell holding `raw` in a column of type `ty`.
pub open spec fn display_text(raw: Seq<char>, ty: ColumnType) -> Seq<char> {
    match ty {
        ColumnType::Boolean => if is_checked(raw) {
            checked_glyph()
        } else {
            unchecked_glyph()
        },
        ColumnType::Number => if parse_i32(raw) is Some {
            raw
        } else if raw.len() == 0 {
            Seq::<char>::empty()
        } else {
            placeholder_glyph()
        },
        ColumnType::Date => if is_canonical_date(raw) {
            raw
        } else {
            placeholder_glyph()
        },
        ColumnType::String => raw,
        ColumnType::Multiselect => raw,
    }
}

/// The status of a cell holding `raw` in a column of type `ty`, on the day
/// `today`.
pub open spec fn cell_status(raw: Seq<char>, ty: ColumnType, today: Date) -> CellStatus {
    match ty {
        ColumnType::Date => match date_of_text(raw) {
            Some(d) => if date_before(d, today) {
                CellStatus::Past
            } else if d == today {
                CellStatus::Neutral
            } else {
                CellStatus::Future
            },
            None => CellStatus::Flagged,
        },
        ColumnType::Number => if parse_i32(raw) is Some || raw.len() == 0 {
            CellStatus::Neutral
        } else {
            CellStatus::Flagged
        },
        ColumnType::Boolean => CellStatus::Neutral,
        ColumnType::String => CellStatus::Neutral,
        ColumnType::Multiselect => CellStatus::Neutral,
    }
}

/// The one-character symbol that marks a column's type in its header.
pub open spec fn type_symbol(ty: ColumnType) -> Seq<char> {
    match ty {
        ColumnType::Date => seq!['@'],
        ColumnType::String => seq!['_'],
        ColumnType::Boolean => seq!['?'],
        ColumnType::Number => seq!['#'],
        ColumnType::Multiselect => seq!['='],
    }
}

/// The name under which a column type is entered and shown.
pub open spec fn column_type_name(ty: ColumnType) -> Seq<char> {
    match ty {
        ColumnType::Date => seq!['D', 'a', 't', 'e'],
        ColumnType::String => seq!['S', 't', 'r', 'i', 'n', 'g'],
        ColumnType::Boolean => seq!['B', 'o', 'o', 'l', 'e', 'a', 'n'],
        ColumnType::Multiselect => seq!['M', 'u', 'l', 't', 'i', 's', 'e', 'l', 'e', 'c', 't'],
        ColumnType::Number => seq!['N', 'u', 'm', 'b', 'e', 'r'],
    }
}

/// The column type that `s` names, if it names one.
pub open spec fn type_of_name(s: Seq<char>) -> Option<ColumnType> {
    if s == column_type_name(ColumnType::Date) {
        Some(ColumnType::Date)
    } else if s == column_type_name(ColumnType::String) {
        Some(ColumnType::String)
    } else if s == column_type_name(ColumnType::Boolean) {
        Some(ColumnType::Boolean)
    } else if s == column_type_name(ColumnType::Multiselect) {
        Some(ColumnType::Multiselect)
    } else if s == column_type_name(ColumnType::Number) {
        Some(ColumnType::Number)
    } else {
        None
    }
}

/// Every column type is found again by its name.
pub proof fn lemma_type_name_round_trip(ty: ColumnType)
    ensures
        type_of_name(column_type_name(ty)) == Some(ty),
{
    assert(column_type_name(ColumnType::Date).len() == 4);
    assert(column_type_name(ColumnType::String).len() == 6);
    assert(column_type_name(ColumnType::Boolean).len() == 7);
    assert(column_type_name(ColumnType::Multiselect).len() == 11);
    assert(column_type_name(ColumnType::Number).len() == 6);
    assert(column_type_name(ColumnType::Number)[0] != column_type_name(ColumnType::String)[0]);
}

/// The text displayed for `text` under `col_type`.
pub fn display_of<'a>(text: &'a str, col_type: &ColumnType) -> (r: &'a str)
    ensures
        r@ == display_text(text@, *col_type),
{
    proof {
        reveal_strlit("[X]");
        reveal_strlit("[ ]");
        reveal_strlit("?");
        reveal_strlit("");
        reveal_strlit("T");
        reveal_strlit("t");
        assert("[X]"@ =~= checked_glyph());
        assert("[ ]"@ =~= unchecked_glyph());
        assert("?"@ =~= placeholder_glyph());
        assert(""@ =~= Seq::<char>::empty());
        assert("T"@ =~= seq!['T']);
        assert("t"@ =~= seq!['t']);
    }
    match *col_type {
        ColumnType::Boolean => {
            if str_eq(text, "T") || str_eq(text, "t") {
                "[X]"
            } else {
                "[ ]"
            }
        },
        ColumnType::Number => match parse_int(text) {
            Some(_) => text,
            None => {
                if text.is_empty() {
                    ""
                } else {
                    "?"
                }
            },
        },
        ColumnType::Date => {
            if has_date_shape(text) {
                text
            } else {
                "?"
            }
        },
        ColumnType::String => text,
        ColumnType::Multiselect => text,
    }
}

/// The status of `text` under `col_type` on the day `today`.
pub fn status_of(text: &str, col_type: &ColumnType, today: &Date) -> (r: CellStatus)
    ensures
        r == cell_status(text@, *col_type, *today),
{
    match *col_type {
        ColumnType::Date => match parse_date(text) {
            Some(date) => {
                if date.is_before(today) {
                    CellStatus::Past
                } else if date.day == today.day && date.month == today.month && date.year
                    == today.year {
                    CellStatus::Neutral
                } else {
                    CellStatus::Future
                }
            },
            None => CellStatus::Flagged,
        },
        ColumnType::Number => match parse_int(text) {
            Some(_) => CellStatus::Neutral,
            None => {
                if text.is_empty() {
                    CellStatus::Neutral
                } else {
                    CellStatus::Flagged
                }
            },
        },
        ColumnType::Boolean => CellStatus::Neutral,
        ColumnType::String => CellStatus::Neutral,
        ColumnType::Multiselect => CellStatus::Neutral,
    }
}

/// The text displayed for `text` under `col_type`, and its status on the
/// day `today`.
pub fn str_as_col_type<'a>(text: &'a str, col_type: &ColumnType, today: &Date) -> (r: (
    &'a str,
    CellStatus,
))
    ensures
        r.0@ == display_text(text@, *col_type),
        r.1 == cell_status(text@, *col_type, *today),
{
    (display_of(text, col_type), status_of(text, col_type, today))
}

/// The length of the text displayed for `text` under `col_type`.
pub fn display_len(text: &str, col_type: &ColumnType) -> (n: usize)
    ensures
        n == text_len(display_text(text@, *col_type)),
{
    str_len(display_of(text, col_type))
}

/// The symbol that marks a column's type in its header.
pub fn column_symbols(col_type: &ColumnType) -> (r: &'static str)
    ensures
        r@ == type_symbol(*col_type),
{
    proof {
        reveal_strlit("@");
        reveal_strlit("_");
        reveal_strlit("?");
        reveal_strlit("#");
        reveal_strlit("=");
    }
    match col_type {
        ColumnType::Date => {
            assert("@"@ =~= seq!['@']);
            "@"
        },
        ColumnType::String => {
            assert("_"@ =~= seq!['_']);
            "_"
        },
        ColumnType::Boolean => {
            assert("?"@ =~= seq!['?']);
            "?"
        },
        ColumnType::Number => {
            assert("#"@ =~= seq!['#']);
            "#"
        },
        ColumnType::Multiselect => {
            assert("="@ =~= seq!['=']);
            "="
        },
    }
}

impl ColumnType {
    /// The name of this type.
    pub fn name(&self) -> (r: &'static str)
        ensures
            r@ == column_type_name(*self),
    {
        proof {
            reveal_strlit("Date");
            reveal_strlit("String");
            reveal_strlit("Boolean");
            reveal_strlit("Multiselect");
            reveal_strlit("Number");
        }
        match self {
            ColumnType::Date => {
                assert("Date"@ =~= column_type_name(ColumnType::Date));
                "Date"
            },
            ColumnType::String => {
                assert("String"@ =~= column_type_name(ColumnType::String));
                "String"
            },
            ColumnType::Boolean => {
                assert("Boolean"@ =~= column_type_name(ColumnType::Boolean));
                "Boolean"
            },
            ColumnType::Multiselect => {
                assert("Multiselect"@ =~= column_type_name(ColumnType::Multiselect));
                "Multiselect"
            },
            ColumnType::Number => {
                assert("Number"@ =~= column_type_name(ColumnType::Number));
                "Number"
            },
        }
    }

    /// The type that `s` names: `Some` exactly for the five type names.
    pub fn from_name(s: &str) -> (r: Option<ColumnType>)
        ensures
            r == type_of_name(s@),
    {
        if str_eq(s, ColumnType::Date.name()) {
            Some(ColumnType::Date)
        } else if str_eq(s, ColumnType::String.name()) {
            Some(ColumnType::String)
        } else if str_eq(s, ColumnType::Boolean.name()) {
            Some(ColumnType::Boolean)
        } else if str_eq(s, ColumnType::Multiselect.name()) {
            Some(ColumnType::Multiselect)
        } else if str_eq(s, ColumnType::Number.name()) {
            Some(ColumnType::Number)
        } else {
            None
        }
    }
}

/// A column of the table: its name, the width it is shown with, its type.
#[derive(Debug)]
pub struct Column {
    pub name: String,
    pub width: usize,
    pub column_type: ColumnType,
}

/// A column as contracts see it.
pub struct ColumnView {
    pub name: Seq<char>,
    pub width: nat,
    pub column_type: ColumnType,
}

impl View for Column {
    type V = ColumnView;

    open spec fn view(&self) -> ColumnView {
        ColumnView { name: self.name@, width: self.width as nat, column_type: self.column_type }
    }
}

impl ColumnView {
    /// The least width a column of this name may have: one more than the
    /// length of the name, to leave room for the type symbol.
    pub open spec fn min_width(self) -> nat {
        text_len(self.name) + 1
    }

    /// A column is wide enough for its name and type symbol.
    pub open spec fn wf(self) -> bool {
        self.width >= self.min_width()
    }
}

} // verus!
