//! The whole screen: what the painter shows of the editor between two keys.

use vstd::prelude::*;
use crate::date::Date;
use crate::editor::{Editor, EditorView};
use crate::model::{focus_name, InputMode, TableFocus};
use crate::render::{
    column_fields_of, data_row_of, elem_field_of, elem_heading, fields_view, footer_text,
    header_of, headers_view, number_width, rows_view, DataRow, DetailField, HeaderCell,
};
use crate::text::{joined, owned};

verus! {

/// The last line of the screen.
#[derive(Debug)]
pub enum StatusLine {
    /// The command line being typed, behind its colon.
    Command(String),
    /// The error of the last command.
    Error(String),
    /// The message of the last command.
    Message(String),
    /// The name of the focus, between dashes.
    Focus(String),
}

/// A status line as contracts see it.
pub enum StatusLineView {
    Command(Seq<char>),
    Error(Seq<char>),
    Message(Seq<char>),
    Focus(Seq<char>),
}

impl View for StatusLine {
    type V = StatusLineView;

    open spec fn view(&self) -> StatusLineView {
        match self {
            StatusLine::Command(t) => StatusLineView::Command(t@),
            StatusLine::Error(t) => StatusLineView::Error(t@),
            StatusLine::Message(t) => StatusLineView::Message(t@),
            StatusLine::Focus(t) => StatusLineView::Focus(t@),
        }
    }
}

/// What stands between the subtitle and the status line.
#[derive(Debug)]
pub enum Body {
    /// The grid: headers, rows and the line that counts the rows.
    Grid { number_width: usize, headers: Vec<HeaderCell>, rows: Vec<DataRow>, footer: String },
    /// The detail of the current row.
    Element { heading: String, fields: Vec<DetailField> },
    /// The headers and the detail of the current column.
    Column { number_width: usize, headers: Vec<HeaderCell>, fields: Vec<DetailField> },
    /// A detail area with no row or no column to show.
    Nothing,
    /// An area that has nothing to show yet.
    Unimplemented,
}

/// The screen.
#[derive(Debug)]
pub struct Screen {
    pub title: String,
    pub subtitle: String,
    pub body: Body,
    /// The pending count, when there is one.
    pub pending: Option<usize>,
    pub status: StatusLine,
}

/// The last line of the screen: the command line in command mode; else the
/// error or the message of the last command, if it left one; else the name
/// of the focus.
pub open spec fn status_of_editor(e: EditorView) -> StatusLineView {
    if e.mode == InputMode::Cmd {
        StatusLineView::Command(":"@ + e.command)
    } else if e.error.len() > 0 {
        StatusLineView::Error(e.error)
    } else if e.message.len() > 0 {
        StatusLineView::Message(e.message)
    } else {
        StatusLineView::Focus("--"@ + focus_name(e.table.focus) + "--"@)
    }
}

/// The input mode that a detail area is shown in: a wizard always shows its
/// prompt.
pub open spec fn shown_mode(e: EditorView) -> InputMode {
    match e.table.focus {
        TableFocus::NewElement => InputMode::Text,
        TableFocus::NewColumn => InputMode::Text,
        _ => e.mode,
    }
}

/// Whether `body` is what the editor `e` shows on the day `today`.
pub open spec fn body_shows(body: Body, e: EditorView, today: Date) -> bool {
    let t = e.table;
    match t.focus {
        TableFocus::Table => {
            &&& body matches Body::Grid { number_width: w, headers, rows, footer }
            &&& w == number_width(t)
            &&& headers_view(headers@) == Seq::new(t.columns.len(), |c: int| header_of(t, c))
            &&& rows_view(rows@) == Seq::new(t.data.len(), |r: int| data_row_of(t, r, today))
            &&& footer@ == footer_text(t)
        },
        TableFocus::Element | TableFocus::NewElement => if t.data.len() > 0 {
            &&& body matches Body::Element { heading, fields }
            &&& heading@ == elem_heading(t)
            &&& fields_view(fields@) == Seq::new(
                t.columns.len(),
                |c: int| elem_field_of(t, c, e.count, shown_mode(e), e.input, today),
            )
        } else {
            body is Nothing
        },
        TableFocus::Column | TableFocus::NewColumn => if t.columns.len() > 0 {
            &&& body matches Body::Column { number_width: w, headers, fields }
            &&& w == number_width(t)
            &&& headers_view(headers@) == Seq::new(t.columns.len(), |c: int| header_of(t, c))
            &&& fields_view(fields@) == column_fields_of(t, e.count, shown_mode(e), e.input)
        } else {
            body is Nothing
        },
        TableFocus::View | TableFocus::Sort => body is Unimplemented,
    }
}

impl Editor {
    /// The last line of the screen.
    pub fn status_line(&self) -> (r: StatusLine)
        ensures
            r@ == status_of_editor(self@),
    {
        match self.input_mode() {
            InputMode::Cmd => StatusLine::Command(joined(":", self.command_str())),
            _ => {
                if !self.error_message_str().is_empty() {
                    StatusLine::Error(owned(self.error_message_str()))
                } else if !self.message_str().is_empty() {
                    StatusLine::Message(owned(self.message_str()))
                } else {
                    let mut out = joined("--", self.table().table_focus().name());
                    out.append("--");
                    StatusLine::Focus(out)
                }
            },
        }
    }

    /// The screen that shows the editor on the day `today`.
    pub fn draw(&self, today: &Date) -> (r: Screen)
        requires
            self.wf(),
        ensures
            r.title@ == self@.table.title,
            r.subtitle@ == self@.table.subtitle,
            r.pending == if self@.count == 0 {
                None
            } else {
                Some(self@.count as usize)
            },
            r.status@ == status_of_editor(self@),
            body_shows(r.body, self@, *today),
    {
        let table = self.table();
        let focus = table.table_focus();
        let mode: InputMode = match focus {
            TableFocus::NewElement => InputMode::Text,
            TableFocus::NewColumn => InputMode::Text,
            _ => self.input_mode(),
        };
        let body = match focus {
            TableFocus::Table => Body::Grid {
                number_width: table.number_column_width(),
                headers: table.draw_headers(),
                rows: table.draw_data(today),
                footer: table.draw_footer(),
            },
            TableFocus::Element | TableFocus::NewElement => {
                match table.draw_elem(self.motion_num(), mode, self.input_str(), today) {
                    Some(fields) => Body::Element { heading: table.draw_elem_heading(), fields },
                    None => Body::Nothing,
                }
            },
            TableFocus::Column | TableFocus::NewColumn => {
                match table.draw_column(self.motion_num(), mode, self.input_str()) {
                    Some(fields) => Body::Column {
                        number_width: table.number_column_width(),
                        headers: table.draw_headers(),
                        fields,
                    },
                    None => Body::Nothing,
                }
            },
            TableFocus::View | TableFocus::Sort => Body::Unimplemented,
        };
        Screen {
            title: owned(table.title()),
            subtitle: owned(table.subtitle()),
            body,
            pending: if self.motion_num() == 0 {
                None
            } else {
                Some(self.motion_num())
            },
            status: self.status_line(),
        }
    }
}

} // verus!
