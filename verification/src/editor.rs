//! The editor: the document together with the input mode, the text being
//! typed, the pending count and the messages, and the one function that
//! takes it from key to key.
//!
//! The editor reads no keyboard and writes no file. Whoever drives it hands
//! it one key at a time and carries out the action it answers with.

use vstd::prelude::*;
use crate::column::type_of_name;
use crate::command::{
    command_of, error_message, parse_command, parsed_view, written, written_message, Command,
    CommandError, CommandErrorView, CommandView,
};
use crate::model::{
    width_of_input, Direction, InputMode, Resize, TableFocus, TableView,
};
use crate::number::{char_digit_value, char_is_digit, digit_value, is_digit};
use crate::table::Table;
use crate::text::{owned, str_len, text_len};

verus! {

/// What the driver of the editor has to do after a key.
#[derive(Debug)]
pub enum Action {
    /// Nothing but to show the editor and read the next key.
    Continue,
    /// Store the document under this path.
    Save(String),
    /// End the session.
    Quit,
    /// Store the document under this path, then end the session.
    SaveAndQuit(String),
    /// Load the document stored under this path in place of the current one.
    Load(String),
}

/// An action as contracts see it.
pub enum ActionView {
    Continue,
    Save(Seq<char>),
    Quit,
    SaveAndQuit(Seq<char>),
    Load(Seq<char>),
}

impl View for Action {
    type V = ActionView;

    open spec fn view(&self) -> ActionView {
        match self {
            Action::Continue => ActionView::Continue,
            Action::Save(p) => ActionView::Save(p@),
            Action::Quit => ActionView::Quit,
            Action::SaveAndQuit(p) => ActionView::SaveAndQuit(p@),
            Action::Load(p) => ActionView::Load(p@),
        }
    }
}

/// The editor as contracts see it.
pub struct EditorView {
    /// The document.
    pub table: TableView,
    /// The input mode.
    pub mode: InputMode,
    /// The text typed so far over a field.
    pub input: Seq<char>,
    /// The command line typed so far.
    pub command: Seq<char>,
    /// The message of the last command, if it left one.
    pub message: Seq<char>,
    /// The error of the last command, if it failed.
    pub error: Seq<char>,
    /// The pending count.
    pub count: nat,
}

/// The editor after a key, and the action that the key asks for.
pub struct Step {
    pub state: EditorView,
    pub action: ActionView,
}

/// The pending count after one more digit. A digit that would take the count
/// beyond the largest machine integer is dropped.
pub open spec fn add_digit(count: nat, d: int) -> nat {
    if count * 10 + d <= usize::MAX {
        (count * 10 + d) as nat
    } else {
        count
    }
}

/// Whether `key` is one of the two keys that take back a character.
pub open spec fn is_backspace(key: char) -> bool {
    key == '\x08' || key == '\x7f'
}

/// A text without its last character, if it has one.
pub open spec fn without_last(s: Seq<char>) -> Seq<char> {
    if s.len() > 0 {
        s.drop_last()
    } else {
        s
    }
}

impl EditorView {
    /// Whether the pending count names a cell of the current row.
    pub open spec fn can_edit_cell(self) -> bool {
        self.table.data.len() > 0 && 1 <= self.count <= self.table.columns.len()
    }

    /// Whether the pending count names one of the three fields of the
    /// current column.
    pub open spec fn can_edit_column(self) -> bool {
        self.table.columns.len() > 0 && 1 <= self.count <= 3
    }

    /// Whether the focus and the pending count name the field that text mode
    /// is typing over.
    pub open spec fn edits_a_field(self) -> bool {
        match self.table.focus {
            TableFocus::Element => self.can_edit_cell(),
            TableFocus::NewElement => self.table.data.len() > 0 && self.count >= 1 && (
            self.table.columns.len() == 0 || self.count <= self.table.columns.len()),
            TableFocus::Column => self.can_edit_column(),
            TableFocus::NewColumn => self.can_edit_column(),
            _ => false,
        }
    }

    /// The invariant of the editor: the document is well formed, and text
    /// mode has a field to type over.
    pub open spec fn wf(self) -> bool {
        &&& self.table.wf()
        &&& self.mode == InputMode::Text ==> self.edits_a_field()
    }

    /// The editor with the document `t` and the count used up.
    pub open spec fn done(self, t: TableView) -> EditorView {
        EditorView { table: t, count: 0, ..self }
    }

    /// The editor with the pending count `count`.
    pub open spec fn with_count(self, count: nat) -> EditorView {
        EditorView { count, ..self }
    }

    /// The editor in command mode, with the count used up.
    pub open spec fn to_command(self) -> EditorView {
        EditorView { mode: InputMode::Cmd, count: 0, ..self }
    }

    /// The editor in text mode over field `field` of the document `t`, with
    /// nothing typed yet.
    pub open spec fn enter_text(self, t: TableView, field: nat) -> EditorView {
        EditorView {
            table: t,
            mode: InputMode::Text,
            input: Seq::<char>::empty(),
            count: field,
            ..self
        }
    }

    /// The editor back in normal mode with the document `t`, the typed text
    /// and the count used up.
    pub open spec fn leave_text(self, t: TableView) -> EditorView {
        EditorView {
            table: t,
            mode: InputMode::Normal,
            input: Seq::<char>::empty(),
            count: 0,
            ..self
        }
    }

    /// The editor still in text mode with the document `t`, ready for field
    /// `field`.
    pub open spec fn next_field(self, t: TableView, field: nat) -> EditorView {
        EditorView { table: t, input: Seq::<char>::empty(), count: field, ..self }
    }

    /// The editor after a digit or a backspace in normal mode.
    pub open spec fn count_key(self, key: char) -> EditorView {
        if is_digit(key) {
            self.with_count(add_digit(self.count, digit_value(key)))
        } else {
            self.with_count(self.count / 10)
        }
    }

    /// The editor after `key` in normal mode with the focus on the table.
    pub open spec fn normal_table(self, key: char) -> EditorView {
        let t = self.table;
        let n = self.count;
        if key == ':' {
            self.to_command()
        } else if key == 'j' {
            self.done(t.down(n, 1))
        } else if key == 'k' {
            self.done(t.up(n, 1))
        } else if key == 'J' {
            self.done(t.down(n, 10))
        } else if key == 'K' {
            self.done(t.up(n, 10))
        } else if key == 'G' {
            self.done(t.goto_row(n))
        } else if key == 'c' {
            self.done(t.to_col_mode())
        } else if key == 's' {
            self.done(t.with_focus(TableFocus::Sort))
        } else if key == 'v' {
            self.done(t.with_focus(TableFocus::View))
        } else if key == 'n' {
            self.done(t.switch_num_mode())
        } else if key == 'i' {
            self.enter_text(
                t.insert_row_placeholder().with_focus(TableFocus::NewElement).select_last_row(),
                1,
            )
        } else if key == 'd' {
            self.done(t.del_curr_elem())
        } else if key == '\n' {
            self.done(t.with_focus(TableFocus::Element))
        } else if key == '=' {
            self.done(t.autosize_columns(t.columns.len()))
        } else if is_digit(key) || is_backspace(key) {
            self.count_key(key)
        } else {
            self.done(t)
        }
    }

    /// The editor after `key` in normal mode with the focus on a row.
    pub open spec fn normal_element(self, key: char) -> EditorView {
        let t = self.table;
        let n = self.count;
        if key == ':' {
            self.to_command()
        } else if key == 'q' || key == '\x1b' {
            self.done(t.with_focus(TableFocus::Table))
        } else if key == 'j' {
            self.done(t.down(n, 1))
        } else if key == 'k' {
            self.done(t.up(n, 1))
        } else if key == 'd' {
            self.done(t.del_curr_elem())
        } else if key == '\n' {
            if self.can_edit_cell() {
                self.enter_text(t, n)
            } else {
                self.done(t)
            }
        } else if is_digit(key) || is_backspace(key) {
            self.count_key(key)
        } else {
            self.done(t)
        }
    }

    /// The editor after `key` in normal mode with the focus on a column.
    pub open spec fn normal_column(self, key: char) -> EditorView {
        let t = self.table;
        let n = self.count;
        if key == ':' {
            self.to_command()
        } else if key == 'q' || key == '\x1b' || key == 'c' {
            self.done(t.with_focus(TableFocus::Table))
        } else if key == 'h' {
            self.done(t.prev_col(n))
        } else if key == 'l' {
            self.done(t.next_col(n))
        } else if key == 'H' {
            self.done(t.move_curr_col(Direction::Left))
        } else if key == 'L' {
            self.done(t.move_curr_col(Direction::Right))
        } else if key == '=' {
            self.done(t.auto_size_curr_col())
        } else if key == '+' {
            self.done(t.resize_curr_col(n, Resize::Grow))
        } else if key == '-' {
            self.done(t.resize_curr_col(n, Resize::Shrink))
        } else if key == 'i' {
            self.enter_text(
                t.insert_column_placeholder().with_focus(TableFocus::NewColumn).select_last_col(),
                1,
            )
        } else if key == 'd' {
            self.done(t.del_curr_col())
        } else if key == '\n' {
            if self.can_edit_column() {
                self.enter_text(t, n)
            } else {
                self.done(t)
            }
        } else if is_digit(key) || is_backspace(key) {
            self.count_key(key)
        } else {
            self.done(t)
        }
    }

    /// The editor after `key` in normal mode with the focus on an area that
    /// has no keys of its own: only the command line can be opened.
    pub open spec fn normal_other(self, key: char) -> EditorView {
        if key == ':' {
            self.to_command()
        } else {
            self.done(self.table)
        }
    }

    /// The editor after the typed text is committed to a cell of the current
    /// row.
    pub open spec fn commit_element(self) -> EditorView {
        let t = self.table;
        self.leave_text(t.commit_cell(t.curr_row as int, self.count - 1, self.input))
    }

    /// The editor after the typed text is stored in the next cell of the new
    /// row. After the last cell the wizard ends: the focus returns to the
    /// table, with the row cursor on the new row.
    pub open spec fn commit_new_element(self) -> EditorView {
        let t = self.table;
        let stored = if t.columns.len() > 0 {
            t.with_cell(t.data.len() - 1, self.count - 1, self.input)
        } else {
            t
        };
        if self.count < t.columns.len() {
            self.next_field(stored, self.count + 1)
        } else {
            self.leave_text(stored.select_last_row().with_focus(TableFocus::Table))
        }
    }

    /// The editor after the typed text is committed to a field of the
    /// current column. Text that the field does not accept changes nothing.
    pub open spec fn commit_column(self) -> EditorView {
        let t = self.table;
        let c = t.curr_col as int;
        if self.count == 1 {
            if text_len(self.input) + 1 <= usize::MAX {
                self.leave_text(t.commit_column_name(c, self.input))
            } else {
                self
            }
        } else if self.count == 2 {
            match width_of_input(self.input) {
                Some(w) => self.leave_text(t.commit_column_width(c, w)),
                None => self,
            }
        } else {
            match type_of_name(self.input) {
                Some(ty) => self.leave_text(t.commit_column_type(c, ty)),
                None => self,
            }
        }
    }

    /// The editor after the typed text is committed to the next field of the
    /// new column. The name must not be empty; an empty width keeps the
    /// width; after the type the wizard ends and the focus returns to the
    /// table. Text that the field does not accept changes nothing.
    pub open spec fn commit_new_column(self) -> EditorView {
        let t = self.table;
        let c = t.curr_col as int;
        if self.count == 1 {
            if self.input.len() > 0 && text_len(self.input) + 1 <= usize::MAX {
                self.next_field(t.commit_column_name(c, self.input), 2)
            } else {
                self
            }
        } else if self.count == 2 {
            if self.input.len() == 0 {
                self.next_field(t, 3)
            } else {
                match width_of_input(self.input) {
                    Some(w) => self.next_field(t.commit_column_width(c, w), 3),
                    None => self,
                }
            }
        } else {
            match type_of_name(self.input) {
                Some(ty) => self.leave_text(
                    t.commit_column_type(c, ty).with_focus(TableFocus::Table),
                ),
                None => self,
            }
        }
    }

    /// The editor after the confirm key in text mode.
    pub open spec fn text_enter(self) -> EditorView {
        match self.table.focus {
            TableFocus::Element => self.commit_element(),
            TableFocus::NewElement => self.commit_new_element(),
            TableFocus::Column => self.commit_column(),
            TableFocus::NewColumn => self.commit_new_column(),
            _ => self.done(self.table),
        }
    }

    /// The editor after `key` in text mode.
    pub open spec fn text_key(self, key: char) -> EditorView {
        if key == '\n' {
            self.text_enter()
        } else if key == '\x1b' {
            self.leave_text(self.table.with_focus(TableFocus::Table))
        } else if is_backspace(key) {
            EditorView { input: without_last(self.input), ..self }
        } else {
            EditorView { input: self.input.push(key), ..self }
        }
    }

    /// The editor back in normal mode after a command line, and the action
    /// that the command asks for.
    pub open spec fn run_command(self, parsed: Result<CommandView, CommandErrorView>) -> Step {
        let t = self.table;
        let base = EditorView {
            command: Seq::<char>::empty(),
            mode: InputMode::Normal,
            count: 0,
            ..self
        };
        match parsed {
            Ok(CommandView::Blank) => Step { state: base, action: ActionView::Continue },
            Ok(CommandView::Write(Some(p))) => Step {
                state: EditorView {
                    table: TableView { path: p, ..t },
                    message: written_message(p),
                    ..base
                },
                action: ActionView::Save(p),
            },
            Ok(CommandView::Write(None)) => Step {
                state: EditorView { message: written_message(t.path), ..base },
                action: ActionView::Save(t.path),
            },
            Ok(CommandView::Quit) => Step { state: base, action: ActionView::Quit },
            Ok(CommandView::WriteQuit) => Step {
                state: EditorView {
                    table: t.with_focus(TableFocus::Table),
                    message: written_message(t.path),
                    ..base
                },
                action: ActionView::SaveAndQuit(t.path),
            },
            Ok(CommandView::Open(p)) => Step { state: base, action: ActionView::Load(p) },
            Ok(CommandView::Title(x)) => Step {
                state: EditorView { table: TableView { title: x, ..t }, ..base },
                action: ActionView::Continue,
            },
            Ok(CommandView::Subtitle(x)) => Step {
                state: EditorView { table: TableView { subtitle: x, ..t }, ..base },
                action: ActionView::Continue,
            },
            Err(e) => Step {
                state: EditorView { error: error_message(e), ..base },
                action: ActionView::Continue,
            },
        }
    }

    /// The editor after `key` in command mode, and the action that the key
    /// asks for.
    pub open spec fn command_key(self, key: char) -> Step {
        if key == '\n' {
            self.run_command(command_of(self.command))
        } else if key == '\t' {
            Step { state: self.with_count(0), action: ActionView::Continue }
        } else if key == '\x1b' {
            Step {
                state: EditorView {
                    command: Seq::<char>::empty(),
                    mode: InputMode::Normal,
                    count: 0,
                    ..self
                },
                action: ActionView::Continue,
            }
        } else if key == '\x7f' {
            Step {
                state: EditorView { command: without_last(self.command), count: 0, ..self },
                action: ActionView::Continue,
            }
        } else {
            Step {
                state: EditorView { command: self.command.push(key), count: 0, ..self },
                action: ActionView::Continue,
            }
        }
    }

    /// The editor with the messages of the last key taken down.
    pub open spec fn cleared(self) -> EditorView {
        EditorView { message: Seq::<char>::empty(), error: Seq::<char>::empty(), ..self }
    }

    /// The editor after `key`, and the action that the key asks for.
    pub open spec fn handle_key(self, key: char) -> Step {
        let s = self.cleared();
        match s.mode {
            InputMode::Normal => Step {
                state: match s.table.focus {
                    TableFocus::Table => s.normal_table(key),
                    TableFocus::Element => s.normal_element(key),
                    TableFocus::Column => s.normal_column(key),
                    _ => s.normal_other(key),
                },
                action: ActionView::Continue,
            },
            InputMode::Text => Step { state: s.text_key(key), action: ActionView::Continue },
            InputMode::Cmd => s.command_key(key),
        }
    }
}

/// The editor.
#[derive(Debug)]
pub struct Editor {
    table: Table,
    input_mode: InputMode,
    input_str: String,
    command_str: String,
    message_str: String,
    error_message_str: String,
    motion_num: usize,
}

impl View for Editor {
    type V = EditorView;

    closed spec fn view(&self) -> EditorView {
        EditorView {
            table: self.table@,
            mode: self.input_mode,
            input: self.input_str@,
            command: self.command_str@,
            message: self.message_str@,
            error: self.error_message_str@,
            count: self.motion_num as nat,
        }
    }
}

fn take_text(s: &mut String) -> (r: String)
    ensures
        r@ == old(s)@,
        final(s)@ == Seq::<char>::empty(),
{
    let mut taken = String::new();
    std::mem::swap(&mut taken, s);
    taken
}

fn is_backspace_key(key: char) -> (b: bool)
    ensures
        b == is_backspace(key),
{
    key == '\x08' || key == '\x7f'
}

impl Editor {
    /// The invariant of the editor, which every key keeps.
    pub open spec fn wf(&self) -> bool {
        self@.wf()
    }

    /// An editor for `table`: in normal mode, with nothing typed, no message
    /// and no pending count.
    pub fn new(table: Table) -> (r: Editor)
        requires
            table.wf(),
        ensures
            r.wf(),
            r@ == (EditorView {
                table: table@,
                mode: InputMode::Normal,
                input: Seq::<char>::empty(),
                command: Seq::<char>::empty(),
                message: Seq::<char>::empty(),
                error: Seq::<char>::empty(),
                count: 0,
            }),
    {
        Editor {
            table,
            input_mode: InputMode::Normal,
            input_str: String::new(),
            command_str: String::new(),
            message_str: String::new(),
            error_message_str: String::new(),
            motion_num: 0,
        }
    }

    /// The document.
    pub fn table(&self) -> (r: &Table)
        ensures
            r@ == self@.table,
    {
        &self.table
    }

    /// The input mode.
    pub fn input_mode(&self) -> (r: InputMode)
        ensures
            r == self@.mode,
    {
        self.input_mode
    }

    /// The text typed so far over a field.
    pub fn input_str(&self) -> (r: &str)
        ensures
            r@ == self@.input,
    {
        self.input_str.as_str()
    }

    /// The command line typed so far.
    pub fn command_str(&self) -> (r: &str)
        ensures
            r@ == self@.command,
    {
        self.command_str.as_str()
    }

    /// The message of the last command; empty if it left none.
    pub fn message_str(&self) -> (r: &str)
        ensures
            r@ == self@.message,
    {
        self.message_str.as_str()
    }

    /// The error of the last command; empty if it did not fail.
    pub fn error_message_str(&self) -> (r: &str)
        ensures
            r@ == self@.error,
    {
        self.error_message_str.as_str()
    }

    /// The pending count.
    pub fn motion_num(&self) -> (r: usize)
        ensures
            r == self@.count,
    {
        self.motion_num
    }

    /// Puts `table` in place of the document, as after loading one. The
    /// editor is in normal mode afterwards, with nothing typed and no
    /// pending count.
    pub fn replace_table(&mut self, table: Table)
        requires
            table.wf(),
        ensures
            final(self).wf(),
            final(self)@ == (EditorView {
                table: table@,
                mode: InputMode::Normal,
                input: Seq::<char>::empty(),
                count: 0,
                ..old(self)@
            }),
    {
        self.table = table;
        self.input_mode = InputMode::Normal;
        self.input_str = String::new();
        self.motion_num = 0;
    }

    fn count_key(&mut self, key: char)
        requires
            is_digit(key) || is_backspace(key),
        ensures
            final(self)@ == old(self)@.count_key(key),
    {
        if char_is_digit(key) {
            let d: usize = char_digit_value(key) as usize;
            if self.motion_num <= (usize::MAX - d) / 10 {
                self.motion_num = self.motion_num * 10 + d;
            }
        } else {
            self.motion_num = self.motion_num / 10;
        }
    }

    fn start_text(&mut self, field: usize)
        ensures
            final(self)@ == old(self)@.enter_text(old(self)@.table, field as nat),
    {
        self.input_mode = InputMode::Text;
        self.input_str = String::new();
        self.motion_num = field;
    }

    fn normal_table(&mut self, key: char)
        requires
            old(self).wf(),
            old(self)@.mode == InputMode::Normal,
        ensures
            final(self)@ == old(self)@.normal_table(key),
            final(self).wf(),
    {
        let n: usize = self.motion_num;
        if key == ':' {
            self.input_mode = InputMode::Cmd;
            self.motion_num = 0;
        } else if key == 'j' {
            self.table.down(n, 1);
            self.motion_num = 0;
        } else if key == 'k' {
            self.table.up(n, 1);
            self.motion_num = 0;
        } else if key == 'J' {
            self.table.down(n, 10);
            self.motion_num = 0;
        } else if key == 'K' {
            self.table.up(n, 10);
            self.motion_num = 0;
        } else if key == 'G' {
            self.table.goto_row(n);
            self.motion_num = 0;
        } else if key == 'c' {
            self.table.to_col_mode();
            self.motion_num = 0;
        } else if key == 's' {
            self.table.to_sort_mode();
            self.motion_num = 0;
        } else if key == 'v' {
            self.table.to_view_mode();
            self.motion_num = 0;
        } else if key == 'n' {
            self.table.switch_num_mode();
            self.motion_num = 0;
        } else if key == 'i' {
            self.table.to_new_elem_mode();
            self.table.select_last_row();
            self.start_text(1);
        } else if key == 'd' {
            self.table.del_curr_elem();
            self.motion_num = 0;
        } else if key == '\n' {
            self.table.view_curr_elem();
            self.motion_num = 0;
        } else if key == '=' {
            self.table.auto_size_cols();
            self.motion_num = 0;
        } else if char_is_digit(key) || is_backspace_key(key) {
            self.count_key(key);
        } else {
            self.motion_num = 0;
        }
    }

    fn normal_element(&mut self, key: char)
        requires
            old(self).wf(),
            old(self)@.mode == InputMode::Normal,
            old(self)@.table.focus == TableFocus::Element,
        ensures
            final(self)@ == old(self)@.normal_element(key),
            final(self).wf(),
    {
        let n: usize = self.motion_num;
        if key == ':' {
            self.input_mode = InputMode::Cmd;
            self.motion_num = 0;
        } else if key == 'q' || key == '\x1b' {
            self.table.to_table_mode();
            self.motion_num = 0;
        } else if key == 'j' {
            self.table.down(n, 1);
            self.motion_num = 0;
        } else if key == 'k' {
            self.table.up(n, 1);
            self.motion_num = 0;
        } else if key == 'd' {
            self.table.del_curr_elem();
            self.motion_num = 0;
        } else if key == '\n' {
            if self.table.row_count() > 0 && 1 <= n && n <= self.table.column_count() {
                self.start_text(n);
            } else {
                self.motion_num = 0;
            }
        } else if char_is_digit(key) || is_backspace_key(key) {
            self.count_key(key);
        } else {
            self.motion_num = 0;
        }
    }

    fn normal_column(&mut self, key: char)
        requires
            old(self).wf(),
            old(self)@.mode == InputMode::Normal,
            old(self)@.table.focus == TableFocus::Column,
        ensures
            final(self)@ == old(self)@.normal_column(key),
            final(self).wf(),
    {
        let n: usize = self.motion_num;
        if key == ':' {
            self.input_mode = InputMode::Cmd;
            self.motion_num = 0;
        } else if key == 'q' || key == '\x1b' || key == 'c' {
            self.table.to_table_mode();
            self.motion_num = 0;
        } else if key == 'h' {
            self.table.prev_col(n);
            self.motion_num = 0;
        } else if key == 'l' {
            self.table.next_col(n);
            self.motion_num = 0;
        } else if key == 'H' {
            self.table.move_curr_col_left();
            self.motion_num = 0;
        } else if key == 'L' {
            self.table.move_curr_col_right();
            self.motion_num = 0;
        } else if key == '=' {
            self.table.auto_size_curr_col();
            self.motion_num = 0;
        } else if key == '+' {
            self.table.grow_curr_col(n);
            self.motion_num = 0;
        } else if key == '-' {
            self.table.shrink_curr_col(n);
            self.motion_num = 0;
        } else if key == 'i' {
            self.table.to_new_col_mode();
            self.table.select_last_col();
            self.start_text(1);
        } else if key == 'd' {
            self.table.del_curr_col();
            self.motion_num = 0;
        } else if key == '\n' {
            if self.table.column_count() > 0 && 1 <= n && n <= 3 {
                self.start_text(n);
            } else {
                self.motion_num = 0;
            }
        } else if char_is_digit(key) || is_backspace_key(key) {
            self.count_key(key);
        } else {
            self.motion_num = 0;
        }
    }

    fn normal_other(&mut self, key: char)
        requires
            old(self).wf(),
            old(self)@.mode == InputMode::Normal,
        ensures
            final(self)@ == old(self)@.normal_other(key),
            final(self).wf(),
    {
        if key == ':' {
            self.input_mode = InputMode::Cmd;
        }
        self.motion_num = 0;
    }

    fn finish_text(&mut self)
        ensures
            final(self)@ == old(self)@.leave_text(old(self)@.table),
    {
        self.input_mode = InputMode::Normal;
        self.input_str = String::new();
        self.motion_num = 0;
    }

    fn commit_element(&mut self)
        requires
            old(self).wf(),
            old(self)@.mode == InputMode::Text,
            old(self)@.table.focus == TableFocus::Element,
        ensures
            final(self)@ == old(self)@.commit_element(),
            final(self).wf(),
    {
        let input = take_text(&mut self.input_str);
        let row: usize = self.table.curr_row();
        let col: usize = self.motion_num - 1;
        self.table.commit_cell(row, col, input);
        self.finish_text();
    }

    fn commit_new_element(&mut self)
        requires
            old(self).wf(),
            old(self)@.mode == InputMode::Text,
            old(self)@.table.focus == TableFocus::NewElement,
        ensures
            final(self)@ == old(self)@.commit_new_element(),
            final(self).wf(),
    {
        let input = take_text(&mut self.input_str);
        let rows: usize = self.table.row_count();
        let cols: usize = self.table.column_count();
        let field: usize = self.motion_num;
        if cols > 0 {
            self.table.set_cell(rows - 1, field - 1, input);
        }
        if field < cols {
            self.motion_num = field + 1;
        } else {
            self.table.select_last_row();
            self.table.to_table_mode();
            self.finish_text();
        }
    }

    fn commit_column(&mut self)
        requires
            old(self).wf(),
            old(self)@.mode == InputMode::Text,
            old(self)@.table.focus == TableFocus::Column,
        ensures
            final(self)@ == old(self)@.commit_column(),
            final(self).wf(),
    {
        let col: usize = self.table.curr_col();
        let accepted: bool = if self.motion_num == 1 {
            if str_len(self.input_str.as_str()) < usize::MAX {
                let input = take_text(&mut self.input_str);
                self.table.commit_column_name(col, input)
            } else {
                false
            }
        } else if self.motion_num == 2 {
            self.table.commit_column_width(col, self.input_str.as_str())
        } else {
            self.table.commit_column_type(col, self.input_str.as_str())
        };
        if accepted {
            self.finish_text();
        }
    }

    fn commit_new_column(&mut self)
        requires
            old(self).wf(),
            old(self)@.mode == InputMode::Text,
            old(self)@.table.focus == TableFocus::NewColumn,
        ensures
            final(self)@ == old(self)@.commit_new_column(),
            final(self).wf(),
    {
        let col: usize = self.table.curr_col();
        if self.motion_num == 1 {
            let len: usize = str_len(self.input_str.as_str());
            if !self.input_str.as_str().is_empty() && len < usize::MAX {
                let input = take_text(&mut self.input_str);
                let accepted: bool = self.table.commit_column_name(col, input);
                self.motion_num = 2;
            }
        } else if self.motion_num == 2 {
            if self.input_str.as_str().is_empty() {
                assert(self.input_str@ =~= Seq::<char>::empty());
                self.motion_num = 3;
            } else if self.table.commit_column_width(col, self.input_str.as_str()) {
                self.input_str = String::new();
                self.motion_num = 3;
            }
        } else {
            if self.table.commit_column_type(col, self.input_str.as_str()) {
                self.table.to_table_mode();
                self.finish_text();
            }
        }
    }

    fn text_key(&mut self, key: char)
        requires
            old(self).wf(),
            old(self)@.mode == InputMode::Text,
        ensures
            final(self)@ == old(self)@.text_key(key),
            final(self).wf(),
    {
        if key == '\n' {
            match self.table.table_focus() {
                TableFocus::Element => self.commit_element(),
                TableFocus::NewElement => self.commit_new_element(),
                TableFocus::Column => self.commit_column(),
                TableFocus::NewColumn => self.commit_new_column(),
                _ => {
                    self.motion_num = 0;
                },
            }
        } else if key == '\x1b' {
            self.table.to_table_mode();
            self.finish_text();
        } else if is_backspace_key(key) {
            let _ = self.input_str.pop();
        } else {
            self.input_str.push(key);
        }
    }

    fn run_command(&mut self, parsed: Result<Command, CommandError>) -> (action: Action)
        requires
            old(self).wf(),
            old(self)@.mode == InputMode::Cmd,
        ensures
            final(self)@ == old(self)@.run_command(parsed_view(parsed)).state,
            action@ == old(self)@.run_command(parsed_view(parsed)).action,
            final(self).wf(),
    {
        self.command_str = String::new();
        self.input_mode = InputMode::Normal;
        self.motion_num = 0;
        match parsed {
            Ok(Command::Blank) => Action::Continue,
            Ok(Command::Write(Some(path))) => {
                self.message_str = written(path.as_str());
                self.table.set_path(path.clone());
                Action::Save(path)
            },
            Ok(Command::Write(None)) => {
                self.message_str = written(self.table.path());
                Action::Save(owned(self.table.path()))
            },
            Ok(Command::Quit) => Action::Quit,
            Ok(Command::WriteQuit) => {
                self.table.to_table_mode();
                self.message_str = written(self.table.path());
                Action::SaveAndQuit(owned(self.table.path()))
            },
            Ok(Command::Open(path)) => Action::Load(path),
            Ok(Command::Title(title)) => {
                self.table.set_title(title);
                Action::Continue
            },
            Ok(Command::Subtitle(subtitle)) => {
                self.table.set_subtitle(subtitle);
                Action::Continue
            },
            Err(e) => {
                self.error_message_str = e.message();
                Action::Continue
            },
        }
    }

    fn command_key(&mut self, key: char) -> (action: Action)
        requires
            old(self).wf(),
            old(self)@.mode == InputMode::Cmd,
        ensures
            final(self)@ == old(self)@.command_key(key).state,
            action@ == old(self)@.command_key(key).action,
            final(self).wf(),
    {
        if key == '\n' {
            let parsed = parse_command(self.command_str.as_str());
            self.run_command(parsed)
        } else if key == '\t' {
            self.motion_num = 0;
            Action::Continue
        } else if key == '\x1b' {
            self.command_str = String::new();
            self.input_mode = InputMode::Normal;
            self.motion_num = 0;
            Action::Continue
        } else if key == '\x7f' {
            let _ = self.command_str.pop();
            self.motion_num = 0;
            Action::Continue
        } else {
            self.command_str.push(key);
            self.motion_num = 0;
            Action::Continue
        }
    }

    /// Takes the editor from one key to the next: applies what `key` means
    /// under the current mode and focus, and answers with what is left for
    /// the driver to do.
    pub fn handle_key(&mut self, key: char) -> (action: Action)
        requires
            old(self).wf(),
        ensures
            final(self)@ == old(self)@.handle_key(key).state,
            action@ == old(self)@.handle_key(key).action,
            final(self).wf(),
    {
        self.message_str = String::new();
        self.error_message_str = String::new();
        match self.input_mode {
            InputMode::Normal => {
                match self.table.table_focus() {
                    TableFocus::Table => self.normal_table(key),
                    TableFocus::Element => self.normal_element(key),
                    TableFocus::Column => self.normal_column(key),
                    _ => self.normal_other(key),
                }
                Action::Continue
            },
            InputMode::Text => {
                self.text_key(key);
                Action::Continue
            },
            InputMode::Cmd => self.command_key(key),
        }
    }
}

} // verus!
