//! The command line: one line of text, split on white space, whose first
//! word is the verb.

use vstd::prelude::*;
use crate::text::{chars_of, joined, owned, str_eq};

verus! {

/// Whether `c` is white space: a character with the Unicode property
/// `White_Space`.
pub open spec fn is_space(c: char) -> bool {
    let u = c as u32;
    (0x09 <= u <= 0x0d) || u == 0x20 || u == 0x85 || u == 0xa0 || u == 0x1680 || (0x2000 <= u
        <= 0x200a) || u == 0x2028 || u == 0x2029 || u == 0x202f || u == 0x205f || u == 0x3000
}

/// `s` without the white space it starts with.
pub open spec fn skip_spaces(s: Seq<char>) -> Seq<char>
    decreases s.len(),
{
    if s.len() > 0 && is_space(s[0]) {
        skip_spaces(s.skip(1))
    } else {
        s
    }
}

/// The number of characters before the first white space of `s`.
pub open spec fn word_len(s: Seq<char>) -> nat
    decreases s.len(),
{
    if s.len() > 0 && !is_space(s[0]) {
        1 + word_len(s.skip(1))
    } else {
        0
    }
}

/// The first word of `s`: what stands between the white space it starts with
/// and the next white space. Empty when `s` holds no word.
pub open spec fn first_word(s: Seq<char>) -> Seq<char> {
    skip_spaces(s).take(word_len(skip_spaces(s)) as int)
}

/// What follows the first word of `s`.
pub open spec fn after_first_word(s: Seq<char>) -> Seq<char> {
    skip_spaces(s).skip(word_len(skip_spaces(s)) as int)
}

/// A command, read from a line.
#[derive(Debug)]
pub enum Command {
    /// A line without a word: nothing to do.
    Blank,
    /// Store the document, under the given path if there is one.
    Write(Option<String>),
    /// End the session.
    Quit,
    /// Store the document, then end the session.
    WriteQuit,
    /// Load the document stored under the given path.
    Open(String),
    /// Replace the title.
    Title(String),
    /// Replace the subtitle.
    Subtitle(String),
}

/// Why a line is no command.
#[derive(Debug)]
pub enum CommandError {
    /// `q` or `quit` with something behind it.
    QuitArguments,
    /// `x` with something behind it.
    WriteQuitArguments,
    /// `o` or `open` without a path.
    OpenWithoutPath,
    /// A verb that is none of the known ones.
    UnknownVerb(String),
}

/// A command as contracts see it.
pub enum CommandView {
    Blank,
    Write(Option<Seq<char>>),
    Quit,
    WriteQuit,
    Open(Seq<char>),
    Title(Seq<char>),
    Subtitle(Seq<char>),
}

/// A command error as contracts see it.
pub enum CommandErrorView {
    QuitArguments,
    WriteQuitArguments,
    OpenWithoutPath,
    UnknownVerb(Seq<char>),
}

impl View for Command {
    type V = CommandView;

    open spec fn view(&self) -> CommandView {
        match self {
            Command::Blank => CommandView::Blank,
            Command::Write(Some(p)) => CommandView::Write(Some(p@)),
            Command::Write(None) => CommandView::Write(None),
            Command::Quit => CommandView::Quit,
            Command::WriteQuit => CommandView::WriteQuit,
            Command::Open(p) => CommandView::Open(p@),
            Command::Title(t) => CommandView::Title(t@),
            Command::Subtitle(t) => CommandView::Subtitle(t@),
        }
    }
}

impl View for CommandError {
    type V = CommandErrorView;

    open spec fn view(&self) -> CommandErrorView {
        match self {
            CommandError::QuitArguments => CommandErrorView::QuitArguments,
            CommandError::WriteQuitArguments => CommandErrorView::WriteQuitArguments,
            CommandError::OpenWithoutPath => CommandErrorView::OpenWithoutPath,
            CommandError::UnknownVerb(v) => CommandErrorView::UnknownVerb(v@),
        }
    }
}

/// What a result of parsing holds, as contracts see it.
pub open spec fn parsed_view(r: Result<Command, CommandError>) -> Result<
    CommandView,
    CommandErrorView,
> {
    match r {
        Ok(c) => Ok(c@),
        Err(e) => Err(e@),
    }
}

/// The command that a line writes.
///
/// The verb is the first word. `w` and `write` take the second word, if
/// there is one, as a path. `q`, `quit` and `x` take no argument. `o` and
/// `open` need a path. `t`, `title`, `s` and `subtitle` take the rest of the
/// line, without the white space in front of it.
pub open spec fn command_of(line: Seq<char>) -> Result<CommandView, CommandErrorView> {
    let verb = first_word(line);
    let rest = after_first_word(line);
    let arg = first_word(rest);
    if verb.len() == 0 {
        Ok(CommandView::Blank)
    } else if verb == "w"@ || verb == "write"@ {
        if arg.len() == 0 {
            Ok(CommandView::Write(None))
        } else {
            Ok(CommandView::Write(Some(arg)))
        }
    } else if verb == "q"@ || verb == "quit"@ {
        if arg.len() == 0 {
            Ok(CommandView::Quit)
        } else {
            Err(CommandErrorView::QuitArguments)
        }
    } else if verb == "x"@ {
        if arg.len() == 0 {
            Ok(CommandView::WriteQuit)
        } else {
            Err(CommandErrorView::WriteQuitArguments)
        }
    } else if verb == "o"@ || verb == "open"@ {
        if arg.len() == 0 {
            Err(CommandErrorView::OpenWithoutPath)
        } else {
            Ok(CommandView::Open(arg))
        }
    } else if verb == "t"@ || verb == "title"@ {
        Ok(CommandView::Title(skip_spaces(rest)))
    } else if verb == "s"@ || verb == "subtitle"@ {
        Ok(CommandView::Subtitle(skip_spaces(rest)))
    } else {
        Err(CommandErrorView::UnknownVerb(verb))
    }
}

/// The one-line message that reports a command error.
pub open spec fn error_message(e: CommandErrorView) -> Seq<char> {
    match e {
        CommandErrorView::QuitArguments => "Usage Error: Extra argument(s) to '(q|quit)'"@,
        CommandErrorView::WriteQuitArguments => "Usage Error: Extra argument(s) to 'x'"@,
        CommandErrorView::OpenWithoutPath => "Usage Error: Insufficient arguments to '(o|open) <filepath>'"@,
        CommandErrorView::UnknownVerb(v) => "Error: Unknown command '"@ + v + "'"@,
    }
}

/// The one-line message that reports a written document.
pub open spec fn written_message(path: Seq<char>) -> Seq<char> {
    "'"@ + path + "' written"@
}

/// Whether `c` is white space.
pub fn char_is_space(c: char) -> (b: bool)
    ensures
        b == is_space(c),
{
    let u: u32 = c as u32;
    (0x09 <= u && u <= 0x0d) || u == 0x20 || u == 0x85 || u == 0xa0 || u == 0x1680 || (0x2000 <= u
        && u <= 0x200a) || u == 0x2028 || u == 0x2029 || u == 0x202f || u == 0x205f || u
        == 0x3000
}

fn skip_spaces_from(v: &Vec<char>, from: usize) -> (to: usize)
    requires
        from <= v@.len(),
    ensures
        from <= to <= v@.len(),
        v@.skip(to as int) == skip_spaces(v@.skip(from as int)),
{
    let mut j: usize = from;
    while j < v.len() && char_is_space(v[j])
        invariant
            from <= j <= v@.len(),
            skip_spaces(v@.skip(j as int)) == skip_spaces(v@.skip(from as int)),
        decreases v@.len() - j,
    {
        proof {
            assert(v@.skip(j as int).skip(1) =~= v@.skip(j + 1));
        }
        j = j + 1;
    }
    j
}

fn word_end(v: &Vec<char>, from: usize) -> (to: usize)
    requires
        from <= v@.len(),
    ensures
        from <= to <= v@.len(),
        to - from == word_len(v@.skip(from as int)),
{
    let mut j: usize = from;
    while j < v.len() && !char_is_space(v[j])
        invariant
            from <= j <= v@.len(),
            word_len(v@.skip(from as int)) == (j - from) + word_len(v@.skip(j as int)),
        decreases v@.len() - j,
    {
        proof {
            assert(v@.skip(j as int).skip(1) =~= v@.skip(j + 1));
        }
        j = j + 1;
    }
    j
}

fn text_between(v: &Vec<char>, from: usize, to: usize) -> (r: String)
    requires
        from <= to <= v@.len(),
    ensures
        r@ == v@.subrange(from as int, to as int),
{
    let mut out = String::new();
    let mut j: usize = from;
    while j < to
        invariant
            from <= j <= to,
            to <= v@.len(),
            out@ == v@.subrange(from as int, j as int),
        decreases to - j,
    {
        out.push(v[j]);
        j = j + 1;
        assert(out@ =~= v@.subrange(from as int, j as int));
    }
    out
}

/// Reads a line as a command.
pub fn parse_command(line: &str) -> (r: Result<Command, CommandError>)
    ensures
        parsed_view(r) == command_of(line@),
{
    let v = chars_of(line);
    let n: usize = v.len();
    let verb_start: usize = skip_spaces_from(&v, 0);
    let verb_end: usize = word_end(&v, verb_start);
    let arg_start: usize = skip_spaces_from(&v, verb_end);
    let arg_end: usize = word_end(&v, arg_start);
    let verb = text_between(&v, verb_start, verb_end);
    proof {
        assert(v@.skip(0) =~= v@);
        assert(verb@ =~= first_word(line@));
        assert(v@.skip(verb_end as int) =~= after_first_word(line@));
        assert(v@.subrange(arg_start as int, arg_end as int) =~= first_word(after_first_word(line@)));
        assert(v@.subrange(arg_start as int, n as int) =~= skip_spaces(after_first_word(line@)));
    }
    let has_arg: bool = arg_end > arg_start;
    let word = verb.as_str();
    if verb_end == verb_start {
        Ok(Command::Blank)
    } else if str_eq(word, "w") || str_eq(word, "write") {
        if has_arg {
            Ok(Command::Write(Some(text_between(&v, arg_start, arg_end))))
        } else {
            Ok(Command::Write(None))
        }
    } else if str_eq(word, "q") || str_eq(word, "quit") {
        if has_arg {
            Err(CommandError::QuitArguments)
        } else {
            Ok(Command::Quit)
        }
    } else if str_eq(word, "x") {
        if has_arg {
            Err(CommandError::WriteQuitArguments)
        } else {
            Ok(Command::WriteQuit)
        }
    } else if str_eq(word, "o") || str_eq(word, "open") {
        if has_arg {
            Ok(Command::Open(text_between(&v, arg_start, arg_end)))
        } else {
            Err(CommandError::OpenWithoutPath)
        }
    } else if str_eq(word, "t") || str_eq(word, "title") {
        Ok(Command::Title(text_between(&v, arg_start, n)))
    } else if str_eq(word, "s") || str_eq(word, "subtitle") {
        Ok(Command::Subtitle(text_between(&v, arg_start, n)))
    } else {
        Err(CommandError::UnknownVerb(verb))
    }
}

impl CommandError {
    /// The one-line message that reports this error.
    pub fn message(&self) -> (r: String)
        ensures
            r@ == error_message(self@),
    {
        match self {
            CommandError::QuitArguments => owned("Usage Error: Extra argument(s) to '(q|quit)'"),
            CommandError::WriteQuitArguments => owned("Usage Error: Extra argument(s) to 'x'"),
            CommandError::OpenWithoutPath => owned(
                "Usage Error: Insufficient arguments to '(o|open) <filepath>'",
            ),
            CommandError::UnknownVerb(v) => {
                let mut out = joined("Error: Unknown command '", v.as_str());
                out.append("'");
                out
            },
        }
    }
}

/// The one-line message that reports that the document was written to
/// `path`.
pub fn written(path: &str) -> (r: String)
    ensures
        r@ == written_message(path@),
{
    let mut out = joined("'", path);
    out.append("' written");
    out
}

} // verus!
