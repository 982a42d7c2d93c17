use tabledit::command::{char_is_space, parse_command, written, Command, CommandError};

fn ok(line: &str) -> Command {
    parse_command(line).unwrap()
}

fn err(line: &str) -> CommandError {
    parse_command(line).unwrap_err()
}

#[test]
fn write_takes_an_optional_path() {
    assert!(matches!(ok("w"), Command::Write(None)));
    assert!(matches!(ok("write"), Command::Write(None)));
    assert!(matches!(ok("w "), Command::Write(None)));
    assert!(matches!(ok("w out.json"), Command::Write(Some(p)) if p == "out.json"));
    assert!(matches!(ok("write   out.json"), Command::Write(Some(p)) if p == "out.json"));
    assert!(matches!(ok("w a b"), Command::Write(Some(p)) if p == "a"));
}

#[test]
fn quit_takes_no_argument() {
    assert!(matches!(ok("q"), Command::Quit));
    assert!(matches!(ok("quit"), Command::Quit));
    assert!(matches!(ok("  q  "), Command::Quit));
    assert!(matches!(err("q now"), CommandError::QuitArguments));
    assert!(matches!(err("quit !"), CommandError::QuitArguments));
}

#[test]
fn x_takes_no_argument() {
    assert!(matches!(ok("x"), Command::WriteQuit));
    assert!(matches!(err("x y"), CommandError::WriteQuitArguments));
}

#[test]
fn open_needs_a_path() {
    assert!(matches!(ok("o other.json"), Command::Open(p) if p == "other.json"));
    assert!(matches!(ok("open other.json"), Command::Open(p) if p == "other.json"));
    assert!(matches!(err("o"), CommandError::OpenWithoutPath));
    assert!(matches!(err("open  "), CommandError::OpenWithoutPath));
}

#[test]
fn title_and_subtitle_take_the_rest_of_the_line() {
    assert!(matches!(ok("t My  tasks "), Command::Title(t) if t == "My  tasks "));
    assert!(matches!(ok("title   Chores"), Command::Title(t) if t == "Chores"));
    assert!(matches!(ok("t"), Command::Title(t) if t.is_empty()));
    assert!(matches!(ok("s for this week"), Command::Subtitle(t) if t == "for this week"));
    assert!(matches!(ok("subtitle x"), Command::Subtitle(t) if t == "x"));
    assert!(matches!(ok("subtitle"), Command::Subtitle(t) if t.is_empty()));
}

#[test]
fn a_line_without_a_word_is_blank() {
    assert!(matches!(ok(""), Command::Blank));
    assert!(matches!(ok("   "), Command::Blank));
}

#[test]
fn any_other_verb_is_unknown() {
    assert!(matches!(err("help"), CommandError::UnknownVerb(v) if v == "help"));
    assert!(matches!(err("wf"), CommandError::UnknownVerb(v) if v == "wf"));
    assert!(matches!(err("W"), CommandError::UnknownVerb(v) if v == "W"));
    assert!(matches!(err("titles x"), CommandError::UnknownVerb(v) if v == "titles"));
    assert!(matches!(err("  frobnicate now"), CommandError::UnknownVerb(v) if v == "frobnicate"));
}

#[test]
fn errors_have_their_messages() {
    assert_eq!(err("q x").message(), "Usage Error: Extra argument(s) to '(q|quit)'");
    assert_eq!(err("x x").message(), "Usage Error: Extra argument(s) to 'x'");
    assert_eq!(
        err("o").message(),
        "Usage Error: Insufficient arguments to '(o|open) <filepath>'"
    );
    assert_eq!(err("help").message(), "Error: Unknown command 'help'");
}

#[test]
fn written_names_the_path() {
    assert_eq!(written("table.json"), "'table.json' written");
    assert_eq!(written(""), "'' written");
}

#[test]
fn white_space_is_what_the_standard_library_calls_so() {
    let mut c = 0u32;
    while c <= 0x3100 {
        if let Some(ch) = char::from_u32(c) {
            assert_eq!(char_is_space(ch), ch.is_whitespace(), "U+{:04X}", c);
        }
        c += 1;
    }
}
