use mule::{Command, CommandBuffer};
use mule::command::parse_command;

fn buffer_of(text: &str) -> Vec<char> {
    text.chars().collect()
}

#[test]
fn cursor_stays_in_bounds() {
    // Exercise a mixed sequence of edits; the cursor never leaves
    // [0, length].
    let mut b = CommandBuffer::new();
    assert_eq!(b.cursor(), 0);
    b.move_cursor_left();
    assert_eq!(b.cursor(), 0);
    b.move_cursor_right();
    assert_eq!(b.cursor(), 0);
    b.enter_char('a');
    b.enter_char('b');
    assert_eq!(b.cursor(), 2);
    b.move_cursor_right();
    assert_eq!(b.cursor(), 2);
    b.move_cursor_left();
    b.enter_char('x');
    assert_eq!(b.text(), "axb");
    assert_eq!(b.cursor(), 2);
    b.delete_char();
    assert_eq!(b.text(), "ab");
    assert_eq!(b.cursor(), 1);
    assert!(b.cursor() <= b.chars().len());
}

#[test]
fn backspace_at_zero_is_noop() {
    let mut b = CommandBuffer::new();
    b.enter_char('a');
    b.move_cursor_left();
    assert_eq!(b.cursor(), 0);
    b.delete_char();
    assert_eq!(b.text(), "a");
    assert_eq!(b.cursor(), 0);
}

#[test]
fn clear_empties_buffer_and_cursor() {
    let mut b = CommandBuffer::new();
    b.enter_char('x');
    b.enter_char('y');
    b.clear();
    assert_eq!(b.text(), "");
    assert_eq!(b.cursor(), 0);
}

#[test]
fn parse_quit() {
    assert!(matches!(parse_command(&buffer_of(":q")), Command::Quit));
}

#[test]
fn parse_quit_needs_exact_text() {
    assert!(matches!(parse_command(&buffer_of(":q ")), Command::Nop));
    assert!(matches!(parse_command(&buffer_of(" :q")), Command::Nop));
    assert!(matches!(parse_command(&buffer_of(":Q")), Command::Nop));
}

#[test]
fn parse_open_with_path() {
    match parse_command(&buffer_of(":o file.bin")) {
        Command::Open(p) => assert_eq!(p, "file.bin"),
        _ => panic!("expected an open command"),
    }
}

#[test]
fn parse_open_takes_second_token() {
    match parse_command(&buffer_of(":o a b")) {
        Command::Open(p) => assert_eq!(p, "a"),
        _ => panic!("expected an open command"),
    }
    // The command word is whatever runs to the first whitespace.
    match parse_command(&buffer_of(":oabc def")) {
        Command::Open(p) => assert_eq!(p, "def"),
        _ => panic!("expected an open command"),
    }
}

#[test]
fn parse_open_missing_path() {
    assert!(matches!(parse_command(&buffer_of(":o")), Command::MissingPath));
    assert!(matches!(parse_command(&buffer_of(":o   ")), Command::MissingPath));
}

#[test]
fn parse_anything_else_is_noop() {
    assert!(matches!(parse_command(&buffer_of("")), Command::Nop));
    assert!(matches!(parse_command(&buffer_of("hello")), Command::Nop));
    assert!(matches!(parse_command(&buffer_of(":x file")), Command::Nop));
}
