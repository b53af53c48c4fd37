use vstd::prelude::*;
use crate::strutil::string_of_chars;

verus! {

/// The command-line buffer: an ordered sequence of characters plus a cursor
/// position. The cursor is a character index, not a byte offset, because
/// editing operates on logical character positions. Invariant:
/// `0 <= cursor <= length`.
pub struct CommandBuffer {
    chars: Vec<char>,
    cursor: usize,
}

impl CommandBuffer {
    pub closed spec fn spec_chars(&self) -> Seq<char> {
        self.chars@
    }

    pub closed spec fn spec_cursor(&self) -> usize {
        self.cursor
    }

    /// The cursor never leaves `[0, length]`.
    pub open spec fn wf(&self) -> bool {
        self.spec_cursor() <= self.spec_chars().len()
    }

    /// An empty buffer with the cursor at position 0.
    pub fn new() -> (b: CommandBuffer)
        ensures
            b.wf(),
            b.spec_chars() == Seq::<char>::empty(),
            b.spec_cursor() == 0,
    {
        CommandBuffer { chars: Vec::new(), cursor: 0 }
    }

    /// The buffered characters, for rendering and parsing.
    pub fn chars(&self) -> (r: &Vec<char>)
        ensures
            r@ == self.spec_chars(),
    {
        &self.chars
    }

    pub fn cursor(&self) -> (r: usize)
        ensures
            r == self.spec_cursor(),
    {
        self.cursor
    }

    /// The buffered text as one string.
    pub fn text(&self) -> (r: String)
        ensures
            r@ == self.spec_chars(),
    {
        string_of_chars(&self.chars)
    }

    /// Insert a character at the cursor position and advance the cursor by
    /// one.
    pub fn enter_char(&mut self, c: char)
        requires
            old(self).wf(),
            old(self).spec_chars().len() < usize::MAX,
        ensures
            final(self).wf(),
            final(self).spec_chars() == old(self).spec_chars().insert(
                old(self).spec_cursor() as int,
                c,
            ),
            final(self).spec_cursor() == old(self).spec_cursor() + 1,
    {
        self.chars.insert(self.cursor, c);
        self.cursor = self.cursor + 1;
    }

    /// Remove the character immediately left of the cursor and move the
    /// cursor left; at position 0 this is a no-op.
    pub fn delete_char(&mut self)
        requires
            old(self).wf(),
        ensures
            final(self).wf(),
            old(self).spec_cursor() == 0 ==> *final(self) == *old(self),
            old(self).spec_cursor() > 0 ==> final(self).spec_chars() == old(self).spec_chars()
                .remove(old(self).spec_cursor() - 1) && final(self).spec_cursor() == old(
                self,
            ).spec_cursor() - 1,
    {
        if self.cursor != 0 {
            self.chars.remove(self.cursor - 1);
            self.cursor = self.cursor - 1;
        }
    }

    /// Move the cursor one position left, stopping at 0.
    pub fn move_cursor_left(&mut self)
        requires
            old(self).wf(),
        ensures
            final(self).wf(),
            final(self).spec_chars() == old(self).spec_chars(),
            final(self).spec_cursor() == if old(self).spec_cursor() > 0 {
                old(self).spec_cursor() - 1
            } else {
                0int
            },
    {
        if self.cursor > 0 {
            self.cursor = self.cursor - 1;
        }
    }

    /// Move the cursor one position right, stopping at the end of the
    /// buffer.
    pub fn move_cursor_right(&mut self)
        requires
            old(self).wf(),
        ensures
            final(self).wf(),
            final(self).spec_chars() == old(self).spec_chars(),
            final(self).spec_cursor() == if old(self).spec_cursor() + 1 <= old(
                self,
            ).spec_chars().len() {
                old(self).spec_cursor() + 1
            } else {
                old(self).spec_chars().len() as int
            },
    {
        if self.cursor < self.chars.len() {
            self.cursor = self.cursor + 1;
        }
    }

    /// Empty the buffer and reset the cursor — done after every command
    /// dispatch, whatever its outcome.
    pub fn clear(&mut self)
        ensures
            final(self).wf(),
            final(self).spec_chars() == Seq::<char>::empty(),
            final(self).spec_cursor() == 0,
    {
        self.chars.clear();
        self.cursor = 0;
    }
}

/// A parsed command line.
pub enum Command {
    /// `:q` — terminate the application.
    Quit,
    /// `:o <path>` — open the file at `path`, detect its format and replace
    /// the loaded binary.
    Open(String),
    /// A line beginning with `:o` but with no path token after the command
    /// word — a malformed command.
    MissingPath,
    /// Anything else — a no-op; the buffer is cleared regardless.
    Nop,
}

/// Whitespace for the purpose of splitting the command line into tokens.
pub open spec fn is_space(c: char) -> bool {
    c == ' ' || c == '\t' || c == '\n' || c == '\r'
}

/// The exact text `:q`.
pub open spec fn is_quit_text(s: Seq<char>) -> bool {
    s.len() == 2 && s[0] == ':' && s[1] == 'q'
}

/// Text beginning with `:o`.
pub open spec fn is_open_text(s: Seq<char>) -> bool {
    s.len() >= 2 && s[0] == ':' && s[1] == 'o'
}

/// The first position at or after `i` that does not continue a token: the
/// end of the text or a whitespace character.
pub open spec fn token_end(s: Seq<char>, i: int) -> int
    decreases s.len() - i,
{
    if i < 0 || i >= s.len() || is_space(s[i]) {
        i
    } else {
        token_end(s, i + 1)
    }
}

/// The first position at or after `i` that is not whitespace.
pub open spec fn spaces_end(s: Seq<char>, i: int) -> int
    decreases s.len() - i,
{
    if i < 0 || i >= s.len() || !is_space(s[i]) {
        i
    } else {
        spaces_end(s, i + 1)
    }
}

/// The second whitespace-separated token of `s`, if any: the command line
/// is split on whitespace and the token after the command word is the
/// argument.
pub open spec fn second_token(s: Seq<char>) -> Option<Seq<char>> {
    let a = token_end(s, 0);
    let b = spaces_end(s, a);
    if b >= s.len() {
        None
    } else {
        Some(s.subrange(b, token_end(s, b)))
    }
}

/// What `parse_command` returns for the buffer text `s`: exactly one of the
/// four commands, with the opened path pinned to the second token.
pub open spec fn cmd_matches(cmd: Command, s: Seq<char>) -> bool {
    match cmd {
        Command::Quit => is_quit_text(s),
        Command::Open(p) => is_open_text(s) && second_token(s) == Some(p@),
        Command::MissingPath => is_open_text(s) && second_token(s) is None,
        Command::Nop => !is_quit_text(s) && !is_open_text(s),
    }
}

/// Parse the full buffer text: exact text `:q` quits; text beginning with
/// `:o` opens the file named by the second whitespace-separated token, and
/// is malformed when that token is missing; anything else is a no-op.
pub fn parse_command(chars: &Vec<char>) -> (cmd: Command)
    ensures
        cmd_matches(cmd, chars@),
{
    let ghost s = chars@;
    let n = chars.len();
    if n == 2 && chars[0] == ':' && chars[1] == 'q' {
        return Command::Quit;
    }
    if n < 2 || chars[0] != ':' || chars[1] != 'o' {
        return Command::Nop;
    }
    // Skip the command word.
    let mut i: usize = 0;
    while i < n && !is_space_char(chars[i])
        invariant
            0 <= i <= n,
            n == s.len(),
            s == chars@,
            token_end(s, 0) == token_end(s, i as int),
        decreases n - i,
    {
        i = i + 1;
    }
    assert(token_end(s, 0) == i as int);
    // Skip the whitespace after it.
    let ghost a = i as int;
    while i < n && is_space_char(chars[i])
        invariant
            0 <= a <= i <= n,
            n == s.len(),
            s == chars@,
            spaces_end(s, a) == spaces_end(s, i as int),
        decreases n - i,
    {
        i = i + 1;
    }
    assert(spaces_end(s, a) == i as int);
    if i == n {
        return Command::MissingPath;
    }
    // Collect the path token.
    let ghost b = i as int;
    let mut path = String::new();
    while i < n && !is_space_char(chars[i])
        invariant
            0 <= b <= i <= n,
            n == s.len(),
            s == chars@,
            token_end(s, b) == token_end(s, i as int),
            path@ == s.subrange(b, i as int),
        decreases n - i,
    {
        path.push(chars[i]);
        assert(s.subrange(b, i as int).push(s[i as int]) =~= s.subrange(b, i + 1));
        i = i + 1;
    }
    assert(token_end(s, b) == i as int);
    Command::Open(path)
}

/// Executable twin of `is_space`.
fn is_space_char(c: char) -> (r: bool)
    ensures
        r == is_space(c),
{
    c == ' ' || c == '\t' || c == '\n' || c == '\r'
}

} // verus!
