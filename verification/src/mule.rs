use vstd::prelude::*;
use crate::command::{
    is_open_text, is_quit_text, parse_command, second_token, Command, CommandBuffer,
};
use crate::gb::{gb_handle_spec, GBBinary, GBDisassembles, GBInteractiveState};
use crate::keys::{InteractiveCommand, Key};
use crate::macho::{macho_handle_spec, Macho, MachoInteractiveState};

verus! {

/// Which controller owns keystrokes: the command line or the active format
/// viewer.
#[derive(Clone, Copy, PartialEq, Eq, Structural, Debug)]
pub enum InputMode {
    Command,
    Interactive,
}

/// A loaded binary: a closed, tagged union over the supported formats,
/// each variant wrapping the format's already-parsed structure. It is the
/// external file opener's result, never mutated after load, only replaced
/// wholesale.
pub enum BinaryFile {
    Macho(Macho),
    GB(GBBinary),
}

/// What a command dispatch asks the shell to do: exit the draw loop, or
/// open the file at the given path through the external opener.
pub enum Action {
    Quit,
    OpenFile(String),
}

/// The loaded binary paired with the viewer state of its format. The two
/// are constructed together when a binary is loaded, so a viewer state of
/// kind K exists exactly when the binary is of kind K — the pairing cannot
/// fall out of lockstep. While nothing is loaded, a placeholder panel is
/// rendered instead.
pub enum Session {
    Empty,
    Macho(Macho, MachoInteractiveState),
    GB(GBBinary, GBInteractiveState),
}

/// The binary of each session kind sits beside a well-formed viewer state
/// sized for it.
pub open spec fn session_wf(s: Session) -> bool {
    match s {
        Session::Empty => true,
        Session::Macho(m, st) => st.wf() && st.spec_command_count() == m.load_commands@.len(),
        Session::GB(b, st) => st.wf() && st.spec_bank_count() == b.bank_data@.len(),
    }
}

/// One command routed to whatever viewer the session holds: the binary is
/// untouched, the viewer state steps by its own contract, and an empty
/// session stays empty.
pub open spec fn session_stepped(pre: Session, post: Session, command: InteractiveCommand) -> bool {
    match pre {
        Session::Empty => post is Empty,
        Session::Macho(m0, st0) => match post {
            Session::Macho(m1, st1) => m1 == m0 && macho_handle_spec(st0, st1, command),
            _ => false,
        },
        Session::GB(b0, st0) => match post {
            Session::GB(b1, st1) => b1 == b0 && gb_handle_spec(st0, st1, command),
            _ => false,
        },
    }
}

/// The top-level modal input state machine. It owns the command buffer,
/// the input mode and the session; the shell around it owns the terminal,
/// performs the actions this controller returns, and redraws from the
/// state read through the accessors.
pub struct Mule {
    input: CommandBuffer,
    input_mode: InputMode,
    session: Session,
}

impl Mule {
    pub closed spec fn spec_input(&self) -> CommandBuffer {
        self.input
    }

    pub closed spec fn spec_mode(&self) -> InputMode {
        self.input_mode
    }

    pub closed spec fn spec_session(&self) -> Session {
        self.session
    }

    pub open spec fn wf(&self) -> bool {
        &&& self.spec_input().wf()
        &&& session_wf(self.spec_session())
    }

    /// A fresh controller: command mode, empty buffer, nothing loaded.
    pub fn new() -> (m: Mule)
        ensures
            m.wf(),
            m.spec_mode() is Command,
            m.spec_input().spec_chars() == Seq::<char>::empty(),
            m.spec_input().spec_cursor() == 0,
            m.spec_session() is Empty,
    {
        Mule { input: CommandBuffer::new(), input_mode: InputMode::Command, session: Session::Empty }
    }

    /// The command buffer, for rendering the command line.
    pub fn input(&self) -> (r: &CommandBuffer)
        ensures
            *r == self.spec_input(),
    {
        &self.input
    }

    pub fn mode(&self) -> (r: InputMode)
        ensures
            r == self.spec_mode(),
    {
        self.input_mode
    }

    /// The loaded binary and its viewer state, for rendering.
    pub fn session(&self) -> (r: &Session)
        ensures
            *r == self.spec_session(),
    {
        &self.session
    }

    /// Feed one key press to the state machine.
    ///
    /// In command mode, printable characters edit the buffer at the
    /// cursor, Backspace deletes left of it, Left and Right move it, and
    /// Enter dispatches the buffered command: after any dispatch the
    /// buffer is empty and the cursor is 0, whatever the outcome. `:q`
    /// asks the shell to terminate; `:o <path>` asks it to open a file,
    /// and the mode and session only change once the shell reports the
    /// result, so a failed open leaves the binary untouched and the
    /// controller in command mode; a `:o` line with no path is malformed
    /// and is discarded the same way; any other line is a no-op that
    /// hands the keyboard to the viewer.
    ///
    /// In interactive mode, Escape returns the keyboard to the command
    /// line, saving the viewer's focus; every other key is forwarded to
    /// the viewer of the loaded binary and leaves the buffer alone.
    pub fn handle_key(&mut self, key: Key) -> (act: Option<Action>)
        requires
            old(self).wf(),
        ensures
            final(self).wf(),
            match old(self).spec_mode() {
                InputMode::Command => match key {
                    Key::Enter => {
                        let s = old(self).spec_input().spec_chars();
                        &&& final(self).spec_input().spec_chars() == Seq::<char>::empty()
                        &&& final(self).spec_input().spec_cursor() == 0
                        &&& if is_quit_text(s) {
                            &&& act == Some(Action::Quit)
                            &&& final(self).spec_mode() == old(self).spec_mode()
                            &&& final(self).spec_session() == old(self).spec_session()
                        } else if is_open_text(s) {
                            &&& final(self).spec_mode() is Command
                            &&& final(self).spec_session() == old(self).spec_session()
                            &&& match second_token(s) {
                                Some(p) => match act {
                                    Some(a) => a matches Action::OpenFile(path) && path@ == p,
                                    None => false,
                                },
                                None => act is None,
                            }
                        } else {
                            &&& act is None
                            &&& final(self).spec_mode() is Interactive
                            &&& session_stepped(
                                old(self).spec_session(),
                                final(self).spec_session(),
                                InteractiveCommand::Focus,
                            )
                        }
                    },
                    Key::Char(c) => {
                        &&& act is None
                        &&& final(self).spec_mode() == old(self).spec_mode()
                        &&& final(self).spec_session() == old(self).spec_session()
                        &&& if old(self).spec_input().spec_chars().len() < usize::MAX {
                            &&& final(self).spec_input().spec_chars() == old(
                                self,
                            ).spec_input().spec_chars().insert(
                                old(self).spec_input().spec_cursor() as int,
                                c,
                            )
                            &&& final(self).spec_input().spec_cursor() == old(
                                self,
                            ).spec_input().spec_cursor() + 1
                        } else {
                            final(self).spec_input() == old(self).spec_input()
                        }
                    },
                    Key::Backspace => {
                        &&& act is None
                        &&& final(self).spec_mode() == old(self).spec_mode()
                        &&& final(self).spec_session() == old(self).spec_session()
                        &&& if old(self).spec_input().spec_cursor() > 0 {
                            &&& final(self).spec_input().spec_chars() == old(
                                self,
                            ).spec_input().spec_chars().remove(
                                old(self).spec_input().spec_cursor() - 1,
                            )
                            &&& final(self).spec_input().spec_cursor() == old(
                                self,
                            ).spec_input().spec_cursor() - 1
                        } else {
                            final(self).spec_input() == old(self).spec_input()
                        }
                    },
                    Key::Left => {
                        &&& act is None
                        &&& final(self).spec_mode() == old(self).spec_mode()
                        &&& final(self).spec_session() == old(self).spec_session()
                        &&& final(self).spec_input().spec_chars() == old(
                            self,
                        ).spec_input().spec_chars()
                        &&& final(self).spec_input().spec_cursor() == (if old(
                            self,
                        ).spec_input().spec_cursor() > 0 {
                            old(self).spec_input().spec_cursor() - 1
                        } else {
                            0int
                        })
                    },
                    Key::Right => {
                        &&& act is None
                        &&& final(self).spec_mode() == old(self).spec_mode()
                        &&& final(self).spec_session() == old(self).spec_session()
                        &&& final(self).spec_input().spec_chars() == old(
                            self,
                        ).spec_input().spec_chars()
                        &&& final(self).spec_input().spec_cursor() == (if old(
                            self,
                        ).spec_input().spec_cursor() + 1 <= old(
                            self,
                        ).spec_input().spec_chars().len() {
                            old(self).spec_input().spec_cursor() + 1
                        } else {
                            old(self).spec_input().spec_chars().len() as int
                        })
                    },
                    _ => act is None && *final(self) == *old(self),
                },
                InputMode::Interactive => match key {
                    Key::Esc => {
                        &&& act is None
                        &&& final(self).spec_mode() is Command
                        &&& final(self).spec_input() == old(self).spec_input()
                        &&& session_stepped(
                            old(self).spec_session(),
                            final(self).spec_session(),
                            InteractiveCommand::Unfocus,
                        )
                    },
                    _ => {
                        &&& act is None
                        &&& final(self).spec_mode() is Interactive
                        &&& final(self).spec_input() == old(self).spec_input()
                        &&& session_stepped(
                            old(self).spec_session(),
                            final(self).spec_session(),
                            InteractiveCommand::Key(key),
                        )
                    },
                },
            },
    {
        match self.input_mode {
            InputMode::Command => match key {
                Key::Enter => {
                    let cmd = parse_command(self.input.chars());
                    self.input.clear();
                    match cmd {
                        Command::Quit => Some(Action::Quit),
                        Command::Open(path) => Some(Action::OpenFile(path)),
                        Command::MissingPath => None,
                        Command::Nop => {
                            self.input_mode = InputMode::Interactive;
                            self.forward(InteractiveCommand::Focus);
                            None
                        },
                    }
                },
                Key::Char(c) => {
                    if self.input.chars().len() < usize::MAX {
                        self.input.enter_char(c);
                    }
                    None
                },
                Key::Backspace => {
                    self.input.delete_char();
                    None
                },
                Key::Left => {
                    self.input.move_cursor_left();
                    None
                },
                Key::Right => {
                    self.input.move_cursor_right();
                    None
                },
                _ => None,
            },
            InputMode::Interactive => match key {
                Key::Esc => {
                    self.input_mode = InputMode::Command;
                    self.forward(InteractiveCommand::Unfocus);
                    None
                },
                _ => {
                    self.forward(InteractiveCommand::Key(key));
                    None
                },
            },
        }
    }

    /// Replace the loaded binary with a freshly opened executable and
    /// construct its viewer state beside it; the keyboard moves to the
    /// viewer.
    pub fn load_macho(&mut self, macho: Macho)
        requires
            old(self).wf(),
        ensures
            final(self).wf(),
            final(self).spec_input() == old(self).spec_input(),
            final(self).spec_mode() is Interactive,
            match final(self).spec_session() {
                Session::Macho(m, st) => {
                    &&& m == macho
                    &&& st.spec_command_count() == macho.load_commands@.len()
                    &&& st.spec_focus().spec_focus() == Some(1usize)
                    &&& st.spec_focus().spec_previous() is None
                    &&& st.spec_command_cursor().spec_selected() == (if macho.load_commands@.len()
                        > 0 {
                        Some(0usize)
                    } else {
                        None::<usize>
                    })
                },
                _ => false,
            },
    {
        let st = MachoInteractiveState::new(&macho);
        self.session = Session::Macho(macho, st);
        self.input_mode = InputMode::Interactive;
    }

    /// Replace the loaded binary with a freshly opened ROM and construct
    /// its viewer state beside it, caching the given disassembly text; the
    /// keyboard moves to the viewer.
    pub fn load_gb(&mut self, binary: GBBinary, disassembles: GBDisassembles)
        requires
            old(self).wf(),
        ensures
            final(self).wf(),
            final(self).spec_input() == old(self).spec_input(),
            final(self).spec_mode() is Interactive,
            match final(self).spec_session() {
                Session::GB(b, st) => {
                    &&& b == binary
                    &&& st.spec_bank_count() == binary.bank_data@.len()
                    &&& st.spec_focus().spec_focus() == Some(2usize)
                    &&& st.spec_focus().spec_previous() is None
                    &&& st.spec_bank_cursor().spec_selected() == (if binary.bank_data@.len() > 0 {
                        Some(0usize)
                    } else {
                        None::<usize>
                    })
                    &&& st.spec_disassembles() == disassembles
                },
                _ => false,
            },
    {
        let st = GBInteractiveState::new(&binary, disassembles);
        self.session = Session::GB(binary, st);
        self.input_mode = InputMode::Interactive;
    }

    /// Route one command to whatever viewer is loaded.
    fn forward(&mut self, cmd: InteractiveCommand)
        requires
            old(self).wf(),
        ensures
            final(self).wf(),
            final(self).spec_input() == old(self).spec_input(),
            final(self).spec_mode() == old(self).spec_mode(),
            session_stepped(old(self).spec_session(), final(self).spec_session(), cmd),
    {
        match &mut self.session {
            Session::Empty => {},
            Session::Macho(_, st) => st.handle_command(cmd),
            Session::GB(_, st) => st.handle_command(cmd),
        }
    }
}

} // verus!
