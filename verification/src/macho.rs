use vstd::prelude::*;
use vstd::string::StringExecFns;
use crate::cursor::{next_step, previous_step, ListCursor};
use crate::focus::{Direction, FocusCycle};
use crate::keys::{InteractiveCommand, Key};

verus! {

// ---------------------------------------------------------------------------
// Parsed executable model
// ---------------------------------------------------------------------------
// The external parser collaborator owns the container layout; this crate
// holds what its viewer logic reads from the parsed structure, as plain
// values.
/// The executable header fields the viewer renders. The CPU and file-type
/// fields arrive as display labels already produced by the parser
/// collaborator.
pub struct MachoHeader {
    pub cpu_type: String,
    pub cpu_sub_type: String,
    pub file_type: String,
    pub no_cmds: u32,
}

/// A named section inside a segment.
pub struct Section64 {
    pub name: String,
}

/// A 64-bit segment load command: its name and its sections.
pub struct Segment64Command {
    pub name: String,
    pub sections: Vec<Section64>,
}

/// One load command of the executable container. The viewer reads only the
/// variant and, where one exists, the name it displays.
pub enum LoadCommand {
    Symtab,
    Dsymtab,
    LoadDylib(String),
    Dylinker(String),
    Segment64(Segment64Command),
    Uuid,
    CodeSignature,
    BuildVersion,
    FunctionStarts,
    DataInCode,
    SourceVersion,
    DyldInfoOnly,
    Main,
    LinkeditData,
    Unknow,
}

/// A parsed executable image: header and load commands.
pub struct Macho {
    pub header: MachoHeader,
    pub load_commands: Vec<LoadCommand>,
}

// ---------------------------------------------------------------------------
// Panel text
// ---------------------------------------------------------------------------
/// The list label of one load command: its kind, with the displayed name
/// appended for the variants that carry one.
pub open spec fn command_label_spec(c: LoadCommand) -> Seq<char> {
    match c {
        LoadCommand::Symtab => "Symtab"@,
        LoadCommand::Dsymtab => "Dsymtab"@,
        LoadCommand::LoadDylib(name) => "LoadDylib | "@ + name@,
        LoadCommand::Dylinker(name) => "Dylinker | "@ + name@,
        LoadCommand::Segment64(seg) => "Segment64 | "@ + seg.name@,
        LoadCommand::Uuid => "UUID"@,
        LoadCommand::CodeSignature => "CodeSignature"@,
        LoadCommand::BuildVersion => "BuildVersion"@,
        LoadCommand::FunctionStarts => "FunctionStarts"@,
        LoadCommand::DataInCode => "DataInCode"@,
        LoadCommand::SourceVersion => "SourceVersion"@,
        LoadCommand::DyldInfoOnly => "DyldInfoOnly"@,
        LoadCommand::Main => "Main"@,
        LoadCommand::LinkeditData => "LinkeditData"@,
        LoadCommand::Unknow => "Unknown"@,
    }
}

fn command_label(c: &LoadCommand) -> (r: String)
    ensures
        r@ == command_label_spec(*c),
{
    match c {
        LoadCommand::Symtab => String::from_str("Symtab"),
        LoadCommand::Dsymtab => String::from_str("Dsymtab"),
        LoadCommand::LoadDylib(name) => {
            let mut s = String::from_str("LoadDylib | ");
            s.append(name.as_str());
            s
        },
        LoadCommand::Dylinker(name) => {
            let mut s = String::from_str("Dylinker | ");
            s.append(name.as_str());
            s
        },
        LoadCommand::Segment64(seg) => {
            let mut s = String::from_str("Segment64 | ");
            s.append(seg.name.as_str());
            s
        },
        LoadCommand::Uuid => String::from_str("UUID"),
        LoadCommand::CodeSignature => String::from_str("CodeSignature"),
        LoadCommand::BuildVersion => String::from_str("BuildVersion"),
        LoadCommand::FunctionStarts => String::from_str("FunctionStarts"),
        LoadCommand::DataInCode => String::from_str("DataInCode"),
        LoadCommand::SourceVersion => String::from_str("SourceVersion"),
        LoadCommand::DyldInfoOnly => String::from_str("DyldInfoOnly"),
        LoadCommand::Main => String::from_str("Main"),
        LoadCommand::LinkeditData => String::from_str("LinkeditData"),
        LoadCommand::Unknow => String::from_str("Unknown"),
    }
}

/// The labels of the load-command list panel, one per load command, in
/// order.
pub fn command_list(macho: &Macho) -> (r: Vec<String>)
    ensures
        r@.len() == macho.load_commands@.len(),
        forall|i: int|
            0 <= i < r@.len() ==> (#[trigger] r@[i])@ == command_label_spec(
                macho.load_commands@[i],
            ),
{
    let mut r: Vec<String> = Vec::new();
    let mut i: usize = 0;
    while i < macho.load_commands.len()
        invariant
            i <= macho.load_commands@.len(),
            r@.len() == i,
            forall|j: int|
                0 <= j < i ==> (#[trigger] r@[j])@ == command_label_spec(macho.load_commands@[j]),
        decreases macho.load_commands@.len() - i,
    {
        r.push(command_label(&macho.load_commands[i]));
        i = i + 1;
    }
    r
}

/// The names of a segment's sections, one per section, in order.
pub fn section_list(segs: &[Section64]) -> (r: Vec<String>)
    ensures
        r@.len() == segs@.len(),
        forall|i: int| 0 <= i < r@.len() ==> (#[trigger] r@[i])@ == segs@[i].name@,
{
    let mut r: Vec<String> = Vec::new();
    let mut i: usize = 0;
    while i < segs.len()
        invariant
            i <= segs@.len(),
            r@.len() == i,
            forall|j: int| 0 <= j < i ==> (#[trigger] r@[j])@ == segs@[j].name@,
        decreases segs@.len() - i,
    {
        r.push(segs[i].name.clone());
        i = i + 1;
    }
    r
}

// ---------------------------------------------------------------------------
// Viewer state
// ---------------------------------------------------------------------------
/// The focusable regions of the executable viewer, in cycle order.
#[derive(Clone, Copy, PartialEq, Eq, Structural, Debug)]
pub enum MachoFocus {
    Header,
    LoadCommands,
}

/// The region at position `i` of the fixed cycle order.
pub open spec fn macho_focus_at(i: int) -> MachoFocus {
    if i == 0 {
        MachoFocus::Header
    } else {
        MachoFocus::LoadCommands
    }
}

/// How one routed command transforms the viewer state: the exact contract
/// of `MachoInteractiveState::handle_command`.
pub open spec fn macho_handle_spec(
    pre: MachoInteractiveState,
    post: MachoInteractiveState,
    command: InteractiveCommand,
) -> bool {
    &&& post.spec_command_count() == pre.spec_command_count()
    &&& match command {
        InteractiveCommand::Key(k) => match k {
            Key::Tab => {
                &&& post.spec_focus().spec_focus() == Some(
                    crate::focus::advance_position(
                        pre.spec_focus().spec_focus(),
                        2,
                        Direction::Forward,
                    ) as usize,
                )
                &&& post.spec_focus().spec_previous() == pre.spec_focus().spec_previous()
                &&& post.spec_command_cursor() == pre.spec_command_cursor()
            },
            Key::BackTab => {
                &&& post.spec_focus().spec_focus() == Some(
                    crate::focus::advance_position(
                        pre.spec_focus().spec_focus(),
                        2,
                        Direction::Backward,
                    ) as usize,
                )
                &&& post.spec_focus().spec_previous() == pre.spec_focus().spec_previous()
                &&& post.spec_command_cursor() == pre.spec_command_cursor()
            },
            Key::Down => {
                &&& post.spec_focus() == pre.spec_focus()
                &&& post.spec_command_cursor().spec_selected() == (if pre.spec_focus().spec_focus()
                    == Some(1usize) {
                    next_step(pre.spec_command_cursor().spec_selected(), pre.spec_command_count())
                } else {
                    pre.spec_command_cursor().spec_selected()
                })
            },
            Key::Up => {
                &&& post.spec_focus() == pre.spec_focus()
                &&& post.spec_command_cursor().spec_selected() == (if pre.spec_focus().spec_focus()
                    == Some(1usize) {
                    previous_step(
                        pre.spec_command_cursor().spec_selected(),
                        pre.spec_command_count(),
                    )
                } else {
                    pre.spec_command_cursor().spec_selected()
                })
            },
            _ => post == pre,
        },
        InteractiveCommand::Focus => {
            &&& post.spec_focus().spec_focus() == pre.spec_focus().spec_previous()
            &&& post.spec_focus().spec_previous() == pre.spec_focus().spec_previous()
            &&& post.spec_command_cursor() == pre.spec_command_cursor()
        },
        InteractiveCommand::Unfocus => {
            &&& post.spec_focus().spec_focus() is None
            &&& post.spec_focus().spec_previous() == pre.spec_focus().spec_focus()
            &&& post.spec_command_cursor() == pre.spec_command_cursor()
        },
    }
}

/// The navigation state of the executable viewer: which of the two regions
/// is focused and which load command is selected. It is created together
/// with the loaded binary and discarded with it.
pub struct MachoInteractiveState {
    focus: FocusCycle,
    command_cursor: ListCursor,
    command_count: usize,
}

impl MachoInteractiveState {
    pub closed spec fn spec_focus(&self) -> FocusCycle {
        self.focus
    }

    pub closed spec fn spec_command_cursor(&self) -> ListCursor {
        self.command_cursor
    }

    pub closed spec fn spec_command_count(&self) -> usize {
        self.command_count
    }

    pub open spec fn wf(&self) -> bool {
        &&& self.spec_focus().wf()
        &&& self.spec_focus().spec_len() == 2
        &&& self.spec_command_cursor().wf(self.spec_command_count())
    }

    /// A fresh viewer state for a newly loaded executable: the
    /// load-command list is focused and its first entry selected when
    /// there is one.
    pub fn new(macho: &Macho) -> (st: MachoInteractiveState)
        ensures
            st.wf(),
            st.spec_command_count() == macho.load_commands@.len(),
            st.spec_focus().spec_focus() == Some(1usize),
            st.spec_focus().spec_previous() is None,
            st.spec_command_cursor().spec_selected() == (if macho.load_commands@.len() > 0 {
                Some(0usize)
            } else {
                None::<usize>
            }),
    {
        let command_count = macho.load_commands.len();
        let command_cursor = if command_count > 0 {
            ListCursor::with_selected(0)
        } else {
            ListCursor::new()
        };
        MachoInteractiveState { focus: FocusCycle::new(2, 1), command_cursor, command_count }
    }

    /// The region owning the emphasized style, `None` while the command
    /// line owns the keyboard.
    pub fn focus_region(&self) -> (r: Option<MachoFocus>)
        requires
            self.wf(),
        ensures
            r == match self.spec_focus().spec_focus() {
                None => None::<MachoFocus>,
                Some(i) => Some(macho_focus_at(i as int)),
            },
    {
        match self.focus.focus() {
            None => None,
            Some(i) => Some(
                if i == 0 {
                    MachoFocus::Header
                } else {
                    MachoFocus::LoadCommands
                },
            ),
        }
    }

    /// The load command whose detail the right panel shows.
    pub fn selected_command(&self) -> (r: Option<usize>)
        ensures
            r == self.spec_command_cursor().spec_selected(),
    {
        self.command_cursor.selected()
    }

    pub fn command_count(&self) -> (r: usize)
        ensures
            r == self.spec_command_count(),
    {
        self.command_count
    }

    /// Route one command to the viewer: Tab and Shift-Tab cycle the focus,
    /// Up and Down move the load-command selection while that list is
    /// focused, and the focus orders save or restore the focus around a
    /// mode change. Every other key is ignored.
    pub fn handle_command(&mut self, command: InteractiveCommand)
        requires
            old(self).wf(),
        ensures
            final(self).wf(),
            macho_handle_spec(*old(self), *final(self), command),
    {
        match command {
            InteractiveCommand::Key(key) => match key {
                Key::Tab => self.move_focus(Direction::Forward),
                Key::BackTab => self.move_focus(Direction::Backward),
                Key::Down => {
                    if let Some(i) = self.focus.focus() {
                        if i == 1 {
                            let count = self.command_count;
                            self.command_cursor.select_next(count);
                        }
                    }
                },
                Key::Up => {
                    if let Some(i) = self.focus.focus() {
                        if i == 1 {
                            let count = self.command_count;
                            self.command_cursor.select_previous(count);
                        }
                    }
                },
                _ => {},
            },
            InteractiveCommand::Focus => self.focus.refocus(),
            InteractiveCommand::Unfocus => self.focus.unfocus(),
        }
    }

    /// Move the focus one region through the fixed cycle order.
    fn move_focus(&mut self, dir: Direction)
        requires
            old(self).wf(),
        ensures
            final(self).wf(),
            final(self).spec_command_count() == old(self).spec_command_count(),
            final(self).spec_command_cursor() == old(self).spec_command_cursor(),
            final(self).spec_focus().spec_focus() == Some(
                crate::focus::advance_position(old(self).spec_focus().spec_focus(), 2, dir)
                    as usize,
            ),
            final(self).spec_focus().spec_previous() == old(self).spec_focus().spec_previous(),
    {
        self.focus.advance(dir);
    }
}

} // verus!
