use mule::macho::{
    command_list, section_list, LoadCommand, Macho, MachoFocus, MachoHeader,
    MachoInteractiveState, Section64, Segment64Command,
};
use mule::{InteractiveCommand, Key};

fn sample_macho() -> Macho {
    Macho {
        header: MachoHeader {
            cpu_type: String::from("Arm64"),
            cpu_sub_type: String::from("All"),
            file_type: String::from("Execute"),
            no_cmds: 4,
        },
        load_commands: vec![
            LoadCommand::Segment64(Segment64Command {
                name: String::from("__TEXT"),
                sections: vec![
                    Section64 { name: String::from("__text") },
                    Section64 { name: String::from("__cstring") },
                ],
            }),
            LoadCommand::Symtab,
            LoadCommand::LoadDylib(String::from("/usr/lib/libSystem.B.dylib")),
            LoadCommand::Unknow,
        ],
    }
}

#[test]
fn command_list_labels_exact() {
    let m = sample_macho();
    let labels = command_list(&m);
    assert_eq!(labels.len(), 4);
    assert_eq!(labels[0], "Segment64 | __TEXT");
    assert_eq!(labels[1], "Symtab");
    assert_eq!(labels[2], "LoadDylib | /usr/lib/libSystem.B.dylib");
    assert_eq!(labels[3], "Unknown");
}

#[test]
fn command_list_more_labels() {
    let m = Macho {
        header: MachoHeader {
            cpu_type: String::from("X86_64"),
            cpu_sub_type: String::from("All"),
            file_type: String::from("Execute"),
            no_cmds: 5,
        },
        load_commands: vec![
            LoadCommand::Dsymtab,
            LoadCommand::Dylinker(String::from("/usr/lib/dyld")),
            LoadCommand::Uuid,
            LoadCommand::CodeSignature,
            LoadCommand::Main,
        ],
    };
    let labels = command_list(&m);
    assert_eq!(
        labels,
        vec![
            String::from("Dsymtab"),
            String::from("Dylinker | /usr/lib/dyld"),
            String::from("UUID"),
            String::from("CodeSignature"),
            String::from("Main"),
        ]
    );
}

#[test]
fn section_list_names() {
    let m = sample_macho();
    if let LoadCommand::Segment64(seg) = &m.load_commands[0] {
        let names = section_list(&seg.sections);
        assert_eq!(names, vec![String::from("__text"), String::from("__cstring")]);
    } else {
        panic!("expected a segment");
    }
}

#[test]
fn macho_viewer_starts_on_load_commands() {
    let m = sample_macho();
    let st = MachoInteractiveState::new(&m);
    assert_eq!(st.focus_region(), Some(MachoFocus::LoadCommands));
    assert_eq!(st.selected_command(), Some(0));
    assert_eq!(st.command_count(), 4);
}

#[test]
fn macho_focus_cycle_wraps() {
    let m = sample_macho();
    let mut st = MachoInteractiveState::new(&m);
    st.handle_command(InteractiveCommand::Key(Key::Tab));
    assert_eq!(st.focus_region(), Some(MachoFocus::Header));
    st.handle_command(InteractiveCommand::Key(Key::Tab));
    assert_eq!(st.focus_region(), Some(MachoFocus::LoadCommands));
    st.handle_command(InteractiveCommand::Key(Key::BackTab));
    assert_eq!(st.focus_region(), Some(MachoFocus::Header));
}

#[test]
fn macho_selection_saturates() {
    let m = sample_macho();
    let mut st = MachoInteractiveState::new(&m);
    for _ in 0..10 {
        st.handle_command(InteractiveCommand::Key(Key::Down));
    }
    assert_eq!(st.selected_command(), Some(3));
    for _ in 0..10 {
        st.handle_command(InteractiveCommand::Key(Key::Up));
    }
    assert_eq!(st.selected_command(), Some(0));
}

#[test]
fn macho_selection_ignored_while_header_focused() {
    let m = sample_macho();
    let mut st = MachoInteractiveState::new(&m);
    st.handle_command(InteractiveCommand::Key(Key::Tab));
    assert_eq!(st.focus_region(), Some(MachoFocus::Header));
    st.handle_command(InteractiveCommand::Key(Key::Down));
    assert_eq!(st.selected_command(), Some(0));
}
