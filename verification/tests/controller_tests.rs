use mule::gb::{
    DestinationCode, GBBinary, GBCFlag, GBDisassembles, GBHeader, Interrupts, RAMSize, ROMSize,
    RestartCalls, SGBFlag,
};
use mule::macho::{LoadCommand, Macho, MachoHeader};
use mule::{Action, InputMode, Key, Mule, Session};

fn type_line(m: &mut Mule, line: &str) {
    for c in line.chars() {
        assert!(m.handle_key(Key::Char(c)).is_none());
    }
}

fn sample_macho() -> Macho {
    Macho {
        header: MachoHeader {
            cpu_type: String::from("Arm64"),
            cpu_sub_type: String::from("All"),
            file_type: String::from("Execute"),
            no_cmds: 1,
        },
        load_commands: vec![LoadCommand::Symtab],
    }
}

fn sample_gb() -> GBBinary {
    GBBinary {
        header: GBHeader {
            entry_point: vec![0x00],
            logo_data: vec![0x00; 48],
            game_title: String::from("GAME"),
            manufacturer_code: String::from(""),
            licensee_code: String::from("None"),
            cartridge_type: String::from("ROMOnly"),
            gbc_flag: GBCFlag::GBOnly,
            sgb_flag: SGBFlag::NoSGB,
            rom_size: ROMSize::NoBanking,
            ram_size: RAMSize::NoRAM,
            destination_code: DestinationCode::Japanese,
            rom_version: 0,
            checksum: 0,
            global_checksum: 0,
        },
        interrupts: Interrupts {
            v_blank: vec![0xFF],
            lcd_stat: vec![0xFF],
            timer: vec![0xFF],
            serial: vec![0xFF],
            joypad: vec![0xFF],
        },
        restart_calls: RestartCalls {
            rst_0: vec![0xFF],
            rst_1: vec![0xFF],
            rst_2: vec![0xFF],
            rst_3: vec![0xFF],
            rst_4: vec![0xFF],
            rst_5: vec![0xFF],
            rst_6: vec![0xFF],
            rst_7: vec![0xFF],
        },
        bank_data: vec![vec![0u8; 16], vec![1u8; 16]],
    }
}

fn empty_dasm() -> GBDisassembles {
    GBDisassembles {
        entry_point: Vec::new(),
        interrupt_v_blank: Vec::new(),
        interrupt_lcd_stat: Vec::new(),
        interrupt_timer: Vec::new(),
        interrupt_serial: Vec::new(),
        interrupt_joypad: Vec::new(),
        rst_0: Vec::new(),
        rst_1: Vec::new(),
        rst_2: Vec::new(),
        rst_3: Vec::new(),
        rst_4: Vec::new(),
        rst_5: Vec::new(),
        rst_6: Vec::new(),
        rst_7: Vec::new(),
    }
}

#[test]
fn starts_in_command_mode_with_nothing_loaded() {
    let m = Mule::new();
    assert_eq!(m.mode(), InputMode::Command);
    assert_eq!(m.input().text(), "");
    assert!(matches!(m.session(), Session::Empty));
}

#[test]
fn quit_command_terminates() {
    // Typing `:q` then Enter signals termination.
    let mut m = Mule::new();
    type_line(&mut m, ":q");
    let act = m.handle_key(Key::Enter);
    assert!(matches!(act, Some(Action::Quit)));
    assert_eq!(m.input().text(), "");
    assert_eq!(m.input().cursor(), 0);
}

#[test]
fn quit_command_reachable_from_interactive_mode() {
    // From interactive mode, Escape returns the keyboard to the command
    // line; `:q` then Enter terminates as from anywhere else.
    let mut m = Mule::new();
    m.load_macho(sample_macho());
    assert_eq!(m.mode(), InputMode::Interactive);
    assert!(m.handle_key(Key::Esc).is_none());
    assert_eq!(m.mode(), InputMode::Command);
    type_line(&mut m, ":q");
    assert!(matches!(m.handle_key(Key::Enter), Some(Action::Quit)));
}

#[test]
fn dispatch_always_clears_buffer() {
    // After any dispatch — success or failure — the buffer is empty and
    // the cursor is 0.
    for line in [":q", ":o file.bin", ":o", "garbage", ""] {
        let mut m = Mule::new();
        type_line(&mut m, line);
        m.handle_key(Key::Enter);
        assert_eq!(m.input().text(), "", "after dispatching {:?}", line);
        assert_eq!(m.input().cursor(), 0, "after dispatching {:?}", line);
    }
}

#[test]
fn failed_open_leaves_binary_and_mode_alone() {
    // `:o nofile.bin` asks the shell to open the file; when that fails the
    // shell reports nothing back, so the loaded binary is unchanged and
    // the controller sits in command mode with an empty buffer.
    let mut m = Mule::new();
    type_line(&mut m, ":o nofile.bin");
    let act = m.handle_key(Key::Enter);
    match act {
        Some(Action::OpenFile(path)) => assert_eq!(path, "nofile.bin"),
        _ => panic!("expected an open request"),
    }
    assert!(matches!(m.session(), Session::Empty));
    assert_eq!(m.mode(), InputMode::Command);
    assert_eq!(m.input().text(), "");
}

#[test]
fn open_missing_path_is_discarded() {
    let mut m = Mule::new();
    type_line(&mut m, ":o");
    assert!(m.handle_key(Key::Enter).is_none());
    assert_eq!(m.mode(), InputMode::Command);
    assert!(matches!(m.session(), Session::Empty));
    assert_eq!(m.input().text(), "");
}

#[test]
fn unknown_command_hands_keyboard_to_viewer() {
    let mut m = Mule::new();
    type_line(&mut m, "hello");
    assert!(m.handle_key(Key::Enter).is_none());
    assert_eq!(m.mode(), InputMode::Interactive);
}

#[test]
fn successful_open_replaces_binary_and_enters_interactive() {
    let mut m = Mule::new();
    type_line(&mut m, ":o a.out");
    assert!(matches!(m.handle_key(Key::Enter), Some(Action::OpenFile(_))));
    m.load_macho(sample_macho());
    assert_eq!(m.mode(), InputMode::Interactive);
    match m.session() {
        Session::Macho(b, st) => {
            assert_eq!(b.header.no_cmds, 1);
            assert_eq!(st.selected_command(), Some(0));
        },
        _ => panic!("expected an executable session"),
    }
}

#[test]
fn open_replaces_previous_binary_wholesale() {
    let mut m = Mule::new();
    m.load_macho(sample_macho());
    assert!(matches!(m.session(), Session::Macho(..)));
    m.load_gb(sample_gb(), empty_dasm());
    match m.session() {
        Session::GB(b, st) => {
            assert_eq!(b.bank_data.len(), 2);
            assert_eq!(st.bank_count(), 2);
            assert_eq!(st.selected_bank(), Some(0));
        },
        _ => panic!("expected a ROM session"),
    }
}

#[test]
fn editing_keys_edit_the_buffer() {
    let mut m = Mule::new();
    type_line(&mut m, "ac");
    m.handle_key(Key::Left);
    m.handle_key(Key::Char('b'));
    assert_eq!(m.input().text(), "abc");
    m.handle_key(Key::Right);
    m.handle_key(Key::Backspace);
    assert_eq!(m.input().text(), "ab");
    m.handle_key(Key::Backspace);
    m.handle_key(Key::Backspace);
    m.handle_key(Key::Backspace);
    assert_eq!(m.input().text(), "");
}

#[test]
fn interactive_keys_reach_the_viewer_not_the_buffer() {
    let mut m = Mule::new();
    m.load_macho(sample_macho());
    assert!(m.handle_key(Key::Char('x')).is_none());
    assert!(m.handle_key(Key::Enter).is_none());
    assert_eq!(m.input().text(), "");
    assert_eq!(m.mode(), InputMode::Interactive);
}

#[test]
fn escape_saves_focus_and_reentry_restores_it() {
    let mut m = Mule::new();
    m.load_macho(sample_macho());
    // The fresh viewer focuses the load-command list; Tab moves to the
    // header.
    m.handle_key(Key::Tab);
    match m.session() {
        Session::Macho(_, st) => {
            assert_eq!(st.focus_region(), Some(mule::macho::MachoFocus::Header))
        },
        _ => panic!("expected an executable session"),
    }
    // Escape unfocuses the viewer; dispatching a no-op line re-enters
    // interactive mode and restores the saved focus.
    m.handle_key(Key::Esc);
    match m.session() {
        Session::Macho(_, st) => assert_eq!(st.focus_region(), None),
        _ => panic!("expected an executable session"),
    }
    m.handle_key(Key::Enter);
    assert_eq!(m.mode(), InputMode::Interactive);
    match m.session() {
        Session::Macho(_, st) => {
            assert_eq!(st.focus_region(), Some(mule::macho::MachoFocus::Header))
        },
        _ => panic!("expected an executable session"),
    }
}
