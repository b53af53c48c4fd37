use mule::gb::{
    bank_list, default_vector, dest_code_display, disassembly_lines, gbc_flag_display, logo_row,
    manufacturer_display, non_default_interrupts, non_default_restarts, num_banks, pixel_char,
    ram_display, rom_display, sgb_flag_display, DestinationCode, GBBinary, GBCFlag,
    GBDisassembles, GBFocus,
    GBHeader, GBInteractiveState, Interrupts, RAMSize, ROMSize, RestartCalls, SGBFlag,
};
use mule::{InteractiveCommand, Key};

fn sample_header(rom: ROMSize) -> GBHeader {
    GBHeader {
        entry_point: vec![0x00, 0xC3, 0x50, 0x01],
        logo_data: vec![0xCE; 48],
        game_title: String::from("TESTGAME"),
        manufacturer_code: String::from(""),
        licensee_code: String::from("None"),
        cartridge_type: String::from("ROMOnly"),
        gbc_flag: GBCFlag::GBOnly,
        sgb_flag: SGBFlag::NoSGB,
        rom_size: rom,
        ram_size: RAMSize::NoRAM,
        destination_code: DestinationCode::Japanese,
        rom_version: 1,
        checksum: 0x2A,
        global_checksum: 0xBEEF,
    }
}

fn sample_binary(banks: usize) -> GBBinary {
    GBBinary {
        header: sample_header(ROMSize::NoBanking),
        interrupts: Interrupts {
            v_blank: vec![0xFF; 8],
            lcd_stat: vec![0xFF; 8],
            timer: vec![0x00, 0xFF],
            serial: vec![0xFF; 8],
            joypad: vec![0xFF; 8],
        },
        restart_calls: RestartCalls {
            rst_0: vec![0xC3, 0x00],
            rst_1: vec![0xFF; 8],
            rst_2: vec![0xFF; 8],
            rst_3: vec![0xFF; 8],
            rst_4: vec![0xFF; 8],
            rst_5: vec![0xFF; 8],
            rst_6: vec![0x00],
            rst_7: vec![0xFF; 8],
        },
        bank_data: vec![vec![0u8; 16]; banks],
    }
}

fn empty_dasm() -> GBDisassembles {
    GBDisassembles {
        entry_point: Vec::new(),
        interrupt_v_blank: Vec::new(),
        interrupt_lcd_stat: Vec::new(),
        interrupt_timer: Vec::new(),
        interrupt_serial: Vec::new(),
        interrupt_joypad: Vec::new(),
        rst_0: Vec::new(),
        rst_1: Vec::new(),
        rst_2: Vec::new(),
        rst_3: Vec::new(),
        rst_4: Vec::new(),
        rst_5: Vec::new(),
        rst_6: Vec::new(),
        rst_7: Vec::new(),
    }
}

#[test]
fn num_banks_per_size_code() {
    assert_eq!(num_banks(ROMSize::NoBanking), 2);
    assert_eq!(num_banks(ROMSize::Banks4), 4);
    assert_eq!(num_banks(ROMSize::Banks96), 96);
    assert_eq!(num_banks(ROMSize::Banks512), 512);
}

#[test]
fn display_labels_exact() {
    assert_eq!(rom_display(ROMSize::NoBanking), "No Banking (32KiB)");
    assert_eq!(rom_display(ROMSize::Banks72), "72 Banks (1.1 MiB)");
    assert_eq!(rom_display(ROMSize::Banks512), "512 Banks (8 MiB)");
    assert_eq!(ram_display(RAMSize::NoRAM), "No RAM");
    assert_eq!(ram_display(RAMSize::KB128), "128 KiB");
    assert_eq!(dest_code_display(DestinationCode::Japanese), "Japanese");
    assert_eq!(dest_code_display(DestinationCode::NonJapanese), "No Japanese");
    assert_eq!(gbc_flag_display(GBCFlag::GBCAndGB), "GB & GBC");
    assert_eq!(sgb_flag_display(SGBFlag::NoSGB), "No support");
}

#[test]
fn manufacturer_dash_for_empty() {
    assert_eq!(manufacturer_display(""), "-");
    assert_eq!(manufacturer_display("01AB"), "01AB");
}

#[test]
fn default_vector_checks_fill_byte() {
    assert!(default_vector(&[]));
    assert!(default_vector(&[0xFF, 0xFF, 0xFF]));
    assert!(!default_vector(&[0xFF, 0xFE]));
    assert!(!default_vector(&[0x00]));
}

#[test]
fn non_default_counts() {
    let b = sample_binary(2);
    assert_eq!(non_default_restarts(&b), 2);
    assert_eq!(non_default_interrupts(&b), 1);
}

#[test]
fn bank_list_labels() {
    let mut b = sample_binary(4);
    b.header.rom_size = ROMSize::Banks4;
    let labels = bank_list(&b);
    assert_eq!(labels.len(), 4);
    assert_eq!(labels[0], "Bank 0");
    assert_eq!(labels[3], "Bank 3");
}

#[test]
fn bank_list_large_counts() {
    let mut b = sample_binary(2);
    b.header.rom_size = ROMSize::Banks128;
    let labels = bank_list(&b);
    assert_eq!(labels.len(), 128);
    assert_eq!(labels[127], "Bank 127");
}

#[test]
fn pixel_char_all_combinations() {
    assert_eq!(pixel_char(3, 3), '\u{2588}');
    assert_eq!(pixel_char(3, 1), '\u{259C}');
    assert_eq!(pixel_char(3, 2), '\u{259B}');
    assert_eq!(pixel_char(3, 0), '\u{2580}');
    assert_eq!(pixel_char(2, 3), '\u{2599}');
    assert_eq!(pixel_char(2, 1), '\u{259A}');
    assert_eq!(pixel_char(2, 2), '\u{258C}');
    assert_eq!(pixel_char(2, 0), '\u{2598}');
    assert_eq!(pixel_char(1, 3), '\u{259F}');
    assert_eq!(pixel_char(1, 1), '\u{2590}');
    assert_eq!(pixel_char(1, 2), '\u{259E}');
    assert_eq!(pixel_char(1, 0), '\u{259D}');
    assert_eq!(pixel_char(0, 3), '\u{2584}');
    assert_eq!(pixel_char(0, 1), '\u{2597}');
    assert_eq!(pixel_char(0, 2), '\u{2596}');
    assert_eq!(pixel_char(0, 0), ' ');
}

#[test]
fn logo_row_renders_pixels() {
    // A solid byte renders solid blocks, a zero byte renders blanks.
    let solid = vec![0xFF; 48];
    assert_eq!(logo_row(0, &solid), "\u{2588}".repeat(24));
    let blank = vec![0x00; 48];
    assert_eq!(logo_row(3, &blank), " ".repeat(24));
}

#[test]
fn logo_row_interleaves_bytes() {
    // Row 0 reads the even bytes of the upper half, row 1 the odd ones,
    // rows 2 and 3 the bytes from offset 24 on.
    let mut logo = vec![0x00; 48];
    logo[0] = 0xFF; // row 0, first two columns
    logo[1] = 0xF0; // row 1, first two columns: upper half set
    logo[24] = 0x0F; // row 2, first two columns: lower half set
    let r0 = logo_row(0, &logo);
    assert_eq!(&r0[0..6], "\u{2588}\u{2588}");
    let r1 = logo_row(1, &logo);
    assert_eq!(r1.chars().next().unwrap(), '\u{2580}');
    let r2 = logo_row(2, &logo);
    assert_eq!(r2.chars().next().unwrap(), '\u{2584}');
    let r3 = logo_row(3, &logo);
    assert_eq!(r3.chars().next().unwrap(), ' ');
}

#[test]
fn disassembly_lines_pass_through_on_success() {
    let lines = disassembly_lines(Ok(vec![String::from("(ld %a 0)"), String::from("(nop)")]));
    assert_eq!(lines, vec![String::from("(ld %a 0)"), String::from("(nop)")]);
}

#[test]
fn disassembly_lines_recover_failure_as_one_line() {
    let lines = disassembly_lines(Err(String::from("bad opcode")));
    assert_eq!(lines, vec![String::from("Err disassemble: bad opcode")]);
}

#[test]
fn gb_viewer_starts_on_header() {
    let b = sample_binary(3);
    let st = GBInteractiveState::new(&b, empty_dasm());
    assert_eq!(st.focus_region(), Some(GBFocus::Header));
    assert_eq!(st.selected_bank(), Some(0));
    assert_eq!(st.bank_count(), 3);
}

#[test]
fn gb_focus_cycle_order() {
    // Cycle order [Restarts, Interrupts, Header, Banks] starting at
    // Header: forward goes to Banks, forward again wraps to Restarts, and
    // backward from Restarts returns to Banks.
    let b = sample_binary(3);
    let mut st = GBInteractiveState::new(&b, empty_dasm());
    assert_eq!(st.focus_region(), Some(GBFocus::Header));
    st.handle_command(InteractiveCommand::Key(Key::Tab));
    assert_eq!(st.focus_region(), Some(GBFocus::Banks));
    st.handle_command(InteractiveCommand::Key(Key::Tab));
    assert_eq!(st.focus_region(), Some(GBFocus::Restarts));
    st.handle_command(InteractiveCommand::Key(Key::BackTab));
    assert_eq!(st.focus_region(), Some(GBFocus::Banks));
}

#[test]
fn gb_bank_selection_only_while_banks_focused() {
    let b = sample_binary(3);
    let mut st = GBInteractiveState::new(&b, empty_dasm());
    // Header is focused: Up and Down leave the selection alone.
    st.handle_command(InteractiveCommand::Key(Key::Down));
    assert_eq!(st.selected_bank(), Some(0));
    // Move to the bank list and walk down; the selection saturates.
    st.handle_command(InteractiveCommand::Key(Key::Tab));
    st.handle_command(InteractiveCommand::Key(Key::Down));
    assert_eq!(st.selected_bank(), Some(1));
    st.handle_command(InteractiveCommand::Key(Key::Down));
    st.handle_command(InteractiveCommand::Key(Key::Down));
    assert_eq!(st.selected_bank(), Some(2));
    st.handle_command(InteractiveCommand::Key(Key::Up));
    assert_eq!(st.selected_bank(), Some(1));
}

#[test]
fn gb_unfocus_and_refocus() {
    let b = sample_binary(2);
    let mut st = GBInteractiveState::new(&b, empty_dasm());
    st.handle_command(InteractiveCommand::Key(Key::Tab));
    assert_eq!(st.focus_region(), Some(GBFocus::Banks));
    st.handle_command(InteractiveCommand::Unfocus);
    assert_eq!(st.focus_region(), None);
    st.handle_command(InteractiveCommand::Focus);
    assert_eq!(st.focus_region(), Some(GBFocus::Banks));
}
