use vstd::prelude::*;
use vstd::string::StringExecFns;
use crate::cursor::{next_step, previous_step, ListCursor};
use crate::focus::{Direction, FocusCycle};
use crate::keys::{InteractiveCommand, Key};
use crate::strutil::{dec_rep, push_dec_rep};

verus! {

// ---------------------------------------------------------------------------
// Parsed ROM model
// ---------------------------------------------------------------------------
// The external parser collaborator owns the binary layout; this crate holds
// what its viewer logic reads from the parsed structure, as plain values.
/// The declared ROM-size code of the cartridge header.
#[derive(Clone, Copy, PartialEq, Eq, Structural, Debug)]
pub enum ROMSize {
    NoBanking,
    Banks4,
    Banks8,
    Banks16,
    Banks32,
    Banks64,
    Banks72,
    Banks80,
    Banks96,
    Banks128,
    Banks256,
    Banks512,
}

/// The declared RAM-size code of the cartridge header.
#[derive(Clone, Copy, PartialEq, Eq, Structural, Debug)]
pub enum RAMSize {
    NoRAM,
    KB2,
    KB8,
    KB32,
    KB64,
    KB128,
}

#[derive(Clone, Copy, PartialEq, Eq, Structural, Debug)]
pub enum DestinationCode {
    Japanese,
    NonJapanese,
}

#[derive(Clone, Copy, PartialEq, Eq, Structural, Debug)]
pub enum GBCFlag {
    GBOnly,
    GBCAndGB,
    GBCOnly,
}

#[derive(Clone, Copy, PartialEq, Eq, Structural, Debug)]
pub enum SGBFlag {
    NoSGB,
    SGBSupport,
}

/// The cartridge header fields the viewer renders. The licensee and
/// cartridge-type codes arrive as display labels already produced by the
/// parser collaborator.
pub struct GBHeader {
    pub entry_point: Vec<u8>,
    pub logo_data: Vec<u8>,
    pub game_title: String,
    pub manufacturer_code: String,
    pub licensee_code: String,
    pub cartridge_type: String,
    pub gbc_flag: GBCFlag,
    pub sgb_flag: SGBFlag,
    pub rom_size: ROMSize,
    pub ram_size: RAMSize,
    pub destination_code: DestinationCode,
    pub rom_version: u8,
    pub checksum: u8,
    pub global_checksum: u16,
}

/// The bytes at the five interrupt vectors.
pub struct Interrupts {
    pub v_blank: Vec<u8>,
    pub lcd_stat: Vec<u8>,
    pub timer: Vec<u8>,
    pub serial: Vec<u8>,
    pub joypad: Vec<u8>,
}

/// The bytes at the eight restart vectors.
pub struct RestartCalls {
    pub rst_0: Vec<u8>,
    pub rst_1: Vec<u8>,
    pub rst_2: Vec<u8>,
    pub rst_3: Vec<u8>,
    pub rst_4: Vec<u8>,
    pub rst_5: Vec<u8>,
    pub rst_6: Vec<u8>,
    pub rst_7: Vec<u8>,
}

/// A parsed ROM image: header, vectors and the raw bank data.
pub struct GBBinary {
    pub header: GBHeader,
    pub interrupts: Interrupts,
    pub restart_calls: RestartCalls,
    pub bank_data: Vec<Vec<u8>>,
}

// ---------------------------------------------------------------------------
// Header formatting
// ---------------------------------------------------------------------------
/// The number of 16 KiB banks each ROM-size code declares; banking-free
/// cartridges still map two banks.
pub open spec fn num_banks_spec(rom: ROMSize) -> int {
    match rom {
        ROMSize::NoBanking => 2,
        ROMSize::Banks4 => 4,
        ROMSize::Banks8 => 8,
        ROMSize::Banks16 => 16,
        ROMSize::Banks32 => 32,
        ROMSize::Banks64 => 64,
        ROMSize::Banks72 => 72,
        ROMSize::Banks80 => 80,
        ROMSize::Banks96 => 96,
        ROMSize::Banks128 => 128,
        ROMSize::Banks256 => 256,
        ROMSize::Banks512 => 512,
    }
}

/// The number of banks derived from the declared ROM-size code.
pub fn num_banks(rom: ROMSize) -> (n: usize)
    ensures
        n == num_banks_spec(rom),
{
    match rom {
        ROMSize::NoBanking => 2,
        ROMSize::Banks4 => 4,
        ROMSize::Banks8 => 8,
        ROMSize::Banks16 => 16,
        ROMSize::Banks32 => 32,
        ROMSize::Banks64 => 64,
        ROMSize::Banks72 => 72,
        ROMSize::Banks80 => 80,
        ROMSize::Banks96 => 96,
        ROMSize::Banks128 => 128,
        ROMSize::Banks256 => 256,
        ROMSize::Banks512 => 512,
    }
}

pub open spec fn dest_code_display_spec(dest: DestinationCode) -> Seq<char> {
    match dest {
        DestinationCode::Japanese => "Japanese"@,
        DestinationCode::NonJapanese => "No Japanese"@,
    }
}

pub fn dest_code_display(dest_code: DestinationCode) -> (r: &'static str)
    ensures
        r@ == dest_code_display_spec(dest_code),
{
    match dest_code {
        DestinationCode::Japanese => "Japanese",
        DestinationCode::NonJapanese => "No Japanese",
    }
}

pub open spec fn ram_display_spec(ram: RAMSize) -> Seq<char> {
    match ram {
        RAMSize::NoRAM => "No RAM"@,
        RAMSize::KB2 => "2 KiB"@,
        RAMSize::KB8 => "8 KiB"@,
        RAMSize::KB32 => "32 KiB"@,
        RAMSize::KB64 => "64 KiB"@,
        RAMSize::KB128 => "128 KiB"@,
    }
}

pub fn ram_display(ram: RAMSize) -> (r: &'static str)
    ensures
        r@ == ram_display_spec(ram),
{
    match ram {
        RAMSize::NoRAM => "No RAM",
        RAMSize::KB2 => "2 KiB",
        RAMSize::KB8 => "8 KiB",
        RAMSize::KB32 => "32 KiB",
        RAMSize::KB64 => "64 KiB",
        RAMSize::KB128 => "128 KiB",
    }
}

pub open spec fn rom_display_spec(rom: ROMSize) -> Seq<char> {
    match rom {
        ROMSize::NoBanking => "No Banking (32KiB)"@,
        ROMSize::Banks4 => "4 Banks (64 KiB)"@,
        ROMSize::Banks8 => "8 Banks (128 KiB)"@,
        ROMSize::Banks16 => "16 Banks (256 KiB)"@,
        ROMSize::Banks32 => "32 Banks (512 KiB)"@,
        ROMSize::Banks64 => "64 Banks (1 MiB)"@,
        ROMSize::Banks72 => "72 Banks (1.1 MiB)"@,
        ROMSize::Banks80 => "80 Banks (1.2 MiB)"@,
        ROMSize::Banks96 => "96 Banks (1.5 MiB)"@,
        ROMSize::Banks128 => "128 Banks (2 MiB)"@,
        ROMSize::Banks256 => "256 Banks (4 MiB)"@,
        ROMSize::Banks512 => "512 Banks (8 MiB)"@,
    }
}

pub fn rom_display(rom: ROMSize) -> (r: &'static str)
    ensures
        r@ == rom_display_spec(rom),
{
    match rom {
        ROMSize::NoBanking => "No Banking (32KiB)",
        ROMSize::Banks4 => "4 Banks (64 KiB)",
        ROMSize::Banks8 => "8 Banks (128 KiB)",
        ROMSize::Banks16 => "16 Banks (256 KiB)",
        ROMSize::Banks32 => "32 Banks (512 KiB)",
        ROMSize::Banks64 => "64 Banks (1 MiB)",
        ROMSize::Banks72 => "72 Banks (1.1 MiB)",
        ROMSize::Banks80 => "80 Banks (1.2 MiB)",
        ROMSize::Banks96 => "96 Banks (1.5 MiB)",
        ROMSize::Banks128 => "128 Banks (2 MiB)",
        ROMSize::Banks512 => "512 Banks (8 MiB)",
        ROMSize::Banks256 => "256 Banks (4 MiB)",
    }
}

/// An empty manufacturer code renders as a dash.
pub fn manufacturer_display<'a>(code: &'a str) -> (r: &'a str)
    ensures
        code@.len() == 0 ==> r@ == "-"@,
        code@.len() != 0 ==> r@ == code@,
{
    if code.is_empty() {
        "-"
    } else {
        code
    }
}

pub open spec fn gbc_flag_display_spec(gbc: GBCFlag) -> Seq<char> {
    match gbc {
        GBCFlag::GBOnly => "GB only"@,
        GBCFlag::GBCAndGB => "GB & GBC"@,
        GBCFlag::GBCOnly => "GBC only"@,
    }
}

pub fn gbc_flag_display(gbc_flag: GBCFlag) -> (r: &'static str)
    ensures
        r@ == gbc_flag_display_spec(gbc_flag),
{
    match gbc_flag {
        GBCFlag::GBOnly => "GB only",
        GBCFlag::GBCAndGB => "GB & GBC",
        GBCFlag::GBCOnly => "GBC only",
    }
}

pub open spec fn sgb_flag_display_spec(sgb: SGBFlag) -> Seq<char> {
    match sgb {
        SGBFlag::NoSGB => "No support"@,
        SGBFlag::SGBSupport => "Supported"@,
    }
}

pub fn sgb_flag_display(sgb_flag: SGBFlag) -> (r: &'static str)
    ensures
        r@ == sgb_flag_display_spec(sgb_flag),
{
    match sgb_flag {
        SGBFlag::NoSGB => "No support",
        SGBFlag::SGBSupport => "Supported",
    }
}

// ---------------------------------------------------------------------------
// Logo rendering
// ---------------------------------------------------------------------------
/// The half-block character showing one column of two stacked 2-bit
/// pixels: `l0` selects the upper half, `l1` the lower half.
pub open spec fn pixel_char_spec(l0: int, l1: int) -> char {
    if l0 == 3 && l1 == 3 {
        '\u{2588}'
    } else if l0 == 3 && l1 == 1 {
        '\u{259C}'
    } else if l0 == 3 && l1 == 2 {
        '\u{259B}'
    } else if l0 == 3 && l1 == 0 {
        '\u{2580}'
    } else if l0 == 2 && l1 == 3 {
        '\u{2599}'
    } else if l0 == 2 && l1 == 1 {
        '\u{259A}'
    } else if l0 == 2 && l1 == 2 {
        '\u{258C}'
    } else if l0 == 2 && l1 == 0 {
        '\u{2598}'
    } else if l0 == 1 && l1 == 3 {
        '\u{259F}'
    } else if l0 == 1 && l1 == 1 {
        '\u{2590}'
    } else if l0 == 1 && l1 == 2 {
        '\u{259E}'
    } else if l0 == 1 && l1 == 0 {
        '\u{259D}'
    } else if l0 == 0 && l1 == 3 {
        '\u{2584}'
    } else if l0 == 0 && l1 == 1 {
        '\u{2597}'
    } else if l0 == 0 && l1 == 2 {
        '\u{2596}'
    } else {
        ' '
    }
}

/// The half-block character for a column of two 2-bit pixel rows.
pub fn pixel_char(l0: u8, l1: u8) -> (c: char)
    requires
        l0 < 4,
        l1 < 4,
    ensures
        c == pixel_char_spec(l0 as int, l1 as int),
{
    if l0 == 3 && l1 == 3 {
        '\u{2588}'
    } else if l0 == 3 && l1 == 1 {
        '\u{259C}'
    } else if l0 == 3 && l1 == 2 {
        '\u{259B}'
    } else if l0 == 3 && l1 == 0 {
        '\u{2580}'
    } else if l0 == 2 && l1 == 3 {
        '\u{2599}'
    } else if l0 == 2 && l1 == 1 {
        '\u{259A}'
    } else if l0 == 2 && l1 == 2 {
        '\u{258C}'
    } else if l0 == 2 && l1 == 0 {
        '\u{2598}'
    } else if l0 == 1 && l1 == 3 {
        '\u{259F}'
    } else if l0 == 1 && l1 == 1 {
        '\u{2590}'
    } else if l0 == 1 && l1 == 2 {
        '\u{259E}'
    } else if l0 == 1 && l1 == 0 {
        '\u{259D}'
    } else if l0 == 0 && l1 == 3 {
        '\u{2584}'
    } else if l0 == 0 && l1 == 1 {
        '\u{2597}'
    } else if l0 == 0 && l1 == 2 {
        '\u{2596}'
    } else {
        ' '
    }
}

/// The character at column `j` of logo row `row`: each logo byte holds two
/// stacked 2-bit pixel pairs, rows interleave even and odd bytes, and the
/// lower two rows start 24 bytes in.
pub open spec fn logo_char_at(logo: Seq<u8>, row: int, j: int) -> char {
    let off = if row >= 2 {
        24int
    } else {
        0int
    };
    let b = logo[off + 2 * (j / 2) + row % 2];
    let hi = b as int / 16;
    let lo = b as int % 16;
    if j % 2 == 0 {
        pixel_char_spec(hi / 4, lo / 4)
    } else {
        pixel_char_spec(hi % 4, lo % 4)
    }
}

/// One of the four rendered rows of the 48-byte boot logo, 24 characters
/// wide.
pub open spec fn logo_row_spec(logo: Seq<u8>, row: int) -> Seq<char> {
    Seq::new(24, |j: int| logo_char_at(logo, row, j))
}

/// Render row `row` of the boot logo bitmap as half-block characters.
pub fn logo_row(row: usize, logo_data: &[u8]) -> (r: String)
    requires
        row < 4,
        logo_data@.len() >= 48,
    ensures
        r@ == logo_row_spec(logo_data@, row as int),
{
    let ghost sp = logo_row_spec(logo_data@, row as int);
    let dis: usize = row % 2;
    let offset: usize = if row >= 2 {
        24
    } else {
        0
    };
    let mut r = String::new();
    let mut i: usize = 0;
    while i < 12
        invariant
            row < 4,
            logo_data@.len() >= 48,
            dis == row as int % 2,
            offset == (if row >= 2 {
                24int
            } else {
                0int
            }),
            i <= 12,
            sp == logo_row_spec(logo_data@, row as int),
            r@ == sp.subrange(0, 2 * i),
        decreases 12 - i,
    {
        let b = logo_data[offset + 2 * i + dis];
        let hi = b / 16;
        let lo = b % 16;
        proof {
            assert((2 * i as int) / 2 == i as int);
            assert((2 * i as int + 1) / 2 == i as int);
            assert(sp[2 * i as int] == pixel_char_spec(hi as int / 4, lo as int / 4));
            assert(sp[2 * i as int + 1] == pixel_char_spec(hi as int % 4, lo as int % 4));
        }
        r.push(pixel_char(hi / 4, lo / 4));
        r.push(pixel_char(hi % 4, lo % 4));
        assert(sp.subrange(0, 2 * i as int).push(sp[2 * i as int]).push(sp[2 * i as int + 1])
            =~= sp.subrange(0, 2 * (i + 1)));
        i = i + 1;
    }
    assert(sp.subrange(0, 24) =~= sp);
    r
}

// ---------------------------------------------------------------------------
// Vectors
// ---------------------------------------------------------------------------
/// A vector still holding only the erased-flash fill byte: nothing was
/// placed there.
pub open spec fn is_default_vector(s: Seq<u8>) -> bool {
    forall|i: int| 0 <= i < s.len() ==> s[i] == 0xFF
}

/// Whether every byte of the vector is the default fill byte `0xFF`.
pub fn default_vector(data: &[u8]) -> (r: bool)
    ensures
        r == is_default_vector(data@),
{
    let mut i: usize = 0;
    while i < data.len()
        invariant
            i <= data@.len(),
            forall|j: int| 0 <= j < i ==> data@[j] == 0xFF,
        decreases data@.len() - i,
    {
        if data[i] != 0xFF {
            return false;
        }
        i = i + 1;
    }
    true
}

/// 1 when the vector differs from the default fill, else 0.
pub open spec fn non_default_ind(s: Seq<u8>) -> int {
    if is_default_vector(s) {
        0
    } else {
        1
    }
}

pub open spec fn non_default_restarts_spec(rc: &RestartCalls) -> int {
    non_default_ind(rc.rst_0@) + non_default_ind(rc.rst_1@) + non_default_ind(rc.rst_2@)
        + non_default_ind(rc.rst_3@) + non_default_ind(rc.rst_4@) + non_default_ind(rc.rst_5@)
        + non_default_ind(rc.rst_6@) + non_default_ind(rc.rst_7@)
}

/// How many of the eight restart vectors hold something other than the
/// default fill.
pub fn non_default_restarts(binary: &GBBinary) -> (n: usize)
    ensures
        n == non_default_restarts_spec(&binary.restart_calls),
{
    let mut n: usize = 0;
    if !default_vector(binary.restart_calls.rst_0.as_slice()) {
        n = n + 1;
    }
    if !default_vector(binary.restart_calls.rst_1.as_slice()) {
        n = n + 1;
    }
    if !default_vector(binary.restart_calls.rst_2.as_slice()) {
        n = n + 1;
    }
    if !default_vector(binary.restart_calls.rst_3.as_slice()) {
        n = n + 1;
    }
    if !default_vector(binary.restart_calls.rst_4.as_slice()) {
        n = n + 1;
    }
    if !default_vector(binary.restart_calls.rst_5.as_slice()) {
        n = n + 1;
    }
    if !default_vector(binary.restart_calls.rst_6.as_slice()) {
        n = n + 1;
    }
    if !default_vector(binary.restart_calls.rst_7.as_slice()) {
        n = n + 1;
    }
    n
}

pub open spec fn non_default_interrupts_spec(iv: &Interrupts) -> int {
    non_default_ind(iv.v_blank@) + non_default_ind(iv.lcd_stat@) + non_default_ind(iv.timer@)
        + non_default_ind(iv.serial@) + non_default_ind(iv.joypad@)
}

/// How many of the five interrupt vectors hold something other than the
/// default fill.
pub fn non_default_interrupts(binary: &GBBinary) -> (n: usize)
    ensures
        n == non_default_interrupts_spec(&binary.interrupts),
{
    let mut n: usize = 0;
    if !default_vector(binary.interrupts.v_blank.as_slice()) {
        n = n + 1;
    }
    if !default_vector(binary.interrupts.lcd_stat.as_slice()) {
        n = n + 1;
    }
    if !default_vector(binary.interrupts.timer.as_slice()) {
        n = n + 1;
    }
    if !default_vector(binary.interrupts.serial.as_slice()) {
        n = n + 1;
    }
    if !default_vector(binary.interrupts.joypad.as_slice()) {
        n = n + 1;
    }
    n
}

/// The labels of the bank list panel: one numbered entry per bank.
pub fn bank_list(binary: &GBBinary) -> (r: Vec<String>)
    ensures
        r@.len() == num_banks_spec(binary.header.rom_size),
        forall|i: int| 0 <= i < r@.len() ==> (#[trigger] r@[i])@ == "Bank "@ + dec_rep(i as nat),
{
    let n = num_banks(binary.header.rom_size);
    let mut r: Vec<String> = Vec::new();
    let mut i: usize = 0;
    while i < n
        invariant
            i <= n,
            r@.len() == i,
            forall|j: int| 0 <= j < i ==> (#[trigger] r@[j])@ == "Bank "@ + dec_rep(j as nat),
        decreases n - i,
    {
        let mut label = String::from_str("Bank ");
        push_dec_rep(&mut label, i);
        r.push(label);
        i = i + 1;
    }
    r
}

// ---------------------------------------------------------------------------
// Disassembly text
// ---------------------------------------------------------------------------
/// The cached disassembly text of the fixed entry points, produced once by
/// the external disassembler collaborator when the viewer is constructed
/// and kept for the viewer's lifetime.
pub struct GBDisassembles {
    pub entry_point: Vec<String>,
    pub interrupt_v_blank: Vec<String>,
    pub interrupt_lcd_stat: Vec<String>,
    pub interrupt_timer: Vec<String>,
    pub interrupt_serial: Vec<String>,
    pub interrupt_joypad: Vec<String>,
    pub rst_0: Vec<String>,
    pub rst_1: Vec<String>,
    pub rst_2: Vec<String>,
    pub rst_3: Vec<String>,
    pub rst_4: Vec<String>,
    pub rst_5: Vec<String>,
    pub rst_6: Vec<String>,
    pub rst_7: Vec<String>,
}

/// What one disassembler outcome displays as: its instruction lines on
/// success, and on failure a single line carrying the error description —
/// a disassembly failure is recovered locally, never propagated.
pub fn disassembly_lines(r: Result<Vec<String>, String>) -> (lines: Vec<String>)
    ensures
        match r {
            Ok(d) => lines == d,
            Err(e) => lines@.len() == 1 && lines@[0]@ == "Err disassemble: "@ + e@,
        },
{
    match r {
        Ok(d) => d,
        Err(e) => {
            let mut line = String::from_str("Err disassemble: ");
            line.append(e.as_str());
            vec![line]
        },
    }
}

// ---------------------------------------------------------------------------
// Viewer state
// ---------------------------------------------------------------------------
/// The focusable regions of the ROM viewer, in cycle order.
#[derive(Clone, Copy, PartialEq, Eq, Structural, Debug)]
pub enum GBFocus {
    Restarts,
    Interrupts,
    Header,
    Banks,
}

/// The region at position `i` of the fixed cycle order.
pub open spec fn gb_focus_at(i: int) -> GBFocus {
    if i == 0 {
        GBFocus::Restarts
    } else if i == 1 {
        GBFocus::Interrupts
    } else if i == 2 {
        GBFocus::Header
    } else {
        GBFocus::Banks
    }
}

/// How one routed command transforms the viewer state: the exact contract
/// of `GBInteractiveState::handle_command`.
pub open spec fn gb_handle_spec(
    pre: GBInteractiveState,
    post: GBInteractiveState,
    command: InteractiveCommand,
) -> bool {
    &&& post.spec_bank_count() == pre.spec_bank_count()
    &&& post.spec_disassembles() == pre.spec_disassembles()
    &&& match command {
        InteractiveCommand::Key(k) => match k {
            Key::Tab => {
                &&& post.spec_focus().spec_focus() == Some(
                    crate::focus::advance_position(
                        pre.spec_focus().spec_focus(),
                        4,
                        Direction::Forward,
                    ) as usize,
                )
                &&& post.spec_focus().spec_previous() == pre.spec_focus().spec_previous()
                &&& post.spec_bank_cursor() == pre.spec_bank_cursor()
            },
            Key::BackTab => {
                &&& post.spec_focus().spec_focus() == Some(
                    crate::focus::advance_position(
                        pre.spec_focus().spec_focus(),
                        4,
                        Direction::Backward,
                    ) as usize,
                )
                &&& post.spec_focus().spec_previous() == pre.spec_focus().spec_previous()
                &&& post.spec_bank_cursor() == pre.spec_bank_cursor()
            },
            Key::Down => {
                &&& post.spec_focus() == pre.spec_focus()
                &&& post.spec_bank_cursor().spec_selected() == (if pre.spec_focus().spec_focus()
                    == Some(3usize) {
                    next_step(pre.spec_bank_cursor().spec_selected(), pre.spec_bank_count())
                } else {
                    pre.spec_bank_cursor().spec_selected()
                })
            },
            Key::Up => {
                &&& post.spec_focus() == pre.spec_focus()
                &&& post.spec_bank_cursor().spec_selected() == (if pre.spec_focus().spec_focus()
                    == Some(3usize) {
                    previous_step(pre.spec_bank_cursor().spec_selected(), pre.spec_bank_count())
                } else {
                    pre.spec_bank_cursor().spec_selected()
                })
            },
            _ => post == pre,
        },
        InteractiveCommand::Focus => {
            &&& post.spec_focus().spec_focus() == pre.spec_focus().spec_previous()
            &&& post.spec_focus().spec_previous() == pre.spec_focus().spec_previous()
            &&& post.spec_bank_cursor() == pre.spec_bank_cursor()
        },
        InteractiveCommand::Unfocus => {
            &&& post.spec_focus().spec_focus() is None
            &&& post.spec_focus().spec_previous() == pre.spec_focus().spec_focus()
            &&& post.spec_bank_cursor() == pre.spec_bank_cursor()
        },
    }
}

/// The navigation state of the ROM viewer: which of the four regions is
/// focused, which bank is selected, and the cached disassembly text. It is
/// created together with the loaded binary and discarded with it.
pub struct GBInteractiveState {
    focus: FocusCycle,
    bank_cursor: ListCursor,
    bank_count: usize,
    disassembles: GBDisassembles,
}

impl GBInteractiveState {
    pub closed spec fn spec_focus(&self) -> FocusCycle {
        self.focus
    }

    pub closed spec fn spec_bank_cursor(&self) -> ListCursor {
        self.bank_cursor
    }

    pub closed spec fn spec_bank_count(&self) -> usize {
        self.bank_count
    }

    pub closed spec fn spec_disassembles(&self) -> GBDisassembles {
        self.disassembles
    }

    /// The cached disassembly text, for the detail panels.
    pub fn disassembles(&self) -> (r: &GBDisassembles)
        ensures
            *r == self.spec_disassembles(),
    {
        &self.disassembles
    }

    pub open spec fn wf(&self) -> bool {
        &&& self.spec_focus().wf()
        &&& self.spec_focus().spec_len() == 4
        &&& self.spec_bank_cursor().wf(self.spec_bank_count())
    }

    /// A fresh viewer state for a newly loaded ROM: the header region is
    /// focused, the first bank is selected when there is one, and the
    /// given disassembly text is cached.
    pub fn new(binary: &GBBinary, disassembles: GBDisassembles) -> (st: GBInteractiveState)
        ensures
            st.wf(),
            st.spec_bank_count() == binary.bank_data@.len(),
            st.spec_focus().spec_focus() == Some(2usize),
            st.spec_focus().spec_previous() is None,
            st.spec_bank_cursor().spec_selected() == (if binary.bank_data@.len() > 0 {
                Some(0usize)
            } else {
                None::<usize>
            }),
            st.spec_disassembles() == disassembles,
    {
        let bank_count = binary.bank_data.len();
        let bank_cursor = if bank_count > 0 {
            ListCursor::with_selected(0)
        } else {
            ListCursor::new()
        };
        GBInteractiveState {
            focus: FocusCycle::new(4, 2),
            bank_cursor,
            bank_count,
            disassembles,
        }
    }

    /// The region owning the emphasized style, `None` while the command
    /// line owns the keyboard.
    pub fn focus_region(&self) -> (r: Option<GBFocus>)
        requires
            self.wf(),
        ensures
            r == match self.spec_focus().spec_focus() {
                None => None::<GBFocus>,
                Some(i) => Some(gb_focus_at(i as int)),
            },
    {
        match self.focus.focus() {
            None => None,
            Some(i) => Some(
                if i == 0 {
                    GBFocus::Restarts
                } else if i == 1 {
                    GBFocus::Interrupts
                } else if i == 2 {
                    GBFocus::Header
                } else {
                    GBFocus::Banks
                },
            ),
        }
    }

    /// The bank whose hex dump the detail panel shows.
    pub fn selected_bank(&self) -> (r: Option<usize>)
        ensures
            r == self.spec_bank_cursor().spec_selected(),
    {
        self.bank_cursor.selected()
    }

    pub fn bank_count(&self) -> (r: usize)
        ensures
            r == self.spec_bank_count(),
    {
        self.bank_count
    }

    /// Route one command to the viewer: Tab and Shift-Tab cycle the focus,
    /// Up and Down move the bank selection while the bank list is focused,
    /// and the focus orders save or restore the focus around a mode
    /// change. Every other key is ignored.
    pub fn handle_command(&mut self, command: InteractiveCommand)
        requires
            old(self).wf(),
        ensures
            final(self).wf(),
            gb_handle_spec(*old(self), *final(self), command),
    {
        match command {
            InteractiveCommand::Key(key) => match key {
                Key::Tab => self.move_focus(Direction::Forward),
                Key::BackTab => self.move_focus(Direction::Backward),
                Key::Down => {
                    if let Some(i) = self.focus.focus() {
                        if i == 3 {
                            let count = self.bank_count;
                            self.bank_cursor.select_next(count);
                        }
                    }
                },
                Key::Up => {
                    if let Some(i) = self.focus.focus() {
                        if i == 3 {
                            let count = self.bank_count;
                            self.bank_cursor.select_previous(count);
                        }
                    }
                },
                _ => {},
            },
            InteractiveCommand::Focus => self.focus.refocus(),
            InteractiveCommand::Unfocus => self.focus.unfocus(),
        }
    }

    /// Move the focus one region through the fixed cycle order.
    fn move_focus(&mut self, dir: Direction)
        requires
            old(self).wf(),
        ensures
            final(self).wf(),
            final(self).spec_bank_count() == old(self).spec_bank_count(),
            final(self).spec_disassembles() == old(self).spec_disassembles(),
            final(self).spec_bank_cursor() == old(self).spec_bank_cursor(),
            final(self).spec_focus().spec_focus() == Some(
                crate::focus::advance_position(old(self).spec_focus().spec_focus(), 4, dir)
                    as usize,
            ),
            final(self).spec_focus().spec_previous() == old(self).spec_focus().spec_previous(),
    {
        self.focus.advance(dir);
    }
}

} // verus!
