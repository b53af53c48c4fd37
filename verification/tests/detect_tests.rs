use mule::{detect_format, DetectedFormat};

#[test]
fn magic_number_wins() {
    let magic = [0xCF, 0xFA, 0xED, 0xFE];
    assert_eq!(detect_format(&magic, None), DetectedFormat::MachO);
    // The magic number decides even when a ROM extension is present.
    assert_eq!(detect_format(&magic, Some(&b"gb"[..])), DetectedFormat::MachO);
}

#[test]
fn rom_extensions_recognized() {
    let magic = [0x00, 0x00, 0x00, 0x00];
    assert_eq!(detect_format(&magic, Some(&b"gb"[..])), DetectedFormat::GB);
    assert_eq!(detect_format(&magic, Some(&b"gbc"[..])), DetectedFormat::GB);
}

#[test]
fn anything_else_is_unsupported() {
    let magic = [0x7F, 0x45, 0x4C, 0x46];
    assert_eq!(detect_format(&magic, None), DetectedFormat::Unsupported);
    assert_eq!(detect_format(&magic, Some(&b"bin"[..])), DetectedFormat::Unsupported);
    assert_eq!(detect_format(&magic, Some(&b"gbx"[..])), DetectedFormat::Unsupported);
    // A byte-swapped magic number does not match.
    let swapped = [0xFE, 0xED, 0xFA, 0xCF];
    assert_eq!(detect_format(&swapped, None), DetectedFormat::Unsupported);
}
