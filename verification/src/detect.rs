use vstd::prelude::*;

verus! {

/// The 4-byte magic number of a 64-bit executable container, as read
/// little-endian from the start of the file.
pub const MACHO_MAGIC: u32 = 0xFEEDFACF;

/// Which format a file was recognized as.
#[derive(Clone, Copy, PartialEq, Eq, Structural, Debug)]
pub enum DetectedFormat {
    MachO,
    GB,
    Unsupported,
}

/// The first four bytes read as a little-endian 32-bit value.
pub open spec fn le_u32_spec(b: Seq<u8>) -> int
    recommends
        b.len() >= 4,
{
    b[0] + 256 * (b[1] + 256 * (b[2] + 256 * b[3]))
}

/// The ASCII bytes of the ROM file extensions.
pub const ASCII_G: u8 = 103;

pub const ASCII_B: u8 = 98;

pub const ASCII_C: u8 = 99;

/// A ROM file extension: `gb` or `gbc`.
pub open spec fn is_gb_extension(e: Seq<u8>) -> bool {
    e == seq![ASCII_G, ASCII_B] || e == seq![ASCII_G, ASCII_B, ASCII_C]
}

/// What format the opener assigns to a file: the magic number decides
/// first, then the file extension, and everything else is unsupported.
pub open spec fn detect_spec(magic: Seq<u8>, extension: Option<Seq<u8>>) -> DetectedFormat {
    if le_u32_spec(magic) == MACHO_MAGIC {
        DetectedFormat::MachO
    } else {
        match extension {
            Some(e) => if is_gb_extension(e) {
                DetectedFormat::GB
            } else {
                DetectedFormat::Unsupported
            },
            None => DetectedFormat::Unsupported,
        }
    }
}

fn is_gb_extension_exec(e: &[u8]) -> (r: bool)
    ensures
        r == is_gb_extension(e@),
{
    let r = (e.len() == 2 && e[0] == ASCII_G && e[1] == ASCII_B) || (e.len() == 3 && e[0]
        == ASCII_G && e[1] == ASCII_B && e[2] == ASCII_C);
    proof {
        if e@.len() == 2 {
            assert(e@ =~= seq![e@[0], e@[1]]);
        } else if e@.len() == 3 {
            assert(e@ =~= seq![e@[0], e@[1], e@[2]]);
        }
    }
    r
}

/// Identify a file's format from its first four bytes and its extension:
/// the little-endian magic number marks an executable container, the `gb`
/// and `gbc` extensions mark a ROM image, anything else is unsupported.
pub fn detect_format(magic: &[u8], extension: Option<&[u8]>) -> (f: DetectedFormat)
    requires
        magic@.len() >= 4,
    ensures
        f == detect_spec(
            magic@,
            match extension {
                Some(e) => Some(e@),
                None => None::<Seq<u8>>,
            },
        ),
{
    let m: u32 = magic[0] as u32 + 256 * (magic[1] as u32 + 256 * (magic[2] as u32 + 256 * (
    magic[3] as u32)));
    if m == MACHO_MAGIC {
        return DetectedFormat::MachO;
    }
    match extension {
        Some(e) => if is_gb_extension_exec(e) {
            DetectedFormat::GB
        } else {
            DetectedFormat::Unsupported
        },
        None => DetectedFormat::Unsupported,
    }
}

} // verus!
