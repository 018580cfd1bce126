use vstd::prelude::*;

verus! {

/// The container formats this library understands.
#[derive(Debug, Clone, Copy, PartialEq, Eq, Structural)]
pub enum BinaryFormat {
    Elf,
    MachO,
}

/// Why a buffer was not accepted for analysis.
#[derive(Debug, Clone, PartialEq, Eq)]
pub enum ScanError {
    /// Fewer than four bytes: no magic number to inspect.
    TooSmall,
    /// The leading bytes match neither supported format.
    UnknownFormat,
    /// A fat Mach-O container that lists no architecture.
    EmptyFat,
    /// A fat Mach-O container whose first slice lies outside the buffer.
    InvalidFat,
    /// The format-specific parser rejected the headers.
    Malformed,
}

impl ScanError {
    pub open spec fn spec_message(&self) -> Seq<char> {
        match self {
            ScanError::TooSmall => "File too small"@,
            ScanError::UnknownFormat => "Unknown binary format"@,
            ScanError::EmptyFat => "Empty fat binary"@,
            ScanError::InvalidFat => "Invalid fat binary"@,
            ScanError::Malformed => "Malformed binary headers"@,
        }
    }

    /// A message describing the refusal.
    pub fn message(&self) -> (r: String)
        ensures
            r@ == self.spec_message(),
    {
        match self {
            ScanError::TooSmall => String::from_str("File too small"),
            ScanError::UnknownFormat => String::from_str("Unknown binary format"),
            ScanError::EmptyFat => String::from_str("Empty fat binary"),
            ScanError::InvalidFat => String::from_str("Invalid fat binary"),
            ScanError::Malformed => String::from_str("Malformed binary headers"),
        }
    }
}

impl BinaryFormat {
    /// The format tag used in records: "ELF" or "Mach-O".
    pub fn name(&self) -> (r: String)
        ensures
            r@ == self.spec_name(),
    {
        match self {
            BinaryFormat::Elf => String::from_str("ELF"),
            BinaryFormat::MachO => String::from_str("Mach-O"),
        }
    }

    pub open spec fn spec_name(&self) -> Seq<char> {
        match self {
            BinaryFormat::Elf => "ELF"@,
            BinaryFormat::MachO => "Mach-O"@,
        }
    }
}

/// The four leading bytes of an ELF file.
pub open spec fn is_elf_magic(d: Seq<u8>) -> bool {
    d.len() >= 4 && d[0] == 0x7f && d[1] == 0x45 && d[2] == 0x4c && d[3] == 0x46
}

/// Whether the four bytes `a b c d` spell a Mach-O magic number: thin 32-bit,
/// thin 64-bit or fat, in either byte order.
pub open spec fn is_macho_magic_bytes(a: u8, b: u8, c: u8, d: u8) -> bool {
    ||| (a == 0xfe && b == 0xed && c == 0xfa && (d == 0xce || d == 0xcf))
    ||| ((a == 0xce || a == 0xcf) && b == 0xfa && c == 0xed && d == 0xfe)
    ||| (a == 0xca && b == 0xfe && c == 0xba && d == 0xbe)
    ||| (a == 0xbe && b == 0xba && c == 0xfe && d == 0xca)
}

pub open spec fn is_macho_magic(d: Seq<u8>) -> bool {
    d.len() >= 4 && is_macho_magic_bytes(d[0], d[1], d[2], d[3])
}

/// The outcome of format detection on a buffer.
pub open spec fn detect_spec(d: Seq<u8>) -> Result<BinaryFormat, ScanError> {
    if d.len() < 4 {
        Err(ScanError::TooSmall)
    } else if is_elf_magic(d) {
        Ok(BinaryFormat::Elf)
    } else if is_macho_magic(d) {
        Ok(BinaryFormat::MachO)
    } else {
        Err(ScanError::UnknownFormat)
    }
}

/// Classifies a buffer by its leading magic bytes.
pub fn detect_binary_type(data: &[u8]) -> (r: Result<BinaryFormat, ScanError>)
    ensures
        r == detect_spec(data@),
{
    if data.len() < 4 {
        return Err(ScanError::TooSmall);
    }
    let (a, b, c, d) = (data[0], data[1], data[2], data[3]);
    if a == 0x7f && b == 0x45 && c == 0x4c && d == 0x46 {
        return Ok(BinaryFormat::Elf);
    }
    let thin_be = a == 0xfe && b == 0xed && c == 0xfa && (d == 0xce || d == 0xcf);
    let thin_le = (a == 0xce || a == 0xcf) && b == 0xfa && c == 0xed && d == 0xfe;
    let fat_be = a == 0xca && b == 0xfe && c == 0xba && d == 0xbe;
    let fat_le = a == 0xbe && b == 0xba && c == 0xfe && d == 0xca;
    if thin_be || thin_le || fat_be || fat_le {
        Ok(BinaryFormat::MachO)
    } else {
        Err(ScanError::UnknownFormat)
    }
}

/// Every buffer shorter than four bytes is declined as too small.
pub proof fn lemma_short_buffer_too_small(d: Seq<u8>)
    requires
        d.len() < 4,
    ensures
        detect_spec(d) == Err::<BinaryFormat, ScanError>(ScanError::TooSmall),
{
}

/// Every buffer that starts with the ELF magic is classified as ELF, whatever
/// follows it.
pub proof fn lemma_elf_magic_is_elf(d: Seq<u8>, rest: Seq<u8>)
    requires
        is_elf_magic(d),
    ensures
        detect_spec(d) == Ok::<BinaryFormat, ScanError>(BinaryFormat::Elf),
        detect_spec(d + rest) == Ok::<BinaryFormat, ScanError>(BinaryFormat::Elf),
{
    assert((d + rest)[0] == d[0] && (d + rest)[1] == d[1]);
    assert((d + rest)[2] == d[2] && (d + rest)[3] == d[3]);
}

} // verus!
