use vstd::prelude::*;
use crate::binary::BinaryInfo;
use crate::format::ScanError;
use crate::note::{build_id_note, parse_build_id_note};
use crate::macho::symbol_views;
use crate::paths::opt_view;
use crate::symbol_finder::{first_found, first_of3, local_debug_choice, SymbolFinder};
use crate::text::{
    address_string, address_text, contains, ends_with, has_infix, has_prefix, has_suffix, hex_of,
    lex_le, nul_terminated, nul_terminated_spec, same_text, sort_texts, starts_with, text_views,
    unknown_string, unknown_text,
};

verus! {

pub const EM_386: u16 = 3;
pub const EM_MIPS: u16 = 8;
pub const EM_PPC: u16 = 20;
pub const EM_PPC64: u16 = 21;
pub const EM_S390: u16 = 22;
pub const EM_ARM: u16 = 40;
pub const EM_X86_64: u16 = 62;
pub const EM_AARCH64: u16 = 183;
pub const EM_RISCV: u16 = 243;

pub const ET_EXEC: u16 = 2;
pub const ET_DYN: u16 = 3;

pub const PT_INTERP: u32 = 3;
pub const PT_NOTE: u32 = 4;
pub const PT_GNU_STACK: u32 = 0x6474e551;
pub const PT_GNU_RELRO: u32 = 0x6474e552;

/// One entry of the section table, with its name resolved where the
/// section-name string table holds one.
#[derive(Debug, Clone)]
pub struct SectionHeader {
    pub name: Option<String>,
    pub offset: u64,
    pub size: u64,
}

/// One entry of the program-header table.
#[derive(Debug, Clone, Copy)]
pub struct ProgramHeader {
    pub kind: u32,
    pub flags: u32,
    pub offset: u64,
    pub file_size: u64,
}

/// What the analysis reads from an ELF file's headers and tables.
#[derive(Debug, Clone)]
pub struct ElfHeaders {
    pub is_64: bool,
    pub machine: u16,
    pub file_type: u16,
    pub entry: u64,
    pub sections: Vec<SectionHeader>,
    pub segments: Vec<ProgramHeader>,
    /// Names of the dynamic symbols, where the dynamic string table holds one.
    pub dynamic_symbols: Vec<Option<String>>,
}

#[verifier::external_type_specification]
#[verifier::external_body]
pub struct ExGoblinError(goblin::error::Error);

/// A section header as text and numbers: name, offset and size.
pub type SectionView = (Option<Seq<char>>, u64, u64);

pub open spec fn section_views(v: Seq<SectionHeader>) -> Seq<SectionView> {
    v.map_values(|s: SectionHeader| (opt_view(s.name), s.offset, s.size))
}

/// What goblin::elf::Elf::parse reads from a buffer: the 64-bit flag,
/// machine, file type, entry point, section headers with their names,
/// program headers and dynamic symbol names; `None` where it refuses the
/// buffer.
pub uninterp spec fn elf_headers_of(d: Seq<u8>) -> Option<
    (bool, u16, u16, u64, Seq<SectionView>, Seq<ProgramHeader>, Seq<Option<Seq<char>>>),
>;

/// Whether goblin accepts the buffer as ELF.
pub open spec fn elf_parses(d: Seq<u8>) -> bool {
    elf_headers_of(d) is Some
}

/// Whether headers `h` are those that goblin reads from the bytes `d`.
pub open spec fn elf_headers_match(h: ElfHeaders, d: Seq<u8>) -> bool {
    elf_headers_of(d) == Some(
        (
            h.is_64,
            h.machine,
            h.file_type,
            h.entry,
            section_views(h.sections@),
            h.segments@,
            symbol_views(h.dynamic_symbols@),
        ),
    )
}

/// Relies on goblin::elf::Elf::parse for the `is_64`, `header.e_machine`,
/// `header.e_type` and `entry` fields.
#[verifier::external_body]
fn elf_header_fields(data: &[u8]) -> (r: Option<(bool, u16, u16, u64)>)
    ensures
        match r {
            Some(t) => elf_headers_of(data@) matches Some(u) && u.0 == t.0 && u.1 == t.1 && u.2
                == t.2 && u.3 == t.3,
            None => elf_headers_of(data@) is None,
        },
{
    goblin::elf::Elf::parse(data).ok().map(|e| (e.is_64, e.header.e_machine, e.header.e_type, e.entry))
}

/// Relies on goblin::elf::Elf::parse, its `section_headers` and
/// `shdr_strtab.get_at` for each section's name, offset and size.
#[verifier::external_body]
fn elf_sections(data: &[u8]) -> (r: Option<Vec<SectionHeader>>)
    ensures
        match r {
            Some(v) => elf_headers_of(data@) matches Some(u) && u.4 == section_views(v@),
            None => elf_headers_of(data@) is None,
        },
{
    goblin::elf::Elf::parse(data).ok().map(|elf| elf.section_headers.iter().map(|sh| SectionHeader {
        name: elf.shdr_strtab.get_at(sh.sh_name).map(|n| n.to_string()),
        offset: sh.sh_offset,
        size: sh.sh_size,
    }).collect())
}

/// Relies on goblin::elf::Elf::parse and its `program_headers` for each
/// segment's type, flags, file offset and file size.
#[verifier::external_body]
fn elf_segments(data: &[u8]) -> (r: Option<Vec<ProgramHeader>>)
    ensures
        match r {
            Some(v) => elf_headers_of(data@) matches Some(u) && u.5 == v@,
            None => elf_headers_of(data@) is None,
        },
{
    goblin::elf::Elf::parse(data).ok().map(|elf| elf.program_headers.iter().map(|ph| ProgramHeader {
        kind: ph.p_type,
        flags: ph.p_flags,
        offset: ph.p_offset,
        file_size: ph.p_filesz,
    }).collect())
}

/// Relies on goblin::elf::Elf::parse, its `dynsyms` and `dynstrtab.get_at`
/// for the names of the dynamic symbols.
#[verifier::external_body]
fn elf_dynamic_symbol_names(data: &[u8]) -> (r: Option<Vec<Option<String>>>)
    ensures
        match r {
            Some(v) => elf_headers_of(data@) matches Some(u) && u.6 == symbol_views(v@),
            None => elf_headers_of(data@) is None,
        },
{
    goblin::elf::Elf::parse(data).ok().map(|elf| {
        elf.dynsyms.iter().map(|s| elf.dynstrtab.get_at(s.st_name).map(|n| n.to_string())).collect()
    })
}

/// The architecture name for an ELF machine code.
pub open spec fn elf_arch_name(m: u16) -> Seq<char> {
    if m == EM_X86_64 {
        "x86_64"@
    } else if m == EM_386 {
        "i386"@
    } else if m == EM_ARM {
        "ARM"@
    } else if m == EM_AARCH64 {
        "AArch64"@
    } else if m == EM_RISCV {
        "RISC-V"@
    } else if m == EM_PPC {
        "PowerPC"@
    } else if m == EM_PPC64 {
        "PowerPC64"@
    } else if m == EM_MIPS {
        "MIPS"@
    } else if m == EM_S390 {
        "S390"@
    } else {
        unknown_text(m as nat)
    }
}

pub open spec fn named(n: Option<String>, s: Seq<char>) -> bool {
    n matches Some(x) && x@ == s
}

/// The bytes of a file region, where it lies within the buffer.
pub open spec fn region(d: Seq<u8>, off: u64, size: u64) -> Option<Seq<u8>> {
    if off as int + size as int <= d.len() {
        Some(d.subrange(off as int, off as int + size as int))
    } else {
        None
    }
}

/// The first `Some` among `f(i)`, `f(i + 1)`, ..., `f(n - 1)`.
pub open spec fn first_some<T>(f: spec_fn(int) -> Option<T>, n: int, i: int) -> Option<T>
    decreases n - i,
{
    if i < 0 || i >= n {
        None
    } else {
        match f(i) {
            Some(x) => Some(x),
            None => first_some(f, n, i + 1),
        }
    }
}

pub open spec fn note_in(r: Option<Seq<u8>>) -> Option<Seq<u8>> {
    match r {
        Some(b) => build_id_note(b),
        None => None,
    }
}

pub open spec fn section_build_ids(secs: Seq<SectionHeader>, d: Seq<u8>) -> spec_fn(int) -> Option<Seq<u8>> {
    |i: int|
        if named(secs[i].name, ".note.gnu.build-id"@) {
            note_in(region(d, secs[i].offset, secs[i].size))
        } else {
            None
        }
}

pub open spec fn segment_build_ids(segs: Seq<ProgramHeader>, d: Seq<u8>) -> spec_fn(int) -> Option<Seq<u8>> {
    |i: int|
        if segs[i].kind == PT_NOTE {
            note_in(region(d, segs[i].offset, segs[i].file_size))
        } else {
            None
        }
}

/// The description bytes of the build-id note: first from the sections named
/// `.note.gnu.build-id`, then from the PT_NOTE segments.
pub open spec fn build_id_bytes(h: ElfHeaders, d: Seq<u8>) -> Option<Seq<u8>> {
    match first_some(section_build_ids(h.sections@, d), h.sections@.len() as int, 0) {
        Some(b) => Some(b),
        None => first_some(segment_build_ids(h.segments@, d), h.segments@.len() as int, 0),
    }
}

pub open spec fn build_id_spec(h: ElfHeaders, d: Seq<u8>) -> Option<Seq<char>> {
    match build_id_bytes(h, d) {
        Some(b) => Some(hex_of(b)),
        None => None,
    }
}

pub open spec fn text_in(r: Option<Seq<u8>>) -> Option<Seq<char>> {
    match r {
        Some(b) => nul_terminated_spec(b),
        None => None,
    }
}

pub open spec fn debuglinks(secs: Seq<SectionHeader>, d: Seq<u8>) -> spec_fn(int) -> Option<Seq<char>> {
    |i: int|
        if named(secs[i].name, ".gnu_debuglink"@) {
            text_in(region(d, secs[i].offset, secs[i].size))
        } else {
            None
        }
}

/// The first readable `.gnu_debuglink` name.
pub open spec fn debuglink_spec(h: ElfHeaders, d: Seq<u8>) -> Option<Seq<char>> {
    first_some(debuglinks(h.sections@, d), h.sections@.len() as int, 0)
}

pub open spec fn interpreters(segs: Seq<ProgramHeader>, d: Seq<u8>) -> spec_fn(int) -> Option<Seq<char>> {
    |i: int|
        if segs[i].kind == PT_INTERP {
            text_in(region(d, segs[i].offset, segs[i].file_size))
        } else {
            None
        }
}

/// The first readable PT_INTERP path.
pub open spec fn interpreter_spec(h: ElfHeaders, d: Seq<u8>) -> Option<Seq<char>> {
    first_some(interpreters(h.segments@, d), h.segments@.len() as int, 0)
}

pub open spec fn has_segment(h: ElfHeaders, kind: u32) -> bool {
    exists|i: int| 0 <= i < h.segments@.len() && h.segments@[i].kind == kind
}

pub open spec fn has_section(h: ElfHeaders, name: Seq<char>) -> bool {
    exists|i: int| 0 <= i < h.sections@.len() && named(h.sections@[i].name, name)
}

/// Whether a section name marks debug information.
pub open spec fn is_debug_name(n: Seq<char>) -> bool {
    has_prefix(n, ".debug_"@) || n == ".zdebug_info"@
}

/// The debug section names among the first `n` sections, in table order.
pub open spec fn debug_names(secs: Seq<SectionHeader>, n: int) -> Seq<Seq<char>>
    decreases n,
{
    if n <= 0 {
        Seq::empty()
    } else {
        let rest = debug_names(secs, n - 1);
        match secs[n - 1].name {
            Some(x) => if is_debug_name(x@) { rest.push(x@) } else { rest },
            None => rest,
        }
    }
}

/// Non-executable stack: decided by the last PT_GNU_STACK segment among the
/// first `n`, whose execute flag (bit 0) must be clear; false without one.
pub open spec fn nx_spec(segs: Seq<ProgramHeader>, n: int) -> bool
    decreases n,
{
    if n <= 0 {
        false
    } else if segs[n - 1].kind == PT_GNU_STACK {
        segs[n - 1].flags % 2 == 0
    } else {
        nx_spec(segs, n - 1)
    }
}

pub open spec fn is_canary_name(n: Seq<char>) -> bool {
    has_infix(n, "stack_chk_fail"@) || has_infix(n, "stack_chk_guard"@)
}

pub open spec fn has_dynamic_symbol(h: ElfHeaders, p: spec_fn(Seq<char>) -> bool) -> bool {
    exists|i: int| 0 <= i < h.dynamic_symbols@.len() && (#[trigger] h.dynamic_symbols@[i] matches Some(n) && p(n@))
}

fn region_of<'a>(data: &'a [u8], off: u64, size: u64) -> (r: Option<&'a [u8]>)
    ensures
        match region(data@, off, size) {
            Some(b) => r matches Some(s) && s@ == b,
            None => r is None,
        },
{
    let len = data.len() as u64;
    if off <= len && size <= len - off {
        Some(&data[off as usize..(off + size) as usize])
    } else {
        None
    }
}

fn opt_same_text(n: &Option<String>, s: &str) -> (r: bool)
    ensures
        r == named(*n, s@),
{
    match n {
        Some(x) => same_text(x, s),
        None => false,
    }
}

/// The record of an ELF file at `path` whose bytes are `d` and whose headers
/// read as `h`.
pub open spec fn elf_record(
    path: Seq<char>,
    d: Seq<u8>,
    file_size: u64,
    file_modified: i64,
    h: ElfHeaders,
    r: BinaryInfo,
) -> bool {
    &&& r.file_path@ == path
    &&& r.file_size == file_size
    &&& r.file_modified == file_modified
    &&& r.binary_type@ == "ELF"@
    &&& r.architecture@ == elf_arch_name(h.machine)
    &&& r.is_64bit == h.is_64
    &&& r.is_stripped == !has_section(h, ".symtab"@)
    &&& text_views(r.debug_sections@).to_multiset() == debug_names(h.sections@, h.sections@.len() as int).to_multiset()
    &&& forall|i: int, j: int|
        0 <= i < j < r.debug_sections@.len() ==> lex_le(#[trigger] r.debug_sections@[i]@, #[trigger] r.debug_sections@[j]@)
    &&& r.has_debug_info == (r.debug_sections@.len() > 0)
    &&& opt_view(r.build_id) == build_id_spec(h, d)
    &&& opt_view(r.gnu_debuglink) == debuglink_spec(h, d)
    &&& r.uuid is None
    &&& r.dsym_bundle is None
    &&& local_debug_choice(path, build_id_spec(h, d), debuglink_spec(h, d), opt_view(r.debug_file_path))
    &&& r.debuginfod_available is None
    &&& r.debuginfod_url is None
    &&& opt_view(r.entry_point) == (if h.entry > 0 { Some(address_text(h.entry as nat)) } else { None })
    &&& opt_view(r.interpreter) == interpreter_spec(h, d)
    &&& r.is_pie == (h.file_type == ET_DYN && has_segment(h, PT_INTERP))
    &&& r.is_executable == (h.file_type == ET_EXEC || h.file_type == ET_DYN)
    &&& r.is_library == (h.file_type == ET_DYN)
    &&& r.has_nx == nx_spec(h.segments@, h.segments@.len() as int)
    &&& r.has_relro == has_segment(h, PT_GNU_RELRO)
    &&& r.has_canary == has_dynamic_symbol(h, |n: Seq<char>| is_canary_name(n))
    &&& r.has_fortify == has_dynamic_symbol(h, |n: Seq<char>| has_suffix(n, "_chk"@))
}

/// Analysis of one ELF file.
pub struct ElfAnalyzer<'a> {
    pub path: String,
    pub data: &'a [u8],
    pub headers: ElfHeaders,
    pub file_size: u64,
    pub file_modified: i64,
}

impl<'a> ElfAnalyzer<'a> {
    /// Parses the headers of `data`; a parse failure is `Malformed`.
    pub fn new(path: &str, data: &'a [u8], file_size: u64, file_modified: i64) -> (r: Result<
        ElfAnalyzer<'a>,
        ScanError,
    >)
        ensures
            r matches Ok(a) ==> a.path@ == path@ && a.data@ == data@ && a.file_size == file_size
                && a.file_modified == file_modified,
            r matches Err(e) ==> e == ScanError::Malformed,
            r is Ok <==> elf_parses(data@),
            r matches Ok(a) ==> elf_headers_match(a.headers, data@),
    {
        let fields = elf_header_fields(data);
        let sections = elf_sections(data);
        let segments = elf_segments(data);
        let dynamic_symbols = elf_dynamic_symbol_names(data);
        match (fields, sections, segments, dynamic_symbols) {
            (Some((is_64, machine, file_type, entry)), Some(sections), Some(segments), Some(dynamic_symbols)) => {
                let headers = ElfHeaders { is_64, machine, file_type, entry, sections, segments, dynamic_symbols };
                Ok(ElfAnalyzer { path: String::from_str(path), data, headers, file_size, file_modified })
            },
            _ => Err(ScanError::Malformed),
        }
    }

    pub fn get_architecture(&self) -> (r: String)
        ensures
            r@ == elf_arch_name(self.headers.machine),
    {
        let m = self.headers.machine;
        if m == EM_X86_64 {
            String::from_str("x86_64")
        } else if m == EM_386 {
            String::from_str("i386")
        } else if m == EM_ARM {
            String::from_str("ARM")
        } else if m == EM_AARCH64 {
            String::from_str("AArch64")
        } else if m == EM_RISCV {
            String::from_str("RISC-V")
        } else if m == EM_PPC {
            String::from_str("PowerPC")
        } else if m == EM_PPC64 {
            String::from_str("PowerPC64")
        } else if m == EM_MIPS {
            String::from_str("MIPS")
        } else if m == EM_S390 {
            String::from_str("S390")
        } else {
            unknown_string(m as u64)
        }
    }

    /// Stripped: no section is named `.symtab`.
    pub fn is_stripped(&self) -> (r: bool)
        ensures
            r == !has_section(self.headers, ".symtab"@),
    {
        let secs = &self.headers.sections;
        let mut i: usize = 0;
        while i < secs.len()
            invariant
                secs@ == self.headers.sections@,
                i <= secs@.len(),
                forall|j: int| 0 <= j < i ==> !named(#[trigger] secs@[j].name, ".symtab"@),
            decreases secs.len() - i,
        {
            if opt_same_text(&secs[i].name, ".symtab") {
                return false;
            }
            i = i + 1;
        }
        true
    }

    /// The names of the debug sections, sorted.
    pub fn find_debug_sections(&self) -> (r: Vec<String>)
        ensures
            text_views(r@).to_multiset() == debug_names(
                self.headers.sections@,
                self.headers.sections@.len() as int,
            ).to_multiset(),
            forall|i: int, j: int| 0 <= i < j < r@.len() ==> lex_le(#[trigger] r@[i]@, #[trigger] r@[j]@),
    {
        let secs = &self.headers.sections;
        let mut names: Vec<String> = Vec::new();
        let mut i: usize = 0;
        while i < secs.len()
            invariant
                secs@ == self.headers.sections@,
                i <= secs@.len(),
                text_views(names@) == debug_names(secs@, i as int),
            decreases secs.len() - i,
        {
            match &secs[i].name {
                Some(n) => {
                    let d = starts_with(n.as_str(), ".debug_") || same_text(n, ".zdebug_info");
                    if d {
                        names.push(n.clone());
                        assert(text_views(names@) =~= debug_names(secs@, i + 1));
                    } else {
                        assert(text_views(names@) =~= debug_names(secs@, i + 1));
                    }
                },
                None => {
                    assert(text_views(names@) =~= debug_names(secs@, i + 1));
                },
            }
            i = i + 1;
        }
        sort_texts(&mut names);
        names
    }

    fn build_id_from_sections(&self) -> (r: Option<String>)
        ensures
            match first_some(section_build_ids(self.headers.sections@, self.data@), self.headers.sections@.len() as int, 0) {
                Some(b) => r matches Some(s) && s@ == hex_of(b),
                None => r is None,
            },
    {
        let secs = &self.headers.sections;
        let ghost f = section_build_ids(secs@, self.data@);
        let mut i: usize = 0;
        while i < secs.len()
            invariant
                secs@ == self.headers.sections@,
                i <= secs@.len(),
                f == section_build_ids(secs@, self.data@),
                first_some(f, secs@.len() as int, i as int) == first_some(f, secs@.len() as int, 0),
            decreases secs.len() - i,
        {
            let s = &secs[i];
            if opt_same_text(&s.name, ".note.gnu.build-id") {
                match region_of(self.data, s.offset, s.size) {
                    Some(b) => {
                        match parse_build_id_note(b) {
                            Some(h) => {
                                assert(f(i as int) == build_id_note(b@));
                                return Some(h);
                            },
                            None => {},
                        }
                    },
                    None => {},
                }
            }
            i = i + 1;
        }
        None
    }

    fn build_id_from_segments(&self) -> (r: Option<String>)
        ensures
            match first_some(segment_build_ids(self.headers.segments@, self.data@), self.headers.segments@.len() as int, 0) {
                Some(b) => r matches Some(s) && s@ == hex_of(b),
                None => r is None,
            },
    {
        let segs = &self.headers.segments;
        let ghost f = segment_build_ids(segs@, self.data@);
        let mut i: usize = 0;
        while i < segs.len()
            invariant
                segs@ == self.headers.segments@,
                i <= segs@.len(),
                f == segment_build_ids(segs@, self.data@),
                first_some(f, segs@.len() as int, i as int) == first_some(f, segs@.len() as int, 0),
            decreases segs.len() - i,
        {
            let p = segs[i];
            if p.kind == PT_NOTE {
                match region_of(self.data, p.offset, p.file_size) {
                    Some(b) => {
                        match parse_build_id_note(b) {
                            Some(h) => {
                                assert(f(i as int) == build_id_note(b@));
                                return Some(h);
                            },
                            None => {},
                        }
                    },
                    None => {},
                }
            }
            i = i + 1;
        }
        None
    }

    /// The build identifier in hexadecimal: the `.note.gnu.build-id`
    /// sections are searched before the PT_NOTE segments.
    pub fn extract_build_id(&self) -> (r: Option<String>)
        ensures
            opt_view(r) == build_id_spec(self.headers, self.data@),
    {
        match self.build_id_from_sections() {
            Some(s) => Some(s),
            None => self.build_id_from_segments(),
        }
    }

    /// The file name held by the first readable `.gnu_debuglink` section.
    pub fn extract_gnu_debuglink(&self) -> (r: Option<String>)
        ensures
            opt_view(r) == debuglink_spec(self.headers, self.data@),
    {
        let secs = &self.headers.sections;
        let ghost f = debuglinks(secs@, self.data@);
        let mut i: usize = 0;
        while i < secs.len()
            invariant
                secs@ == self.headers.sections@,
                i <= secs@.len(),
                f == debuglinks(secs@, self.data@),
                first_some(f, secs@.len() as int, i as int) == first_some(f, secs@.len() as int, 0),
            decreases secs.len() - i,
        {
            let s = &secs[i];
            if opt_same_text(&s.name, ".gnu_debuglink") {
                match region_of(self.data, s.offset, s.size) {
                    Some(b) => {
                        match nul_terminated(b) {
                            Some(t) => {
                                assert(f(i as int) == nul_terminated_spec(b@));
                                return Some(t);
                            },
                            None => {},
                        }
                    },
                    None => {},
                }
            }
            i = i + 1;
        }
        None
    }

    fn has_segment_kind(&self, kind: u32) -> (r: bool)
        ensures
            r == has_segment(self.headers, kind),
    {
        let segs = &self.headers.segments;
        let mut i: usize = 0;
        while i < segs.len()
            invariant
                segs@ == self.headers.segments@,
                i <= segs@.len(),
                forall|j: int| 0 <= j < i ==> (#[trigger] segs@[j]).kind != kind,
            decreases segs.len() - i,
        {
            if segs[i].kind == kind {
                assert(segs@[i as int].kind == kind);
                return true;
            }
            i = i + 1;
        }
        false
    }

    /// `(is_pie, is_executable, is_library)`: executables are EXEC or DYN,
    /// libraries DYN, and position-independent executables DYN with an
    /// interpreter.
    pub fn get_binary_type(&self) -> (r: (bool, bool, bool))
        ensures
            r.0 == (self.headers.file_type == ET_DYN && has_segment(self.headers, PT_INTERP)),
            r.1 == (self.headers.file_type == ET_EXEC || self.headers.file_type == ET_DYN),
            r.2 == (self.headers.file_type == ET_DYN),
    {
        let t = self.headers.file_type;
        let has_interp = self.has_segment_kind(PT_INTERP);
        (t == ET_DYN && has_interp, t == ET_EXEC || t == ET_DYN, t == ET_DYN)
    }

    /// The program interpreter named by the first readable PT_INTERP segment.
    pub fn get_interpreter(&self) -> (r: Option<String>)
        ensures
            opt_view(r) == interpreter_spec(self.headers, self.data@),
    {
        let segs = &self.headers.segments;
        let ghost f = interpreters(segs@, self.data@);
        let mut i: usize = 0;
        while i < segs.len()
            invariant
                segs@ == self.headers.segments@,
                i <= segs@.len(),
                f == interpreters(segs@, self.data@),
                first_some(f, segs@.len() as int, i as int) == first_some(f, segs@.len() as int, 0),
            decreases segs.len() - i,
        {
            let p = segs[i];
            if p.kind == PT_INTERP {
                match region_of(self.data, p.offset, p.file_size) {
                    Some(b) => {
                        match nul_terminated(b) {
                            Some(t) => {
                                assert(f(i as int) == nul_terminated_spec(b@));
                                return Some(t);
                            },
                            None => {},
                        }
                    },
                    None => {},
                }
            }
            i = i + 1;
        }
        None
    }

    /// `(has_nx, has_relro)`.
    pub fn check_security_features(&self) -> (r: (bool, bool))
        ensures
            r.0 == nx_spec(self.headers.segments@, self.headers.segments@.len() as int),
            r.1 == has_segment(self.headers, PT_GNU_RELRO),
    {
        let segs = &self.headers.segments;
        let mut has_nx = false;
        let mut i: usize = 0;
        while i < segs.len()
            invariant
                segs@ == self.headers.segments@,
                i <= segs@.len(),
                has_nx == nx_spec(segs@, i as int),
            decreases segs.len() - i,
        {
            if segs[i].kind == PT_GNU_STACK {
                has_nx = segs[i].flags % 2 == 0;
            }
            i = i + 1;
        }
        (has_nx, self.has_segment_kind(PT_GNU_RELRO))
    }

    /// Some dynamic symbol names `stack_chk_fail` or `stack_chk_guard`.
    pub fn check_stack_canary(&self) -> (r: bool)
        ensures
            r == has_dynamic_symbol(self.headers, |n: Seq<char>| is_canary_name(n)),
    {
        let syms = &self.headers.dynamic_symbols;
        let mut i: usize = 0;
        while i < syms.len()
            invariant
                syms@ == self.headers.dynamic_symbols@,
                i <= syms@.len(),
                forall|j: int| 0 <= j < i ==> !(#[trigger] syms@[j] matches Some(n) && is_canary_name(n@)),
            decreases syms.len() - i,
        {
            match &syms[i] {
                Some(n) => {
                    if contains(n.as_str(), "stack_chk_fail") || contains(n.as_str(), "stack_chk_guard") {
                        assert(syms@[i as int] matches Some(m) && is_canary_name(m@));
                        return true;
                    }
                },
                None => {},
            }
            i = i + 1;
        }
        false
    }

    /// Some dynamic symbol name ends in `_chk`, the mark of a fortified call.
    pub fn check_fortify(&self) -> (r: bool)
        ensures
            r == has_dynamic_symbol(self.headers, |n: Seq<char>| has_suffix(n, "_chk"@)),
    {
        let syms = &self.headers.dynamic_symbols;
        let mut i: usize = 0;
        while i < syms.len()
            invariant
                syms@ == self.headers.dynamic_symbols@,
                i <= syms@.len(),
                forall|j: int| 0 <= j < i ==> !(#[trigger] syms@[j] matches Some(n) && has_suffix(n@, "_chk"@)),
            decreases syms.len() - i,
        {
            match &syms[i] {
                Some(n) => {
                    if ends_with(n.as_str(), "_chk") {
                        assert(syms@[i as int] matches Some(m) && has_suffix(m@, "_chk"@));
                        return true;
                    }
                },
                None => {},
            }
            i = i + 1;
        }
        false
    }

    /// Tries the build identifier, then the debug link, then a `.debug` file
    /// beside the binary; the first that finds a file wins.
    pub fn find_local_debug_file(&self, build_id: &Option<String>, gnu_debuglink: &Option<String>) -> (r: Option<String>)
        ensures
            local_debug_choice(self.path@, opt_view(*build_id), opt_view(*gnu_debuglink), opt_view(r)),
    {
        let finder = SymbolFinder::new(self.path.as_str());
        let by_id = match build_id {
            Some(bid) => finder.find_by_build_id(bid.as_str()),
            None => None,
        };
        let by_link = match gnu_debuglink {
            Some(link) => finder.find_by_debuglink(link.as_str()),
            None => None,
        };
        let adjacent = finder.find_adjacent_debug();
        let r = first_found(by_id, by_link, adjacent);
        proof {
            let x = opt_view(by_id);
            let y = opt_view(by_link);
            let z = opt_view(adjacent);
            assert(first_of3(x, y, z) == opt_view(r));
        }
        r
    }

    /// Assembles the record for this file. Remote availability is left
    /// unset; it is recorded separately when it was asked for.
    pub fn analyze(&self) -> (r: BinaryInfo)
        ensures
            elf_record(self.path@, self.data@, self.file_size, self.file_modified, self.headers, r),
    {
        let debug_sections = self.find_debug_sections();
        let has_debug_info = debug_sections.len() > 0;
        let build_id = self.extract_build_id();
        let gnu_debuglink = self.extract_gnu_debuglink();
        let (is_pie, is_executable, is_library) = self.get_binary_type();
        let entry_point = if self.headers.entry > 0 {
            Some(address_string(self.headers.entry))
        } else {
            None
        };
        let (has_nx, has_relro) = self.check_security_features();
        let debug_file_path = self.find_local_debug_file(&build_id, &gnu_debuglink);
        BinaryInfo {
            file_path: self.path.clone(),
            file_size: self.file_size,
            file_modified: self.file_modified,
            binary_type: String::from_str("ELF"),
            architecture: self.get_architecture(),
            is_64bit: self.headers.is_64,
            is_stripped: self.is_stripped(),
            has_debug_info,
            build_id,
            gnu_debuglink,
            debug_sections,
            uuid: None,
            dsym_bundle: None,
            debug_file_path,
            debuginfod_available: None,
            debuginfod_url: None,
            entry_point,
            interpreter: self.get_interpreter(),
            is_pie,
            is_executable,
            is_library,
            has_nx,
            has_canary: self.check_stack_canary(),
            has_relro,
            has_fortify: self.check_fortify(),
        }
    }
}

} // verus!
