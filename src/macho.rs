use vstd::prelude::*;
use crate::binary::BinaryInfo;
use goblin::mach::load_command::CommandVariant as C;
use crate::elf::{first_some, named};
use crate::format::ScanError;
use crate::paths::opt_view;
use crate::text::{
    address_string, address_text, contains, eq_ignore_case, format_uuid, has_infix, has_prefix, same_text,
    starts_with, unknown_string, unknown_text, uuid_text,
};

verus! {

pub const CPU_TYPE_X86: u32 = 7;
pub const CPU_TYPE_X86_64: u32 = 0x0100_0007;
pub const CPU_TYPE_ARM: u32 = 12;
pub const CPU_TYPE_ARM64: u32 = 0x0100_000c;
pub const CPU_TYPE_ARM64_32: u32 = 0x0200_000c;
pub const CPU_TYPE_POWERPC: u32 = 18;
pub const CPU_TYPE_POWERPC64: u32 = 0x0100_0012;

pub const MH_EXECUTE: u32 = 2;
pub const MH_DYLIB: u32 = 6;
pub const MH_PIE: u32 = 0x0020_0000;
pub const MH_NO_HEAP_EXECUTION: u32 = 0x0100_0000;

/// The load commands that the analysis reads; every other kind is `Other`.
#[derive(Debug, Clone, Copy)]
pub enum LoadCommandInfo {
    Uuid([u8; 16]),
    /// A symbol table, with its symbol count.
    Symtab(u32),
    /// The entry point's file offset.
    Main(u64),
    /// A legacy thread-state command, with its flavor field.
    Thread(u32),
    Other,
}

/// A section's name, where it could be read.
#[derive(Debug, Clone)]
pub struct MachSection {
    pub name: Option<String>,
}

/// A segment's name and, where they could be read, its sections.
#[derive(Debug, Clone)]
pub struct MachSegment {
    pub name: Option<String>,
    pub sections: Option<Vec<MachSection>>,
}

/// What the analysis reads from one single-architecture Mach-O image.
#[derive(Debug, Clone)]
pub struct MachHeaders {
    pub is_64: bool,
    pub cputype: u32,
    pub filetype: u32,
    pub flags: u32,
    pub load_commands: Vec<LoadCommandInfo>,
    pub segments: Vec<MachSegment>,
    /// Names of the symbol-table entries, where each could be read.
    pub symbols: Vec<Option<String>>,
}

/// What the container's first bytes say: a single image, or a fat container
/// with the byte range of its first slice, if it lists any.
#[derive(Debug, Clone, Copy)]
pub enum MachContainer {
    Single,
    Fat(Option<(u32, u32)>),
}

/// What goblin::mach::Mach::parse, with the first entry of a fat container's
/// architecture list, makes of a buffer; `None` where either fails.
pub uninterp spec fn mach_container_of(d: Seq<u8>) -> Option<MachContainer>;

/// A segment as text: its name and its sections' names, where readable.
pub type SegmentView = (Option<Seq<char>>, Option<Seq<Option<Seq<char>>>>);

pub open spec fn segment_view(g: MachSegment) -> SegmentView {
    (
        opt_view(g.name),
        match g.sections {
            Some(v) => Some(v@.map_values(|s: MachSection| opt_view(s.name))),
            None => None,
        },
    )
}

pub open spec fn segment_views(v: Seq<MachSegment>) -> Seq<SegmentView> {
    v.map_values(|g: MachSegment| segment_view(g))
}

pub open spec fn symbol_views(v: Seq<Option<String>>) -> Seq<Option<Seq<char>>> {
    v.map_values(|n: Option<String>| opt_view(n))
}

/// What goblin::mach::MachO::parse at offset zero reads from an image: the
/// 64-bit flag, CPU type, file type, header flags, load commands, segments
/// and symbol names; `None` where it refuses the image.
pub uninterp spec fn macho_image_of(d: Seq<u8>) -> Option<
    (bool, u32, u32, u32, Seq<LoadCommandInfo>, Seq<SegmentView>, Seq<Option<Seq<char>>>),
>;

/// Relies on goblin::mach::Mach::parse, and for a fat container on the
/// first entry of `MultiArch::iter_arches`.
#[verifier::external_body]
fn parse_container(data: &[u8]) -> (r: Result<MachContainer, goblin::error::Error>)
    ensures
        match r {
            Ok(c) => mach_container_of(data@) == Some(c),
            Err(_) => mach_container_of(data@) is None,
        },
{
    match goblin::mach::Mach::parse(data)? {
        goblin::mach::Mach::Binary(_) => Ok(MachContainer::Single),
        goblin::mach::Mach::Fat(fat) => match fat.iter_arches().next() {
            None => Ok(MachContainer::Fat(None)),
            Some(arch) => arch.map(|a| MachContainer::Fat(Some((a.offset, a.size)))),
        },
    }
}

/// Relies on goblin::mach::MachO::parse at offset zero for the header's
/// `is_64`, `cputype()`, `filetype` and `flags`, and for `load_commands`,
/// telling apart the command variants that the analysis reads.
#[verifier::external_body]
pub(crate) fn macho_image(data: &[u8]) -> (r: Option<(bool, u32, u32, u32, Vec<LoadCommandInfo>)>)
    ensures
        match r {
            Some(t) => macho_image_of(data@) matches Some(u) && u.0 == t.0 && u.1 == t.1 && u.2
                == t.2 && u.3 == t.3 && u.4 == t.4@,
            None => macho_image_of(data@) is None,
        },
{
    goblin::mach::MachO::parse(data, 0).ok().map(|m| {
        let cmds = m.load_commands.iter().map(|lc| match lc.command {
            C::Uuid(c) => LoadCommandInfo::Uuid(c.uuid),
            C::Symtab(c) => LoadCommandInfo::Symtab(c.nsyms),
            C::Main(c) => LoadCommandInfo::Main(c.entryoff),
            C::Unixthread(c) => LoadCommandInfo::Thread(c.flavor),
            _ => LoadCommandInfo::Other,
        }).collect();
        (m.is_64, m.header.cputype(), m.header.filetype, m.header.flags, cmds)
    })
}

/// Relies on goblin::mach::MachO::parse at offset zero for `segments`,
/// `Segment::name`, `Segment::sections` and `Section::name`.
#[verifier::external_body]
fn macho_segments(data: &[u8]) -> (r: Option<Vec<MachSegment>>)
    ensures
        match r {
            Some(v) => macho_image_of(data@) matches Some(u) && u.5 == segment_views(v@),
            None => macho_image_of(data@) is None,
        },
{
    let text = |r: Result<&str, goblin::error::Error>| r.ok().map(|s| s.to_string());
    goblin::mach::MachO::parse(data, 0).ok().map(|m| m.segments.iter().map(|seg| MachSegment {
        name: text(seg.name()),
        sections: seg.sections().ok().map(|v| v.iter().map(|(s, _)| MachSection {
            name: text(s.name()),
        }).collect()),
    }).collect())
}

/// Relies on goblin::mach::MachO::parse at offset zero and `MachO::symbols`
/// for the symbol names.
#[verifier::external_body]
fn macho_symbol_names(data: &[u8]) -> (r: Option<Vec<Option<String>>>)
    ensures
        match r {
            Some(v) => macho_image_of(data@) matches Some(u) && u.6 == symbol_views(v@),
            None => macho_image_of(data@) is None,
        },
{
    goblin::mach::MachO::parse(data, 0).ok().map(|m| {
        m.symbols().map(|s| s.ok().map(|(n, _)| n.to_string())).collect()
    })
}

/// The architecture name for a Mach-O CPU type.
pub open spec fn macho_arch_name(c: u32) -> Seq<char> {
    if c == CPU_TYPE_X86_64 {
        "x86_64"@
    } else if c == CPU_TYPE_X86 {
        "i386"@
    } else if c == CPU_TYPE_ARM {
        "ARM"@
    } else if c == CPU_TYPE_ARM64 {
        "ARM64"@
    } else if c == CPU_TYPE_ARM64_32 {
        "ARM64_32"@
    } else if c == CPU_TYPE_POWERPC {
        "PowerPC"@
    } else if c == CPU_TYPE_POWERPC64 {
        "PowerPC64"@
    } else {
        unknown_text(c as nat)
    }
}

/// The byte range to analyse, or why the container is refused: a fat
/// container must list a first slice, and that slice must lie within the
/// buffer.
pub open spec fn slice_spec(c: MachContainer, len: nat) -> Result<(int, int), ScanError> {
    match c {
        MachContainer::Single => Ok((0, len as int)),
        MachContainer::Fat(None) => Err(ScanError::EmptyFat),
        MachContainer::Fat(Some((off, size))) => if off as int + size as int <= len {
            Ok((off as int, off as int + size as int))
        } else {
            Err(ScanError::InvalidFat)
        },
    }
}

pub open spec fn uuids(cmds: Seq<LoadCommandInfo>) -> spec_fn(int) -> Option<Seq<char>> {
    |i: int|
        match cmds[i] {
            LoadCommandInfo::Uuid(b) => Some(uuid_text(b@)),
            _ => None,
        }
}

/// The UUID of the first UUID command, in uppercase hyphenated form.
pub open spec fn macho_uuid_spec(h: MachHeaders) -> Option<Seq<char>> {
    first_uuid_spec(h.load_commands@)
}

pub open spec fn symtabs(cmds: Seq<LoadCommandInfo>) -> spec_fn(int) -> Option<u32> {
    |i: int|
        match cmds[i] {
            LoadCommandInfo::Symtab(n) => Some(n),
            _ => None,
        }
}

/// Stripped: no symbol-table command, or the first one counts no symbols.
pub open spec fn macho_stripped_spec(h: MachHeaders) -> bool {
    match first_some(symtabs(h.load_commands@), h.load_commands@.len() as int, 0) {
        Some(n) => n == 0,
        None => true,
    }
}

pub open spec fn main_entries(cmds: Seq<LoadCommandInfo>) -> spec_fn(int) -> Option<Seq<char>> {
    |i: int|
        match cmds[i] {
            LoadCommandInfo::Main(off) => Some(address_text(off as nat)),
            _ => None,
        }
}

pub open spec fn thread_entries(cmds: Seq<LoadCommandInfo>) -> spec_fn(int) -> Option<Seq<char>> {
    |i: int|
        match cmds[i] {
            LoadCommandInfo::Thread(flavor) => Some(address_text(flavor as nat)),
            _ => None,
        }
}

/// The entry point: the offset of the first main command wherever one
/// exists, else the flavor field of the first thread command. The latter is
/// not a decoded register: an approximation for legacy binaries.
pub open spec fn macho_entry_spec(h: MachHeaders) -> Option<Seq<char>> {
    match first_some(main_entries(h.load_commands@), h.load_commands@.len() as int, 0) {
        Some(e) => Some(e),
        None => first_some(thread_entries(h.load_commands@), h.load_commands@.len() as int, 0),
    }
}

/// A section marks debug information when its name could be read and is
/// `__DWARF` or begins with `__debug`.
pub open spec fn is_debug_section(s: MachSection) -> bool {
    s.name matches Some(n) && (n@ == "__DWARF"@ || has_prefix(n@, "__debug"@))
}

pub open spec fn sections_have_debug(v: Seq<MachSection>) -> bool {
    exists|k: int| 0 <= k < v.len() && is_debug_section(#[trigger] v[k])
}

pub open spec fn segment_has_debug(g: MachSegment) -> bool {
    named(g.name, "__DWARF"@) || (g.sections matches Some(v) && sections_have_debug(v@))
}

pub open spec fn macho_debug_spec(h: MachHeaders) -> bool {
    exists|i: int| 0 <= i < h.segments@.len() && segment_has_debug(#[trigger] h.segments@[i])
}

pub open spec fn macho_canary_spec(h: MachHeaders) -> bool {
    exists|i: int|
        0 <= i < h.symbols@.len() && (#[trigger] h.symbols@[i] matches Some(n) && has_infix(
            n@,
            "stack_chk"@,
        ))
}

/// The record of a Mach-O file at `path` whose analysed image has headers `h`.
pub open spec fn macho_record(path: Seq<char>, file_size: u64, file_modified: i64, h: MachHeaders, r: BinaryInfo) -> bool {
    &&& r.file_path@ == path
    &&& r.file_size == file_size
    &&& r.file_modified == file_modified
    &&& r.binary_type@ == "Mach-O"@
    &&& r.architecture@ == macho_arch_name(h.cputype)
    &&& r.is_64bit == h.is_64
    &&& r.is_stripped == macho_stripped_spec(h)
    &&& r.has_debug_info == macho_debug_spec(h)
    &&& r.build_id is None
    &&& r.gnu_debuglink is None
    &&& r.debug_sections@.len() == 0
    &&& opt_view(r.uuid) == macho_uuid_spec(h)
    &&& r.dsym_bundle is None
    &&& r.debug_file_path is None
    &&& r.debuginfod_available is None
    &&& r.debuginfod_url is None
    &&& opt_view(r.entry_point) == macho_entry_spec(h)
    &&& r.interpreter is None
    &&& r.is_pie == (h.flags & MH_PIE != 0)
    &&& r.is_executable == (h.filetype == MH_EXECUTE)
    &&& r.is_library == (h.filetype == MH_DYLIB)
    &&& r.has_nx == (h.flags & MH_NO_HEAP_EXECUTION != 0)
    &&& r.has_canary == macho_canary_spec(h)
    &&& !r.has_relro
    &&& !r.has_fortify
}

/// Whether headers `h` are those that goblin reads from image bytes `d`.
pub open spec fn image_matches(h: MachHeaders, d: Seq<u8>) -> bool {
    macho_image_of(d) == Some(
        (
            h.is_64,
            h.cputype,
            h.filetype,
            h.flags,
            h.load_commands@,
            segment_views(h.segments@),
            symbol_views(h.symbols@),
        ),
    )
}

/// The byte range of the image that a buffer's analysis reads, or why the
/// buffer is refused: it must parse as a container, a fat container must list
/// a first slice lying within the buffer, and the image must parse.
pub open spec fn macho_outcome(d: Seq<u8>) -> Result<(int, int), ScanError> {
    match mach_container_of(d) {
        None => Err(ScanError::Malformed),
        Some(c) => match slice_spec(c, d.len()) {
            Err(e) => Err(e),
            Ok((a, b)) => if macho_image_of(d.subrange(a, b)) is Some {
                Ok((a, b))
            } else {
                Err(ScanError::Malformed)
            },
        },
    }
}

/// The UUID of the first UUID command among `cmds`, in uppercase hyphenated form.
pub open spec fn first_uuid_spec(cmds: Seq<LoadCommandInfo>) -> Option<Seq<char>> {
    first_some(uuids(cmds), cmds.len() as int, 0)
}

/// Whether a dSYM's debug file carries the expected UUID: it is a single
/// image that parses, and its first UUID command names `expected`, ignoring
/// ASCII case.
pub open spec fn dsym_matches_spec(d: Seq<u8>, expected: Seq<char>) -> bool {
    &&& mach_container_of(d) == Some(MachContainer::Single)
    &&& macho_image_of(d) matches Some(t)
    &&& first_uuid_spec(t.4) matches Some(u)
    &&& eq_ignore_case(u, expected)
}

/// The first UUID command's UUID, formatted.
pub fn first_uuid(cmds: &Vec<LoadCommandInfo>) -> (r: Option<String>)
    ensures
        opt_view(r) == first_uuid_spec(cmds@),
{
    let ghost f = uuids(cmds@);
    let mut i: usize = 0;
    while i < cmds.len()
        invariant
            i <= cmds@.len(),
            f == uuids(cmds@),
            first_some(f, cmds@.len() as int, i as int) == first_some(f, cmds@.len() as int, 0),
        decreases cmds.len() - i,
    {
        match &cmds[i] {
            LoadCommandInfo::Uuid(b) => {
                return Some(format_uuid(b));
            },
            _ => {},
        }
        i = i + 1;
    }
    None
}

/// Analysis of one Mach-O file, thin or fat.
pub struct MachoAnalyzer<'a> {
    pub path: String,
    pub data: &'a [u8],
    pub file_size: u64,
    pub file_modified: i64,
}

fn section_has_debug(s: &MachSection) -> (r: bool)
    ensures
        r == is_debug_section(*s),
{
    match &s.name {
        Some(name) => same_text(name, "__DWARF") || starts_with(name.as_str(), "__debug"),
        None => false,
    }
}

fn has_debug_segment(g: &MachSegment) -> (r: bool)
    ensures
        r == segment_has_debug(*g),
{
    let dwarf = match &g.name {
        Some(n) => same_text(n, "__DWARF"),
        None => false,
    };
    if dwarf {
        return true;
    }
    match &g.sections {
        Some(v) => {
            let mut k: usize = 0;
            while k < v.len()
                invariant
                    k <= v@.len(),
                    g.sections == Some(*v),
                    forall|j: int| 0 <= j < k ==> !is_debug_section(#[trigger] v@[j]),
                decreases v.len() - k,
            {
                if section_has_debug(&v[k]) {
                    assert(is_debug_section(v@[k as int]));
                    assert(sections_have_debug(v@));
                    return true;
                }
                k = k + 1;
            }
            false
        },
        None => false,
    }
}

fn any_symbol_mentions_canary(syms: &Vec<Option<String>>) -> (r: bool)
    ensures
        r == exists|i: int|
            0 <= i < syms@.len() && (#[trigger] syms@[i] matches Some(n) && has_infix(n@, "stack_chk"@)),
{
    let mut i: usize = 0;
    while i < syms.len()
        invariant
            i <= syms@.len(),
            forall|j: int| 0 <= j < i ==> !(#[trigger] syms@[j] matches Some(n) && has_infix(n@, "stack_chk"@)),
        decreases syms.len() - i,
    {
        match &syms[i] {
            Some(n) => {
                if contains(n.as_str(), "stack_chk") {
                    assert(syms@[i as int] matches Some(m) && has_infix(m@, "stack_chk"@));
                    return true;
                }
            },
            None => {},
        }
        i = i + 1;
    }
    false
}

impl<'a> MachoAnalyzer<'a> {
    pub fn new(path: &str, data: &'a [u8], file_size: u64, file_modified: i64) -> (r: MachoAnalyzer<'a>)
        ensures
            r.path@ == path@,
            r.data@ == data@,
            r.file_size == file_size,
            r.file_modified == file_modified,
    {
        MachoAnalyzer { path: String::from_str(path), data, file_size, file_modified }
    }

    /// Whether the buffer parses as a single image or a fat container, or
    /// `None` where it does not parse.
    pub fn container_of(data: &[u8]) -> (r: Option<MachContainer>)
        ensures
            r == mach_container_of(data@),
    {
        match parse_container(data) {
            Ok(c) => Some(c),
            Err(_) => None,
        }
    }

    /// The byte range of the image to analyse, or the reason the container
    /// is refused.
    pub fn slice_range(container: MachContainer, len: usize) -> (r: Result<(usize, usize), ScanError>)
        ensures
            match slice_spec(container, len as nat) {
                Ok((a, b)) => r matches Ok((x, y)) && x == a && y == b,
                Err(e) => r == Err::<(usize, usize), ScanError>(e),
            },
    {
        match container {
            MachContainer::Single => Ok((0, len)),
            MachContainer::Fat(None) => Err(ScanError::EmptyFat),
            MachContainer::Fat(Some((off, size))) => {
                let off = off as usize;
                let size = size as usize;
                if off <= len && size <= len - off {
                    Ok((off, off + size))
                } else {
                    Err(ScanError::InvalidFat)
                }
            },
        }
    }

    /// Reads the headers of the image to analyse: the whole buffer, or the
    /// first slice of a fat container.
    pub fn read_headers(&self) -> (r: Result<MachHeaders, ScanError>)
        ensures
            match macho_outcome(self.data@) {
                Ok((a, b)) => r matches Ok(h) && image_matches(h, self.data@.subrange(a, b)),
                Err(e) => r == Err::<MachHeaders, ScanError>(e),
            },
    {
        let container = match parse_container(self.data) {
            Ok(c) => c,
            Err(_) => {
                return Err(ScanError::Malformed);
            },
        };
        let (start, end) = match Self::slice_range(container, self.data.len()) {
            Ok(range) => range,
            Err(e) => {
                return Err(e);
            },
        };
        let image = &self.data[start..end];
        match (macho_image(image), macho_segments(image), macho_symbol_names(image)) {
            (Some((is_64, cputype, filetype, flags, load_commands)), Some(segments), Some(symbols)) => {
                Ok(MachHeaders { is_64, cputype, filetype, flags, load_commands, segments, symbols })
            },
            _ => Err(ScanError::Malformed),
        }
    }

    pub fn get_architecture(h: &MachHeaders) -> (r: String)
        ensures
            r@ == macho_arch_name(h.cputype),
    {
        let c = h.cputype;
        if c == CPU_TYPE_X86_64 {
            String::from_str("x86_64")
        } else if c == CPU_TYPE_X86 {
            String::from_str("i386")
        } else if c == CPU_TYPE_ARM {
            String::from_str("ARM")
        } else if c == CPU_TYPE_ARM64 {
            String::from_str("ARM64")
        } else if c == CPU_TYPE_ARM64_32 {
            String::from_str("ARM64_32")
        } else if c == CPU_TYPE_POWERPC {
            String::from_str("PowerPC")
        } else if c == CPU_TYPE_POWERPC64 {
            String::from_str("PowerPC64")
        } else {
            unknown_string(c as u64)
        }
    }

    pub fn extract_uuid(h: &MachHeaders) -> (r: Option<String>)
        ensures
            opt_view(r) == macho_uuid_spec(*h),
    {
        first_uuid(&h.load_commands)
    }

    pub fn is_stripped(h: &MachHeaders) -> (r: bool)
        ensures
            r == macho_stripped_spec(*h),
    {
        let cmds = &h.load_commands;
        let ghost f = symtabs(cmds@);
        let mut i: usize = 0;
        while i < cmds.len()
            invariant
                cmds@ == h.load_commands@,
                i <= cmds@.len(),
                f == symtabs(cmds@),
                first_some(f, cmds@.len() as int, i as int) == first_some(f, cmds@.len() as int, 0),
            decreases cmds.len() - i,
        {
            match &cmds[i] {
                LoadCommandInfo::Symtab(n) => {
                    return *n == 0;
                },
                _ => {},
            }
            i = i + 1;
        }
        true
    }

    pub fn has_debug_info(h: &MachHeaders) -> (r: bool)
        ensures
            r == macho_debug_spec(*h),
    {
        let segs = &h.segments;
        let mut i: usize = 0;
        while i < segs.len()
            invariant
                segs@ == h.segments@,
                i <= segs@.len(),
                forall|j: int| 0 <= j < i ==> !segment_has_debug(#[trigger] segs@[j]),
            decreases segs.len() - i,
        {
            if has_debug_segment(&segs[i]) {
                assert(segment_has_debug(segs@[i as int]));
                return true;
            }
            i = i + 1;
        }
        false
    }

    /// `(is_pie, is_executable, is_library)`.
    pub fn get_binary_type(h: &MachHeaders) -> (r: (bool, bool, bool))
        ensures
            r.0 == (h.flags & MH_PIE != 0),
            r.1 == (h.filetype == MH_EXECUTE),
            r.2 == (h.filetype == MH_DYLIB),
    {
        (h.flags & MH_PIE != 0, h.filetype == MH_EXECUTE, h.filetype == MH_DYLIB)
    }

    pub fn get_entry_point(h: &MachHeaders) -> (r: Option<String>)
        ensures
            opt_view(r) == macho_entry_spec(*h),
    {
        let cmds = &h.load_commands;
        let ghost f = main_entries(cmds@);
        let mut i: usize = 0;
        while i < cmds.len()
            invariant
                cmds@ == h.load_commands@,
                i <= cmds@.len(),
                f == main_entries(cmds@),
                first_some(f, cmds@.len() as int, i as int) == first_some(f, cmds@.len() as int, 0),
            decreases cmds.len() - i,
        {
            match &cmds[i] {
                LoadCommandInfo::Main(off) => {
                    return Some(address_string(*off));
                },
                _ => {},
            }
            i = i + 1;
        }
        let ghost g = thread_entries(cmds@);
        let mut j: usize = 0;
        while j < cmds.len()
            invariant
                cmds@ == h.load_commands@,
                j <= cmds@.len(),
                g == thread_entries(cmds@),
                f == main_entries(cmds@),
                first_some(f, cmds@.len() as int, 0) is None,
                first_some(g, cmds@.len() as int, j as int) == first_some(g, cmds@.len() as int, 0),
            decreases cmds.len() - j,
        {
            match &cmds[j] {
                LoadCommandInfo::Thread(flavor) => {
                    return Some(address_string(*flavor as u64));
                },
                _ => {},
            }
            j = j + 1;
        }
        None
    }

    /// `(has_nx, has_canary, has_pie)`: no heap execution and PIE from the
    /// header flags, a canary from a symbol naming `stack_chk`.
    pub fn check_security_features(h: &MachHeaders) -> (r: (bool, bool, bool))
        ensures
            r.0 == (h.flags & MH_NO_HEAP_EXECUTION != 0),
            r.1 == macho_canary_spec(*h),
            r.2 == (h.flags & MH_PIE != 0),
    {
        let has_canary = any_symbol_mentions_canary(&h.symbols);
        (h.flags & MH_NO_HEAP_EXECUTION != 0, has_canary, h.flags & MH_PIE != 0)
    }

    /// Assembles the record from the image's headers. The dSYM bundle is
    /// left unset; it is recorded separately when it was searched for.
    pub fn analyze_headers(&self, h: &MachHeaders) -> (r: BinaryInfo)
        ensures
            macho_record(self.path@, self.file_size, self.file_modified, *h, r),
    {
        let (_, is_executable, is_library) = Self::get_binary_type(h);
        let (has_nx, has_canary, has_pie) = Self::check_security_features(h);
        BinaryInfo {
            file_path: self.path.clone(),
            file_size: self.file_size,
            file_modified: self.file_modified,
            binary_type: String::from_str("Mach-O"),
            architecture: Self::get_architecture(h),
            is_64bit: h.is_64,
            is_stripped: Self::is_stripped(h),
            has_debug_info: Self::has_debug_info(h),
            build_id: None,
            gnu_debuglink: None,
            debug_sections: Vec::new(),
            uuid: Self::extract_uuid(h),
            dsym_bundle: None,
            debug_file_path: None,
            debuginfod_available: None,
            debuginfod_url: None,
            entry_point: Self::get_entry_point(h),
            interpreter: None,
            is_pie: has_pie,
            is_executable,
            is_library,
            has_nx,
            has_canary,
            has_relro: false,
            has_fortify: false,
        }
    }

    /// Reads the image's headers and assembles its record.
    pub fn analyze(&self) -> (r: Result<BinaryInfo, ScanError>)
        ensures
            match macho_outcome(self.data@) {
                Ok((a, b)) => r matches Ok(info) && exists|h: MachHeaders|
                    image_matches(h, self.data@.subrange(a, b)) && macho_record(
                        self.path@,
                        self.file_size,
                        self.file_modified,
                        h,
                        info,
                    ),
                Err(e) => r == Err::<BinaryInfo, ScanError>(e),
            },
    {
        match self.read_headers() {
            Ok(h) => Ok(self.analyze_headers(&h)),
            Err(e) => Err(e),
        }
    }
}

/// A fat container that lists no architecture is refused as empty; it is
/// never analysed as a single image.
pub proof fn lemma_empty_fat_rejected(d: Seq<u8>)
    requires
        mach_container_of(d) == Some(MachContainer::Fat(None)),
    ensures
        macho_outcome(d) == Err::<(int, int), ScanError>(ScanError::EmptyFat),
{
}

/// A fat container whose first slice runs past the end of the buffer is
/// refused as invalid; no other slice is analysed in its place.
pub proof fn lemma_out_of_range_fat_rejected(d: Seq<u8>, off: u32, size: u32)
    requires
        mach_container_of(d) == Some(MachContainer::Fat(Some((off, size)))),
        off as int + size as int > d.len(),
    ensures
        macho_outcome(d) == Err::<(int, int), ScanError>(ScanError::InvalidFat),
{
}

/// A fat container whose first slice lies within the buffer is analysed
/// through that slice alone: where the slice on its own is a single image,
/// analysing it reads the very same image bytes.
pub proof fn lemma_fat_slice_same_as_alone(d: Seq<u8>, off: u32, size: u32)
    requires
        mach_container_of(d) == Some(MachContainer::Fat(Some((off, size)))),
        off as int + size as int <= d.len(),
        mach_container_of(d.subrange(off as int, off as int + size as int)) == Some(MachContainer::Single),
    ensures
        ({
            let slice = d.subrange(off as int, off as int + size as int);
            &&& macho_outcome(slice) matches Ok((a, b)) ==> slice.subrange(a, b) == slice
            &&& (macho_outcome(d) is Ok <==> macho_outcome(slice) is Ok)
            &&& macho_outcome(d) is Ok ==> macho_outcome(d) == Ok::<(int, int), ScanError>(
                (off as int, off as int + size as int),
            )
        }),
{
    let slice = d.subrange(off as int, off as int + size as int);
    assert(slice.subrange(0, slice.len() as int) =~= slice);
}

/// A fat container whose first slice lies within the buffer is analysed
/// through that slice alone.
pub proof fn lemma_fat_first_slice_analysed(d: Seq<u8>, off: u32, size: u32)
    requires
        mach_container_of(d) == Some(MachContainer::Fat(Some((off, size)))),
        off as int + size as int <= d.len(),
        macho_image_of(d.subrange(off as int, off as int + size as int)) is Some,
    ensures
        macho_outcome(d) == Ok::<(int, int), ScanError>((off as int, off as int + size as int)),
{
}

} // verus!
