use symwalker::elf::{ElfAnalyzer, ElfHeaders, ProgramHeader, SectionHeader};
use symwalker::format::ScanError;
use symwalker::macho::{LoadCommandInfo, MachContainer, MachHeaders, MachSection, MachSegment, MachoAnalyzer};

fn section(name: &str, offset: u64, size: u64) -> SectionHeader {
    SectionHeader { name: Some(name.to_string()), offset, size }
}

fn segment(kind: u32, flags: u32, offset: u64, file_size: u64) -> ProgramHeader {
    ProgramHeader { kind, flags, offset, file_size }
}

fn headers(machine: u16, file_type: u16) -> ElfHeaders {
    ElfHeaders {
        is_64: true,
        machine,
        file_type,
        entry: 0,
        sections: Vec::new(),
        segments: Vec::new(),
        dynamic_symbols: Vec::new(),
    }
}

fn analyzer<'a>(data: &'a [u8], h: ElfHeaders) -> ElfAnalyzer<'a> {
    ElfAnalyzer { path: "/nonexistent/dir/prog".to_string(), data, headers: h, file_size: data.len() as u64, file_modified: 0 }
}

#[test]
fn elf_architecture_names() {
    let cases = [(62u16, "x86_64"), (3, "i386"), (40, "ARM"), (183, "AArch64"), (243, "RISC-V"), (20, "PowerPC"), (21, "PowerPC64"), (8, "MIPS"), (22, "S390"), (0x1234, "Unknown (0x1234)")];
    for (m, name) in cases.iter() {
        let a = analyzer(&[], headers(*m, 2));
        assert_eq!(a.get_architecture(), *name);
    }
}

#[test]
fn elf_sections_decide_stripped_and_debug() {
    let mut h = headers(62, 3);
    h.sections = vec![
        section(".text", 0, 0),
        section(".debug_line", 0, 0),
        section(".zdebug_info", 0, 0),
        section(".debug_info", 0, 0),
        section(".debugger", 0, 0),
        SectionHeader { name: None, offset: 0, size: 0 },
    ];
    let a = analyzer(&[], h.clone());
    assert!(a.is_stripped());
    assert_eq!(a.find_debug_sections(), vec![".debug_info", ".debug_line", ".zdebug_info"]);
    h.sections.push(section(".symtab", 0, 0));
    assert!(!analyzer(&[], h).is_stripped());
}

fn gnu_note(desc: &[u8]) -> Vec<u8> {
    let mut d = Vec::new();
    d.extend_from_slice(&4u32.to_le_bytes());
    d.extend_from_slice(&(desc.len() as u32).to_le_bytes());
    d.extend_from_slice(&3u32.to_le_bytes());
    d.extend_from_slice(b"GNU\0");
    d.extend_from_slice(desc);
    d
}

#[test]
fn elf_build_id_sections_before_segments() {
    let mut data = gnu_note(&[0x11, 0x22, 0x33, 0x44]);
    data.extend(gnu_note(&[0xaa, 0xbb, 0xcc, 0xdd]));
    let mut h = headers(62, 3);
    h.segments = vec![segment(4, 0, 0, 20)];
    assert_eq!(analyzer(&data, h.clone()).extract_build_id(), Some("11223344".to_string()));
    h.sections = vec![section(".note.gnu.build-id", 20, 20)];
    assert_eq!(analyzer(&data, h.clone()).extract_build_id(), Some("aabbccdd".to_string()));
    h.sections = vec![section(".note.gnu.build-id", 30, 20)];
    assert_eq!(analyzer(&data, h.clone()).extract_build_id(), Some("11223344".to_string()));
    h.segments = vec![segment(1, 0, 0, 20)];
    assert_eq!(analyzer(&data, h).extract_build_id(), None);
}

#[test]
fn elf_debuglink_and_interpreter() {
    let mut data = b"prog.debug\0\0\xde\xad\xbe\xef".to_vec();
    data.extend_from_slice(b"/lib64/ld-linux-x86-64.so.2\0");
    data.extend_from_slice(b"\xff\xfe\0");
    let mut h = headers(62, 3);
    h.sections = vec![section(".gnu_debuglink", 0, 16)];
    h.segments = vec![segment(3, 4, 44, 3), segment(3, 4, 16, 28)];
    let a = analyzer(&data, h.clone());
    assert_eq!(a.extract_gnu_debuglink(), Some("prog.debug".to_string()));
    assert_eq!(a.get_interpreter(), Some("/lib64/ld-linux-x86-64.so.2".to_string()));
    assert_eq!(a.get_binary_type(), (true, true, true));
    h.sections = vec![section(".gnu_debuglink", 40, 100)];
    assert_eq!(analyzer(&data, h).extract_gnu_debuglink(), None);
}

#[test]
fn elf_binary_types() {
    assert_eq!(analyzer(&[], headers(62, 2)).get_binary_type(), (false, true, false));
    assert_eq!(analyzer(&[], headers(62, 3)).get_binary_type(), (false, true, true));
    assert_eq!(analyzer(&[], headers(62, 1)).get_binary_type(), (false, false, false));
}

#[test]
fn elf_security_flags() {
    let mut h = headers(62, 3);
    assert_eq!(analyzer(&[], h.clone()).check_security_features(), (false, false));
    h.segments = vec![segment(0x6474e551, 6, 0, 0), segment(0x6474e552, 4, 0, 0)];
    assert_eq!(analyzer(&[], h.clone()).check_security_features(), (true, true));
    h.segments = vec![segment(0x6474e551, 7, 0, 0)];
    assert_eq!(analyzer(&[], h.clone()).check_security_features(), (false, false));
    h.dynamic_symbols = vec![Some("printf".to_string()), None];
    let a = analyzer(&[], h.clone());
    assert!(!a.check_stack_canary());
    assert!(!a.check_fortify());
    h.dynamic_symbols.push(Some("__stack_chk_fail".to_string()));
    let a = analyzer(&[], h.clone());
    assert!(a.check_stack_canary());
    assert!(!a.check_fortify());
    h.dynamic_symbols = vec![Some("__memcpy_chk".to_string())];
    let a = analyzer(&[], h);
    assert!(!a.check_stack_canary());
    assert!(a.check_fortify());
}

#[test]
fn elf_record_assembly() {
    let mut h = headers(183, 2);
    h.entry = 0xffff0000;
    h.sections = vec![section(".debug_str", 0, 0)];
    let info = analyzer(&[], h).analyze();
    assert_eq!(info.architecture, "AArch64");
    assert_eq!(info.entry_point, Some("0xffff0000".to_string()));
    assert!(info.has_debug_info);
    assert_eq!(info.debug_sections, vec![".debug_str"]);
    assert!(info.has_local_debug_symbols());
    assert_eq!(info.debuginfod_available, None);
    assert_eq!(info.uuid, None);
}

#[test]
fn elf_parse_failure_is_malformed() {
    assert!(matches!(ElfAnalyzer::new("/x", b"\x7fELF", 4, 0), Err(ScanError::Malformed)));
}

fn mach(cmds: Vec<LoadCommandInfo>) -> MachHeaders {
    MachHeaders {
        is_64: true,
        cputype: 0x0100_000c,
        filetype: 2,
        flags: 0x0020_0000,
        load_commands: cmds,
        segments: Vec::new(),
        symbols: Vec::new(),
    }
}

const UUID: [u8; 16] = [0x12, 0x34, 0x56, 0x78, 0x9a, 0xbc, 0xde, 0xf0, 0x01, 0x23, 0x45, 0x67, 0x89, 0xab, 0xcd, 0xef];

#[test]
fn macho_identity_fields() {
    let h = mach(vec![LoadCommandInfo::Other, LoadCommandInfo::Uuid(UUID), LoadCommandInfo::Symtab(5), LoadCommandInfo::Main(0x3f40)]);
    assert_eq!(MachoAnalyzer::extract_uuid(&h), Some("12345678-9ABC-DEF0-0123-456789ABCDEF".to_string()));
    assert!(!MachoAnalyzer::is_stripped(&h));
    assert_eq!(MachoAnalyzer::get_entry_point(&h), Some("0x3f40".to_string()));
    assert_eq!(MachoAnalyzer::get_architecture(&h), "ARM64");
    assert_eq!(MachoAnalyzer::get_binary_type(&h), (true, true, false));
    let h = mach(vec![LoadCommandInfo::Thread(4), LoadCommandInfo::Symtab(0), LoadCommandInfo::Main(1)]);
    assert_eq!(MachoAnalyzer::extract_uuid(&h), None);
    assert!(MachoAnalyzer::is_stripped(&h));
    assert_eq!(MachoAnalyzer::get_entry_point(&h), Some("0x1".to_string()));
    let h = mach(vec![LoadCommandInfo::Other, LoadCommandInfo::Thread(4)]);
    assert_eq!(MachoAnalyzer::get_entry_point(&h), Some("0x4".to_string()));
    assert!(MachoAnalyzer::is_stripped(&mach(vec![])));
    assert_eq!(MachoAnalyzer::get_entry_point(&mach(vec![])), None);
}

#[test]
fn macho_architecture_names() {
    let cases = [(7u32, "i386"), (0x0100_0007, "x86_64"), (12, "ARM"), (0x0200_000c, "ARM64_32"), (18, "PowerPC"), (0x0100_0012, "PowerPC64"), (99, "Unknown (0x63)")];
    for (c, name) in cases.iter() {
        let mut h = mach(vec![]);
        h.cputype = *c;
        assert_eq!(MachoAnalyzer::get_architecture(&h), *name);
    }
}

#[test]
fn macho_debug_segments_and_security() {
    let mut h = mach(vec![]);
    h.segments = vec![MachSegment { name: Some("__TEXT".to_string()), sections: Some(vec![MachSection { name: Some("__text".to_string()) }]) }];
    assert!(!MachoAnalyzer::has_debug_info(&h));
    h.segments.push(MachSegment { name: None, sections: Some(vec![MachSection { name: Some("__debug_info".to_string()) }]) });
    assert!(MachoAnalyzer::has_debug_info(&h));
    h.segments = vec![MachSegment { name: Some("__DWARF".to_string()), sections: None }];
    assert!(MachoAnalyzer::has_debug_info(&h));
    h.segments = vec![MachSegment { name: None, sections: Some(vec![MachSection { name: None }]) }];
    assert!(!MachoAnalyzer::has_debug_info(&h));
    h.segments = vec![MachSegment { name: Some("__TEXT".to_string()), sections: Some(vec![MachSection { name: Some("__DWARF".to_string()) }]) }];
    assert!(MachoAnalyzer::has_debug_info(&h));
    h.flags = 0x0120_0000;
    h.symbols = vec![None, Some("___stack_chk_guard".to_string())];
    assert_eq!(MachoAnalyzer::check_security_features(&h), (true, true, true));
    h.flags = 0;
    h.symbols = vec![Some("_main".to_string())];
    assert_eq!(MachoAnalyzer::check_security_features(&h), (false, false, false));
}

#[test]
fn macho_record_assembly() {
    let a = MachoAnalyzer::new("/Applications/Tool", &[], 10, 3);
    let h = mach(vec![LoadCommandInfo::Uuid(UUID)]);
    let info = a.analyze_headers(&h);
    assert_eq!(info.binary_type, "Mach-O");
    assert_eq!(info.uuid, Some("12345678-9ABC-DEF0-0123-456789ABCDEF".to_string()));
    assert!(info.is_stripped);
    assert!(!info.has_relro);
    assert!(!info.has_fortify);
    assert_eq!(info.build_id, None);
    assert!(info.debug_sections.is_empty());
}

#[test]
fn fat_slices() {
    assert_eq!(MachoAnalyzer::slice_range(MachContainer::Fat(None), 4096), Err(ScanError::EmptyFat));
    assert_eq!(MachoAnalyzer::slice_range(MachContainer::Fat(Some((4096, 1))), 4096), Err(ScanError::InvalidFat));
    assert_eq!(MachoAnalyzer::slice_range(MachContainer::Fat(Some((0xffff_ffff, 0xffff_ffff))), 4096), Err(ScanError::InvalidFat));
    assert_eq!(MachoAnalyzer::slice_range(MachContainer::Fat(Some((1024, 2048))), 4096), Ok((1024, 3072)));
    assert_eq!(MachoAnalyzer::slice_range(MachContainer::Single, 77), Ok((0, 77)));
}

#[test]
fn empty_fat_container_is_refused() {
    let data = [0xcau8, 0xfe, 0xba, 0xbe, 0, 0, 0, 0];
    let a = MachoAnalyzer::new("/x", &data, 8, 0);
    assert!(matches!(a.analyze(), Err(ScanError::EmptyFat)));
}
