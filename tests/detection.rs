use symwalker::binary::{scan_binary, BinaryInfo};
use symwalker::format::{detect_binary_type, BinaryFormat, ScanError};

#[test]
fn short_buffers_are_too_small() {
    for n in 0..4usize {
        let data = vec![0x7fu8; n];
        assert_eq!(detect_binary_type(&data), Err(ScanError::TooSmall));
    }
}

#[test]
fn elf_magic_is_elf_whatever_follows() {
    assert_eq!(detect_binary_type(b"\x7fELF"), Ok(BinaryFormat::Elf));
    assert_eq!(detect_binary_type(b"\x7fELF\xff\x00garbage"), Ok(BinaryFormat::Elf));
    assert_eq!(BinaryFormat::Elf.name(), "ELF");
    assert_eq!(BinaryFormat::MachO.name(), "Mach-O");
}

#[test]
fn all_six_macho_magics_are_recognised() {
    let magics: [[u8; 4]; 6] = [
        [0xfe, 0xed, 0xfa, 0xce],
        [0xce, 0xfa, 0xed, 0xfe],
        [0xfe, 0xed, 0xfa, 0xcf],
        [0xcf, 0xfa, 0xed, 0xfe],
        [0xca, 0xfe, 0xba, 0xbe],
        [0xbe, 0xba, 0xfe, 0xca],
    ];
    for m in magics.iter() {
        assert_eq!(detect_binary_type(m), Ok(BinaryFormat::MachO));
    }
}

#[test]
fn unknown_magic_is_refused() {
    assert_eq!(detect_binary_type(b"MZ\x90\x00"), Err(ScanError::UnknownFormat));
    assert_eq!(detect_binary_type(b"\x7fELG"), Err(ScanError::UnknownFormat));
}

#[test]
fn scan_refuses_small_and_unknown_buffers() {
    assert!(matches!(scan_binary("/x", b"ab", 2, 0), Err(ScanError::TooSmall)));
    assert!(matches!(scan_binary("/x", b"abcdefgh", 8, 0), Err(ScanError::UnknownFormat)));
    assert!(matches!(scan_binary("/x", b"\x7fELF\x02\x01", 6, 0), Err(ScanError::Malformed)));
}

#[test]
fn scan_refuses_empty_fat_container() {
    let data = [0xcau8, 0xfe, 0xba, 0xbe, 0, 0, 0, 0];
    assert!(matches!(scan_binary("/x", &data, 8, 0), Err(ScanError::EmptyFat)));
}

fn minimal_elf64() -> Vec<u8> {
    let mut d = vec![0x7f, b'E', b'L', b'F', 2, 1, 1, 0];
    d.extend_from_slice(&[0u8; 8]);
    d.extend_from_slice(&2u16.to_le_bytes()); // executable
    d.extend_from_slice(&62u16.to_le_bytes()); // x86-64
    d.extend_from_slice(&1u32.to_le_bytes());
    d.extend_from_slice(&0x401000u64.to_le_bytes());
    d.extend_from_slice(&0u64.to_le_bytes()); // program headers
    d.extend_from_slice(&0u64.to_le_bytes()); // section headers
    d.extend_from_slice(&0u32.to_le_bytes());
    d.extend_from_slice(&64u16.to_le_bytes());
    d.extend_from_slice(&56u16.to_le_bytes());
    d.extend_from_slice(&0u16.to_le_bytes());
    d.extend_from_slice(&64u16.to_le_bytes());
    d.extend_from_slice(&0u16.to_le_bytes());
    d.extend_from_slice(&0u16.to_le_bytes());
    d
}

#[test]
fn scan_minimal_elf_executable() {
    let data = minimal_elf64();
    let info = scan_binary("/nonexistent/dir/prog", &data, data.len() as u64, 7).unwrap();
    assert_eq!(info.binary_type, "ELF");
    assert_eq!(info.architecture, "x86_64");
    assert!(info.is_64bit);
    assert!(info.is_stripped);
    assert!(!info.has_debug_info);
    assert_eq!(info.entry_point, Some("0x401000".to_string()));
    assert!(info.is_executable);
    assert!(!info.is_library);
    assert!(!info.is_pie);
    assert_eq!(info.build_id, None);
    assert_eq!(info.debug_file_path, None);
    assert_eq!(info.file_modified, 7);
    assert!(!info.has_local_debug_symbols());
}

fn record(debug_file: Option<&str>, embedded: bool) -> BinaryInfo {
    BinaryInfo {
        file_path: "/bin/x".to_string(),
        file_size: 1,
        file_modified: 0,
        binary_type: "ELF".to_string(),
        architecture: "x86_64".to_string(),
        is_64bit: true,
        is_stripped: false,
        has_debug_info: embedded,
        build_id: Some("ab12cd".to_string()),
        gnu_debuglink: None,
        debug_sections: Vec::new(),
        uuid: None,
        dsym_bundle: None,
        debug_file_path: debug_file.map(|s| s.to_string()),
        debuginfod_available: None,
        debuginfod_url: None,
        entry_point: None,
        interpreter: None,
        is_pie: false,
        is_executable: true,
        is_library: false,
        has_nx: false,
        has_canary: false,
        has_relro: false,
        has_fortify: false,
    }
}

#[test]
fn local_symbols_for_every_combination() {
    assert!(!record(None, false).has_local_debug_symbols());
    assert!(record(None, true).has_local_debug_symbols());
    assert!(record(Some("/usr/lib/debug/x.debug"), false).has_local_debug_symbols());
    assert!(record(Some("/usr/lib/debug/x.debug"), true).has_local_debug_symbols());
}

#[test]
fn remote_symbols_only_after_a_positive_answer() {
    let mut info = record(None, false);
    assert!(!info.has_remote_debug_symbols());
    info.record_remote(None);
    assert_eq!(info.debuginfod_available, Some(false));
    assert!(!info.has_remote_debug_symbols());
    info.record_remote(Some((true, Some("https://s/buildid/ab12cd/debuginfo".to_string()))));
    assert!(info.has_remote_debug_symbols());
    assert_eq!(info.debuginfod_url, Some("https://s/buildid/ab12cd/debuginfo".to_string()));
}

#[test]
fn dsym_bundle_is_the_local_debug_location() {
    let mut info = record(None, false);
    info.record_dsym(Some("/a/b.dSYM".to_string()));
    assert_eq!(info.dsym_bundle, Some("/a/b.dSYM".to_string()));
    assert_eq!(info.debug_file_path, Some("/a/b.dSYM".to_string()));
    assert!(info.has_local_debug_symbols());
}

#[test]
fn refusal_messages() {
    assert_eq!(ScanError::TooSmall.message(), "File too small");
    assert_eq!(ScanError::UnknownFormat.message(), "Unknown binary format");
    assert_eq!(ScanError::EmptyFat.message(), "Empty fat binary");
    assert_eq!(ScanError::InvalidFat.message(), "Invalid fat binary");
    assert_eq!(ScanError::Malformed.message(), "Malformed binary headers");
}
