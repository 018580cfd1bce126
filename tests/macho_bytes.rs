use symwalker::binary::scan_binary;
use symwalker::format::ScanError;
use symwalker::symbol_finder::dsym_uuid_matches;

const UUID: [u8; 16] = [0xa1, 0xb2, 0xc3, 0xd4, 0xe5, 0xf6, 0x07, 0x18, 0x29, 0x3a, 0x4b, 0x5c, 0x6d, 0x7e, 0x8f, 0x90];

fn thin_image() -> Vec<u8> {
    let mut d = Vec::new();
    for v in [0xfeed_facfu32, 0x0100_000c, 0, 2, 1, 24, 0x0020_0000, 0] {
        d.extend_from_slice(&v.to_le_bytes());
    }
    d.extend_from_slice(&0x1bu32.to_le_bytes()); // LC_UUID
    d.extend_from_slice(&24u32.to_le_bytes());
    d.extend_from_slice(&UUID);
    d
}

fn fat_container(offset: u32, size: u32, image: &[u8]) -> Vec<u8> {
    let mut d = Vec::new();
    for v in [0xcafe_babeu32, 1, 0x0100_000c, 0, offset, size, 0] {
        d.extend_from_slice(&v.to_be_bytes());
    }
    while d.len() < 32 {
        d.push(0);
    }
    d.extend_from_slice(image);
    d
}

#[test]
fn thin_macho_bytes_are_analysed() {
    let data = thin_image();
    let info = scan_binary("/nonexistent/Tool", &data, data.len() as u64, 0).unwrap();
    assert_eq!(info.binary_type, "Mach-O");
    assert_eq!(info.architecture, "ARM64");
    assert!(info.is_64bit);
    assert_eq!(info.uuid, Some("A1B2C3D4-E5F6-0718-293A-4B5C6D7E8F90".to_string()));
    assert!(info.is_stripped);
    assert!(info.is_executable);
    assert!(info.is_pie);
    assert_eq!(info.entry_point, None);
}

#[test]
fn fat_macho_first_slice_is_analysed() {
    let image = thin_image();
    let data = fat_container(32, image.len() as u32, &image);
    let info = scan_binary("/nonexistent/Tool", &data, data.len() as u64, 0).unwrap();
    assert_eq!(info.uuid, Some("A1B2C3D4-E5F6-0718-293A-4B5C6D7E8F90".to_string()));
    let data = fat_container(32, image.len() as u32 + 1, &image);
    assert!(matches!(scan_binary("/nonexistent/Tool", &data, data.len() as u64, 0), Err(ScanError::InvalidFat)));
}

#[test]
fn dsym_image_uuid_matches_in_either_case() {
    let image = thin_image();
    assert!(dsym_uuid_matches(&image, "A1B2C3D4-E5F6-0718-293A-4B5C6D7E8F90"));
    assert!(dsym_uuid_matches(&image, "a1b2c3d4-e5f6-0718-293a-4b5c6d7e8f90"));
    assert!(!dsym_uuid_matches(&image, "A1B2C3D4-E5F6-0718-293A-4B5C6D7E8F91"));
    let fat = fat_container(32, image.len() as u32, &image);
    assert!(!dsym_uuid_matches(&fat, "A1B2C3D4-E5F6-0718-293A-4B5C6D7E8F90"));
}

