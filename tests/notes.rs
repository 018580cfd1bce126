use symwalker::note::parse_build_id_note;

fn note(name: &[u8], note_type: u32, desc: &[u8]) -> Vec<u8> {
    let mut d = Vec::new();
    d.extend_from_slice(&(name.len() as u32).to_le_bytes());
    d.extend_from_slice(&(desc.len() as u32).to_le_bytes());
    d.extend_from_slice(&note_type.to_le_bytes());
    d.extend_from_slice(name);
    while d.len() % 4 != 0 {
        d.push(0);
    }
    d.extend_from_slice(desc);
    while d.len() % 4 != 0 {
        d.push(0);
    }
    d
}

#[test]
fn build_id_round_trip() {
    let desc = [0xde, 0xad, 0xbe, 0xef, 0x01];
    let block = note(b"GNU\0", 3, &desc);
    assert_eq!(parse_build_id_note(&block), Some("deadbeef01".to_string()));
    let sha1: Vec<u8> = (0u8..20).collect();
    let block = note(b"GNU\0", 3, &sha1);
    assert_eq!(
        parse_build_id_note(&block),
        Some("000102030405060708090a0b0c0d0e0f10111213".to_string())
    );
}

#[test]
fn build_id_after_other_notes() {
    let mut block = note(b"GNU\0", 1, &[0, 0, 0, 0, 2, 0, 0, 0, 6, 0, 0, 0, 32, 0, 0, 0]);
    block.extend(note(b"Go\0\0", 3, &[1, 2, 3]));
    block.extend(note(b"GNU\0", 3, &[0xab, 0xcd]));
    assert_eq!(parse_build_id_note(&block), Some("abcd".to_string()));
}

#[test]
fn truncated_notes_find_nothing() {
    assert_eq!(parse_build_id_note(&[]), None);
    assert_eq!(parse_build_id_note(&[4, 0, 0, 0, 20, 0, 0, 0, 3, 0, 0]), None);
    let full = note(b"GNU\0", 3, &[9u8; 20]);
    for cut in 0..full.len() {
        assert_eq!(parse_build_id_note(&full[..cut]), None);
    }
    let mut lying = note(b"GNU\0", 3, &[1, 2, 3, 4]);
    lying[4] = 0xff;
    lying[5] = 0xff;
    lying[6] = 0xff;
    lying[7] = 0xff;
    assert_eq!(parse_build_id_note(&lying), None);
}

#[test]
fn longer_name_field_is_not_a_build_id() {
    let block = note(b"GNU\0\0\0\0\0", 3, &[1, 2, 3, 4]);
    assert_eq!(parse_build_id_note(&block), None);
    let mut block = note(b"GNU\0\0\0\0\0", 3, &[1, 2, 3, 4]);
    block.extend(note(b"GNU\0", 3, &[5, 6]));
    assert_eq!(parse_build_id_note(&block), Some("0506".to_string()));
}
