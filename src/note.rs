use vstd::prelude::*;
use crate::text::{hex_encode, hex_of};

verus! {

/// Note type of a GNU build identifier.
pub const NT_GNU_BUILD_ID: u32 = 3;

/// A little-endian 32-bit field at byte `i`.
pub open spec fn u32_at(d: Seq<u8>, i: int) -> int {
    d[i] as int + d[i + 1] as int * 256 + d[i + 2] as int * 65536 + d[i + 3] as int * 16777216
}

/// A length rounded up to a multiple of four.
pub open spec fn align4(n: int) -> int {
    (n + 3) / 4 * 4
}

/// Whether the four bytes at `i` are "GNU\0".
pub open spec fn gnu_name_at(d: Seq<u8>, i: int) -> bool {
    d[i] == 0x47 && d[i + 1] == 0x4e && d[i + 2] == 0x55 && d[i + 3] == 0
}

/// The description of the first GNU build-id note (type 3, name field exactly
/// "GNU\0") in the records starting at
/// `off`. The scan stops with `None` at the first header or record that does
/// not fit in the buffer.
pub open spec fn scan_notes(d: Seq<u8>, off: int) -> Option<Seq<u8>>
    decreases d.len() - off,
{
    if off < 0 || off + 12 > d.len() {
        None
    } else {
        let namesz = u32_at(d, off);
        let descsz = u32_at(d, off + 4);
        let body = off + 12;
        if body + align4(namesz) + align4(descsz) > d.len() {
            None
        } else if u32_at(d, off + 8) == NT_GNU_BUILD_ID && namesz == 4 && gnu_name_at(d, body) {
            Some(d.subrange(body + align4(namesz), body + align4(namesz) + descsz))
        } else {
            scan_notes(d, body + align4(namesz) + align4(descsz))
        }
    }
}

/// The build-id description bytes found in a block of note records.
pub open spec fn build_id_note(d: Seq<u8>) -> Option<Seq<u8>> {
    scan_notes(d, 0)
}

fn read_u32(data: &[u8], i: usize) -> (r: u64)
    requires
        i + 4 <= data@.len(),
    ensures
        r == u32_at(data@, i as int),
        r < 0x1_0000_0000,
{
    data[i] as u64 + data[i + 1] as u64 * 256 + data[i + 2] as u64 * 65536 + data[i + 3] as u64
        * 16777216
}

/// Scans a block of ELF note records for a GNU build identifier and returns
/// its description as lowercase hexadecimal. Every length is checked against
/// the buffer before use; a truncated record ends the scan with `None`.
pub fn parse_build_id_note(data: &[u8]) -> (r: Option<String>)
    ensures
        r is Some <==> build_id_note(data@) is Some,
        r matches Some(s) ==> s@ == hex_of(build_id_note(data@)->0),
{
    let len = data.len();
    if len < 12 {
        return None;
    }
    let mut off: usize = 0;
    while off <= len && len - off >= 12
        invariant
            len == data@.len(),
            off <= len,
            scan_notes(data@, off as int) == build_id_note(data@),
        decreases len - off,
    {
        let namesz = read_u32(data, off);
        let descsz = read_u32(data, off + 4);
        let note_type = read_u32(data, off + 8);
        let body = off + 12;
        let name_aligned = (namesz + 3) / 4 * 4;
        let desc_aligned = (descsz + 3) / 4 * 4;
        if name_aligned + desc_aligned > (len - body) as u64 {
            return None;
        }
        let desc_start = body + name_aligned as usize;
        let next = desc_start + desc_aligned as usize;
        if note_type == NT_GNU_BUILD_ID as u64 && namesz == 4 && data[body] == 0x47 && data[body + 1] == 0x4e
            && data[body + 2] == 0x55 && data[body + 3] == 0 {
            let desc = &data[desc_start..desc_start + descsz as usize];
            return Some(hex_encode(desc));
        }
        off = next;
    }
    None
}

/// Four little-endian bytes of a 32-bit value.
pub open spec fn le_bytes(v: u32) -> Seq<u8> {
    seq![(v % 256) as u8, ((v / 256) % 256) as u8, ((v / 65536) % 256) as u8, (v / 16777216) as u8]
}

/// `n` zero bytes.
pub open spec fn zeros(n: nat) -> Seq<u8> {
    Seq::new(n, |i: int| 0u8)
}

/// A single GNU build-id note record with the given description, laid out
/// with the name and description each padded to four bytes.
pub open spec fn build_id_note_block(desc: Seq<u8>) -> Seq<u8> {
    le_bytes(4) + le_bytes(desc.len() as u32) + le_bytes(NT_GNU_BUILD_ID) + seq![0x47u8, 0x4eu8, 0x55u8, 0u8]
        + desc + zeros((align4(desc.len() as int) - desc.len()) as nat)
}

/// A well-formed build-id note holding any description is read back as the
/// hexadecimal encoding of exactly that description.
pub proof fn lemma_build_id_round_trip(desc: Seq<u8>)
    requires
        desc.len() < 0x1_0000_0000,
    ensures
        build_id_note(build_id_note_block(desc)) == Some(desc),
        hex_of(build_id_note(build_id_note_block(desc))->0) == hex_of(desc),
{
    let d = build_id_note_block(desc);
    let n = desc.len() as int;
    let pad = align4(n) - n;
    assert(0 <= pad < 4);
    assert(d.len() == 16 + n + pad);
    assert(u32_at(d, 0) == 4);
    let v = n as u32;
    assert(u32_at(d, 4) == n) by {
        assert(d[4] == (v % 256) as u8);
        assert(d[5] == ((v / 256) % 256) as u8);
        assert(d[6] == ((v / 65536) % 256) as u8);
        assert(d[7] == (v / 16777216) as u8);
        assert((v % 256) as int + ((v / 256) % 256) as int * 256 + ((v / 65536) % 256) as int * 65536
            + (v / 16777216) as int * 16777216 == v as int) by (nonlinear_arith)
            requires v < 0x1_0000_0000;
    }
    assert(u32_at(d, 8) == 3);
    assert(gnu_name_at(d, 12));
    assert(align4(4) == 4);
    assert(d.subrange(16, 16 + n) =~= desc);
}

/// A buffer too short for one note header holds no build identifier.
pub proof fn lemma_short_notes_not_found(d: Seq<u8>)
    requires
        d.len() < 12,
    ensures
        build_id_note(d) is None,
{
}

/// A first note whose declared name and description run past the end of the
/// buffer ends the scan: nothing is found and nothing beyond the buffer is read.
pub proof fn lemma_truncated_note_not_found(d: Seq<u8>)
    requires
        d.len() >= 12,
        12 + align4(u32_at(d, 0)) + align4(u32_at(d, 4)) > d.len(),
    ensures
        build_id_note(d) is None,
{
}

/// Whatever the buffer, a description that is found lies within it.
pub proof fn lemma_found_within_buffer(d: Seq<u8>, off: int)
    requires
        0 <= off,
    ensures
        scan_notes(d, off) matches Some(desc) ==> desc.len() <= d.len() - off,
    decreases d.len() - off,
{
    if off + 12 <= d.len() {
        let namesz = u32_at(d, off);
        let descsz = u32_at(d, off + 4);
        let body = off + 12;
        if body + align4(namesz) + align4(descsz) <= d.len() {
            lemma_found_within_buffer(d, body + align4(namesz) + align4(descsz));
        }
    }
}

} // verus!
