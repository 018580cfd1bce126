use vstd::prelude::*;
use vstd::utf8::{decode_utf8, valid_utf8};

verus! {

/// The lowercase hexadecimal digit for a value below sixteen.
pub open spec fn hex_digit(n: int) -> char {
    seq!['0', '1', '2', '3', '4', '5', '6', '7', '8', '9', 'a', 'b', 'c', 'd', 'e', 'f'][n]
}

/// Two lowercase hexadecimal digits per byte, high nibble first.
pub open spec fn hex_of(b: Seq<u8>) -> Seq<char>
    decreases b.len(),
{
    if b.len() == 0 {
        Seq::empty()
    } else {
        seq![hex_digit(b[0] as int / 16), hex_digit(b[0] as int % 16)] + hex_of(b.drop_first())
    }
}

/// ASCII uppercase of a character; every other character is kept.
pub open spec fn ascii_upper(c: char) -> char {
    if 'a' <= c && c <= 'z' {
        ((c as u32) - 32) as char
    } else {
        c
    }
}

/// ASCII lowercase of a character; every other character is kept.
pub open spec fn ascii_lower(c: char) -> char {
    if 'A' <= c && c <= 'Z' {
        ((c as u32) + 32) as char
    } else {
        c
    }
}

pub open spec fn upper_text(s: Seq<char>) -> Seq<char> {
    s.map_values(|c: char| ascii_upper(c))
}

/// Whether two texts are equal once ASCII letters are folded to one case.
pub open spec fn eq_ignore_case(a: Seq<char>, b: Seq<char>) -> bool {
    a.len() == b.len() && forall|i: int| 0 <= i < a.len() ==> ascii_lower(#[trigger] a[i]) == ascii_lower(b[i])
}

/// The canonical hyphenated form of a 16-byte UUID in uppercase
/// hexadecimal: groups of 4, 2, 2, 2 and 6 bytes.
pub open spec fn uuid_text(b: Seq<u8>) -> Seq<char> {
    upper_text(
        hex_of(b.subrange(0, 4)) + seq!['-'] + hex_of(b.subrange(4, 6)) + seq!['-'] + hex_of(
            b.subrange(6, 8),
        ) + seq!['-'] + hex_of(b.subrange(8, 10)) + seq!['-'] + hex_of(b.subrange(10, 16)),
    )
}

/// Relies on hex::encode: two lowercase hexadecimal digits for each byte, in order.
#[verifier::external_body]
pub(crate) fn hex_encode(b: &[u8]) -> (r: String)
    ensures
        r@ == hex_of(b@),
{
    hex::encode(b)
}

/// Relies on uuid's `Hyphenated::encode_upper`: the 8-4-4-4-12 grouping of
/// the bytes in uppercase hexadecimal.
#[verifier::external_body]
pub(crate) fn format_uuid(b: &[u8; 16]) -> (r: String)
    ensures
        r@ == uuid_text(b@),
{
    let mut buf = uuid::Uuid::encode_buffer();
    uuid::Uuid::from_bytes(*b).hyphenated().encode_upper(&mut buf).to_string()
}

/// Relies on std::str::from_utf8: it accepts exactly the valid UTF-8
/// sequences, and decodes them.
#[verifier::external_body]
pub(crate) fn utf8_text(b: &[u8]) -> (r: Option<String>)
    ensures
        r is Some <==> valid_utf8(b@),
        r matches Some(s) ==> s@ == decode_utf8(b@),
{
    std::str::from_utf8(b).ok().map(|s| s.to_string())
}

/// Relies on str::eq_ignore_ascii_case: equal after ASCII lowercasing.
#[verifier::external_body]
pub(crate) fn same_ignoring_case(a: &str, b: &str) -> (r: bool)
    ensures
        r == eq_ignore_case(a@, b@),
{
    a.eq_ignore_ascii_case(b)
}

/// The bytes before the first NUL, or `None` where the buffer holds no NUL.
pub open spec fn before_nul(d: Seq<u8>) -> Option<Seq<u8>> {
    if exists|i: int| 0 <= i < d.len() && d[i] == 0 && forall|j: int| 0 <= j < i ==> d[j] != 0 {
        let i = choose|i: int| 0 <= i < d.len() && d[i] == 0 && forall|j: int| 0 <= j < i ==> d[j] != 0;
        Some(d.subrange(0, i))
    } else {
        None
    }
}

/// The text up to the first NUL byte, where there is one and what precedes
/// it is valid UTF-8.
pub open spec fn nul_terminated_spec(d: Seq<u8>) -> Option<Seq<char>> {
    match before_nul(d) {
        Some(b) => if valid_utf8(b) { Some(decode_utf8(b)) } else { None },
        None => None,
    }
}

/// Reads a NUL-terminated UTF-8 string from the start of `data`.
pub fn nul_terminated(data: &[u8]) -> (r: Option<String>)
    ensures
        r is Some <==> nul_terminated_spec(data@) is Some,
        r matches Some(s) ==> nul_terminated_spec(data@) == Some(s@),
{
    let mut i: usize = 0;
    while i < data.len()
        invariant
            i <= data.len(),
            forall|j: int| 0 <= j < i ==> data@[j] != 0,
        decreases data.len() - i,
    {
        if data[i] == 0 {
            let head = &data[0..i];
            proof {
                let k = choose|k: int| 0 <= k < data@.len() && data@[k] == 0 && forall|j: int| 0 <= j < k ==> data@[j] != 0;
                assert(k == i) by {
                    if k < i {
                    } else if k > i {
                        assert(data@[i as int] == 0);
                    }
                }
            }
            return utf8_text(head);
        }
        i = i + 1;
    }
    None
}

/// Minimal lowercase hexadecimal digits of a number (at least one digit).
pub open spec fn hex_num(v: nat) -> Seq<char>
    decreases v,
{
    if v < 16 {
        seq![hex_digit(v as int)]
    } else {
        hex_num(v / 16) + seq![hex_digit((v % 16) as int)]
    }
}

/// Relies on std's `LowerHex` formatting of integers: the minimal run of
/// lowercase hexadecimal digits, without prefix.
#[verifier::external_body]
pub(crate) fn lower_hex(v: u64) -> (r: String)
    ensures
        r@ == hex_num(v as nat),
{
    format!("{:x}", v)
}

/// `"0x"` followed by the minimal lowercase hexadecimal digits of `v`.
pub open spec fn address_text(v: nat) -> Seq<char> {
    "0x"@ + hex_num(v)
}

/// Formats an address as `0x` and lowercase hexadecimal digits.
pub fn address_string(v: u64) -> (r: String)
    ensures
        r@ == address_text(v as nat),
{
    let mut s = String::from_str("0x");
    let digits = lower_hex(v);
    s.append(digits.as_str());
    s
}

/// The name used for an unrecognised machine code: `Unknown (0x..)`.
pub open spec fn unknown_text(v: nat) -> Seq<char> {
    "Unknown (0x"@ + hex_num(v) + ")"@
}

pub fn unknown_string(v: u64) -> (r: String)
    ensures
        r@ == unknown_text(v as nat),
{
    let mut s = String::from_str("Unknown (0x");
    let digits = lower_hex(v);
    s.append(digits.as_str());
    s.append(")");
    s
}

/// Whether `p` occurs in `s` starting at position `i`.
pub open spec fn occurs_at(s: Seq<char>, p: Seq<char>, i: int) -> bool {
    0 <= i && i + p.len() <= s.len() && s.subrange(i, i + p.len()) == p
}

pub open spec fn has_prefix(s: Seq<char>, p: Seq<char>) -> bool {
    occurs_at(s, p, 0)
}

pub open spec fn has_suffix(s: Seq<char>, p: Seq<char>) -> bool {
    occurs_at(s, p, s.len() - p.len())
}

pub open spec fn has_infix(s: Seq<char>, p: Seq<char>) -> bool {
    exists|i: int| occurs_at(s, p, i)
}

fn matches_at(s: &str, p: &str, i: usize) -> (r: bool)
    requires
        i + p@.len() <= s@.len(),
        s@.len() <= usize::MAX,
    ensures
        r == occurs_at(s@, p@, i as int),
{
    let n = p.unicode_len();
    let mut j: usize = 0;
    while j < n
        invariant
            n == p@.len(),
            i + n <= s@.len(),
            s@.len() <= usize::MAX,
            j <= n,
            forall|k: int| 0 <= k < j ==> s@[i + k] == p@[k],
        decreases n - j,
    {
        if s.get_char(i + j) != p.get_char(j) {
            assert(s@.subrange(i as int, i + n)[j as int] != p@[j as int]);
            return false;
        }
        j = j + 1;
    }
    assert(s@.subrange(i as int, i + n) =~= p@);
    true
}

/// Whether `s` begins with `p`.
pub fn starts_with(s: &str, p: &str) -> (r: bool)
    ensures
        r == has_prefix(s@, p@),
{
    let n = s.unicode_len();
    let m = p.unicode_len();
    if m > n {
        return false;
    }
    matches_at(s, p, 0)
}

/// Whether `s` ends with `p`.
pub fn ends_with(s: &str, p: &str) -> (r: bool)
    ensures
        r == has_suffix(s@, p@),
{
    let n = s.unicode_len();
    let m = p.unicode_len();
    if m > n {
        return false;
    }
    matches_at(s, p, n - m)
}

/// Whether `p` occurs anywhere in `s`.
pub fn contains(s: &str, p: &str) -> (r: bool)
    ensures
        r == has_infix(s@, p@),
{
    let n = s.unicode_len();
    let m = p.unicode_len();
    if m > n {
        return false;
    }
    if m == 0 {
        assert(s@.subrange(0, 0) =~= p@);
        assert(occurs_at(s@, p@, 0));
        return true;
    }
    let mut i: usize = 0;
    while i <= n - m
        invariant
            n == s@.len(),
            m == p@.len(),
            0 < m <= n,
            forall|k: int| 0 <= k < i ==> !occurs_at(s@, p@, k),
        decreases n - m + 1 - i,
    {
        if matches_at(s, p, i) {
            assert(occurs_at(s@, p@, i as int));
            return true;
        }
        i = i + 1;
    }
    assert forall|k: int| !occurs_at(s@, p@, k) by {
        if 0 <= k < i {
        }
    }
    false
}

/// Whether a string holds exactly the given text.
pub fn same_text(a: &String, b: &str) -> (r: bool)
    ensures
        r == (a@ == b@),
{
    let t = String::from_str(b);
    *a == t
}

/// Lexicographic order on texts by character code, as `str`'s ordering
/// yields on UTF-8 bytes.
pub open spec fn lex_le(a: Seq<char>, b: Seq<char>) -> bool
    decreases a.len(),
{
    if a.len() == 0 {
        true
    } else if b.len() == 0 {
        false
    } else if a[0] != b[0] {
        (a[0] as u32) < (b[0] as u32)
    } else {
        lex_le(a.drop_first(), b.drop_first())
    }
}

pub open spec fn text_views(v: Seq<String>) -> Seq<Seq<char>> {
    v.map_values(|s: String| s@)
}

/// Relies on slice::sort for `String`: the same strings, in non-decreasing
/// lexicographic order.
#[verifier::external_body]
pub(crate) fn sort_texts(v: &mut Vec<String>)
    ensures
        text_views(final(v)@).to_multiset() == text_views(old(v)@).to_multiset(),
        final(v)@.len() == old(v)@.len(),
        forall|i: int, j: int|
            0 <= i < j < final(v)@.len() ==> lex_le(#[trigger] final(v)@[i]@, #[trigger] final(v)@[j]@),
{
    v.sort()
}

} // verus!
