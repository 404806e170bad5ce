//! The identifier, its two text forms, and the byte reorder between them.
use vstd::prelude::*;
use crate::hex::{
    digit_value, fold_lower, fold_upper, hex_val, is_hex_char, is_hex_digit, lower_digit,
    upper_digit, upper_digit_of,
};

verus! {

/// A 128-bit identifier as its 16 bytes in natural (network) order.
#[derive(Clone, Copy, Debug, PartialEq, Eq)]
pub struct Guid {
    pub bytes: [u8; 16],
}

/// Why a line could not be converted.
#[derive(Clone, Copy, Debug, PartialEq, Eq)]
pub enum ConvertError {
    /// The line has neither the length and hyphens of the hyphenated form nor
    /// 32 hexadecimal digits.
    UnrecognizedShape,
    /// The line looked hyphenated but is not a valid 8-4-4-4-12 form.
    MalformedCanonical,
    /// The line is not 32 hexadecimal digits.
    MalformedRawHex,
}

// ---------------------------------------------------------------- the model

/// Where byte `i` of the reordered layout comes from: the first three fields
/// (4, 2 and 2 bytes) are reversed, the last 8 bytes stay.
pub open spec fn swap_index(i: int) -> int {
    if i < 4 {
        3 - i
    } else if i < 6 {
        9 - i
    } else if i < 8 {
        13 - i
    } else {
        i
    }
}

/// The 16 bytes in the mixed-endian layout (and back: the map is its own inverse).
pub open spec fn reordered(b: Seq<u8>) -> Seq<u8> {
    Seq::new(b.len(), |i: int| b[swap_index(i)])
}

/// Byte `j` read from the digit pair at `2j`, `2j + 1`.
pub open spec fn hex_pairs(s: Seq<char>) -> Seq<u8> {
    Seq::new(s.len() / 2, |j: int| (hex_val(s[2 * j]) * 16 + hex_val(s[2 * j + 1])) as u8)
}

/// Exactly 32 hexadecimal digits.
pub open spec fn is_raw_hex(s: Seq<char>) -> bool {
    s.len() == 32 && forall|i: int| 0 <= i < 32 ==> is_hex_char(#[trigger] s[i])
}

/// The high (`k` even) or low (`k` odd) half of byte `k / 2`.
pub open spec fn nibble(b: Seq<u8>, k: int) -> int {
    if k % 2 == 0 {
        b[k / 2] as int / 16
    } else {
        b[k / 2] as int % 16
    }
}

/// The bytes as uppercase digits, two per byte, with no separator.
pub open spec fn raw_hex_text(b: Seq<u8>) -> Seq<char> {
    Seq::new(2 * b.len(), |k: int| upper_digit(nibble(b, k)))
}

/// The positions of the four hyphens in the hyphenated form.
pub open spec fn is_hyphen_pos(i: int) -> bool {
    i == 8 || i == 13 || i == 18 || i == 23
}

/// The 8-4-4-4-12 form: 36 characters, hyphens at the fixed positions and
/// hexadecimal digits, in either case, everywhere else.
pub open spec fn is_canonical(s: Seq<char>) -> bool {
    s.len() == 36 && forall|i: int|
        0 <= i < 36 ==> if is_hyphen_pos(i) {
            #[trigger] s[i] == '-'
        } else {
            is_hex_char(s[i])
        }
}

/// The character position of digit `k` (of 32) in the hyphenated form.
pub open spec fn digit_pos(k: int) -> int {
    k + (if k >= 8 { 1int } else { 0 }) + (if k >= 12 { 1int } else { 0 }) + (if k >= 16 {
        1int
    } else {
        0
    }) + (if k >= 20 { 1int } else { 0 })
}

/// The digit number (of 32) at character position `i` of the hyphenated form.
pub open spec fn digit_rank(i: int) -> int {
    i - (if i > 8 { 1int } else { 0 }) - (if i > 13 { 1int } else { 0 }) - (if i > 18 {
        1int
    } else {
        0
    }) - (if i > 23 { 1int } else { 0 })
}

/// The bytes that a hyphenated form spells, in text order.
pub open spec fn canonical_bytes(s: Seq<char>) -> Seq<u8> {
    Seq::new(
        16,
        |j: int| (hex_val(s[digit_pos(2 * j)]) * 16 + hex_val(s[digit_pos(2 * j + 1)])) as u8,
    )
}

/// The lowercase hyphenated form of 16 bytes.
pub open spec fn canonical_text(b: Seq<u8>) -> Seq<char> {
    Seq::new(
        36,
        |i: int|
            if is_hyphen_pos(i) {
                '-'
            } else {
                lower_digit(nibble(b, digit_rank(i)))
            },
    )
}

/// Every hexadecimal digit in lowercase.
pub open spec fn lowercase(s: Seq<char>) -> Seq<char> {
    s.map_values(|c: char| fold_lower(c))
}

/// Every hexadecimal digit in uppercase.
pub open spec fn uppercase(s: Seq<char>) -> Seq<char> {
    s.map_values(|c: char| fold_upper(c))
}

// ------------------------------------------------------------ outside calls

#[verifier::external_type_specification]
#[verifier::external_body]
pub struct ExUuidError(uuid::Error);

/// Relies on uuid's `Uuid::parse_str` (and `Uuid::into_bytes`): on a string of
/// 36 characters it accepts exactly the hyphenated 8-4-4-4-12 form, digits in
/// either case, and yields the 16 bytes in the order the digits are written.
#[verifier::external_body]
fn parse_hyphenated(text: &[char]) -> (r: Result<[u8; 16], uuid::Error>)
    requires
        text@.len() == 36,
    ensures
        r is Ok <==> is_canonical(text@),
        r is Ok ==> r->Ok_0@ == canonical_bytes(text@),
{
    let s: String = text.iter().collect();
    match uuid::Uuid::parse_str(&s) {
        Ok(u) => Ok(u.into_bytes()),
        Err(e) => Err(e),
    }
}

/// Relies on uuid's `Display for Uuid` (with `Uuid::from_bytes`): the
/// lowercase hyphenated form of the 16 bytes.
#[verifier::external_body]
fn format_hyphenated(b: &[u8; 16]) -> (r: String)
    ensures
        r@ == canonical_text(b@),
{
    uuid::Uuid::from_bytes(*b).to_string()
}

/// Relies on `String: FromIterator<char>`: the string holds the characters in order.
#[verifier::external_body]
pub(crate) fn string_from_chars(v: &Vec<char>) -> (r: String)
    ensures
        r@ == v@,
{
    v.iter().collect()
}

// ------------------------------------------------------------------ the code

/// Swaps the byte order of the first three fields (4, 2 and 2 bytes) and
/// keeps the last 8 bytes.
pub fn reorder(b: &[u8; 16]) -> (r: [u8; 16])
    ensures
        r@ == reordered(b@),
{
    let r: [u8; 16] = [
        b[3],
        b[2],
        b[1],
        b[0],
        b[5],
        b[4],
        b[7],
        b[6],
        b[8],
        b[9],
        b[10],
        b[11],
        b[12],
        b[13],
        b[14],
        b[15],
    ];
    assert(r@ =~= reordered(b@));
    r
}

/// Reads the hyphenated 8-4-4-4-12 form, digits in either case, into the
/// identifier's natural bytes. Any other text is `MalformedCanonical`.
pub fn decode_canonical(text: &[char]) -> (r: Result<Guid, ConvertError>)
    ensures
        r is Ok <==> is_canonical(text@),
        r is Ok ==> r->Ok_0.bytes@ == canonical_bytes(text@),
        r is Err ==> r->Err_0 == ConvertError::MalformedCanonical,
{
    if text.len() != 36 {
        return Err(ConvertError::MalformedCanonical);
    }
    match parse_hyphenated(text) {
        Ok(bytes) => Ok(Guid { bytes }),
        Err(_) => Err(ConvertError::MalformedCanonical),
    }
}

/// Reads 32 hexadecimal digits, two per byte, and reorders the bytes into
/// the identifier's natural order. Any other text gives `None`.
pub fn decode_raw_hex(text: &[char]) -> (r: Option<Guid>)
    ensures
        r is Some <==> is_raw_hex(text@),
        r is Some ==> r->Some_0.bytes@ == reordered(hex_pairs(text@)),
{
    if text.len() != 32 {
        return None;
    }
    let mut i: usize = 0;
    while i < 32
        invariant
            text@.len() == 32,
            i <= 32,
            forall|m: int| 0 <= m < i ==> is_hex_char(#[trigger] text@[m]),
        decreases 32 - i,
    {
        if !is_hex_digit(text[i]) {
            return None;
        }
        i = i + 1;
    }
    let mut v: Vec<u8> = Vec::new();
    let mut j: usize = 0;
    while j < 16
        invariant
            is_raw_hex(text@),
            j <= 16,
            v@.len() == j,
            forall|m: int| 0 <= m < j ==> #[trigger] v@[m] == hex_pairs(text@)[m],
        decreases 16 - j,
    {
        let hi = digit_value(text[2 * j]);
        let lo = digit_value(text[2 * j + 1]);
        v.push(hi * 16 + lo);
        j = j + 1;
    }
    let natural: [u8; 16] = [
        v[0],
        v[1],
        v[2],
        v[3],
        v[4],
        v[5],
        v[6],
        v[7],
        v[8],
        v[9],
        v[10],
        v[11],
        v[12],
        v[13],
        v[14],
        v[15],
    ];
    assert(natural@ =~= hex_pairs(text@));
    Some(Guid { bytes: reorder(&natural) })
}

/// The lowercase hyphenated form of the identifier.
pub fn encode_canonical(id: &Guid) -> (r: String)
    ensures
        r@ == canonical_text(id.bytes@),
{
    format_hyphenated(&id.bytes)
}

/// The identifier's bytes in the mixed-endian layout, as 32 uppercase digits.
pub fn encode_raw_hex(id: &Guid) -> (r: String)
    ensures
        r@ == raw_hex_text(reordered(id.bytes@)),
{
    let b = reorder(&id.bytes);
    let mut out: Vec<char> = Vec::new();
    let mut j: usize = 0;
    while j < 16
        invariant
            b@.len() == 16,
            j <= 16,
            out@.len() == 2 * j,
            forall|k: int| 0 <= k < 2 * j ==> #[trigger] out@[k] == raw_hex_text(b@)[k],
        decreases 16 - j,
    {
        out.push(upper_digit_of(b[j] / 16));
        out.push(upper_digit_of(b[j] % 16));
        j = j + 1;
    }
    assert(out@ =~= raw_hex_text(b@));
    string_from_chars(&out)
}

} // verus!
