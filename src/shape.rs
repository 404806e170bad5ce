//! Deciding, from length and character set alone, which form a line claims
//! to be in.
use vstd::prelude::*;
use crate::codec::is_raw_hex;
use crate::hex::{is_hex_char, is_hex_digit};

verus! {

/// The form a line appears to be in, judged by its shape only.
#[derive(Clone, Copy, Debug, PartialEq, Eq)]
pub enum InputShape {
    /// 36 bytes in UTF-8, four of them hyphens, wherever they stand.
    CanonicalShaped,
    /// 32 hexadecimal digits.
    RawHexShaped,
    /// Anything else.
    Unrecognized,
}

/// Unicode's White_Space characters.
pub open spec fn is_white(c: char) -> bool {
    let v = c as u32;
    (0x09 <= v && v <= 0x0d) || v == 0x20 || v == 0x85 || v == 0xa0 || v == 0x1680 || (0x2000
        <= v && v <= 0x200a) || v == 0x2028 || v == 0x2029 || v == 0x202f || v == 0x205f || v
        == 0x3000
}

/// The text without its leading white space.
pub open spec fn trim_front(s: Seq<char>) -> Seq<char>
    decreases s.len(),
{
    if s.len() > 0 && is_white(s[0]) {
        trim_front(s.drop_first())
    } else {
        s
    }
}

/// The text without its trailing white space.
pub open spec fn trim_back(s: Seq<char>) -> Seq<char>
    decreases s.len(),
{
    if s.len() > 0 && is_white(s.last()) {
        trim_back(s.drop_last())
    } else {
        s
    }
}

/// The text without leading or trailing white space.
pub open spec fn trimmed(s: Seq<char>) -> Seq<char> {
    trim_back(trim_front(s))
}

/// How many hyphens the text holds.
pub open spec fn hyphen_count(s: Seq<char>) -> nat
    decreases s.len(),
{
    if s.len() == 0 {
        0
    } else {
        hyphen_count(s.drop_last()) + if s.last() == '-' {
            1nat
        } else {
            0
        }
    }
}

/// How many bytes `c` takes in UTF-8.
pub open spec fn char_width(c: char) -> nat {
    let v = c as u32;
    if v < 0x80 {
        1
    } else if v < 0x800 {
        2
    } else if v < 0x10000 {
        3
    } else {
        4
    }
}

/// How many bytes the characters take in UTF-8.
pub open spec fn utf8_len(s: Seq<char>) -> nat
    decreases s.len(),
{
    if s.len() == 0 {
        0
    } else {
        utf8_len(s.drop_last()) + char_width(s.last())
    }
}

/// Every character takes at least one byte.
proof fn lemma_utf8_len_at_least_len(s: Seq<char>)
    ensures
        utf8_len(s) >= s.len(),
    decreases s.len(),
{
    if s.len() > 0 {
        lemma_utf8_len_at_least_len(s.drop_last());
    }
}

/// The shape of a text that is already trimmed: its length is measured in
/// UTF-8 bytes.
pub open spec fn shape_of_trimmed(t: Seq<char>) -> InputShape {
    if utf8_len(t) == 36 && hyphen_count(t) == 4 {
        InputShape::CanonicalShaped
    } else if is_raw_hex(t) {
        InputShape::RawHexShaped
    } else {
        InputShape::Unrecognized
    }
}

/// The shape of a line, judged on its trimmed text.
pub open spec fn shape_of(s: Seq<char>) -> InputShape {
    shape_of_trimmed(trimmed(s))
}

/// Tells whether `c` is white space in Unicode's sense.
pub fn is_white_space(c: char) -> (r: bool)
    ensures
        r == is_white(c),
{
    let v = c as u32;
    (0x09 <= v && v <= 0x0d) || v == 0x20 || v == 0x85 || v == 0xa0 || v == 0x1680 || (0x2000
        <= v && v <= 0x200a) || v == 0x2028 || v == 0x2029 || v == 0x202f || v == 0x205f || v
        == 0x3000
}

/// The line without leading or trailing white space.
pub fn trim(s: &[char]) -> (r: Vec<char>)
    ensures
        r@ == trimmed(s@),
{
    let n = s.len();
    let mut i: usize = 0;
    assert(s@.subrange(0, n as int) =~= s@);
    while i < n && is_white_space(s[i])
        invariant
            n == s@.len(),
            i <= n,
            trim_front(s@.subrange(i as int, n as int)) == trim_front(s@),
        decreases n - i,
    {
        assert(s@.subrange(i as int + 1, n as int) =~= s@.subrange(i as int, n as int).drop_first());
        i = i + 1;
    }
    assert(trim_front(s@.subrange(i as int, n as int)) == s@.subrange(i as int, n as int));
    let mut j: usize = n;
    while j > i && is_white_space(s[j - 1])
        invariant
            n == s@.len(),
            i <= j <= n,
            trim_back(s@.subrange(i as int, j as int)) == trimmed(s@),
        decreases j,
    {
        assert(s@.subrange(i as int, j as int - 1) =~= s@.subrange(i as int, j as int).drop_last());
        j = j - 1;
    }
    let mut r: Vec<char> = Vec::new();
    let mut k: usize = i;
    while k < j
        invariant
            n == s@.len(),
            i <= k <= j <= n,
            r@ == s@.subrange(i as int, k as int),
        decreases j - k,
    {
        r.push(s[k]);
        assert(r@ =~= s@.subrange(i as int, k as int + 1));
        k = k + 1;
    }
    r
}

/// How many bytes the first `end` characters of `s` take in UTF-8.
pub fn utf8_prefix_len(s: &[char], end: usize) -> (r: usize)
    requires
        end <= s@.len() <= usize::MAX / 4,
    ensures
        r == utf8_len(s@.take(end as int)),
{
    let mut sum: usize = 0;
    let mut i: usize = 0;
    while i < end
        invariant
            end <= s@.len() <= usize::MAX / 4,
            i <= end,
            sum <= 4 * i,
            sum == utf8_len(s@.take(i as int)),
        decreases end - i,
    {
        assert(s@.take(i as int + 1).drop_last() =~= s@.take(i as int));
        let v = s[i] as u32;
        let w: usize = if v < 0x80 {
            1
        } else if v < 0x800 {
            2
        } else if v < 0x10000 {
            3
        } else {
            4
        };
        sum = sum + w;
        i = i + 1;
    }
    sum
}

/// How many hyphens `t` holds.
pub fn count_hyphens(t: &[char]) -> (r: usize)
    ensures
        r == hyphen_count(t@),
{
    let mut cnt: usize = 0;
    let mut i: usize = 0;
    while i < t.len()
        invariant
            i <= t@.len(),
            cnt <= i,
            cnt == hyphen_count(t@.subrange(0, i as int)),
        decreases t@.len() - i,
    {
        assert(t@.subrange(0, i as int + 1).drop_last() =~= t@.subrange(0, i as int));
        if t[i] == '-' {
            cnt = cnt + 1;
        }
        i = i + 1;
    }
    assert(t@.subrange(0, t@.len() as int) =~= t@);
    cnt
}

/// The shape of a text that is already trimmed.
pub fn classify_trimmed(t: &[char]) -> (r: InputShape)
    ensures
        r == shape_of_trimmed(t@),
{
    proof {
        lemma_utf8_len_at_least_len(t@);
        assert(t@.take(t@.len() as int) =~= t@);
    }
    let mut canonical_shaped = false;
    if t.len() <= 36 {
        let width = utf8_prefix_len(t, t.len());
        canonical_shaped = width == 36 && count_hyphens(t) == 4;
    }
    assert(canonical_shaped <==> (utf8_len(t@) == 36 && hyphen_count(t@) == 4));
    if canonical_shaped {
        return InputShape::CanonicalShaped;
    }
    if t.len() != 32 {
        return InputShape::Unrecognized;
    }
    let mut i: usize = 0;
    while i < 32
        invariant
            t@.len() == 32,
            i <= 32,
            !(utf8_len(t@) == 36 && hyphen_count(t@) == 4),
            forall|m: int| 0 <= m < i ==> is_hex_char(#[trigger] t@[m]),
        decreases 32 - i,
    {
        if !is_hex_digit(t[i]) {
            return InputShape::Unrecognized;
        }
        i = i + 1;
    }
    InputShape::RawHexShaped
}

} // verus!
