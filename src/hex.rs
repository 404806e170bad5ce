//! Single hexadecimal digits: recognising, reading and writing them.
use vstd::prelude::*;

verus! {

/// A character that is an ASCII hexadecimal digit, in either case.
pub open spec fn is_hex_char(c: char) -> bool {
    ('0' <= c && c <= '9') || ('a' <= c && c <= 'f') || ('A' <= c && c <= 'F')
}

/// The value of a hexadecimal digit.
pub open spec fn hex_val(c: char) -> int {
    if '0' <= c && c <= '9' {
        c as int - '0' as int
    } else if 'a' <= c && c <= 'f' {
        c as int - 'a' as int + 10
    } else {
        c as int - 'A' as int + 10
    }
}

/// The uppercase digit for a value below 16.
pub open spec fn upper_digit(n: int) -> char {
    if n < 10 {
        ((n + '0' as int) as u8) as char
    } else {
        ((n - 10 + 'A' as int) as u8) as char
    }
}

/// The lowercase digit for a value below 16.
pub open spec fn lower_digit(n: int) -> char {
    if n < 10 {
        ((n + '0' as int) as u8) as char
    } else {
        ((n - 10 + 'a' as int) as u8) as char
    }
}

/// A hexadecimal digit written in lowercase; every other character unchanged.
pub open spec fn fold_lower(c: char) -> char {
    if 'A' <= c && c <= 'F' {
        ((c as int + 32) as u8) as char
    } else {
        c
    }
}

/// A hexadecimal digit written in uppercase; every other character unchanged.
pub open spec fn fold_upper(c: char) -> char {
    if 'a' <= c && c <= 'f' {
        ((c as int - 32) as u8) as char
    } else {
        c
    }
}

/// Writing a value as a digit and reading it back gives the value.
pub proof fn lemma_digit_round_trip(n: int)
    requires
        0 <= n < 16,
    ensures
        is_hex_char(upper_digit(n)),
        is_hex_char(lower_digit(n)),
        hex_val(upper_digit(n)) == n,
        hex_val(lower_digit(n)) == n,
{
}

/// Reading a digit and writing the value back gives the digit in the chosen case.
pub proof fn lemma_value_round_trip(c: char)
    requires
        is_hex_char(c),
    ensures
        0 <= hex_val(c) < 16,
        upper_digit(hex_val(c)) == fold_upper(c),
        lower_digit(hex_val(c)) == fold_lower(c),
        hex_val(fold_upper(c)) == hex_val(c),
{
}

/// Tells whether `c` is an ASCII hexadecimal digit.
pub fn is_hex_digit(c: char) -> (r: bool)
    ensures
        r == is_hex_char(c),
{
    ('0' <= c && c <= '9') || ('a' <= c && c <= 'f') || ('A' <= c && c <= 'F')
}

/// The value of a hexadecimal digit.
pub fn digit_value(c: char) -> (r: u8)
    requires
        is_hex_char(c),
    ensures
        r as int == hex_val(c),
        r < 16,
{
    let v = c as u32;
    if '0' <= c && c <= '9' {
        (v - '0' as u32) as u8
    } else if 'a' <= c && c <= 'f' {
        (v - 'a' as u32 + 10) as u8
    } else {
        (v - 'A' as u32 + 10) as u8
    }
}

/// The uppercase digit for `n`.
pub fn upper_digit_of(n: u8) -> (r: char)
    requires
        n < 16,
    ensures
        r == upper_digit(n as int),
{
    if n < 10 {
        (n + 48) as char
    } else {
        (n - 10 + 65) as char
    }
}

} // verus!
