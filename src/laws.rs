//! What holds across the codec's functions, stated over the model that their
//! contracts use.
use vstd::prelude::*;
use crate::codec::{
    canonical_bytes, canonical_text, digit_pos, digit_rank, hex_pairs, is_canonical,
    is_hyphen_pos, is_raw_hex, lowercase, nibble, raw_hex_text, reordered, swap_index,
    uppercase,
};
use crate::hex::{hex_val, is_hex_char, lemma_digit_round_trip, lemma_value_round_trip};

verus! {

proof fn lemma_byte_halves(h: int, l: int)
    requires
        0 <= h < 16,
        0 <= l < 16,
    ensures
        ((h * 16 + l) as u8) as int / 16 == h,
        ((h * 16 + l) as u8) as int % 16 == l,
{
    assert(0 <= h * 16 + l < 256) by (nonlinear_arith)
        requires
            0 <= h < 16,
            0 <= l < 16,
    ;
    assert((h * 16 + l) / 16 == h && (h * 16 + l) % 16 == l) by (nonlinear_arith)
        requires
            0 <= h < 16,
            0 <= l < 16,
    ;
}

proof fn lemma_byte_from_halves(b: u8)
    ensures
        ((b as int / 16) * 16 + b as int % 16) as u8 == b,
        0 <= b as int / 16 < 16,
        0 <= b as int % 16 < 16,
{
}

/// Reordering twice gives back the bytes that were reordered.
pub proof fn lemma_reorder_involution(b: Seq<u8>)
    requires
        b.len() == 16,
    ensures
        reordered(reordered(b)) == b,
{
    assert forall|i: int| 0 <= i < 16 implies swap_index(swap_index(i)) == i by {}
    assert(reordered(reordered(b)) =~= b);
}

/// Writing out the bytes that a hyphenated form spells gives that form back,
/// with its digits in lowercase.
pub proof fn lemma_canonical_round_trip(s: Seq<char>)
    requires
        is_canonical(s),
    ensures
        canonical_text(canonical_bytes(s)) == lowercase(s),
{
    let b = canonical_bytes(s);
    assert forall|i: int| 0 <= i < 36 implies #[trigger] canonical_text(b)[i] == lowercase(s)[i] by {
        if !is_hyphen_pos(i) {
            let k = digit_rank(i);
            let j = k / 2;
            assert(0 <= k < 32 && digit_pos(k) == i);
            assert(0 <= j < 16);
            assert(2 * j == k || 2 * j + 1 == k);
            let hc = s[digit_pos(2 * j)];
            let lc = s[digit_pos(2 * j + 1)];
            assert(is_hex_char(hc));
            assert(is_hex_char(lc));
            lemma_value_round_trip(hc);
            lemma_value_round_trip(lc);
            lemma_value_round_trip(s[i]);
            lemma_byte_halves(hex_val(hc), hex_val(lc));
        }
    }
    assert(canonical_text(b) =~= lowercase(s));
}

proof fn lemma_text_round_trip(s: Seq<char>)
    requires
        is_raw_hex(s),
    ensures
        raw_hex_text(hex_pairs(s)) == uppercase(s),
{
    let b = hex_pairs(s);
    assert forall|k: int| 0 <= k < 32 implies #[trigger] raw_hex_text(b)[k] == uppercase(s)[k] by {
        let j = k / 2;
        assert(is_hex_char(s[2 * j]));
        assert(is_hex_char(s[2 * j + 1]));
        lemma_value_round_trip(s[2 * j]);
        lemma_value_round_trip(s[2 * j + 1]);
        lemma_value_round_trip(s[k]);
        lemma_byte_halves(hex_val(s[2 * j]), hex_val(s[2 * j + 1]));
    }
    assert(raw_hex_text(b) =~= uppercase(s));
}

proof fn lemma_pairs_of_text(b: Seq<u8>)
    requires
        b.len() == 16,
    ensures
        hex_pairs(raw_hex_text(b)) == b,
{
    let t = raw_hex_text(b);
    assert forall|j: int| 0 <= j < 16 implies #[trigger] hex_pairs(t)[j] == b[j] by {
        lemma_byte_from_halves(b[j]);
        assert((2 * j) / 2 == j && (2 * j + 1) / 2 == j);
        assert(nibble(b, 2 * j) == b[j] as int / 16);
        assert(nibble(b, 2 * j + 1) == b[j] as int % 16);
        lemma_digit_round_trip(b[j] as int / 16);
        lemma_digit_round_trip(b[j] as int % 16);
    }
    assert(hex_pairs(t) =~= b);
}

proof fn lemma_pairs_ignore_case(s: Seq<char>)
    requires
        is_raw_hex(s),
    ensures
        hex_pairs(uppercase(s)) == hex_pairs(s),
{
    let u = uppercase(s);
    assert forall|j: int| 0 <= j < 16 implies #[trigger] hex_pairs(u)[j] == hex_pairs(s)[j] by {
        assert(is_hex_char(s[2 * j]));
        assert(is_hex_char(s[2 * j + 1]));
        lemma_value_round_trip(s[2 * j]);
        lemma_value_round_trip(s[2 * j + 1]);
    }
    assert(hex_pairs(u) =~= hex_pairs(s));
}

/// Decoding 32 digits and encoding the result gives the digits back in
/// uppercase.
pub proof fn lemma_raw_hex_round_trip(s: Seq<char>)
    requires
        is_raw_hex(s),
    ensures
        raw_hex_text(reordered(reordered(hex_pairs(s)))) == uppercase(s),
{
    lemma_reorder_involution(hex_pairs(s));
    lemma_text_round_trip(s);
}

/// A hyphenated form and a raw hex form stand for the same identifier exactly
/// when the raw hex form, in uppercase, is the reordered bytes of the
/// hyphenated one written out.
pub proof fn lemma_cross_form(s: Seq<char>, t: Seq<char>)
    requires
        is_canonical(s),
        is_raw_hex(t),
    ensures
        reordered(hex_pairs(t)) == canonical_bytes(s) <==> uppercase(t) == raw_hex_text(
            reordered(canonical_bytes(s)),
        ),
{
    let cb = canonical_bytes(s);
    lemma_raw_hex_round_trip(t);
    if uppercase(t) == raw_hex_text(reordered(cb)) {
        lemma_pairs_ignore_case(t);
        lemma_pairs_of_text(reordered(cb));
        lemma_reorder_involution(cb);
    }
}

} // verus!
