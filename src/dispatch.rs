//! One submitted line in, one converted form or one classified failure out.
use vstd::prelude::*;
use crate::codec::{
    canonical_bytes, canonical_text, decode_canonical, decode_raw_hex, encode_canonical,
    encode_raw_hex, hex_pairs, is_canonical, raw_hex_text, reordered, ConvertError,
};
use crate::shape::{classify_trimmed, shape_of_trimmed, trim, trimmed, InputShape};

verus! {

/// A successful conversion: the other form of the identifier.
#[derive(Debug, PartialEq, Eq)]
pub enum Conversion {
    /// A hyphenated line, given back as 32 uppercase raw hex digits.
    RawHex(String),
    /// A raw hex line, given back in the lowercase hyphenated form.
    Canonical(String),
}

/// What converting line `s` gives: the shape of its trimmed text picks the
/// decoder, and only a hyphenated shape can still fail to decode.
pub open spec fn converts_to(s: Seq<char>, r: Result<Conversion, ConvertError>) -> bool {
    let t = trimmed(s);
    match shape_of_trimmed(t) {
        InputShape::CanonicalShaped => if is_canonical(t) {
            &&& r matches Ok(Conversion::RawHex(h))
            &&& h@ == raw_hex_text(reordered(canonical_bytes(t)))
        } else {
            r == Err::<Conversion, ConvertError>(ConvertError::MalformedCanonical)
        },
        InputShape::RawHexShaped => {
            &&& r matches Ok(Conversion::Canonical(g))
            &&& g@ == canonical_text(reordered(hex_pairs(t)))
        },
        InputShape::Unrecognized => r == Err::<Conversion, ConvertError>(
            ConvertError::UnrecognizedShape,
        ),
    }
}

/// The status line shown for an outcome.
pub open spec fn status_text(r: Result<Conversion, ConvertError>) -> Seq<char> {
    match r {
        Ok(Conversion::RawHex(h)) => "✅ Raw Hex: "@ + h@,
        Ok(Conversion::Canonical(g)) => "✅ GUID: "@ + g@,
        Err(ConvertError::MalformedCanonical) => "❌ Invalid GUID"@,
        Err(ConvertError::MalformedRawHex) => "❌ Invalid Raw Hex."@,
        Err(ConvertError::UnrecognizedShape) => "❌ Invalid input. It's neither raw hex nor guid."@,
    }
}

/// The status line shown for line `s`.
pub open spec fn status_of_line(s: Seq<char>) -> Seq<char> {
    let t = trimmed(s);
    match shape_of_trimmed(t) {
        InputShape::CanonicalShaped => if is_canonical(t) {
            "✅ Raw Hex: "@ + raw_hex_text(reordered(canonical_bytes(t)))
        } else {
            "❌ Invalid GUID"@
        },
        InputShape::RawHexShaped => "✅ GUID: "@ + canonical_text(reordered(hex_pairs(t))),
        InputShape::Unrecognized => "❌ Invalid input. It's neither raw hex nor guid."@,
    }
}

/// Trims the line, classifies it, and converts it to the other form.
pub fn convert(input: &[char]) -> (r: Result<Conversion, ConvertError>)
    ensures
        converts_to(input@, r),
{
    let t = trim(input);
    match classify_trimmed(t.as_slice()) {
        InputShape::CanonicalShaped => match decode_canonical(t.as_slice()) {
            Ok(id) => Ok(Conversion::RawHex(encode_raw_hex(&id))),
            Err(e) => Err(e),
        },
        InputShape::RawHexShaped => match decode_raw_hex(t.as_slice()) {
            Some(id) => Ok(Conversion::Canonical(encode_canonical(&id))),
            None => Err(ConvertError::MalformedRawHex),
        },
        InputShape::Unrecognized => Err(ConvertError::UnrecognizedShape),
    }
}

/// The status line for an outcome: a tick and the converted form, or a
/// cross and what went wrong.
pub fn status_message(r: &Result<Conversion, ConvertError>) -> (m: String)
    ensures
        m@ == status_text(*r),
{
    match r {
        Ok(Conversion::RawHex(h)) => {
            let mut m = String::from_str("✅ Raw Hex: ");
            m.append(h.as_str());
            m
        },
        Ok(Conversion::Canonical(g)) => {
            let mut m = String::from_str("✅ GUID: ");
            m.append(g.as_str());
            m
        },
        Err(ConvertError::MalformedCanonical) => String::from_str("❌ Invalid GUID"),
        Err(ConvertError::MalformedRawHex) => String::from_str("❌ Invalid Raw Hex."),
        Err(ConvertError::UnrecognizedShape) => String::from_str(
            "❌ Invalid input. It's neither raw hex nor guid.",
        ),
    }
}

/// The status line for a submitted line.
pub fn line_status(input: &[char]) -> (m: String)
    ensures
        m@ == status_of_line(input@),
{
    let r = convert(input);
    status_message(&r)
}

} // verus!
