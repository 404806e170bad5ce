use guid_convert::codec::{
    decode_canonical, decode_raw_hex, encode_canonical, encode_raw_hex, reorder, ConvertError,
    Guid,
};
use guid_convert::dispatch::{convert, line_status, status_message, Conversion};
use guid_convert::editor::App;
use guid_convert::shape::{trim, InputShape};

fn chars(s: &str) -> Vec<char> {
    s.chars().collect()
}

const NATURAL: [u8; 16] = [
    0x01, 0x02, 0x03, 0x04, 0x05, 0x06, 0x07, 0x08, 0x09, 0x10, 0x11, 0x12, 0x13, 0x14, 0x15, 0x16,
];

#[test]
fn canonical_decodes_to_natural_bytes() {
    let id = decode_canonical(&chars("01020304-0506-0708-0910-111213141516")).unwrap();
    assert_eq!(id.bytes, NATURAL);
    assert_eq!(
        reorder(&id.bytes),
        [0x04, 0x03, 0x02, 0x01, 0x06, 0x05, 0x08, 0x07, 0x09, 0x10, 0x11, 0x12, 0x13, 0x14, 0x15, 0x16]
    );
    let raw = encode_raw_hex(&id);
    assert_eq!(raw, "04030201060508070910111213141516");
    assert_eq!(raw.len(), 32);
}

#[test]
fn zero_raw_hex_gives_zero_guid() {
    let id = decode_raw_hex(&chars("00000000000000000000000000000000")).unwrap();
    assert_eq!(id.bytes, [0u8; 16]);
    assert_eq!(encode_canonical(&id), "00000000-0000-0000-0000-000000000000");
    assert_eq!(
        line_status(&chars("00000000000000000000000000000000")),
        "✅ GUID: 00000000-0000-0000-0000-000000000000"
    );
}

#[test]
fn not_a_guid_is_unrecognized() {
    let line = chars("not-a-guid");
    assert_eq!(App::input_type_validation(&line), InputShape::Unrecognized);
    assert_eq!(convert(&line), Err(ConvertError::UnrecognizedShape));
    assert_eq!(
        line_status(&line),
        "❌ Invalid input. It's neither raw hex nor guid."
    );
}

#[test]
fn misplaced_hyphens_are_canonical_shaped_but_invalid() {
    let line = chars("0102030-40506-0708-0910-111213141516");
    assert_eq!(line.len(), 36);
    assert_eq!(App::input_type_validation(&line), InputShape::CanonicalShaped);
    assert_eq!(decode_canonical(&line), Err(ConvertError::MalformedCanonical));
    assert_eq!(convert(&line), Err(ConvertError::MalformedCanonical));
    assert_eq!(line_status(&line), "❌ Invalid GUID");
}

#[test]
fn reorder_twice_restores_bytes() {
    let b: [u8; 16] = [
        0xde, 0xad, 0xbe, 0xef, 0x00, 0x11, 0x22, 0x33, 0x44, 0x55, 0x66, 0x77, 0x88, 0x99, 0xaa,
        0xbb,
    ];
    let once = reorder(&b);
    assert_ne!(once, b);
    assert_eq!(reorder(&once), b);
}

#[test]
fn canonical_round_trip_lowercases() {
    let text = "6F9619FF-8B86-D011-B42D-00C04FC964FF";
    let id = decode_canonical(&chars(text)).unwrap();
    assert_eq!(encode_canonical(&id), "6f9619ff-8b86-d011-b42d-00c04fc964ff");
}

#[test]
fn raw_hex_round_trip_uppercases() {
    let text = "ff1996f6868b11d0b42d00c04fc964fe";
    let id = decode_raw_hex(&chars(text)).unwrap();
    assert_eq!(encode_raw_hex(&id), "FF1996F6868B11D0B42D00C04FC964FE");
    assert_eq!(encode_canonical(&id), "f69619ff-8b86-d011-b42d-00c04fc964fe");
}

#[test]
fn both_forms_name_the_same_identifier() {
    let canonical = decode_canonical(&chars("6f9619ff-8b86-d011-b42d-00c04fc964ff")).unwrap();
    let raw = decode_raw_hex(&chars("FF19966F868B11D0B42D00C04FC964FF")).unwrap();
    assert_eq!(canonical, raw);
    let other = decode_raw_hex(&chars("6F9619FF8B86D011B42D00C04FC964FF")).unwrap();
    assert_ne!(canonical, other);
}

#[test]
fn every_line_gets_one_shape() {
    let cases = [
        ("", InputShape::Unrecognized),
        ("   ", InputShape::Unrecognized),
        ("  01020304-0506-0708-0910-111213141516\t", InputShape::CanonicalShaped),
        ("----abcdefghijklmnopqrstuvwxyz012345", InputShape::CanonicalShaped),
        ("\u{3000}0123456789abcdefABCDEF0123456789\n", InputShape::RawHexShaped),
        ("0123456789abcdefABCDEF012345678g", InputShape::Unrecognized),
        ("0123456789abcdef0123456789abcdef0", InputShape::Unrecognized),
        ("01020304-0506-0708-0910-11121314151", InputShape::Unrecognized),
    ];
    for (line, shape) in cases {
        assert_eq!(App::input_type_validation(&chars(line)), shape, "{line:?}");
    }
}

#[test]
fn trim_drops_unicode_white_space() {
    assert_eq!(trim(&chars("\u{2003} a b\u{85}\r\n")), chars("a b"));
    assert_eq!(trim(&chars(" \t ")), Vec::<char>::new());
}

#[test]
fn raw_hex_decode_rejects_bad_input() {
    assert_eq!(decode_raw_hex(&chars("0000000000000000000000000000000")), None);
    assert_eq!(decode_raw_hex(&chars("0000000000000000000000000000000g")), None);
    assert_eq!(decode_raw_hex(&chars("+1000000000000000000000000000000")), None);
}

#[test]
fn canonical_decode_rejects_other_forms() {
    assert_eq!(
        decode_canonical(&chars("0102030405060708091011121314151")),
        Err(ConvertError::MalformedCanonical)
    );
    assert_eq!(
        decode_canonical(&chars("01020304050607080910111213141516")),
        Err(ConvertError::MalformedCanonical)
    );
    assert_eq!(
        decode_canonical(&chars("{01020304-0506-0708-0910-111213141516}")),
        Err(ConvertError::MalformedCanonical)
    );
    assert_eq!(
        decode_canonical(&chars("01020304-0506-0708-0910-11121314151g")),
        Err(ConvertError::MalformedCanonical)
    );
}

#[test]
fn convert_reports_each_form() {
    assert_eq!(
        convert(&chars(" 01020304-0506-0708-0910-111213141516 ")),
        Ok(Conversion::RawHex("04030201060508070910111213141516".to_string()))
    );
    assert_eq!(
        convert(&chars("04030201060508070910111213141516")),
        Ok(Conversion::Canonical("01020304-0506-0708-0910-111213141516".to_string()))
    );
}

#[test]
fn status_lines_for_each_outcome() {
    assert_eq!(
        status_message(&Ok(Conversion::RawHex("AB".to_string()))),
        "✅ Raw Hex: AB"
    );
    assert_eq!(
        status_message(&Ok(Conversion::Canonical("ab".to_string()))),
        "✅ GUID: ab"
    );
    assert_eq!(status_message(&Err(ConvertError::MalformedCanonical)), "❌ Invalid GUID");
    assert_eq!(status_message(&Err(ConvertError::MalformedRawHex)), "❌ Invalid Raw Hex.");
    assert_eq!(
        status_message(&Err(ConvertError::UnrecognizedShape)),
        "❌ Invalid input. It's neither raw hex nor guid."
    );
}

#[test]
fn encode_canonical_writes_every_byte() {
    let id = Guid { bytes: NATURAL };
    assert_eq!(encode_canonical(&id), "01020304-0506-0708-0910-111213141516");
    let id = Guid { bytes: [0xab; 16] };
    assert_eq!(encode_canonical(&id), "abababab-abab-abab-abab-abababababab");
    assert_eq!(encode_raw_hex(&id), "ABABABABABABABABABABABABABABABAB");
}

#[test]
fn editor_inserts_and_deletes_at_cursor() {
    let mut app = App::new();
    assert!(app.input.is_empty());
    assert_eq!(app.character_index, 0);
    for c in "acd".chars() {
        app.enter_char(c);
    }
    assert_eq!(app.character_index, 3);
    app.move_cursor_left();
    app.move_cursor_left();
    app.enter_char('b');
    assert_eq!(app.input, chars("abcd"));
    assert_eq!(app.character_index, 2);
    app.delete_char();
    assert_eq!(app.input, chars("acd"));
    assert_eq!(app.character_index, 1);
    app.move_cursor_left();
    app.delete_char();
    assert_eq!(app.input, chars("acd"));
    assert_eq!(app.character_index, 0);
    app.move_cursor_left();
    assert_eq!(app.character_index, 0);
    for _ in 0..5 {
        app.move_cursor_right();
    }
    assert_eq!(app.character_index, 3);
    app.reset_cursor();
    assert_eq!(app.character_index, 0);
}

#[test]
fn cursor_clamps_to_line_length() {
    let mut app = App::new();
    app.enter_char('x');
    app.enter_char('y');
    assert_eq!(app.clamp_cursor(0), 0);
    assert_eq!(app.clamp_cursor(2), 2);
    assert_eq!(app.clamp_cursor(9), 2);
}

#[test]
fn byte_index_counts_utf8_widths() {
    let mut app = App::new();
    for c in "aé€😀".chars() {
        app.enter_char(c);
    }
    assert_eq!(app.byte_index(), 10);
    app.move_cursor_left();
    assert_eq!(app.byte_index(), 6);
    app.move_cursor_left();
    assert_eq!(app.byte_index(), 3);
    app.reset_cursor();
    assert_eq!(app.byte_index(), 0);
}

#[test]
fn submit_records_status_and_clears_line() {
    let mut app = App::new();
    for c in " 01020304-0506-0708-0910-111213141516 ".chars() {
        app.enter_char(c);
    }
    app.submit_message();
    assert!(app.input.is_empty());
    assert_eq!(app.character_index, 0);
    for c in "xyz".chars() {
        app.enter_char(c);
    }
    app.submit_message();
    assert_eq!(
        app.messages,
        vec![
            "✅ Raw Hex: 04030201060508070910111213141516".to_string(),
            "❌ Invalid input. It's neither raw hex nor guid.".to_string(),
        ]
    );
}

#[test]
fn canonical_shape_is_measured_in_bytes() {
    let line: String = format!("é----{}", "0".repeat(30));
    assert_eq!(line.chars().count(), 35);
    assert_eq!(line.len(), 36);
    let line = chars(&line);
    assert_eq!(App::input_type_validation(&line), InputShape::CanonicalShaped);
    assert_eq!(convert(&line), Err(ConvertError::MalformedCanonical));
    assert_eq!(line_status(&line), "❌ Invalid GUID");

    let wide: String = format!("é----{}", "0".repeat(31));
    assert_eq!(wide.chars().count(), 36);
    assert_eq!(wide.len(), 37);
    let wide = chars(&wide);
    assert_eq!(App::input_type_validation(&wide), InputShape::Unrecognized);
    assert_eq!(
        line_status(&wide),
        "❌ Invalid input. It's neither raw hex nor guid."
    );
}
