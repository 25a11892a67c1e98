use sqlite3_chromaprint::codec::CodecError;
use sqlite3_chromaprint::text::{fingerprint_text, parse_fingerprint, text_bytes};

#[test]
fn text_is_the_base64_of_the_big_endian_bytes() {
    assert_eq!(fingerprint_text(&[0x0102_0304]), "AQIDBA==");
    assert_eq!(fingerprint_text(&[0x0102_0304, 0x0506_0708, 0x090A_0B0C]), "AQIDBAUGBwgJCgsM");
    assert_eq!(fingerprint_text(&[u32::MAX]), "/////w==");
    assert_eq!(fingerprint_text(&[0xFBEF_BE00, 0]), "++++AAAAAAA=");
}

#[test]
fn text_of_the_empty_fingerprint_is_empty() {
    assert_eq!(fingerprint_text(&[]), "");
    assert_eq!(parse_fingerprint(""), Ok(vec![]));
}

#[test]
fn text_has_four_characters_for_every_three_bytes() {
    for count in 0..50usize {
        let codes = vec![0xA5A5_5A5Au32; count];
        assert_eq!(fingerprint_text(&codes).len(), 4 * ((4 * count + 2) / 3));
    }
}

#[test]
fn parse_reads_what_fingerprint_text_wrote() {
    let fingerprint: Vec<u32> = (0..777u32).map(|i| i.wrapping_mul(2_654_435_761)).collect();
    assert_eq!(parse_fingerprint(&fingerprint_text(&fingerprint)), Ok(fingerprint));
}

#[test]
fn parse_reads_known_text() {
    assert_eq!(parse_fingerprint("AQIDBA=="), Ok(vec![0x0102_0304]));
    assert_eq!(parse_fingerprint("3q2+7wAAAAE="), Ok(vec![0xDEAD_BEEF, 1]));
}

#[test]
fn parse_passes_over_white_space_at_the_ends() {
    assert_eq!(parse_fingerprint("  AQIDBA==\n"), Ok(vec![0x0102_0304]));
    assert_eq!(parse_fingerprint("\t\r\nAQIDBAUGBwg= "), Ok(vec![0x0102_0304, 0x0506_0708]));
    assert_eq!(parse_fingerprint(" \n "), Ok(vec![]));
}

#[test]
fn parse_rejects_white_space_inside() {
    assert_eq!(parse_fingerprint("AQID BA=="), Err(CodecError::EncodingError));
}

#[test]
fn parse_rejects_what_is_not_base64() {
    assert_eq!(parse_fingerprint("not base64!"), Err(CodecError::EncodingError));
    assert_eq!(parse_fingerprint("AQIDBA"), Err(CodecError::EncodingError));
    assert_eq!(parse_fingerprint("AQIDBA="), Err(CodecError::EncodingError));
    assert_eq!(parse_fingerprint("A"), Err(CodecError::EncodingError));
    assert_eq!(parse_fingerprint("AQ-_"), Err(CodecError::EncodingError));
}

#[test]
fn parse_rejects_bytes_that_are_not_whole_codes() {
    assert_eq!(parse_fingerprint("AQID"), Err(CodecError::CodecFormatError));
    assert_eq!(parse_fingerprint("AQ=="), Err(CodecError::CodecFormatError));
    assert_eq!(parse_fingerprint("AQIDBAU="), Err(CodecError::CodecFormatError));
    assert_eq!(parse_fingerprint("AQIDBAUGBw=="), Err(CodecError::CodecFormatError));
}

#[test]
fn text_bytes_reads_base64() {
    assert_eq!(text_bytes("AQID"), Ok(vec![1, 2, 3]));
    assert_eq!(text_bytes(" aGVsbG8= "), Ok(b"hello".to_vec()));
    assert_eq!(text_bytes(""), Ok(vec![]));
    assert_eq!(text_bytes("*"), Err(CodecError::EncodingError));
}

#[test]
fn parse_passes_over_every_kind_of_white_space() {
    let white: [u32; 25] = [
        0x09, 0x0A, 0x0B, 0x0C, 0x0D, 0x20, 0x85, 0xA0, 0x1680, 0x2000, 0x2001, 0x2002, 0x2003,
        0x2004, 0x2005, 0x2006, 0x2007, 0x2008, 0x2009, 0x200A, 0x2028, 0x2029, 0x202F, 0x205F,
        0x3000,
    ];
    for code in white {
        let c = char::from_u32(code).unwrap();
        assert_eq!(parse_fingerprint(&format!("{}AQIDBA==", c)), Ok(vec![0x0102_0304]));
        assert_eq!(parse_fingerprint(&format!("AQIDBA=={}", c)), Ok(vec![0x0102_0304]));
        assert_eq!(parse_fingerprint(&format!("{}{}AQIDBA=={}", c, c, c)), Ok(vec![0x0102_0304]));
    }
}

#[test]
fn parse_does_not_pass_over_what_is_no_white_space() {
    let other: [u32; 16] = [
        0x00, 0x08, 0x0E, 0x1C, 0x1F, 0x21, 0x7F, 0x84, 0x86, 0x9F, 0xA1, 0x180E, 0x200B, 0x2060,
        0x3001, 0xFEFF,
    ];
    for code in other {
        let c = char::from_u32(code).unwrap();
        assert_eq!(parse_fingerprint(&format!("{}AQIDBA==", c)), Err(CodecError::EncodingError));
        assert_eq!(parse_fingerprint(&format!("AQIDBA=={}", c)), Err(CodecError::EncodingError));
    }
}

#[test]
fn text_is_made_of_base64_symbols() {
    let fingerprint: Vec<u32> = (0..3000u32).map(|i| i.wrapping_mul(2_246_822_519) ^ i).collect();
    let text = fingerprint_text(&fingerprint);
    assert!(text
        .chars()
        .all(|c| c.is_ascii_alphanumeric() || c == '+' || c == '/' || c == '='));
    assert_eq!(text.trim(), text);
}

#[test]
fn text_ends_in_the_padding_that_fills_the_last_four() {
    for count in 0..30usize {
        let codes: Vec<u32> = (0..count as u32).map(|i| i.wrapping_mul(0x0101_0101) ^ 0xFFFF).collect();
        let text = fingerprint_text(&codes);
        let padding = match count % 3 {
            0 => 0,
            1 => 2,
            _ => 1,
        };
        assert_eq!(text.len(), 4 * ((4 * count + 2) / 3));
        let (digits, pad) = text.split_at(text.len() - padding);
        assert!(pad.chars().all(|c| c == '='));
        assert!(digits
            .chars()
            .all(|c| c.is_ascii_alphanumeric() || c == '+' || c == '/'));
    }
}
