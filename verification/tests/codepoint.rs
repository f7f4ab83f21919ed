use marksman_escape::codepoint::{encode_utf8, forbidden, remap_legacy, resolve};

fn utf8(c: char) -> Vec<u8> {
    let mut buf = [0u8; 4];
    c.encode_utf8(&mut buf).as_bytes().to_vec()
}

#[test]
fn encode_utf8_at_the_width_boundaries() {
    assert_eq!(encode_utf8(0x00), vec![0x00]);
    assert_eq!(encode_utf8(0x41), vec![0x41]);
    assert_eq!(encode_utf8(0x7F), vec![0x7F]);
    assert_eq!(encode_utf8(0x80), vec![0xC2, 0x80]);
    assert_eq!(encode_utf8(0x7FF), vec![0xDF, 0xBF]);
    assert_eq!(encode_utf8(0x800), vec![0xE0, 0xA0, 0x80]);
    assert_eq!(encode_utf8(0x20AC), vec![0xE2, 0x82, 0xAC]);
    assert_eq!(encode_utf8(0xFFFD), vec![0xEF, 0xBF, 0xBD]);
    assert_eq!(encode_utf8(0x10000), vec![0xF0, 0x90, 0x80, 0x80]);
    assert_eq!(encode_utf8(0x10FFFF), vec![0xF4, 0x8F, 0xBF, 0xBF]);
}

#[test]
fn encode_utf8_agrees_with_char() {
    let mut v: u32 = 0;
    while v <= 0x10FFFF {
        if let Some(c) = char::from_u32(v) {
            assert_eq!(encode_utf8(v), utf8(c));
        }
        v += 13;
    }
}

#[test]
fn legacy_values_are_remapped() {
    let table: [(u32, char); 27] = [
        (0x80, '\u{20AC}'),
        (0x82, '\u{201A}'),
        (0x83, '\u{0192}'),
        (0x84, '\u{201E}'),
        (0x85, '\u{2026}'),
        (0x86, '\u{2020}'),
        (0x87, '\u{2021}'),
        (0x88, '\u{02C6}'),
        (0x89, '\u{2030}'),
        (0x8A, '\u{0160}'),
        (0x8B, '\u{2039}'),
        (0x8C, '\u{0152}'),
        (0x8E, '\u{017D}'),
        (0x91, '\u{2018}'),
        (0x92, '\u{2019}'),
        (0x93, '\u{201C}'),
        (0x94, '\u{201D}'),
        (0x95, '\u{2022}'),
        (0x96, '\u{2013}'),
        (0x97, '\u{2014}'),
        (0x98, '\u{02DC}'),
        (0x99, '\u{2122}'),
        (0x9A, '\u{0161}'),
        (0x9B, '\u{203A}'),
        (0x9C, '\u{0153}'),
        (0x9E, '\u{017E}'),
        (0x9F, '\u{0178}'),
    ];
    for (value, c) in table.iter() {
        assert_eq!(remap_legacy(*value), Some(*c as u32));
        assert_eq!(resolve(*value), utf8(*c));
    }
    for value in [0x7F, 0x81, 0x8D, 0x8F, 0x90, 0x9D, 0xA0, 0x20AC] {
        assert_eq!(remap_legacy(value), None);
    }
}

#[test]
fn forbidden_ranges() {
    for value in 0x00..=0x08 {
        assert!(forbidden(value));
    }
    assert!(!forbidden(0x09));
    assert!(!forbidden(0x0A));
    assert!(forbidden(0x0B));
    assert!(!forbidden(0x0C));
    for value in 0x0D..=0x1F {
        assert!(forbidden(value));
    }
    assert!(!forbidden(0x20));
    assert!(!forbidden(0x7E));
    for value in 0x7F..=0x9F {
        assert!(forbidden(value));
    }
    assert!(!forbidden(0xA0));
    assert!(!forbidden(0xFDCF));
    for value in 0xFDD0..=0xFDEF {
        assert!(forbidden(value));
    }
    assert!(!forbidden(0xFDF0));
    for plane in 0..=0x10u32 {
        assert!(!forbidden(plane * 0x10000 + 0xFFFD));
        assert!(forbidden(plane * 0x10000 + 0xFFFE));
        assert!(forbidden(plane * 0x10000 + 0xFFFF));
    }
    assert!(!forbidden(0x11FFFE));
    assert!(!forbidden(0xD800));
}

#[test]
fn resolve_substitutes_the_replacement_character() {
    let replacement = utf8('\u{FFFD}');
    assert_eq!(resolve(0), replacement);
    assert_eq!(resolve(0x0B), replacement);
    assert_eq!(resolve(0x1F), replacement);
    assert_eq!(resolve(0x7F), replacement);
    assert_eq!(resolve(0x81), replacement);
    assert_eq!(resolve(0x9D), replacement);
    assert_eq!(resolve(0xFDD0), replacement);
    assert_eq!(resolve(0xFFFE), replacement);
    assert_eq!(resolve(0xFFFF), replacement);
    assert_eq!(resolve(0x1FFFE), replacement);
    assert_eq!(resolve(0x10FFFF), replacement);
    assert_eq!(resolve(0xD800), replacement);
    assert_eq!(resolve(0xDFFF), replacement);
    assert_eq!(resolve(0x110000), replacement);
    assert_eq!(resolve(0x11FFFE), replacement);
    assert_eq!(resolve(u32::MAX), replacement);
}

#[test]
fn resolve_encodes_other_scalars() {
    assert_eq!(resolve(0x09), vec![0x09]);
    assert_eq!(resolve(0x0A), vec![0x0A]);
    assert_eq!(resolve(0x0C), vec![0x0C]);
    assert_eq!(resolve(0x26), vec![0x26]);
    assert_eq!(resolve(0xA0), utf8('\u{A0}'));
    assert_eq!(resolve(0x2E2E), utf8('\u{2E2E}'));
    assert_eq!(resolve(0xFFFD), utf8('\u{FFFD}'));
    assert_eq!(resolve(0x1F600), utf8('\u{1F600}'));
    assert_eq!(resolve(0x10FFFD), utf8('\u{10FFFD}'));
}
