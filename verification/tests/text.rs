//! Plain text, held against the standard library.

use stream_painter::text::{
    chars_of, decode_utf16, eq_ignore_ascii_case, escape_ampersands, is_white_space,
    push_decimal, push_hexadecimal, push_signed_decimal, push_utf16, to_ascii_lowercase, trim,
};

#[test]
fn numbers_are_written_as_the_standard_library_writes_them() {
    for n in [0, 7, 10, 99, 16_873, u64::MAX] {
        let mut text = "n=".to_owned();
        push_decimal(&mut text, n);
        assert_eq!(text, format!("n={n}"));
    }
    for n in [0, -1, 42, i64::MIN, i64::MAX] {
        let mut text = String::new();
        push_signed_decimal(&mut text, n);
        assert_eq!(text, n.to_string());
    }
    for n in [0, 9, 10, 15, 16, 0xBEEF, u32::MAX] {
        let mut text = "0x".to_owned();
        push_hexadecimal(&mut text, n);
        assert_eq!(text, format!("0x{n:x}"));
    }
}

#[test]
fn white_space_is_that_of_unicode() {
    for code in 0..=0x10FFFF {
        if let Some(c) = char::from_u32(code) {
            assert_eq!(is_white_space(c), c.is_whitespace(), "{code:x}");
        }
    }
    for text in ["", " ", "a", " a b\t", "\u{3000}全角\u{3000}", "\r\n\n"] {
        assert_eq!(trim(text), text.trim());
    }
}

#[test]
fn utf16_is_that_of_the_standard_library() {
    for text in ["", "abc", "配信用（😀）", "a\0b", "\u{10FFFF}\u{FFFD}"] {
        let mut units = Vec::new();
        push_utf16(&mut units, text);
        assert_eq!(units, text.encode_utf16().collect::<Vec<u16>>());
        assert_eq!(decode_utf16(&units), text);
    }
    let broken: &[&[u16]] = &[
        &[0xD800],
        &[0xDC00, 0x41],
        &[0xD83D, 0x41],
        &[0xD83D, 0xD83D, 0xDE00],
        &[0x41, 0xDBFF, 0xDFFF, 0xDFFF],
    ];
    for units in broken {
        assert_eq!(decode_utf16(units), String::from_utf16_lossy(units));
    }
}

#[test]
fn letters_are_compared_without_their_case() {
    for (left, right) in [("#FFaa", "#ffAA"), ("a", "b"), ("a", "aa"), ("É", "é"), ("", "")] {
        assert_eq!(eq_ignore_ascii_case(left, right), left.eq_ignore_ascii_case(right));
    }
    assert_eq!(to_ascii_lowercase("#FFÄ[Z"), "#FFÄ[Z".to_ascii_lowercase());
    assert_eq!(escape_ampersands("R&B & co"), "R&B & co".replace('&', "&&"));
    assert_eq!(chars_of("aé😀"), vec!['a', 'é', '😀']);
}
