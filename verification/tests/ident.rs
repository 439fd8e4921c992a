use wallpaper_setter::ident::{is_blank_id, is_white_space_char};

#[test]
fn white_space_is_what_std_calls_white_space() {
    let mut n: u32 = 0;
    let mut white = 0;
    while n <= 0x10FFFF {
        if let Some(c) = char::from_u32(n) {
            assert_eq!(is_white_space_char(c), c.is_whitespace(), "U+{:04X}", n);
            if is_white_space_char(c) {
                white += 1;
            }
        }
        n += 1;
    }
    assert_eq!(white, 25);
}

#[test]
fn white_space_at_the_edges_of_its_ranges() {
    for c in ['\u{9}', '\u{D}', ' ', '\u{85}', '\u{A0}', '\u{1680}', '\u{2000}', '\u{200A}',
        '\u{2028}', '\u{2029}', '\u{202F}', '\u{205F}', '\u{3000}']
    {
        assert!(is_white_space_char(c));
    }
    for c in ['\u{8}', '\u{E}', '\u{1F}', '!', '\u{84}', '\u{86}', '\u{180E}', '\u{1FFF}',
        '\u{200B}', '\u{2027}', '\u{202A}', '\u{2060}', '\u{FEFF}', '\0', 'a']
    {
        assert!(!is_white_space_char(c));
    }
}

#[test]
fn blank_ids() {
    assert!(is_blank_id(""));
    assert!(is_blank_id(" "));
    assert!(is_blank_id(" \t\r\n\u{B}\u{C}"));
    assert!(is_blank_id("\u{2003}\u{3000}"));
}

#[test]
fn ids_that_are_not_blank() {
    assert!(!is_blank_id("DEV1"));
    assert!(!is_blank_id("  x"));
    assert!(!is_blank_id("x  "));
    assert!(!is_blank_id("   \u{200B}"));
    assert!(!is_blank_id("\0"));
    assert!(!is_blank_id("\\\\?\\DISPLAY#DEL4187#5&1a2b3c&0&UID4352#{e6f07b5f-ee97-4a90-b076-33f57bf4eaa7}"));
}

#[test]
fn blank_is_what_trims_to_nothing() {
    let samples = ["", " ", "a", " a ", "\u{A0}", "\u{A0}\u{1680}", "\u{FEFF}", "\n\n", "é", "\u{2028}x"];
    for s in samples {
        assert_eq!(is_blank_id(s), s.trim().is_empty(), "{:?}", s);
    }
}
