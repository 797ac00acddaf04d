use docgen_rs::text::{blank, chars_of, is_white_space, trimmed_end};

#[test]
fn blank_texts() {
    assert!(blank(""));
    assert!(blank(" \t\n\u{A0}\u{3000}"));
    assert!(!blank("  x "));
}

#[test]
fn trailing_white_space_removed() {
    assert_eq!(trimmed_end("  a b \t\r\n"), "  a b");
    assert_eq!(trimmed_end("   "), "");
    assert_eq!(trimmed_end("x\u{2003}"), "x");
}

#[test]
fn characters_in_order() {
    assert_eq!(chars_of("héllo"), vec!['h', 'é', 'l', 'l', 'o']);
}

#[test]
fn white_space_agrees_with_std_on_every_char() {
    let mut count = 0;
    for n in 0..=0x10FFFFu32 {
        if let Some(c) = char::from_u32(n) {
            assert_eq!(is_white_space(c), c.is_whitespace(), "U+{:04X}", n);
            if c.is_whitespace() {
                count += 1;
            }
        }
    }
    assert_eq!(count, 25);
}
