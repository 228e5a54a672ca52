use song_catalog::text::trimmed;

#[test]
fn trimmed_removes_whitespace_at_both_ends() {
    assert_eq!(trimmed("  a b  "), "a b");
    assert_eq!(trimmed("\t\r\nline\n"), "line");
    assert_eq!(trimmed("\u{a0}\u{2028}x\u{3000}\u{85}"), "x");
}

#[test]
fn trimmed_keeps_what_has_no_whitespace_at_its_ends() {
    assert_eq!(trimmed("a"), "a");
    assert_eq!(trimmed("a \n b"), "a \n b");
    assert_eq!(trimmed("\u{200b}a\u{200b}"), "\u{200b}a\u{200b}");
}

#[test]
fn trimmed_of_nothing_but_whitespace_is_empty() {
    assert_eq!(trimmed(""), "");
    assert_eq!(trimmed(" \n\t "), "");
}

fn has_white_space_property(c: char) -> bool {
    matches!(
        c as u32,
        0x0009..=0x000d
            | 0x0020
            | 0x0085
            | 0x00a0
            | 0x1680
            | 0x2000..=0x200a
            | 0x2028
            | 0x2029
            | 0x202f
            | 0x205f
            | 0x3000
    )
}

#[test]
fn trimmed_removes_exactly_the_white_space_characters() {
    let mut removed = 0;
    for code in 0..=0x10ffffu32 {
        if let Some(c) = char::from_u32(code) {
            let padded = format!("{}a{}", c, c);
            if has_white_space_property(c) {
                assert_eq!(trimmed(&padded), "a", "U+{:04X}", code);
                assert_eq!(trimmed(&c.to_string()), "", "U+{:04X}", code);
                removed += 1;
            } else {
                assert_eq!(trimmed(&padded), padded, "U+{:04X}", code);
            }
        }
    }
    assert_eq!(removed, 25);
}
