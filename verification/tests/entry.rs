use lilnas_server_ui::entry::{chop, is_decline, is_valid_password, is_valid_username, strip};

#[test]
fn username_length_bounds() {
    assert!(!is_valid_username(""));
    assert!(!is_valid_username("bob"));
    assert!(is_valid_username("bob1"));
    assert!(is_valid_username("alice1"));
    assert!(is_valid_username("abcdefghijklmnopqrst"));
    assert!(!is_valid_username("abcdefghijklmnopqrstu"));
}

#[test]
fn password_length_bounds() {
    assert!(!is_valid_password(""));
    assert!(!is_valid_password("elevenchars"));
    assert!(is_valid_password("twelve-chars"));
    assert!(is_valid_password("correct-password-123"));
    assert!(is_valid_password(&"x".repeat(72)));
    assert!(!is_valid_password(&"x".repeat(73)));
}

#[test]
fn lengths_are_counted_in_characters() {
    // three characters in six bytes, four characters in eight
    assert!(!is_valid_username("\u{e9}\u{e9}\u{e9}"));
    assert!(is_valid_username("\u{e9}\u{e9}\u{e9}\u{e9}"));
    assert!(is_valid_username(&"\u{e9}".repeat(20)));
    assert!(!is_valid_username(&"\u{e9}".repeat(21)));
    assert!(!is_valid_username("\u{1f600}\u{1f600}\u{1f600}"));
    assert!(!is_valid_password(&"\u{e9}".repeat(11)));
    assert!(is_valid_password(&"\u{e9}".repeat(12)));
    assert!(is_valid_password(&"\u{e9}".repeat(36)));
}

#[test]
fn password_beyond_what_the_hasher_takes_is_refused() {
    // 37 characters in 74 bytes
    assert!(!is_valid_password(&"\u{e9}".repeat(37)));
    assert!(!is_valid_password(&"\u{e9}".repeat(72)));
    // 71 characters in 73 bytes
    assert!(!is_valid_password(&format!("{}\u{20ac}", "x".repeat(70))));
    // 70 characters in 72 bytes
    assert!(is_valid_password(&format!("{}\u{20ac}", "x".repeat(69))));
}

#[test]
fn only_n_declines() {
    assert!(is_decline("n"));
    assert!(is_decline("N"));
    assert!(is_decline("n\n"));
    assert!(is_decline("N\r\n"));
    assert!(is_decline("n  \t\n"));
    assert!(!is_decline(""));
    assert!(!is_decline("\n"));
    assert!(!is_decline("y\n"));
    assert!(!is_decline("Y\n"));
    assert!(!is_decline("no\n"));
    assert!(!is_decline(" n\n"));
    assert!(!is_decline("nn\n"));
    assert!(!is_decline("anything else\n"));
}

#[test]
fn strip_removes_trailing_white_space_only() {
    assert_eq!(strip("abc \t\r\n"), "abc");
    assert_eq!(strip("  abc"), "  abc");
    assert_eq!(strip("a b\n"), "a b");
    assert_eq!(strip(" \n"), "");
    assert_eq!(strip(""), "");
    assert_eq!(strip("abc\u{2003}"), "abc");
    assert_eq!(strip("/tmp"), "/tmp");
    assert_eq!(strip("/tmp\n"), "/tmp");
    assert_eq!(strip("/tmp\r\n"), "/tmp");
}

#[test]
fn strip_knows_every_white_space() {
    let white = [
        '\u{9}', '\u{a}', '\u{b}', '\u{c}', '\u{d}', '\u{20}', '\u{85}', '\u{a0}', '\u{1680}',
        '\u{2000}', '\u{2005}', '\u{200a}', '\u{2028}', '\u{2029}', '\u{202f}', '\u{205f}',
        '\u{3000}',
    ];
    for c in white {
        assert_eq!(strip(&format!("x{c}")), "x");
    }
    let other = ['\u{8}', '\u{e}', '\u{1f}', '\u{84}', '\u{86}', '\u{200b}', '\u{feff}', 'n'];
    for c in other {
        assert_eq!(strip(&format!("x{c}")), format!("x{c}"));
    }
}

#[test]
fn chop_takes_the_end_off_a_typed_name() {
    assert_eq!(chop("alice1\n".to_string()), "alice1");
    assert_eq!(chop("alice1\r\n".to_string()), "alice1\r");
    assert_eq!(chop("alice1".to_string()), "alice");
    assert_eq!(chop("\n".to_string()), "");
    assert_eq!(chop(String::new()), "");
    assert_eq!(chop("caf\u{e9}".to_string()), "caf");
}

#[test]
fn white_space_is_the_same_for_every_character() {
    let listed = |c: char| {
        matches!(
            c as u32,
            0x09..=0x0d
                | 0x20
                | 0x85
                | 0xa0
                | 0x1680
                | 0x2000..=0x200a
                | 0x2028
                | 0x2029
                | 0x202f
                | 0x205f
                | 0x3000
        )
    };
    let mut line = String::new();
    for code in 0..=0x10ffffu32 {
        if let Some(c) = char::from_u32(code) {
            line.clear();
            line.push('x');
            line.push(c);
            let trimmed = strip(&line).len() == 1;
            assert_eq!(trimmed, listed(c), "U+{code:04X}");
        }
    }
}
