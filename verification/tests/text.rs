use gitwrap::text::{chars_of, is_space, join, split_lines, string_from_chars, trim};

#[test]
fn trim_removes_whitespace_at_both_ends_only() {
    assert_eq!(trim("  a b\t\n"), "a b");
    assert_eq!(trim("a"), "a");
    assert_eq!(trim(""), "");
    assert_eq!(trim(" \t\r\n"), "");
    assert_eq!(trim("\u{a0}x\u{3000}"), "x");
    assert_eq!(trim("  é  "), "é");
}

#[test]
fn trim_agrees_with_std() {
    for text in ["", " ", "x", " x", "x ", "  x  y  ", "\u{2003}x\u{2003}", "\n\nx\r\n"] {
        assert_eq!(trim(text), text.trim());
    }
}

#[test]
fn chars_of_lists_the_characters() {
    assert_eq!(chars_of("aé\n"), vec!['a', 'é', '\n']);
    assert_eq!(chars_of(""), Vec::<char>::new());
}

#[test]
fn string_from_chars_writes_the_characters() {
    assert_eq!(string_from_chars(&['a', 'é', '\n']), "aé\n");
    assert_eq!(string_from_chars(&[]), "");
    assert_eq!(string_from_chars(&chars_of("round trip")), "round trip");
}

#[test]
fn split_lines_cuts_at_line_feeds() {
    assert_eq!(split_lines("a\nb"), vec!["a", "b"]);
    assert_eq!(split_lines("a\nb\n"), vec!["a", "b"]);
    assert_eq!(split_lines("a\n\nb\n\n"), vec!["a", "", "b", ""]);
    assert_eq!(split_lines(""), Vec::<String>::new());
    assert_eq!(split_lines("\n"), vec![""]);
    assert_eq!(split_lines("one"), vec!["one"]);
}

#[test]
fn split_lines_drops_a_carriage_return_before_a_line_feed_only() {
    assert_eq!(split_lines("a\r\nb\r\n"), vec!["a", "b"]);
    assert_eq!(split_lines("a\rb\n"), vec!["a\rb"]);
    assert_eq!(split_lines("a\r\r\nb\r"), vec!["a\r", "b\r"]);
    assert_eq!(split_lines("\r\n"), vec![""]);
}

#[test]
fn split_lines_agrees_with_std() {
    let texts = ["", "\n", "a", "a\n", "a\r\n", "a\r", "\r", "a\n\r\nb", "x\r\n\r\n\ny\r", "é\nü"];
    for text in texts {
        let expected: Vec<String> = text.lines().map(|line| line.to_string()).collect();
        assert_eq!(split_lines(text), expected);
    }
}

#[test]
fn join_puts_the_separator_between_words() {
    let words = vec!["fix".to_string(), "the".to_string(), "bug".to_string()];
    assert_eq!(join(&words, " "), "fix the bug");
    assert_eq!(join(&words, ", "), "fix, the, bug");
    assert_eq!(join(&vec!["one".to_string()], " "), "one");
    assert_eq!(join(&Vec::new(), " "), "");
    assert_eq!(join(&vec!["".to_string(), "".to_string()], "-"), "-");
}

#[test]
fn is_space_knows_the_whitespace_below_u0080() {
    for code in 0u32..0x80 {
        let c = char::from_u32(code).unwrap();
        let expected = (0x09..=0x0D).contains(&code) || code == 0x20;
        assert_eq!(is_space(c), expected);
    }
}

#[test]
fn is_space_agrees_with_std_beyond_ascii() {
    for c in ['\u{85}', '\u{a0}', '\u{1680}', '\u{2003}', '\u{2028}', '\u{3000}'] {
        assert!(is_space(c));
    }
    for c in ['é', '\u{200b}', '\u{feff}', '€'] {
        assert!(!is_space(c));
    }
}
