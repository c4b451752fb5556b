use emotion_tag::text::{
    chars_of, contains, is_whitespace, lines, push_centered, push_left_aligned, push_spaces, trim,
};

#[test]
fn whitespace_agrees_with_the_unicode_property_on_every_char() {
    let mut code: u32 = 0;
    while code <= 0x10FFFF {
        if let Some(c) = char::from_u32(code) {
            assert_eq!(is_whitespace(c), c.is_whitespace(), "U+{:04X}", code);
        }
        code += 1;
    }
}

#[test]
fn whitespace_on_chosen_chars() {
    assert!(is_whitespace(' '));
    assert!(is_whitespace('\n'));
    assert!(is_whitespace('\t'));
    assert!(is_whitespace('\r'));
    assert!(is_whitespace('\u{A0}'));
    assert!(is_whitespace('\u{3000}'));
    assert!(!is_whitespace('a'));
    assert!(!is_whitespace('_'));
    assert!(!is_whitespace('\u{200B}'));
    assert!(!is_whitespace('\u{180E}'));
    assert!(!is_whitespace('\u{8}'));
    assert!(!is_whitespace('\u{E}'));
}

#[test]
fn trim_strips_both_ends_only() {
    assert_eq!(trim("  a b  "), "a b");
    assert_eq!(trim("\n\t x\r\n"), "x");
    assert_eq!(trim("x"), "x");
    assert_eq!(trim(""), "");
    assert_eq!(trim(" \n\t "), "");
    assert_eq!(trim("\u{3000}é \u{A0}ü\u{2003}"), "é \u{A0}ü");
    assert_eq!(trim("\u{200B} a"), "\u{200B} a");
}

#[test]
fn trim_agrees_with_std() {
    let samples = [
        "",
        " ",
        "a",
        " a",
        "a ",
        "  a  b  ",
        "\n     ∧_∧\n   m(_ _)m",
        "\u{85}x\u{1680}",
        "\u{2028}\u{2029}y\u{202F}\u{205F}",
        "💧 ",
        "\r\n\r\n",
    ];
    for sample in samples {
        assert_eq!(trim(sample), sample.trim(), "{:?}", sample);
    }
}

#[test]
fn lines_splits_at_line_feeds() {
    assert_eq!(lines("a\nb\nc"), vec!["a", "b", "c"]);
    assert_eq!(lines("a\n"), vec!["a"]);
    assert_eq!(lines("a\n\nb"), vec!["a", "", "b"]);
    assert_eq!(lines("\n"), vec![""]);
    assert_eq!(lines("one"), vec!["one"]);
    assert!(lines("").is_empty());
}

#[test]
fn lines_drops_a_carriage_return_before_a_line_feed_only() {
    assert_eq!(lines("a\r\nb"), vec!["a", "b"]);
    assert_eq!(lines("a\rb"), vec!["a\rb"]);
    assert_eq!(lines("a\r"), vec!["a\r"]);
    assert_eq!(lines("a\r\r\nb"), vec!["a\r", "b"]);
    assert_eq!(lines("\r\n"), vec![""]);
}

#[test]
fn lines_agrees_with_std() {
    let samples = [
        "",
        "a",
        "a\n",
        "a\nb",
        "a\r\nb",
        "a\rb",
        "a\r",
        "\n",
        "\r\n",
        "\n\n",
        "\r",
        "a\n\r\nb\r",
        "∧_∧\n   ( ･ω･)つ━☆\n   (つ\u{3000} /",
        "x\r\r\n\ny\n",
    ];
    for sample in samples {
        let expected: Vec<&str> = sample.lines().collect();
        assert_eq!(lines(sample), expected, "{:?}", sample);
    }
}

#[test]
fn push_spaces_appends_that_many() {
    let mut out = String::from("ab");
    push_spaces(&mut out, 3);
    assert_eq!(out, "ab   ");
    push_spaces(&mut out, 0);
    assert_eq!(out, "ab   ");
}

#[test]
fn push_left_aligned_pads_behind() {
    let mut out = String::from("|");
    push_left_aligned(&mut out, "abc", 6);
    assert_eq!(out, "|abc   ");
    let mut out = String::new();
    push_left_aligned(&mut out, "し⌒", 5);
    assert_eq!(out, "し⌒   ");
}

#[test]
fn push_left_aligned_keeps_a_wide_text() {
    let mut out = String::new();
    push_left_aligned(&mut out, "abcdef", 4);
    assert_eq!(out, "abcdef");
    let mut out = String::new();
    push_left_aligned(&mut out, "abcd", 4);
    assert_eq!(out, "abcd");
}

#[test]
fn push_centered_puts_the_odd_space_behind() {
    let mut out = String::new();
    push_centered(&mut out, "Analytical", 21);
    assert_eq!(out, "     Analytical      ");
    let mut out = String::new();
    push_centered(&mut out, "Helpful", 21);
    assert_eq!(out, "       Helpful       ");
    let mut out = String::new();
    push_centered(&mut out, "ab", 3);
    assert_eq!(out, "ab ");
    let mut out = String::new();
    push_centered(&mut out, "abcd", 3);
    assert_eq!(out, "abcd");
}

#[test]
fn padding_agrees_with_std_formatting() {
    let samples = ["", "a", "Curious", "∧_∧", "m(_ _)m", "a text of over twenty-one chars"];
    for sample in samples {
        for width in [0usize, 1, 7, 21, 22] {
            let mut left = String::new();
            push_left_aligned(&mut left, sample, width);
            assert_eq!(left, format!("{:<width$}", sample, width = width));
            let mut middle = String::new();
            push_centered(&mut middle, sample, width);
            assert_eq!(middle, format!("{:^width$}", sample, width = width));
        }
    }
}

#[test]
fn chars_of_lists_every_char() {
    assert_eq!(chars_of("a💧é"), vec!['a', '💧', 'é']);
    assert!(chars_of("").is_empty());
}

#[test]
fn contains_finds_a_text_anywhere() {
    assert!(contains("abcabd", "abd"));
    assert!(contains("abcabd", "abc"));
    assert!(contains("abcabd", ""));
    assert!(contains("", ""));
    assert!(!contains("abcabd", "abe"));
    assert!(!contains("ab", "abc"));
    assert!(!contains("", "a"));
    assert!(contains("x\n# marker\ny", "# marker"));
}

#[test]
fn contains_agrees_with_std() {
    let hays = ["", "a", "aaa", "abcabd", "émoji 💧 here", "ababab"];
    let pins = ["", "a", "aa", "abd", "💧", "bab", "é", "here!"];
    for hay in hays {
        for pin in pins {
            assert_eq!(contains(hay, pin), hay.contains(pin), "{:?} in {:?}", pin, hay);
        }
    }
}

/// A small deterministic generator of test strings over an alphabet that is
/// rich in white space and line ends.
fn sample_text(seed: &mut u64, max_len: usize) -> String {
    const ALPHABET: [char; 16] = [
        'a', 'b', ' ', ' ', '\n', '\n', '\r', '\t', '\u{A0}', '\u{3000}', '\u{2028}', 'é', '💧',
        '[', ']', '\u{200B}',
    ];
    let mut next = || {
        *seed ^= *seed << 13;
        *seed ^= *seed >> 7;
        *seed ^= *seed << 17;
        *seed
    };
    let len = (next() % (max_len as u64 + 1)) as usize;
    (0..len).map(|_| ALPHABET[(next() % 16) as usize]).collect()
}

#[test]
fn trim_and_lines_agree_with_std_on_generated_texts() {
    let mut seed = 0x9E37_79B9_7F4A_7C15u64;
    for _ in 0..3000 {
        let text = sample_text(&mut seed, 12);
        assert_eq!(trim(&text), text.trim(), "{:?}", text);
        let expected: Vec<&str> = text.lines().collect();
        assert_eq!(lines(&text), expected, "{:?}", text);
        let trimmed_lines: Vec<&str> = text.trim().lines().collect();
        assert_eq!(lines(trim(&text)), trimmed_lines, "{:?}", text);
    }
}

#[test]
fn contains_agrees_with_std_on_generated_texts() {
    let mut seed = 0xD1B5_4A32_D192_ED03u64;
    for _ in 0..3000 {
        let hay = sample_text(&mut seed, 10);
        let pin = sample_text(&mut seed, 3);
        assert_eq!(contains(&hay, &pin), hay.contains(pin.as_str()), "{:?} in {:?}", pin, hay);
    }
}
