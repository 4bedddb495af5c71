use jaka_cli::text::{
    characters, concat2, concat3, decimal_text, integer_text, join, parse_unsigned, same_text, space,
    split_words, trim,
};

fn lines() -> Vec<&'static str> {
    vec![
        "",
        " ",
        "a",
        " a",
        "a ",
        "vel 10 -5",
        "\tvel\u{a0}1\u{2003}2\r",
        "  one   two\u{3000}three  ",
        "\u{200b}zero width is no space\u{200b}",
        "h\u{e9}llo w\u{f6}rld",
    ]
}

#[test]
fn spaces_are_those_of_unicode() {
    for code in 0..0x11_0000u32 {
        if let Some(c) = char::from_u32(code) {
            assert_eq!(space(c), c.is_whitespace(), "{code:x}");
        }
    }
}

#[test]
fn words_are_those_between_spaces() {
    for line in lines() {
        let expected: Vec<String> = line.split_whitespace().map(|w| w.to_string()).collect();
        assert_eq!(split_words(line), expected, "{line:?}");
    }
}

#[test]
fn trimming_drops_outer_spaces() {
    for line in lines() {
        assert_eq!(trim(line), line.trim(), "{line:?}");
        assert_eq!(split_words(trim(line).as_str()), split_words(line));
    }
}

#[test]
fn joined_words_split_again() {
    let words = vec!["vel".to_string(), "1".to_string(), "-2.5".to_string()];
    assert_eq!(join(&words, " "), "vel 1 -2.5");
    assert_eq!(split_words(join(&words, " ").as_str()), words);
    assert_eq!(join(&Vec::new(), ", "), "");
    assert_eq!(join(&vec!["x".to_string()], ", "), "x");
}

#[test]
fn numbers_are_written_in_decimal() {
    for n in [0u64, 9, 10, 5533, 65535, u64::MAX] {
        assert_eq!(decimal_text(n), n.to_string());
    }
    for i in [0i32, 1, -1, -999, 42, i32::MAX, i32::MIN] {
        assert_eq!(integer_text(i), i.to_string());
    }
}

#[test]
fn written_numbers_read_back() {
    for n in [0u64, 7, 10, 5533, 65535] {
        assert_eq!(parse_unsigned(decimal_text(n).as_str(), 65535), Some(n));
    }
}

#[test]
fn unsigned_numbers_parse_like_ports() {
    for s in ["5533", "+7", "0", "00012", "65535", "65536", "-1", "", "+", "1.5", "0x10", "9999999999999"]
    {
        let expected = s.parse::<u16>().ok().map(u64::from);
        assert_eq!(parse_unsigned(s, 65535), expected, "{s}");
    }
}

#[test]
fn texts_are_put_together() {
    assert_eq!(concat2("a", "b"), "ab");
    assert_eq!(concat3("a", "", "c"), "ac");
    assert_eq!(characters("\u{e9}t"), vec!['\u{e9}', 't']);
    assert!(same_text("ok", "ok"));
    assert!(!same_text("ok", "ok "));
}
