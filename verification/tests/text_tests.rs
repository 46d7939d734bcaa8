use oddonkey::estimate_tokens;
use oddonkey::text::{count_words, decimal_string, is_whitespace, lossy_text, trim_str};

#[test]
fn whitespace_matches_std_for_every_char() {
    for u in 0u32..=0x10FFFF {
        if let Some(c) = char::from_u32(u) {
            assert_eq!(is_whitespace(c), c.is_whitespace(), "code point {:#x}", u);
        }
    }
}

#[test]
fn trim_matches_std() {
    let samples = [
        "",
        "   ",
        "abc",
        "  abc  ",
        "\t\n x y \r\n",
        "\u{3000}full width\u{2029}",
        "\u{85}nel\u{a0}",
        "a\u{200b}",
    ];
    for s in samples {
        assert_eq!(trim_str(s), s.trim(), "sample {:?}", s);
    }
}

#[test]
fn word_count_matches_split_whitespace() {
    let samples = [
        "",
        "one",
        "  two words ",
        "a\tb\nc\r\nd",
        "\u{2003}em\u{2003}space\u{2003}",
        "What is the capital of France?",
    ];
    for s in samples {
        assert_eq!(count_words(s), s.split_whitespace().count(), "sample {:?}", s);
    }
}

#[test]
fn decimal_matches_display() {
    for n in [0u64, 1, 9, 10, 11, 99, 100, 11434, 11435, 65535, u32::MAX as u64, u64::MAX] {
        assert_eq!(decimal_string(n), n.to_string());
    }
    for n in 0u64..2000 {
        assert_eq!(decimal_string(n), n.to_string());
    }
}

#[test]
fn token_estimate_values() {
    assert_eq!(estimate_tokens(""), 0);
    assert_eq!(estimate_tokens("hello"), 2);
    assert_eq!(estimate_tokens("hello world"), 3);
    assert_eq!(estimate_tokens("one two three four five six seven eight nine ten"), 13);
    assert_eq!(estimate_tokens("   \n\t  "), 0);
}

#[test]
fn token_estimate_agrees_with_float_rule() {
    for w in 0usize..3000 {
        let text = vec!["w"; w].join(" ");
        let expected = (w as f64 * 1.3).ceil() as usize;
        assert_eq!(estimate_tokens(&text), expected, "{} words", w);
    }
}

#[test]
fn lossy_text_replaces_invalid_bytes() {
    assert_eq!(lossy_text(b"plain"), "plain");
    assert_eq!(lossy_text(&[0x66, 0xff, 0x6f]), "f\u{fffd}o");
    assert_eq!(lossy_text("héllo".as_bytes()), "héllo");
}
