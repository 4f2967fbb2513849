use monitor_manager::text::{
    contains_char, decimal, eq_ignore_ascii_case, join_with_spaces, parse_i32, parse_u32, replace_str, split_char,
    starts_with, str_equal, tail_from, trim_matches_char, trim_start_char_str, trim_start_matches, trim_str,
};

const SAMPLES: [&str; 10] = ["", "a", "::", "a:b:c", "\0ab\0\0", "0.0.0.0:0.0.0.0", "single:single:x", "ÄbC", "  x  ", "//a/"];

#[test]
fn agrees_with_std_on_samples() {
    for s in SAMPLES {
        assert_eq!(trim_matches_char(s, '\0'), s.trim_matches('\0'));
        assert_eq!(trim_start_char_str(s, '/'), s.trim_start_matches('/'));
        assert_eq!(trim_start_matches(s, "single:"), s.trim_start_matches("single:"));
        assert_eq!(replace_str(s, "0.0.0.0", "127.0.0.1"), s.replace("0.0.0.0", "127.0.0.1"));
        assert_eq!(replace_str(s, ":", "::"), s.replace(':', "::"));
        assert_eq!(split_char(s, ':'), s.split(':').map(|p| p.to_string()).collect::<Vec<_>>());
        assert_eq!(contains_char(s, ':'), s.contains(':'));
        for t in SAMPLES {
            assert_eq!(eq_ignore_ascii_case(s, t), s.eq_ignore_ascii_case(t));
            assert_eq!(starts_with(s, t), s.starts_with(t));
            assert_eq!(str_equal(s, t), s == t);
        }
        assert_eq!(parse_u32(s), s.parse::<u32>().ok());
        assert_eq!(parse_i32(s), s.parse::<i32>().ok());
    }
}

#[test]
fn decimal_matches_display() {
    for n in [0u64, 7, 10, 99, 100, 12345, u32::MAX as u64, u64::MAX] {
        assert_eq!(decimal(n), n.to_string());
    }
}

#[test]
fn joins_and_tails() {
    let parts = vec!["a".to_string(), "b c".to_string(), String::new()];
    assert_eq!(join_with_spaces(&parts), parts.join(" "));
    assert_eq!(join_with_spaces(&vec![]), "");
    assert_eq!(tail_from("single:abc", 7), "abc");
    assert_eq!(eq_ignore_ascii_case("SYSTEM", "system"), true);
    assert_eq!(eq_ignore_ascii_case("ß", "SS"), false);
}

#[test]
fn trim_agrees_with_std() {
    let samples = [
        "", " ", "  Clone\r\n", "\t\u{0B}\u{0C}x\u{85}", "\u{A0}a b\u{1680}", "\u{2000}\u{200A}y\u{2028}\u{2029}",
        "\u{202F}z\u{205F}\u{3000}", "\u{200B}keep\u{200B}", "\u{180E}q", "a\u{FEFF}", "\0x\0", " single:0:0:1 ",
    ];
    for s in samples {
        assert_eq!(trim_str(s), s.trim());
    }
    for c in (0u32..0x3100).filter_map(char::from_u32) {
        let s = format!("{c}a{c}");
        assert_eq!(trim_str(&s), s.trim(), "U+{:04X}", c as u32);
    }
    assert_eq!(trim_str("  Clone\r\n"), "Clone");
}
