use jarvis::text::{
    contains_chars, is_whitespace, parse_u32, split_whitespace, trim_chars, trim_end_chars,
    trim_start_chars,
};
use jarvis::types::UserRequest;

fn chars(s: &str) -> Vec<char> {
    s.chars().collect()
}

fn text(v: &[char]) -> String {
    v.iter().collect()
}

#[test]
fn request_is_trimmed_and_lowercased() {
    let r = UserRequest::new("  Который ЧАС? \r\n".to_string());
    assert_eq!(r.original_text, "Который ЧАС?");
    assert_eq!(r.normalized_text, "который час?");
    assert!(!r.is_empty());
}

#[test]
fn request_drops_a_leading_byte_order_mark() {
    let r = UserRequest::new("\u{feff}\u{feff}Help\n".to_string());
    assert_eq!(r.original_text, "Help");
    assert_eq!(r.normalized_text, "help");
    // White space after the mark goes too.
    let r = UserRequest::new("\u{feff} Помощь ".to_string());
    assert_eq!(r.original_text, "Помощь");
    assert_eq!(r.normalized_text, "помощь");
    let r = UserRequest::new(" \u{feff} \u{feff}x y\t".to_string());
    assert_eq!(r.original_text, "x y");
    // A mark inside or at the end of the text stays.
    let r = UserRequest::new("a\u{feff}".to_string());
    assert_eq!(r.original_text, "a\u{feff}");
}

#[test]
fn blank_request_is_empty() {
    let r = UserRequest::new(" \t\u{3000}\n".to_string());
    assert!(r.is_empty());
    assert_eq!(r.original_text, "");
    let r = UserRequest::new("\u{feff}".to_string());
    assert!(r.is_empty());
}

#[test]
fn whitespace_agrees_with_std_on_every_char() {
    for u in 0u32..=0x10ffff {
        if let Some(c) = char::from_u32(u) {
            assert_eq!(is_whitespace(c), c.is_whitespace(), "U+{u:04X}");
        }
    }
}

#[test]
fn trimming_agrees_with_std() {
    for s in ["", "  ", " a ", "\u{2003}b\u{85}", "a b", "\n\tx y\u{a0}", "\u{feff} z "] {
        let v = chars(s);
        assert_eq!(text(&trim_chars(&v)), s.trim());
        assert_eq!(text(&trim_start_chars(&v)), s.trim_start());
        assert_eq!(text(&trim_end_chars(&v)), s.trim_end());
    }
}

#[test]
fn words_agree_with_std() {
    for s in ["", "   ", "a", "  слушай   5  ", "a\u{3000}b\tc\nd", "x  "] {
        let words: Vec<String> = split_whitespace(&chars(s)).iter().map(|w| text(w)).collect();
        let expected: Vec<String> = s.split_whitespace().map(|w| w.to_string()).collect();
        assert_eq!(words, expected, "{s:?}");
    }
}

#[test]
fn number_parsing_agrees_with_std() {
    for s in [
        "", "+", "-", "0", "5", "+7", "-7", "007", "30", "4294967295", "4294967296",
        "99999999999999999999", "1a", "٣", "+-1", " 1", "１",
    ] {
        assert_eq!(parse_u32(&chars(s)), s.parse::<u32>().ok(), "{s:?}");
    }
}

#[test]
fn substring_search_agrees_with_std() {
    for (s, p) in [("который час", "час"), ("abc", ""), ("", "a"), ("ab", "abc"), ("aab", "ab")] {
        assert_eq!(contains_chars(&chars(s), &chars(p)), s.contains(p), "{s:?} {p:?}");
    }
}
