use rdr_compose::text::{split_on_char, starts_with, trim};

#[test]
fn split_matches_str_split() {
    for (text, sep) in [("a,b,,c", ','), ("", ','), (",", ','), ("abc", ','), ("中 文 ", ' '), ("\n\n", '\n')] {
        let expected: Vec<String> = text.split(sep).map(|s| s.to_string()).collect();
        assert_eq!(split_on_char(text, sep), expected);
    }
}

#[test]
fn split_then_join_gives_the_text_back() {
    for text in ["numpy==1\npyzmq==2\n", "", "\n", "one"] {
        assert_eq!(split_on_char(text, '\n').join("\n"), text);
    }
}

#[test]
fn starts_with_matches_str() {
    assert!(starts_with("pyzmq==23.0", "pyzmq"));
    assert!(starts_with("abc", ""));
    assert!(starts_with("abc", "abc"));
    assert!(!starts_with("ab", "abc"));
    assert!(!starts_with("numpy==1", "pyzmq"));
}

#[test]
fn trim_matches_str_trim() {
    for text in ["  Python 3.10.4\n", "", "   ", "\u{3000}x\u{2003}", "a b", "\t\r\n\u{85}y\u{a0}"] {
        assert_eq!(trim(text), text.trim());
    }
}
