use mafia_engine::text::{
    chars_of, decimal, is_white_space, parse_u8, slice_of, split_once, strip_prefix, text_of, trim,
};

fn chars(text: &str) -> Vec<char> {
    text.chars().collect()
}

#[test]
fn chars_and_text_round_trip() {
    assert_eq!(chars_of("héllo"), vec!['h', 'é', 'l', 'l', 'o']);
    assert_eq!(text_of(&vec!['a', 'ß', 'c']), "aßc");
    assert_eq!(text_of(&Vec::new()), "");
}

#[test]
fn slice_takes_the_characters_between() {
    assert_eq!(slice_of(&chars("abcdef"), 2, 4), chars("cd"));
    assert_eq!(slice_of(&chars("abcdef"), 3, 3), chars(""));
}

#[test]
fn white_space_is_what_the_standard_library_calls_white_space() {
    let mut code: u32 = 0;
    while code <= 0x3100 {
        if let Some(c) = char::from_u32(code) {
            assert_eq!(is_white_space(c), c.is_whitespace(), "code point {:#x}", code);
        }
        code += 1;
    }
}

#[test]
fn trim_removes_white_space_at_both_ends_only() {
    assert_eq!(trim(&chars("  a b \t\n")), chars("a b"));
    assert_eq!(trim(&chars("")), chars(""));
    assert_eq!(trim(&chars(" \u{3000}\r\n")), chars(""));
    assert_eq!(trim(&chars("x")), chars("x"));
}

#[test]
fn trim_agrees_with_the_standard_library() {
    for text in ["", " ", "a", " a", "a ", "\u{a0}a\u{2009}b\u{85}", "\t!talk hi there \r"] {
        assert_eq!(text_of(&trim(&chars(text))), text.trim());
    }
}

#[test]
fn strip_prefix_gives_the_rest() {
    assert_eq!(strip_prefix(&chars("!tag 3"), "!tag "), Some(chars("3")));
    assert_eq!(strip_prefix(&chars("!tag "), "!tag "), Some(chars("")));
    assert_eq!(strip_prefix(&chars("!tag"), "!tag "), None);
    assert_eq!(strip_prefix(&chars("!talk hi"), "!tag "), None);
}

#[test]
fn split_once_splits_at_the_first_occurrence() {
    assert_eq!(split_once(&chars("3 hello world"), ' '), Some((chars("3"), chars("hello world"))));
    assert_eq!(split_once(&chars("3 "), ' '), Some((chars("3"), chars(""))));
    assert_eq!(split_once(&chars(" x"), ' '), Some((chars(""), chars("x"))));
    assert_eq!(split_once(&chars("3"), ' '), None);
}

#[test]
fn decimal_writes_small_numbers() {
    assert_eq!(decimal(0), "0");
    assert_eq!(decimal(7), "7");
    assert_eq!(decimal(10), "10");
    assert_eq!(decimal(99), "99");
    assert_eq!(decimal(100), "100");
    assert_eq!(decimal(205), "205");
    assert_eq!(decimal(255), "255");
}

#[test]
fn decimal_agrees_with_the_standard_library() {
    for n in 0..=255u8 {
        assert_eq!(decimal(n), n.to_string());
    }
}

#[test]
fn parse_u8_reads_numbers_below_256() {
    assert_eq!(parse_u8(&chars("0")), Some(0));
    assert_eq!(parse_u8(&chars("7")), Some(7));
    assert_eq!(parse_u8(&chars("255")), Some(255));
    assert_eq!(parse_u8(&chars("+12")), Some(12));
    assert_eq!(parse_u8(&chars("007")), Some(7));
    assert_eq!(parse_u8(&chars("0000000000000000000000255")), Some(255));
}

#[test]
fn parse_u8_refuses_everything_else() {
    assert_eq!(parse_u8(&chars("")), None);
    assert_eq!(parse_u8(&chars("+")), None);
    assert_eq!(parse_u8(&chars("-1")), None);
    assert_eq!(parse_u8(&chars("256")), None);
    assert_eq!(parse_u8(&chars("1000")), None);
    assert_eq!(parse_u8(&chars("12a")), None);
    assert_eq!(parse_u8(&chars(" 12")), None);
    assert_eq!(parse_u8(&chars("12 ")), None);
    assert_eq!(parse_u8(&chars("++1")), None);
    assert_eq!(parse_u8(&chars("1.0")), None);
    assert_eq!(parse_u8(&chars("٣")), None);
}

#[test]
fn parse_u8_agrees_with_the_standard_library() {
    for text in ["", "+", "-", "-0", "+0", "0", "9", "10", "255", "256", "999", "+255", "+256", "1e2", "0x10", "００"] {
        assert_eq!(parse_u8(&chars(text)), text.parse::<u8>().ok(), "text {:?}", text);
    }
}
