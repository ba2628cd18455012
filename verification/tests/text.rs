use sonar::text::{
    char_is_ascii_digit, char_is_ascii_letter, char_is_space, chars_of, lines_of, push_decimal,
    push_signed_decimal, push_text, push_trimmed, string_of,
};

fn decimal(n: u128) -> String {
    let mut out = Vec::new();
    push_decimal(&mut out, n);
    string_of(&out)
}

fn signed(i: i64) -> String {
    let mut out = Vec::new();
    push_signed_decimal(&mut out, i);
    string_of(&out)
}

fn trimmed(s: &str) -> String {
    let mut out = Vec::new();
    push_trimmed(&mut out, s);
    string_of(&out)
}

#[test]
fn characters_go_in_and_out() {
    assert_eq!(chars_of("a\u{e9}z"), vec!['a', '\u{e9}', 'z']);
    assert_eq!(string_of(&vec!['x', '\u{3000}', 'y']), "x\u{3000}y");
    assert_eq!(string_of(&chars_of("")), "");
}

#[test]
fn classifies_characters() {
    assert!(char_is_ascii_letter('a') && char_is_ascii_letter('Z'));
    assert!(!char_is_ascii_letter('0') && !char_is_ascii_letter('_') && !char_is_ascii_letter('\u{e9}'));
    assert!(char_is_ascii_digit('0') && char_is_ascii_digit('9'));
    assert!(!char_is_ascii_digit('a') && !char_is_ascii_digit('\u{663}'));
}

#[test]
fn white_space_is_what_std_calls_white_space() {
    for code in 0u32..0x4000 {
        if let Some(c) = char::from_u32(code) {
            assert_eq!(char_is_space(c), c.is_whitespace(), "U+{:04X}", code);
        }
    }
}

#[test]
fn writes_decimal_numbers() {
    assert_eq!(decimal(0), "0");
    assert_eq!(decimal(7), "7");
    assert_eq!(decimal(10), "10");
    assert_eq!(decimal(1234567890), "1234567890");
    assert_eq!(decimal(u128::MAX), u128::MAX.to_string());
}

#[test]
fn writes_signed_numbers() {
    assert_eq!(signed(0), "0");
    assert_eq!(signed(1600000000), "1600000000");
    assert_eq!(signed(-1), "-1");
    assert_eq!(signed(i64::MIN), i64::MIN.to_string());
    assert_eq!(signed(i64::MAX), i64::MAX.to_string());
}

#[test]
fn appends_after_what_is_there() {
    let mut out = vec!['a'];
    push_text(&mut out, "bc");
    push_decimal(&mut out, 42);
    assert_eq!(string_of(&out), "abc42");
}

#[test]
fn trims_both_ends_only() {
    assert_eq!(trimmed("  connection refused \n"), "connection refused");
    assert_eq!(trimmed("\t a  b \u{a0}"), "a  b");
    assert_eq!(trimmed("   "), "");
    assert_eq!(trimmed(""), "");
    assert_eq!(trimmed("x"), "x");
}

#[test]
fn splits_at_line_feeds() {
    let lines = lines_of(&chars_of("a\n\nbc\n"));
    assert_eq!(lines, vec![vec!['a'], vec![], vec!['b', 'c'], vec![]]);
    assert_eq!(lines_of(&chars_of("")), vec![Vec::<char>::new()]);
    assert_eq!(lines_of(&chars_of("abc")), vec![vec!['a', 'b', 'c']]);
}
