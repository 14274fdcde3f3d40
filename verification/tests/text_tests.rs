use gbf_recruitment::text::{
    char_is_space, chars_of, clone_opt, decimal_string, join_strings, joined_mentions,
    mention_string, mention_strings, push_decimal, same_text, trim,
};

fn strings(parts: &[&str]) -> Vec<String> {
    parts.iter().map(|p| p.to_string()).collect()
}

#[test]
fn decimal_notation_has_no_leading_zeros() {
    assert_eq!(decimal_string(0), "0");
    assert_eq!(decimal_string(7), "7");
    assert_eq!(decimal_string(10), "10");
    assert_eq!(decimal_string(1234567890), "1234567890");
    assert_eq!(decimal_string(u64::MAX), "18446744073709551615");
    let mut out = "id=".to_string();
    push_decimal(&mut out, 405);
    assert_eq!(out, "id=405");
}

#[test]
fn characters_are_taken_one_by_one() {
    assert_eq!(chars_of(""), Vec::<char>::new());
    assert_eq!(chars_of("a🌪️火"), vec!['a', '🌪', '\u{fe0f}', '火']);
}

#[test]
fn mentions_wrap_the_user_id() {
    assert_eq!(mention_string(123456789), "<@123456789>");
    assert_eq!(mention_string(0), "<@0>");
    assert_eq!(mention_strings(&vec![1, 22, 333]), strings(&["<@1>", "<@22>", "<@333>"]));
    assert!(mention_strings(&Vec::new()).is_empty());
    assert_eq!(joined_mentions(&vec![1, 22, 333], "  "), "<@1>  <@22>  <@333>");
    assert_eq!(joined_mentions(&vec![5], "  "), "<@5>");
    assert_eq!(joined_mentions(&Vec::new(), "  "), "");
}

#[test]
fn join_puts_the_separator_between_neighbours() {
    assert_eq!(join_strings(&strings(&[]), ", "), "");
    assert_eq!(join_strings(&strings(&["a"]), ", "), "a");
    assert_eq!(join_strings(&strings(&["a", "b", "c"]), ", "), "a, b, c");
    assert_eq!(join_strings(&strings(&["", "", ""]), "-"), "--");
    assert_eq!(join_strings(&strings(&["参加", "者"]), ""), "参加者");
}

#[test]
fn trim_removes_white_space_at_both_ends() {
    assert_eq!(trim(""), "");
    assert_eq!(trim("   \t\n  "), "");
    assert_eq!(trim("  12/25 15:30 \n"), "12/25 15:30");
    assert_eq!(trim("a  b"), "a  b");
    assert_eq!(trim("\u{3000}今日 21:00\u{3000}"), "今日 21:00");
    assert_eq!(trim("\u{a0}x\u{2003}"), "x");
    assert_eq!(trim("x"), "x");
    for sample in ["", " a ", "\r\n12:00\t", "\u{1680} b \u{205f}", "no-space", " \u{200b} "] {
        assert_eq!(trim(sample), sample.trim());
    }
}

#[test]
fn white_space_is_what_the_standard_library_calls_white_space() {
    for code in 0..0x3100u32 {
        if let Some(c) = char::from_u32(code) {
            assert_eq!(char_is_space(c), c.is_whitespace(), "U+{:04X}", code);
        }
    }
    assert!(!char_is_space('🔥'));
}

#[test]
fn same_text_compares_characters() {
    assert!(same_text("", ""));
    assert!(same_text("火属性", "火属性"));
    assert!(!same_text("火属性", "水属性"));
    assert!(!same_text("a", "ab"));
    assert_eq!(clone_opt(&Some("x".to_string())), Some("x".to_string()));
    assert_eq!(clone_opt(&None), None);
}
