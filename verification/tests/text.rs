use melors::text::{
    i64_text, is_blank, join_texts, replace_text, split_words, string_of, text_contains,
    to_lower, trim_text, u64_text, u64_text_padded,
};

#[test]
fn trimming_and_blank_text() {
    assert_eq!(trim_text("  a b \t\n"), "a b");
    assert!(is_blank(" \t"));
    assert!(is_blank(""));
    assert!(!is_blank(" x "));
}

#[test]
fn words_split_on_whitespace_runs() {
    assert_eq!(split_words("  one two\t three  "), vec!["one", "two", "three"]);
    assert!(split_words("   ").is_empty());
    assert_eq!(join_texts(&vec![String::from("a"), String::from("b")], ", "), "a, b");
}

#[test]
fn numbers_render_in_decimal() {
    assert_eq!(u64_text(0), "0");
    assert_eq!(u64_text(18_446_744_073_709_551_615), "18446744073709551615");
    assert_eq!(u64_text_padded(7, 4), "0007");
    assert_eq!(u64_text_padded(12345, 2), "12345");
    assert_eq!(i64_text(-42), "-42");
    assert_eq!(i64_text(i64::MIN), "-9223372036854775808");
}

#[test]
fn case_folding_and_search() {
    assert_eq!(to_lower("AbC-Ä"), "abc-Ä");
    assert!(text_contains("radiohead", "ohe"));
    assert!(text_contains("x", ""));
    assert!(!text_contains("ab", "abc"));
    let replaced = replace_text(&"/home/x /home/".chars().collect(), "/home/", "<home>/");
    assert_eq!(string_of(&replaced), "<home>/x <home>/");
}
