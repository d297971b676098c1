use karmaspark::text::{chars_of, contains_chars, decimal_string, find_chars, same_text};

#[test]
fn decimal_rendering() {
    assert_eq!(decimal_string(0), "0");
    assert_eq!(decimal_string(7), "7");
    assert_eq!(decimal_string(1234), "1234");
    assert_eq!(decimal_string(1000), "1000");
}

#[test]
fn search_in_text() {
    let s = chars_of("abcabc");
    assert_eq!(find_chars(&s, &chars_of("ca"), 0), Some(2));
    assert_eq!(find_chars(&s, &chars_of("abc"), 1), Some(3));
    assert_eq!(find_chars(&s, &chars_of("x"), 0), None);
    assert!(contains_chars(&s, &chars_of("")));
    assert!(!contains_chars(&s, &chars_of("abcabcd")));
}

#[test]
fn std_text_helpers() {
    assert!(same_text("ab", "ab"));
    assert!(!same_text("ab", "abc"));
}
