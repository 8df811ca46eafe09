use key_monitor::text::{chars_of, contains_chars, occurs_at_index, push_decimal};

#[test]
fn chars_of_keeps_order() {
    assert_eq!(chars_of("aé日"), vec!['a', 'é', '日']);
    assert!(chars_of("").is_empty());
}

#[test]
fn contains_chars_cases() {
    let text = chars_of("abcabd");
    assert!(contains_chars(&text, &chars_of("abd")));
    assert!(contains_chars(&text, &chars_of("")));
    assert!(!contains_chars(&text, &chars_of("abe")));
    assert!(!contains_chars(&chars_of("ab"), &chars_of("abc")));
    assert!(occurs_at_index(&text, &chars_of("ca"), 2));
    assert!(!occurs_at_index(&text, &chars_of("ca"), 1));
}

#[test]
fn push_decimal_writes_digits() {
    let mut s = String::from("n=");
    push_decimal(&mut s, 0);
    assert_eq!(s, "n=0");
    let mut s = String::new();
    push_decimal(&mut s, 1234567890);
    assert_eq!(s, "1234567890");
    let mut s = String::new();
    push_decimal(&mut s, usize::MAX);
    assert_eq!(s, usize::MAX.to_string());
}
