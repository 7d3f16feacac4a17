use class_get::text::{chars_of, contains_text, decimal, joined, same_text};

#[test]
fn decimal_renders_numbers() {
    assert_eq!(decimal(0), "0");
    assert_eq!(decimal(7), "7");
    assert_eq!(decimal(10), "10");
    assert_eq!(decimal(1234), "1234");
    assert_eq!(decimal(u64::MAX), u64::MAX.to_string());
}

#[test]
fn chars_of_keeps_order() {
    assert_eq!(chars_of("a课b"), vec!['a', '课', 'b']);
    assert!(chars_of("").is_empty());
}

#[test]
fn same_text_compares_characters() {
    assert!(same_text("401", "401"));
    assert!(!same_text("401", "4010"));
    assert!(!same_text("401", "402"));
    assert!(same_text("", ""));
}

#[test]
fn contains_text_finds_substrings() {
    assert!(contains_text("kcm转换失败", "转换失败"));
    assert!(!contains_text("请登录", "转换失败"));
    assert!(contains_text("abc", ""));
    assert!(!contains_text("", "a"));
    assert!(contains_text("aab", "ab"));
}

#[test]
fn joined_appends_path() {
    assert_eq!(joined("https://x/xsxk/", "auth/login"), "https://x/xsxk/auth/login");
}
