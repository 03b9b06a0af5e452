use speech_core::text::{concat_all, str_eq, strip_trailing_slashes, trim};

#[test]
fn str_eq_compares_by_characters() {
    assert!(str_eq("", ""));
    assert!(str_eq("abc", "abc"));
    assert!(str_eq("日本語", "日本語"));
    assert!(!str_eq("abc", "abd"));
    assert!(!str_eq("abc", "ab"));
    assert!(!str_eq("", " "));
}

#[test]
fn trim_removes_leading_and_trailing_whitespace() {
    assert_eq!(trim("  hello  "), "hello");
    assert_eq!(trim("hello"), "hello");
    assert_eq!(trim("\t\n hello world \r\n"), "hello world");
    assert_eq!(trim("   "), "");
    assert_eq!(trim(""), "");
}

#[test]
fn trim_handles_unicode_whitespace() {
    assert_eq!(trim("\u{3000}wide\u{3000}"), "wide");
    assert_eq!(trim("\u{a0}nbsp\u{a0}"), "nbsp");
}

#[test]
fn trim_keeps_inner_whitespace() {
    assert_eq!(trim(" a b "), "a b");
}

#[test]
fn strip_trailing_slashes_removes_only_the_tail() {
    assert_eq!(strip_trailing_slashes("https://api.example.com/v1///"), "https://api.example.com/v1");
    assert_eq!(strip_trailing_slashes("https://api.example.com/v1"), "https://api.example.com/v1");
    assert_eq!(strip_trailing_slashes("///"), "");
    assert_eq!(strip_trailing_slashes(""), "");
    assert_eq!(strip_trailing_slashes("/a/b"), "/a/b");
}

#[test]
fn concat_all_joins_in_order() {
    let parts = vec![String::from("a"), String::from("bc"), String::new(), String::from("d")];
    assert_eq!(concat_all(&parts), "abcd");
    let none: Vec<String> = Vec::new();
    assert_eq!(concat_all(&none), "");
}
