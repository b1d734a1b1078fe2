use python_packaging::text::{i32_to_string, rejection_message, str_eq, strip_prefix};

#[test]
fn str_eq_compares_characters() {
    assert!(str_eq("", ""));
    assert!(str_eq("abc", "abc"));
    assert!(!str_eq("abc", "abd"));
    assert!(!str_eq("abc", "ab"));
    assert!(!str_eq("ab", "abc"));
    assert!(!str_eq("abc", "Abc"));
    assert!(str_eq("naïve", "naïve"));
    assert!(!str_eq("naïve", "naive"));
    assert!(!str_eq("e\u{301}", "é"));
}

#[test]
fn strip_prefix_returns_what_follows() {
    assert_eq!(strip_prefix("static:/usr", "static:"), Some("/usr"));
    assert_eq!(strip_prefix("static:", "static:"), Some(""));
    assert_eq!(strip_prefix("abc", ""), Some("abc"));
    assert_eq!(strip_prefix("", ""), Some(""));
    assert_eq!(strip_prefix("日本語", "日本"), Some("語"));
    assert_eq!(strip_prefix("é-x", "é"), Some("-x"));
}

#[test]
fn strip_prefix_fails_without_the_prefix() {
    assert_eq!(strip_prefix("static", "static:"), None);
    assert_eq!(strip_prefix("", "a"), None);
    assert_eq!(strip_prefix("Static:x", "static:"), None);
    assert_eq!(strip_prefix("xstatic:", "static:"), None);
    assert_eq!(strip_prefix("日本語", "日語"), None);
}

#[test]
fn i32_to_string_renders_decimal() {
    assert_eq!(i32_to_string(0), "0");
    assert_eq!(i32_to_string(7), "7");
    assert_eq!(i32_to_string(10), "10");
    assert_eq!(i32_to_string(-1), "-1");
    assert_eq!(i32_to_string(12345), "12345");
    assert_eq!(i32_to_string(-90210), "-90210");
    assert_eq!(i32_to_string(i32::MAX), "2147483647");
    assert_eq!(i32_to_string(i32::MIN), "-2147483648");
    for n in [-1000, -101, -10, -9, 1, 9, 99, 100, 1001, 65536] {
        assert_eq!(i32_to_string(n), n.to_string());
    }
}

#[test]
fn rejection_message_puts_the_input_first() {
    assert_eq!(rejection_message("x", " is wrong"), "x is wrong");
    assert_eq!(rejection_message("", " is wrong"), " is wrong");
}
