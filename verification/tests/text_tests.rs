use shelldon::text::{
    concat3, decimal_string, join_strings, pad_string, replace_char_with, str_contains, str_eq,
    str_starts_with, trim, trim_start_matches,
};

#[test]
fn trim_removes_unicode_white_space() {
    assert_eq!(trim("  npm run dev \n"), "npm run dev");
    assert_eq!(trim("\u{3000}x\u{a0}"), "x");
    assert_eq!(trim("   "), "");
    assert_eq!(trim(""), "");
    assert_eq!(trim("a b"), "a b");
    assert_eq!(trim("\t\r\x0b\x0c x\ty \n"), "x\ty");
    assert_eq!(trim("\x1fx\x1f"), "\x1fx\x1f");
}

#[test]
fn contains_and_starts_with() {
    assert!(str_contains("C:/tools/pwsh.exe", "pwsh"));
    assert!(!str_contains("cmd", "pwsh"));
    assert!(str_contains("abc", ""));
    assert!(!str_contains("", "a"));
    assert!(str_starts_with("browser:x", "browser:"));
    assert!(!str_starts_with("browse", "browser:"));
    assert!(str_eq("a", "a"));
    assert!(!str_eq("a", "A"));
}

#[test]
fn trim_start_matches_removes_every_leading_copy() {
    assert_eq!(trim_start_matches("browser:browser:http://x", "browser:"), "http://x");
    assert_eq!(trim_start_matches("http://x", "browser:"), "http://x");
    assert_eq!(trim_start_matches("browser:", "browser:"), "");
    assert_eq!(trim_start_matches("abc", ""), "abc");
}

#[test]
fn replace_chars() {
    assert_eq!(replace_char_with(r"C:\a\b", '\\', r"\\"), r"C:\\a\\b");
    assert_eq!(replace_char_with("o'neil", '\'', "''"), "o''neil");
    assert_eq!(replace_char_with("", 'x', "yy"), "");
}

#[test]
fn decimals_and_padding() {
    assert_eq!(decimal_string(0), "0");
    assert_eq!(decimal_string(7), "7");
    assert_eq!(decimal_string(10), "10");
    assert_eq!(decimal_string(1234), "1234");
    assert_eq!(decimal_string(usize::MAX), usize::MAX.to_string());
    assert_eq!(pad_string("erp", 6), "erp   ");
    assert_eq!(pad_string("ñandú", 6), "ñandú ");
    assert_eq!(pad_string("toolong", 3), "toolong");
}

#[test]
fn joins_and_concats() {
    let v = vec!["vscode".to_string(), "browser:x".to_string()];
    assert_eq!(join_strings(&v, ", "), "vscode, browser:x");
    assert_eq!(join_strings(&vec![], ", "), "");
    assert_eq!(join_strings(&vec!["a".to_string()], ", "), "a");
    assert_eq!(concat3("a", "", "c"), "ac");
}
