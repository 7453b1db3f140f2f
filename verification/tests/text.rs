use obscur_native::text::{
    chars_of, concat2, concat3, contains, contains_ignore_ascii_case, decimal_i32, decimal_u64,
    find_chars, lower_char, same_text, starts_with,
};

#[test]
fn prefixes() {
    assert!(starts_with("nsec1abc", "nsec"));
    assert!(starts_with("nsec", "nsec"));
    assert!(starts_with("abc", ""));
    assert!(!starts_with("nse", "nsec"));
    assert!(!starts_with("Nsec1", "nsec"));
}

#[test]
fn substring_search() {
    assert!(contains("Bootstrapped 100% (done)", "Bootstrapped 100%"));
    assert!(!contains("Bootstrapped 99%", "Bootstrapped 100%"));
    assert!(contains("abc", ""));
    assert!(!contains("", "a"));
    assert!(contains_ignore_ascii_case("No files provided", "no files"));
    assert!(contains_ignore_ascii_case("ERROR: NO FILES", "no files"));
    assert!(!contains_ignore_ascii_case("nofiles", "no files"));
    assert!(!contains("No files provided", "no files"));
    let hay = chars_of("xxabxab");
    let needle = chars_of("ab");
    assert_eq!(find_chars(&hay, &needle, false), Some(2));
    assert_eq!(find_chars(&hay, &chars_of("AB"), false), None);
    assert_eq!(find_chars(&hay, &chars_of("AB"), true), Some(2));
}

#[test]
fn case_folding_is_ascii_only() {
    assert_eq!(lower_char('A'), 'a');
    assert_eq!(lower_char('Z'), 'z');
    assert_eq!(lower_char('a'), 'a');
    assert_eq!(lower_char('@'), '@');
    assert_eq!(lower_char('['), '[');
    assert_eq!(lower_char('Ä'), 'Ä');
}

#[test]
fn decimals() {
    assert_eq!(decimal_u64(0), "0");
    assert_eq!(decimal_u64(7), "7");
    assert_eq!(decimal_u64(27235), "27235");
    assert_eq!(decimal_u64(u64::MAX), "18446744073709551615");
    assert_eq!(decimal_i32(0), "0");
    assert_eq!(decimal_i32(-1), "-1");
    assert_eq!(decimal_i32(i32::MAX), "2147483647");
    assert_eq!(decimal_i32(i32::MIN), "-2147483648");
}

#[test]
fn joining_and_comparing() {
    assert_eq!(concat2("a", "b"), "ab");
    assert_eq!(concat3("a", "", "c"), "ac");
    assert!(same_text("wss", "wss"));
    assert!(!same_text("wss", "ws"));
    assert_eq!(chars_of("hé"), vec!['h', 'é']);
}
