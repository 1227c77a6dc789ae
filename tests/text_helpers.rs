use hts_recorder::text::{contains_str, decimal_len, join, push_decimal, push_padded};

#[test]
fn decimal_numerals() {
    let mut s = String::from("n=");
    push_decimal(&mut s, 0);
    assert_eq!(s, "n=0");
    let mut s = String::new();
    push_decimal(&mut s, 18446744073709551615);
    assert_eq!(s, "18446744073709551615");
    assert_eq!(decimal_len(999), 3);
    assert_eq!(decimal_len(1000), 4);
}

#[test]
fn padded_numerals() {
    let mut s = String::new();
    push_padded(&mut s, 7, 6);
    assert_eq!(s, "000007");
    let mut s = String::new();
    push_padded(&mut s, 1234567, 6);
    assert_eq!(s, "1234567");
    let mut s = String::new();
    push_padded(&mut s, 0, 0);
    assert_eq!(s, "0");
}

#[test]
fn substring_search() {
    assert!(contains_str("kiwoom.exe", "woom"));
    assert!(contains_str("abc", ""));
    assert!(!contains_str("ab", "abc"));
    assert!(!contains_str("kiwoom", "Kiwoom"));
    assert!(contains_str("키움증권", "증권"));
}

#[test]
fn path_joining() {
    assert_eq!(join("a", "b"), "a/b");
    assert_eq!(join("a/", "b"), "a/b");
    assert_eq!(join("", "b"), "b");
}
