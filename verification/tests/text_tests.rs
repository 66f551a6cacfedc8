use mdns_scanner::text::{contains_str, decimal_string, push_decimal, str_eq};

#[test]
fn decimal_numerals() {
    assert_eq!(decimal_string(0), "0");
    assert_eq!(decimal_string(7), "7");
    assert_eq!(decimal_string(10), "10");
    assert_eq!(decimal_string(8080), "8080");
    assert_eq!(decimal_string(65535), "65535");
    assert_eq!(decimal_string(u64::MAX), "18446744073709551615");
}

#[test]
fn push_decimal_appends() {
    let mut s = String::from("port ");
    push_decimal(&mut s, 443);
    assert_eq!(s, "port 443");
}

#[test]
fn string_equality() {
    assert!(str_eq("", ""));
    assert!(str_eq("poco", "poco"));
    assert!(!str_eq("poco", "Poco"));
    assert!(!str_eq("poco", "poc"));
    assert!(str_eq("héllo", "héllo"));
}

#[test]
fn substring_search() {
    assert!(contains_str("pocophone f1", "poco"));
    assert!(contains_str("my poco", "poco"));
    assert!(contains_str("xpocox", "poco"));
    assert!(contains_str("anything", ""));
    assert!(contains_str("", ""));
    assert!(!contains_str("", "poco"));
    assert!(!contains_str("pocx", "poco"));
    assert!(!contains_str("POCO", "poco"));
    assert!(contains_str("ppoco", "poco"));
}
