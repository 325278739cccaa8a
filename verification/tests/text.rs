use twitar::method::ApiCallMethod;
use twitar::text::{bytes_eq, bytes_le, decimal, str_eq, str_le};

#[test]
fn decimal_renders_without_leading_zeros() {
    assert_eq!(decimal(0), "0");
    assert_eq!(decimal(7), "7");
    assert_eq!(decimal(10), "10");
    assert_eq!(decimal(1318622958), "1318622958");
    assert_eq!(decimal(u64::MAX), "18446744073709551615");
}

#[test]
fn byte_order_is_lexicographic() {
    assert!(bytes_le(b"", b""));
    assert!(bytes_le(b"", b"a"));
    assert!(!bytes_le(b"a", b""));
    assert!(bytes_le(b"a", b"a"));
    assert!(bytes_le(b"a", b"ab"));
    assert!(!bytes_le(b"ab", b"a"));
    assert!(bytes_le(b"ab", b"b"));
    assert!(bytes_le(b"B", b"a"));
    assert!(!bytes_le(b"a", b"B"));
    assert!(bytes_le(&[0x7f], &[0x80]));
}

#[test]
fn text_order_is_the_order_of_the_bytes() {
    assert!(str_le("a", "b"));
    assert!(str_le("Z", "a"));
    assert!(str_le("a-", "a="));
    assert!(str_le("z", "é"));
    assert!(!str_le("é", "z"));
    assert!(str_le("same", "same"));
}

#[test]
fn equality_is_to_the_byte() {
    assert!(bytes_eq(b"abc", b"abc"));
    assert!(!bytes_eq(b"abc", b"abd"));
    assert!(!bytes_eq(b"abc", b"ab"));
    assert!(bytes_eq(b"", b""));
    assert!(str_eq("é", "é"));
    assert!(!str_eq("e", "é"));
    assert!(!str_eq("a", "A"));
}

#[test]
fn method_names_are_upper_case() {
    assert_eq!(ApiCallMethod::POST.as_str(), "POST");
    assert_eq!(ApiCallMethod::DELETE.as_str(), "DELETE");
    assert_eq!(ApiCallMethod::GET.as_str(), "GET");
    assert_eq!(ApiCallMethod::GET.to_text(), String::from("GET"));
    assert_eq!(ApiCallMethod::POST, ApiCallMethod::POST.clone());
}
