use twitar::codec::{canonicalize, decode, encode, join, to_urlencode};
use twitar::keyval::{KeyPair, KeyVal};

#[test]
fn encode_keeps_unreserved_and_escapes_the_rest() {
    assert_eq!(encode("Ladies + Gentlemen"), "Ladies%20%2B%20Gentlemen");
    assert_eq!(encode("AZaz09-._~"), "AZaz09-._~");
    assert_eq!(encode(""), "");
}

#[test]
fn encode_escapes_every_reserved_character() {
    assert_eq!(encode("+&=?/:@!*'()"), "%2B%26%3D%3F%2F%3A%40%21%2A%27%28%29");
    for reserved in ["+", "&", "=", "?", "/", ":", "@", "!", "*", "'", "(", ")"] {
        let text = format!("a{}b{}", reserved, reserved);
        let encoded = encode(&text);
        assert!(!encoded.contains(reserved));
        assert!(encoded.chars().all(|c| c.is_ascii_alphanumeric() || "-._~%".contains(c)));
    }
}

#[test]
fn encode_uses_upper_case_hex_over_utf8_bytes() {
    assert_eq!(encode("é"), "%C3%A9");
    assert_eq!(encode("☃"), "%E2%98%83");
    assert_eq!(encode("%"), "%25");
    assert_eq!(encode("\u{0}\u{7f}a"), "%00%7Fa");
    assert_eq!(encode("\u{10FFFF}"), "%F4%8F%BF%BF");
}

fn decoded(text: &str) -> Option<String> {
    decode(text)
}

#[test]
fn decode_turns_escapes_into_bytes_and_leaves_the_rest() {
    assert_eq!(decoded("a%20b").as_deref(), Some("a b"));
    assert_eq!(decoded("%41%4a%4A").as_deref(), Some("AJJ"));
    assert_eq!(decoded("a+b").as_deref(), Some("a+b"));
    assert_eq!(decoded("%").as_deref(), Some("%"));
    assert_eq!(decoded("%4").as_deref(), Some("%4"));
    assert_eq!(decoded("%zz").as_deref(), Some("%zz"));
    assert_eq!(decoded("%4%41").as_deref(), Some("%4A"));
    assert_eq!(decoded("%%41").as_deref(), Some("%A"));
    assert_eq!(decoded("%C3%A9").as_deref(), Some("é"));
    assert_eq!(decoded("%c3%a9").as_deref(), Some("é"));
    assert_eq!(decoded("é").as_deref(), Some("é"));
    assert_eq!(decoded("").as_deref(), Some(""));
}

#[test]
fn decode_has_no_result_where_the_bytes_are_no_text() {
    assert_eq!(decoded("%ff"), None);
    assert_eq!(decoded("%C3"), None);
    assert_eq!(decoded("a%80b"), None);
    assert_eq!(decoded("%ED%A0%80"), None);
}

#[test]
fn decoding_what_was_encoded_gives_it_back() {
    for text in ["", "plain", "a b&c=d", "100%", "é☃", "%41", "+&=?/:@!*'()"] {
        assert_eq!(decoded(&encode(text)).as_deref(), Some(text));
    }
}

#[test]
fn canonical_string_is_sorted_by_encoded_name() {
    let params = KeyVal::new()
        .add_param("b", String::from("2"))
        .add_param("a", String::from("1 1"))
        .add_param("c", String::from(""));
    assert_eq!(canonicalize(&params), "a=1%201&b=2&c=");
    assert_eq!(canonicalize(&KeyVal::new()), "");
    assert_eq!(canonicalize(&KeyVal::new().add_param("k", String::from("v"))), "k=v");
}

#[test]
fn canonical_order_is_byte_wise_on_the_encoded_names() {
    let params = KeyVal::new()
        .add_param("a", String::from("4"))
        .add_param("B", String::from("3"))
        .add_param("a-", String::from("5"))
        .add_param("!", String::from("1"))
        .add_param("0", String::from("2"))
        .add_param("ab", String::from("6"));
    assert_eq!(canonicalize(&params), "%21=1&0=2&B=3&a=4&a-=5&ab=6");
}

#[test]
fn canonical_string_does_not_depend_on_insertion_order() {
    let pairs = [("z", "26"), ("a", "1"), ("m m", "13"), ("é", "e"), ("A", "&")];
    let forward = pairs.iter().fold(KeyVal::new(), |k, p| k.add_param(p.0, String::from(p.1)));
    let backward = pairs.iter().rev().fold(KeyVal::new(), |k, p| k.add_param(p.0, String::from(p.1)));
    let shuffled = [2, 0, 4, 1, 3]
        .iter()
        .fold(KeyVal::new(), |k, i| k.add_param(pairs[*i].0, String::from(pairs[*i].1)));
    let expected = "%C3%A9=e&A=%26&a=1&m%20m=13&z=26";
    assert_eq!(canonicalize(&forward), expected);
    assert_eq!(canonicalize(&backward), expected);
    assert_eq!(canonicalize(&shuffled), expected);
}

#[test]
fn form_body_keeps_insertion_order() {
    let params = KeyVal::new()
        .add_param("b", String::from("2 2"))
        .add_param("a", String::from("1&1"));
    assert_eq!(to_urlencode(&params), "b=2%202&a=1%261");
    assert_eq!(to_urlencode(&KeyVal::new()), "");
}

#[test]
fn join_writes_fields_as_they_are() {
    let pairs = vec![KeyPair::new("a", "1"), KeyPair::new("b c", "2&3")];
    assert_eq!(join(&pairs), "a=1&b c=2&3");
    assert_eq!(join(&Vec::new()), "");
}
