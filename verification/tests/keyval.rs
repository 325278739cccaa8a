use twitar::keyval::{KeyPair, KeyVal, RequestParams};

fn listed(k: &KeyVal) -> Vec<(String, String)> {
    k.to_pairs()
}

fn pair(a: &str, b: &str) -> (String, String) {
    (String::from(a), String::from(b))
}

#[test]
fn key_pair_holds_what_it_was_given() {
    let p = KeyPair::new("key", "secret");
    assert_eq!(p.key, "key");
    assert_eq!(p.value, "secret");
    let q = p.clone();
    assert_eq!(q.key, "key");
    assert_eq!(q.value, "secret");
    let e = KeyPair::empty();
    assert_eq!(e.key, "");
    assert_eq!(e.value, "");
}

#[test]
fn new_mapping_is_empty() {
    let k = KeyVal::new();
    assert_eq!(k.len(), 0);
    assert!(k.get("a").is_none());
    assert!(!k.contains_key("a"));
    assert_eq!(KeyVal::default().len(), 0);
    let params: RequestParams = RequestParams::new();
    assert_eq!(params.len(), 0);
}

#[test]
fn add_keeps_insertion_order_and_replaces_in_place() {
    let k = KeyVal::new()
        .add_keyval(String::from("a"), String::from("1"))
        .add_param("b", String::from("2"))
        .add_param("a", String::from("3"));
    assert_eq!(listed(&k), vec![pair("a", "3"), pair("b", "2")]);
    assert_eq!(k.len(), 2);
    assert_eq!(k.get("a").unwrap(), "3");
    assert_eq!(k.get("b").unwrap(), "2");
    assert!(k.get("c").is_none());
    assert_eq!(k.entry(1).key, "b");
    assert_eq!(k.pairs().len(), 2);
    assert_eq!(k.pairs()[0].value, "3");
}

#[test]
fn optional_parameter_is_added_only_where_there_is_one() {
    let k = KeyVal::new()
        .add_opt_param("a", None)
        .add_opt_param("b", Some(String::from("2")));
    assert_eq!(listed(&k), vec![pair("b", "2")]);
}

#[test]
fn list_of_pairs_is_stored_one_after_the_other() {
    let k = KeyVal::new_with_keyval(String::from("a"), String::from("0"))
        .add_list_keyval(vec![pair("b", "1"), pair("a", "2"), pair("b", "3"), pair("c", "4")]);
    assert_eq!(listed(&k), vec![pair("a", "2"), pair("b", "3"), pair("c", "4")]);
}

#[test]
fn validate_asks_for_the_exact_value() {
    let k = KeyVal::new().add_param("state", String::from("xyz"));
    assert!(k.validate("state", "xyz"));
    assert!(!k.validate("state", "xy"));
    assert!(!k.validate("state", "xyz "));
    assert!(!k.validate("other", "xyz"));
}

#[test]
fn verify_present_asks_for_every_name() {
    let k = KeyVal::new()
        .add_param("code", String::from("c"))
        .add_param("state", String::from("s"));
    assert!(k.verify_present(&vec!["code", "state"]));
    assert!(k.verify_present(&vec!["state"]));
    assert!(k.verify_present(&Vec::new()));
    assert!(!k.verify_present(&vec!["code", "oauth_token"]));
    assert!(!k.verify_present(&vec!["oauth_token"]));
}

#[test]
fn clone_holds_the_same_pairs() {
    let k = KeyVal::new().add_param("a", String::from("1")).add_param("b", String::from("2"));
    let c = k.clone();
    assert_eq!(listed(&c), listed(&k));
}

#[test]
fn names_are_told_apart_to_the_byte() {
    let k = KeyVal::new()
        .add_param("a", String::from("1"))
        .add_param("A", String::from("2"))
        .add_param("é", String::from("3"))
        .add_param("", String::from("4"));
    assert_eq!(k.len(), 4);
    assert_eq!(k.get("").unwrap(), "4");
    assert_eq!(k.get("é").unwrap(), "3");
}
