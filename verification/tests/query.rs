use twitar::query::parse_query;

fn parsed(query: &str) -> Option<Vec<(String, String)>> {
    parse_query(query).map(|k| k.to_pairs())
}

fn pairs(list: &[(&str, &str)]) -> Option<Vec<(String, String)>> {
    Some(list.iter().map(|p| (String::from(p.0), String::from(p.1))).collect())
}

#[test]
fn query_is_split_at_ampersands_and_first_equals() {
    assert_eq!(parsed("code=abc123&state=xyz"), pairs(&[("code", "abc123"), ("state", "xyz")]));
    assert_eq!(parsed("a=b=c"), pairs(&[("a", "b=c")]));
    assert_eq!(parsed("a"), pairs(&[("a", "")]));
    assert_eq!(parsed("a="), pairs(&[("a", "")]));
    assert_eq!(parsed("=b"), pairs(&[("", "b")]));
    assert_eq!(parsed("="), pairs(&[("", "")]));
}

#[test]
fn empty_pieces_are_left_out() {
    assert_eq!(parsed(""), pairs(&[]));
    assert_eq!(parsed("&"), pairs(&[]));
    assert_eq!(parsed("&&a=1&&b=2&"), pairs(&[("a", "1"), ("b", "2")]));
}

#[test]
fn names_and_values_are_percent_decoded() {
    assert_eq!(parsed("a%20b=c%26d&e=%C3%A9"), pairs(&[("a b", "c&d"), ("e", "é")]));
    assert_eq!(parsed("a=1+2"), pairs(&[("a", "1+2")]));
    assert_eq!(parsed("a=%3D%3d"), pairs(&[("a", "==")]));
    assert_eq!(parsed("a=100%"), pairs(&[("a", "100%")]));
}

#[test]
fn later_field_wins_over_an_earlier_one_of_the_same_name() {
    assert_eq!(parsed("a=1&b=2&a=3"), pairs(&[("a", "3"), ("b", "2")]));
    assert_eq!(parsed("a=1&%61=2"), pairs(&[("a", "2")]));
}

#[test]
fn field_that_decodes_to_no_text_spoils_the_query() {
    assert_eq!(parsed("a=%FF"), None);
    assert_eq!(parsed("%C3=1"), None);
    assert_eq!(parsed("ok=1&bad=%80&more=2"), None);
    assert_eq!(parsed("a=%C3%A9"), pairs(&[("a", "é")]));
}
