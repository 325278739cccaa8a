use std::collections::HashMap;
use twitar::errors::{ErrorKind, TError, TwitterErrorCode, TwitterErrors};
use twitar::keyval::KeyVal;
use twitar::response::{
    header_present, interpret_response, Errors, ResponseBuilder, TwitterResponseData, CONTENT_TYPE,
    HEAD_LENGTH, RATE_LIMIT_CODE,
};

fn headers(pairs: &[(&str, &str)]) -> Vec<(String, String)> {
    pairs.iter().map(|p| (String::from(p.0), String::from(p.1))).collect()
}

fn payload(codes: &[i32]) -> TwitterErrors {
    TwitterErrors {
        errors: codes.iter().map(|c| TwitterErrorCode { code: *c, message: String::from("m") }).collect(),
    }
}

fn record(pairs: &[(&str, &str)]) -> KeyVal {
    pairs.iter().fold(KeyVal::new(), |k, p| k.add_param(p.0, String::from(p.1)))
}

#[test]
fn success_without_payload_hands_back_headers_and_body() {
    let h = headers(&[("content-type", "application/json")]);
    let r = interpret_response(200, h.clone(), b"{}".to_vec(), None).unwrap();
    assert_eq!(r.0, h);
    assert_eq!(r.1, b"{}".to_vec());
    assert!(interpret_response(299, Vec::new(), Vec::new(), None).is_ok());
    assert!(interpret_response(204, Vec::new(), Vec::new(), None).is_ok());
}

#[test]
fn status_outside_the_two_hundreds_is_a_bad_status() {
    for status in [100, 199, 300, 404, 500, 999, 0, 1000, 65535] {
        let r = interpret_response(status, Vec::new(), Vec::new(), None);
        assert!(matches!(r, Err(TError::BadStatus(s)) if s == status));
    }
}

#[test]
fn rate_limit_is_told_apart_before_anything_else() {
    let h = headers(&[("x-rate-limit-reset", "1700000000")]);
    let r = interpret_response(429, h.clone(), Vec::new(), Some(payload(&[32, RATE_LIMIT_CODE])));
    assert!(matches!(r, Err(TError::RateLimit)));
    let r = interpret_response(200, h, Vec::new(), Some(payload(&[88])));
    assert!(matches!(r, Err(TError::RateLimit)));
}

#[test]
fn payload_without_rate_limit_is_a_provider_error() {
    let h = headers(&[("x-rate-limit-reset", "1700000000")]);
    let r = interpret_response(403, h.clone(), Vec::new(), Some(payload(&[32])));
    match r {
        Err(TError::TwitterError(got, errors)) => {
            assert_eq!(got, h);
            assert_eq!(errors.errors.len(), 1);
            assert_eq!(errors.errors[0].code, 32);
        }
        other => panic!("unexpected: {:?}", other),
    }
    let r = interpret_response(429, headers(&[("date", "x")]), Vec::new(), Some(payload(&[88])));
    assert!(matches!(r, Err(TError::TwitterError(_, _))));
    let r = interpret_response(200, Vec::new(), Vec::new(), Some(payload(&[])));
    assert!(matches!(r, Err(TError::TwitterError(_, _))));
}

#[test]
fn header_lookup_ignores_the_case_of_ascii_letters() {
    let h = headers(&[("date", "x"), ("x-rate-limit-reset", "1"), ("É-tag", "2")]);
    assert!(header_present(&h, "x-rate-limit-reset"));
    assert!(header_present(&h, "X-Rate-Limit-Reset"));
    assert!(header_present(&h, "X-RATE-LIMIT-RESET"));
    assert!(header_present(&h, "Date"));
    assert!(header_present(&h, "É-TAG"));
    assert!(!header_present(&h, "é-tag"));
    assert!(!header_present(&h, "x-rate-limit"));
    assert!(!header_present(&h, "x_rate_limit_reset"));
    assert!(!header_present(&h, "x-rate-limit-reset "));
    assert!(!header_present(&Vec::new(), "date"));
    let at = headers(&[("@", "1"), ("[", "2")]);
    assert!(!header_present(&at, "`"));
    assert!(!header_present(&at, "{"));
}

#[test]
fn rate_limit_header_is_found_in_any_case() {
    for name in ["x-rate-limit-reset", "X-Rate-Limit-Reset", "X-RATE-LIMIT-RESET"] {
        let r = interpret_response(429, headers(&[(name, "1")]), Vec::new(), Some(payload(&[88])));
        assert!(matches!(r, Err(TError::RateLimit)));
    }
}

#[test]
fn payload_knows_its_codes() {
    let p = payload(&[1, 88, 3]);
    assert!(p.has_code(88));
    assert!(p.has_code(1));
    assert!(!p.has_code(2));
    assert!(!payload(&[]).has_code(88));
}

#[test]
fn every_error_has_its_kind() {
    assert_eq!(TError::InvalidCredentialError(String::new()).kind(), ErrorKind::InvalidCredential);
    assert_eq!(TError::RateLimit.kind(), ErrorKind::RateLimited);
    assert_eq!(TError::TwitterError(Vec::new(), payload(&[])).kind(), ErrorKind::ProviderError);
    assert_eq!(TError::BadStatus(500).kind(), ErrorKind::BadStatus(500));
    assert_eq!(TError::TransportError(String::new()).kind(), ErrorKind::Transport);
    assert_eq!(TError::StoreError(String::new()).kind(), ErrorKind::Store);
    assert_eq!(TError::MalformedResponse(String::new()).kind(), ErrorKind::Malformed);
    assert_eq!(TError::InvalidStatusCode(7).kind(), ErrorKind::InvalidStatus(7));
    assert_eq!(TError::UnexpectedEvent.kind(), ErrorKind::UnexpectedEvent);
}

#[test]
fn reply_takes_a_status_from_100_to_999() {
    for code in [100u16, 200, 400, 599, 999] {
        let reply = ResponseBuilder::new(String::from("m"), Some(7u8), code).reply().unwrap();
        assert_eq!(reply.status, code);
        assert_eq!(reply.content.message, "m");
        assert_eq!(reply.content.body, Some(7));
        assert_eq!(reply.content.code, code);
    }
}

#[test]
fn reply_refuses_a_number_that_is_no_status() {
    for code in [0u16, 99, 1000, 65535] {
        let r = ResponseBuilder::<u8>::new(String::from("m"), None, code).reply();
        assert!(matches!(r, Err(TError::InvalidStatusCode(c)) if c == code));
    }
}

#[test]
fn error_texts_stay_as_they_are() {
    let mut texts = HashMap::new();
    texts.insert("a", "b");
    let errors = Errors(texts).new(&[(TError::RateLimit, "slow down")]);
    assert_eq!(errors.0.len(), 1);
    assert_eq!(errors.0.get("a"), Some(&"b"));
    assert_eq!(Errors::default().new(&[]).0.len(), 0);
}

#[test]
fn records_merge_into_one_the_later_over_the_earlier() {
    let data = TwitterResponseData {
        data: vec![
            record(&[("id", "1"), ("text", "a")]),
            record(&[("text", "b"), ("lang", "en")]),
        ],
    };
    let dict = data.into_one_dict();
    assert_eq!(
        dict.to_pairs(),
        vec![
            (String::from("id"), String::from("1")),
            (String::from("text"), String::from("b")),
            (String::from("lang"), String::from("en")),
        ]
    );
    assert_eq!(TwitterResponseData { data: Vec::new() }.into_one_dict().len(), 0);
}

#[test]
fn retweets_are_told_apart_by_their_first_two_letters() {
    let data = TwitterResponseData {
        data: vec![
            record(&[("id", "1"), ("text", "RT @a: hello")]),
            record(&[("id", "2"), ("text", "hello")]),
            record(&[("id", "3"), ("text", "RT")]),
            record(&[("id", "4"), ("text", "R")]),
            record(&[("id", "5"), ("text", "rt lower")]),
            record(&[("id", "6"), ("text", "")]),
            record(&[("text", "RTé"), ("id", "7")]),
        ],
    };
    let ids = data.separate_tweets_from_rts(false);
    assert_eq!(ids.rts, vec!["1", "3", "7"]);
    assert_eq!(ids.tweets, vec!["2", "4", "5", "6"]);
}

#[test]
fn head_of_eleven_records_is_passed_over() {
    assert_eq!(HEAD_LENGTH, 11);
    let data: Vec<KeyVal> = (0..13)
        .map(|i| {
            if i < 11 {
                record(&[("meta", "x")])
            } else if i == 11 {
                record(&[("id", "eleven"), ("text", "RT x")])
            } else {
                record(&[("id", "twelve"), ("text", "x")])
            }
        })
        .collect();
    let ids = TwitterResponseData { data }.separate_tweets_from_rts(true);
    assert_eq!(ids.rts, vec!["eleven"]);
    assert_eq!(ids.tweets, vec!["twelve"]);

    let short = TwitterResponseData { data: vec![record(&[("meta", "x")]), record(&[("meta", "y")])] };
    let ids = short.separate_tweets_from_rts(true);
    assert!(ids.rts.is_empty());
    assert!(ids.tweets.is_empty());

    let exact: Vec<KeyVal> = (0..11).map(|_| record(&[("meta", "x")])).collect();
    let ids = TwitterResponseData { data: exact }.separate_tweets_from_rts(true);
    assert!(ids.rts.is_empty() && ids.tweets.is_empty());
}

#[test]
fn form_content_type_is_the_registered_one() {
    assert_eq!(CONTENT_TYPE, "application/x-www-form-urlencoded");
    assert_eq!(RATE_LIMIT_CODE, 88);
}
