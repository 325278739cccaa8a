use twitar::codec::canonicalize;
use twitar::keyval::{KeyPair, KeyVal};
use twitar::method::ApiCallMethod;
use twitar::oauth::{base_string, signing_key, OAuthAddOn, OAuthParams, SignedHeader};
use twitar::signer::{sign, sign_text};

const URL: &str = "https://api.twitter.com/1.1/statuses/update.json";

fn published_params() -> KeyVal {
    KeyVal::new()
        .add_param("status", String::from("Hello Ladies + Gentlemen, a signed OAuth request!"))
        .add_param("include_entities", String::from("true"))
}

fn published_material() -> OAuthParams {
    OAuthParams {
        consumer: KeyPair::new("xvz1evFS4wEEPTGEFPHBog", "kAcSOqF21Fu85e7zjz7ZN2U4ZRhfV3WpwPAoE3Z7kBw"),
        nonce: String::from("kYjzVBB8Y0ZFabxSWbWovY3uYSQ2pTgmZeNu2VS4cg"),
        timestamp: 1318622958,
        token: Some(KeyPair::new(
            "370773112-GmHxMAgYyLbNEtIKZeRNFsMKPR9EyMZeS9weJAEb",
            "LswwdoUaIvS8ltyTt5jkRh4J50vUPVVHtR2YPi5kE",
        )),
        addon: OAuthAddOn::Neither,
    }
}

fn names(header: &SignedHeader) -> Vec<&str> {
    header.params.iter().map(|p| p.0).collect()
}

fn signature_of(header: &SignedHeader) -> String {
    header.get("oauth_signature").unwrap().clone()
}

#[test]
fn published_vector_gives_the_published_signature() {
    let header = published_material().sign_request(
        &ApiCallMethod::POST,
        Some(&published_params()),
        URL,
        String::new(),
    );
    assert_eq!(signature_of(&header), "hCtSmYh+iHYCEqBWrE7C7hYmtUk=");
}

#[test]
fn published_vector_gives_the_published_intermediate_texts() {
    let all = published_params()
        .add_param("oauth_consumer_key", String::from("xvz1evFS4wEEPTGEFPHBog"))
        .add_param("oauth_nonce", String::from("kYjzVBB8Y0ZFabxSWbWovY3uYSQ2pTgmZeNu2VS4cg"))
        .add_param("oauth_signature_method", String::from("HMAC-SHA1"))
        .add_param("oauth_timestamp", String::from("1318622958"))
        .add_param("oauth_token", String::from("370773112-GmHxMAgYyLbNEtIKZeRNFsMKPR9EyMZeS9weJAEb"))
        .add_param("oauth_version", String::from("1.0"));
    let parameter_string = canonicalize(&all);
    assert_eq!(
        parameter_string,
        "include_entities=true&oauth_consumer_key=xvz1evFS4wEEPTGEFPHBog&oauth_nonce=kYjzVBB8Y0ZFabxSWbWovY3uYSQ2pTgmZeNu2VS4cg&oauth_signature_method=HMAC-SHA1&oauth_timestamp=1318622958&oauth_token=370773112-GmHxMAgYyLbNEtIKZeRNFsMKPR9EyMZeS9weJAEb&oauth_version=1.0&status=Hello%20Ladies%20%2B%20Gentlemen%2C%20a%20signed%20OAuth%20request%21"
    );
    let base = base_string(&ApiCallMethod::POST, URL, "", &parameter_string);
    assert_eq!(
        base,
        "POST&https%3A%2F%2Fapi.twitter.com%2F1.1%2Fstatuses%2Fupdate.json&include_entities%3Dtrue%26oauth_consumer_key%3Dxvz1evFS4wEEPTGEFPHBog%26oauth_nonce%3DkYjzVBB8Y0ZFabxSWbWovY3uYSQ2pTgmZeNu2VS4cg%26oauth_signature_method%3DHMAC-SHA1%26oauth_timestamp%3D1318622958%26oauth_token%3D370773112-GmHxMAgYyLbNEtIKZeRNFsMKPR9EyMZeS9weJAEb%26oauth_version%3D1.0%26status%3DHello%2520Ladies%2520%252B%2520Gentlemen%252C%2520a%2520signed%2520OAuth%2520request%2521"
    );
    let key = signing_key(
        "kAcSOqF21Fu85e7zjz7ZN2U4ZRhfV3WpwPAoE3Z7kBw",
        "LswwdoUaIvS8ltyTt5jkRh4J50vUPVVHtR2YPi5kE",
    );
    assert_eq!(key, "kAcSOqF21Fu85e7zjz7ZN2U4ZRhfV3WpwPAoE3Z7kBw&LswwdoUaIvS8ltyTt5jkRh4J50vUPVVHtR2YPi5kE");
    assert_eq!(sign_text(&key, &base), "hCtSmYh+iHYCEqBWrE7C7hYmtUk=");
}

#[test]
fn hmac_sha1_matches_the_reference_vector() {
    let mac = sign(b"key", b"The quick brown fox jumps over the lazy dog");
    assert_eq!(
        mac,
        vec![222, 124, 155, 133, 184, 183, 138, 166, 188, 138, 122, 54, 247, 10, 144, 112, 28, 157, 180, 217]
    );
    assert_eq!(mac.len(), 20);
    assert_eq!(sign(b"", b"").len(), 20);
}

#[test]
fn signature_text_is_base64_of_the_mac() {
    assert_eq!(sign_text("key", "The quick brown fox jumps over the lazy dog"), "3nybhbi3iqa8ino29wqQcBydtNk=");
}

#[test]
fn signed_header_has_the_fixed_order() {
    let header = published_material().sign_request(
        &ApiCallMethod::POST,
        Some(&published_params()),
        URL,
        String::new(),
    );
    assert_eq!(
        names(&header),
        vec![
            "oauth_consumer_key",
            "oauth_nonce",
            "oauth_signature",
            "oauth_signature_method",
            "oauth_timestamp",
            "oauth_version",
            "oauth_token",
        ]
    );
    assert_eq!(header.params[0].1, "xvz1evFS4wEEPTGEFPHBog");
    assert_eq!(header.get("oauth_nonce").unwrap(), "kYjzVBB8Y0ZFabxSWbWovY3uYSQ2pTgmZeNu2VS4cg");
    assert_eq!(header.get("oauth_signature_method").unwrap(), "HMAC-SHA1");
    assert_eq!(header.get("oauth_timestamp").unwrap(), "1318622958");
    assert_eq!(header.get("oauth_version").unwrap(), "1.0");
    assert_eq!(header.get("oauth_token").unwrap(), "370773112-GmHxMAgYyLbNEtIKZeRNFsMKPR9EyMZeS9weJAEb");
    assert!(header.get("status").is_none());
}

#[test]
fn callback_addon_is_signed_and_emitted() {
    let material = OAuthParams { token: None, ..published_material() }
        .with_addon(OAuthAddOn::Callback(String::from("https://app.example/cb")));
    let header = material.sign_request(&ApiCallMethod::POST, None, "https://api.twitter.com/oauth/request_token", String::new());
    assert_eq!(
        names(&header),
        vec![
            "oauth_consumer_key",
            "oauth_nonce",
            "oauth_signature",
            "oauth_signature_method",
            "oauth_timestamp",
            "oauth_version",
            "oauth_callback",
        ]
    );
    assert_eq!(header.get("oauth_callback").unwrap(), "https://app.example/cb");

    let all = KeyVal::new()
        .add_param("oauth_callback", String::from("https://app.example/cb"))
        .add_param("oauth_consumer_key", String::from("xvz1evFS4wEEPTGEFPHBog"))
        .add_param("oauth_nonce", String::from("kYjzVBB8Y0ZFabxSWbWovY3uYSQ2pTgmZeNu2VS4cg"))
        .add_param("oauth_signature_method", String::from("HMAC-SHA1"))
        .add_param("oauth_timestamp", String::from("1318622958"))
        .add_param("oauth_version", String::from("1.0"));
    let base = base_string(
        &ApiCallMethod::POST,
        "https://api.twitter.com/oauth/request_token",
        "",
        &canonicalize(&all),
    );
    let key = signing_key("kAcSOqF21Fu85e7zjz7ZN2U4ZRhfV3WpwPAoE3Z7kBw", "");
    assert_eq!(signature_of(&header), sign_text(&key, &base));
}

#[test]
fn verifier_addon_is_signed_and_emitted_before_the_token() {
    let material = published_material().with_addon(OAuthAddOn::Verifier(String::from("v-123")));
    let header = material.sign_request(&ApiCallMethod::POST, None, URL, String::new());
    assert_eq!(
        names(&header),
        vec![
            "oauth_consumer_key",
            "oauth_nonce",
            "oauth_signature",
            "oauth_signature_method",
            "oauth_timestamp",
            "oauth_version",
            "oauth_verifier",
            "oauth_token",
        ]
    );
    assert_eq!(header.get("oauth_verifier").unwrap(), "v-123");
    let plain = published_material().sign_request(&ApiCallMethod::POST, None, URL, String::new());
    assert_ne!(signature_of(&header), signature_of(&plain));
}

#[test]
fn signing_key_keeps_the_ampersand_without_a_token() {
    assert_eq!(signing_key("secret", ""), "secret&");
    assert_eq!(signing_key("se cret", "to&ken"), "se%20cret&to%26ken");
}

#[test]
fn absent_token_signs_with_an_empty_second_segment() {
    let material = OAuthParams { token: None, ..published_material() };
    let header = material.sign_request(&ApiCallMethod::GET, None, URL, String::new());
    let all = KeyVal::new()
        .add_param("oauth_consumer_key", String::from("xvz1evFS4wEEPTGEFPHBog"))
        .add_param("oauth_nonce", String::from("kYjzVBB8Y0ZFabxSWbWovY3uYSQ2pTgmZeNu2VS4cg"))
        .add_param("oauth_signature_method", String::from("HMAC-SHA1"))
        .add_param("oauth_timestamp", String::from("1318622958"))
        .add_param("oauth_version", String::from("1.0"));
    let base = base_string(&ApiCallMethod::GET, URL, "", &canonicalize(&all));
    assert_eq!(
        signature_of(&header),
        sign_text("kAcSOqF21Fu85e7zjz7ZN2U4ZRhfV3WpwPAoE3Z7kBw&", &base)
    );
    assert!(header.get("oauth_token").is_none());
}

#[test]
fn base_string_has_three_parts() {
    assert_eq!(
        base_string(&ApiCallMethod::GET, "https://a.b/c", "", "x=1"),
        "GET&https%3A%2F%2Fa.b%2Fc&x%3D1"
    );
    assert_eq!(
        base_string(&ApiCallMethod::DELETE, "https://a.b/c", "", ""),
        "DELETE&https%3A%2F%2Fa.b%2Fc&"
    );
}

#[test]
fn query_is_decoded_once_before_it_is_encoded() {
    assert_eq!(
        base_string(&ApiCallMethod::GET, "https://a.b/c", "?q=a%20b", "x=1"),
        "GET&https%3A%2F%2Fa.b%2Fc%3Fq%3Da%20b&x%3D1"
    );
    assert_eq!(
        base_string(&ApiCallMethod::GET, "https://a.b/c", "?q=a%2520b", "x=1"),
        "GET&https%3A%2F%2Fa.b%2Fc%3Fq%3Da%2520b&x%3D1"
    );
    assert_eq!(
        base_string(&ApiCallMethod::GET, "https://a.b/c", "?q=%FF", "x=1"),
        "GET&https%3A%2F%2Fa.b%2Fc%3Fq%3D%FF&x%3D1"
    );
}

#[test]
fn resigning_the_same_inputs_gives_the_same_signature() {
    let sign_once = || {
        published_material().sign_request(
            &ApiCallMethod::POST,
            Some(&published_params()),
            URL,
            String::new(),
        )
    };
    let first = sign_once();
    let second = sign_once();
    assert_eq!(first.params, second.params);
}

#[test]
fn signature_ignores_the_insertion_order_of_parameters() {
    let forward = published_params();
    let backward = KeyVal::new()
        .add_param("include_entities", String::from("true"))
        .add_param("status", String::from("Hello Ladies + Gentlemen, a signed OAuth request!"));
    let a = published_material().sign_request(&ApiCallMethod::POST, Some(&forward), URL, String::new());
    let b = published_material().sign_request(&ApiCallMethod::POST, Some(&backward), URL, String::new());
    assert_eq!(signature_of(&a), signature_of(&b));
    assert_eq!(signature_of(&a), "hCtSmYh+iHYCEqBWrE7C7hYmtUk=");
}

#[test]
fn protocol_value_wins_over_a_parameter_of_the_same_name() {
    let meddling = published_params()
        .add_param("oauth_nonce", String::from("mine"))
        .add_param("oauth_version", String::from("2.0"));
    let header = published_material().sign_request(&ApiCallMethod::POST, Some(&meddling), URL, String::new());
    assert_eq!(signature_of(&header), "hCtSmYh+iHYCEqBWrE7C7hYmtUk=");
}

#[test]
fn another_nonce_or_timestamp_gives_another_signature() {
    let base = signature_of(&published_material().sign_request(&ApiCallMethod::POST, None, URL, String::new()));
    let other_nonce = OAuthParams { nonce: String::from("other"), ..published_material() };
    let later = OAuthParams { timestamp: 1318622959, ..published_material() };
    assert_ne!(signature_of(&other_nonce.sign_request(&ApiCallMethod::POST, None, URL, String::new())), base);
    assert_ne!(signature_of(&later.sign_request(&ApiCallMethod::POST, None, URL, String::new())), base);
}

#[test]
fn fresh_material_has_a_fresh_nonce_and_the_present_time() {
    let first = OAuthParams::from_keys(KeyPair::new("ck", "cs"), None).unwrap();
    let second = OAuthParams::from_keys(KeyPair::new("ck", "cs"), Some(KeyPair::new("t", "ts"))).unwrap();
    assert_ne!(first.nonce, second.nonce);
    assert!(first.timestamp > 1_600_000_000);
    assert!(second.timestamp >= first.timestamp);
    assert_eq!(first.consumer.key, "ck");
    assert_eq!(first.consumer.value, "cs");
    assert!(first.token.is_none());
    assert!(matches!(first.addon, OAuthAddOn::Neither));
    let token = second.token.unwrap();
    assert_eq!(token.key, "t");
    assert_eq!(token.value, "ts");
}

#[test]
fn fresh_nonce_is_a_hyphenated_lower_case_uuid() {
    let material = OAuthParams::from_keys(KeyPair::empty(), None).unwrap();
    let nonce: Vec<char> = material.nonce.chars().collect();
    assert_eq!(nonce.len(), 36);
    for (i, c) in nonce.iter().enumerate() {
        if i == 8 || i == 13 || i == 18 || i == 23 {
            assert_eq!(*c, '-');
        } else {
            assert!(c.is_ascii_digit() || ('a'..='f').contains(c));
        }
    }
}

#[test]
fn two_signings_a_second_apart_differ_in_nonce_and_signature() {
    let first = OAuthParams::from_keys(KeyPair::new("ck", "cs"), None).unwrap();
    let second = OAuthParams::from_keys(KeyPair::new("ck", "cs"), None).unwrap();
    let second = OAuthParams { timestamp: first.timestamp + 1, ..second };
    assert_ne!(first.nonce, second.nonce);
    let a = first.sign_request(&ApiCallMethod::POST, None, URL, String::new());
    let b = second.sign_request(&ApiCallMethod::POST, None, URL, String::new());
    assert_ne!(a.get("oauth_nonce").unwrap(), b.get("oauth_nonce").unwrap());
    assert_ne!(signature_of(&a), signature_of(&b));
}

#[test]
fn material_from_parts_needs_a_clock() {
    assert!(OAuthParams::from_parts(KeyPair::empty(), None, String::from("n"), None).is_none());
    let material = OAuthParams::from_parts(KeyPair::new("a", "b"), None, String::from("n"), Some(7)).unwrap();
    assert_eq!(material.timestamp, 7);
    assert_eq!(material.nonce, "n");
    assert_eq!(material.consumer.key, "a");
}

#[test]
fn addon_hands_out_its_own_kind_only() {
    let callback = OAuthAddOn::Callback(String::from("u"));
    let verifier = OAuthAddOn::Verifier(String::from("v"));
    assert_eq!(callback.with_callback(), Some(String::from("u")));
    assert_eq!(callback.with_verifier(), None);
    assert_eq!(verifier.with_verifier(), Some(String::from("v")));
    assert_eq!(verifier.with_callback(), None);
    assert_eq!(OAuthAddOn::Neither.with_callback(), None);
    assert_eq!(OAuthAddOn::Neither.with_verifier(), None);
    assert!(matches!(OAuthAddOn::default(), OAuthAddOn::Neither));
}

#[test]
fn authorization_header_quotes_the_encoded_values() {
    let header = published_material().sign_request(
        &ApiCallMethod::POST,
        Some(&published_params()),
        URL,
        String::new(),
    );
    assert_eq!(
        header.get_header(),
        "OAuth oauth_consumer_key=\"xvz1evFS4wEEPTGEFPHBog\", oauth_nonce=\"kYjzVBB8Y0ZFabxSWbWovY3uYSQ2pTgmZeNu2VS4cg\", oauth_signature=\"hCtSmYh%2BiHYCEqBWrE7C7hYmtUk%3D\", oauth_signature_method=\"HMAC-SHA1\", oauth_timestamp=\"1318622958\", oauth_version=\"1.0\", oauth_token=\"370773112-GmHxMAgYyLbNEtIKZeRNFsMKPR9EyMZeS9weJAEb\""
    );
    assert_eq!(SignedHeader { params: Vec::new() }.get_header(), "OAuth ");
    let one = SignedHeader { params: vec![("a b", String::from("c\"d"))] };
    assert_eq!(one.get_header(), "OAuth a%20b=\"c%22d\"");
}
