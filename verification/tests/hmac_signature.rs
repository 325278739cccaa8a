use twitar::hmac_signature::{AuthorizeRequest, Signature};
use twitar::method::ApiCallMethod;
use twitar::routes::{resolve, Route};

fn published_request() -> AuthorizeRequest {
    AuthorizeRequest {
        include_entities: String::from("true"),
        oauth_consumer_key: String::from("xvz1evFS4wEEPTGEFPHBog"),
        oauth_nonce: String::from("kYjzVBB8Y0ZFabxSWbWovY3uYSQ2pTgmZeNu2VS4cg"),
        oauth_signature_method: String::from("HMAC-SHA1"),
        oauth_timestamp: String::from("1318622958"),
        oauth_token: Some(String::from("370773112-GmHxMAgYyLbNEtIKZeRNFsMKPR9EyMZeS9weJAEb")),
        oauth_version: String::from("1.0"),
        base_url: String::from("https://api.twitter.com/1.1/statuses/update.json"),
        method: ApiCallMethod::POST,
        consumer_secret: String::from("kAcSOqF21Fu85e7zjz7ZN2U4ZRhfV3WpwPAoE3Z7kBw"),
        oauth_token_secret: Some(String::from("LswwdoUaIvS8ltyTt5jkRh4J50vUPVVHtR2YPi5kE")),
    }
}

#[test]
fn signature_holds_the_three_texts() {
    let signature = Signature::new(published_request());
    assert_eq!(
        signature.parameter_string().unwrap(),
        "include_entities=true&oauth_consumer_key=xvz1evFS4wEEPTGEFPHBog&oauth_nonce=kYjzVBB8Y0ZFabxSWbWovY3uYSQ2pTgmZeNu2VS4cg&oauth_signature_method=HMAC-SHA1&oauth_timestamp=1318622958&oauth_token=370773112-GmHxMAgYyLbNEtIKZeRNFsMKPR9EyMZeS9weJAEb&oauth_version=1.0"
    );
    assert_eq!(
        signature.base_string().unwrap(),
        "POST&https%3A%2F%2Fapi.twitter.com%2F1.1%2Fstatuses%2Fupdate.json&include_entities%3Dtrue%26oauth_consumer_key%3Dxvz1evFS4wEEPTGEFPHBog%26oauth_nonce%3DkYjzVBB8Y0ZFabxSWbWovY3uYSQ2pTgmZeNu2VS4cg%26oauth_signature_method%3DHMAC-SHA1%26oauth_timestamp%3D1318622958%26oauth_token%3D370773112-GmHxMAgYyLbNEtIKZeRNFsMKPR9EyMZeS9weJAEb%26oauth_version%3D1.0"
    );
    assert_eq!(
        signature.signing_key().unwrap(),
        "kAcSOqF21Fu85e7zjz7ZN2U4ZRhfV3WpwPAoE3Z7kBw&LswwdoUaIvS8ltyTt5jkRh4J50vUPVVHtR2YPi5kE"
    );
    assert_eq!(signature.calculate_signature().unwrap(), "swB2/K4QtoSNF7fQfLzyNivuoj4=");
}

#[test]
fn signature_without_a_token_leaves_it_out() {
    let request = AuthorizeRequest { oauth_token: None, oauth_token_secret: None, ..published_request() };
    let signature = Signature::new(request);
    assert_eq!(
        signature.parameter_string().unwrap(),
        "include_entities=true&oauth_consumer_key=xvz1evFS4wEEPTGEFPHBog&oauth_nonce=kYjzVBB8Y0ZFabxSWbWovY3uYSQ2pTgmZeNu2VS4cg&oauth_signature_method=HMAC-SHA1&oauth_timestamp=1318622958&oauth_version=1.0"
    );
    assert_eq!(signature.signing_key().unwrap(), "kAcSOqF21Fu85e7zjz7ZN2U4ZRhfV3WpwPAoE3Z7kBw&");
    assert_eq!(signature.calculate_signature().unwrap(), "Gmdx4C0VEZ8ZRYZFC4VnYSNq8A0=");
}

#[test]
fn default_signature_has_nothing_to_sign() {
    let signature = Signature::default();
    assert!(signature.parameter_string().is_none());
    assert!(signature.base_string().is_none());
    assert!(signature.signing_key().is_none());
    assert!(signature.calculate_signature().is_none());
}

#[test]
fn routes_are_found_by_method_and_path() {
    assert_eq!(resolve("GET", "/"), Route::HealthCheck);
    assert_eq!(resolve("GET", "/enable"), Route::AuthorizeBot);
    assert_eq!(resolve("GET", "/twitter/oauth"), Route::HandleRedirect);
    assert_eq!(resolve("GET", "/twitter/oauth/"), Route::NotFound);
    assert_eq!(resolve("GET", ""), Route::NotFound);
    assert_eq!(resolve("POST", "/"), Route::NotFound);
    assert_eq!(resolve("get", "/"), Route::NotFound);
    assert_eq!(resolve("DELETE", "/enable"), Route::NotFound);
}
