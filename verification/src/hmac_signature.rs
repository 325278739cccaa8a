//! The signature of a request whose parameters are known by name: the
//! canonical parameter string, the base string, the signing key, and the
//! HMAC-SHA1 over them.

use vstd::prelude::*;
use vstd::string::*;
use crate::codec::{canonical_text, canonicalize};
use crate::keyval::{lemma_put_fresh, Entries, KeyVal};
use crate::method::ApiCallMethod;
use crate::oauth::{base_string, base_string_text, signing_key, signing_key_text};
use crate::signer::{sign_text, signature_text};

verus! {

/// A request to be signed, its OAuth parameters given one by one. It holds
/// secrets in the clear and is not to be printed.
pub struct AuthorizeRequest {
    pub include_entities: String,
    /// Identifies the application that makes the request.
    pub oauth_consumer_key: String,
    /// A token of this application's making, unique to the request.
    pub oauth_nonce: String,
    pub oauth_signature_method: String,
    /// Seconds since the Unix epoch at which the request was made.
    pub oauth_timestamp: String,
    /// The access token of the account on whose behalf the request is made.
    pub oauth_token: Option<String>,
    pub oauth_version: String,
    pub base_url: String,
    pub method: ApiCallMethod,
    pub consumer_secret: String,
    /// The secret that goes with `oauth_token`.
    pub oauth_token_secret: Option<String>,
}

/// The text, or the empty text where there is none.
pub open spec fn optional_text(text: Option<String>) -> Seq<char> {
    match text {
        Some(t) => t@,
        None => Seq::empty(),
    }
}

/// The parameters of the request that are signed; the token only where there is one.
pub open spec fn request_entries(request: AuthorizeRequest) -> Entries {
    seq![
        ("include_entities"@, request.include_entities@),
        ("oauth_consumer_key"@, request.oauth_consumer_key@),
        ("oauth_nonce"@, request.oauth_nonce@),
        ("oauth_signature_method"@, request.oauth_signature_method@),
        ("oauth_timestamp"@, request.oauth_timestamp@),
        ("oauth_version"@, request.oauth_version@),
    ] + match request.oauth_token {
        Some(token) => seq![("oauth_token"@, token@)],
        None => Seq::empty(),
    }
}

/// The canonical parameter string of the request.
pub open spec fn parameter_string_of(request: AuthorizeRequest) -> Seq<char> {
    canonical_text(request_entries(request))
}

/// The signature base string of the request.
pub open spec fn base_string_of(request: AuthorizeRequest) -> Seq<char> {
    base_string_text(
        request.method.name(),
        request.base_url@,
        Seq::empty(),
        parameter_string_of(request),
    )
}

/// The signing key of the request.
pub open spec fn signing_key_of(request: AuthorizeRequest) -> Seq<char> {
    signing_key_text(request.consumer_secret@, optional_text(request.oauth_token_secret))
}

/// The three texts that a signature is computed from. Two of them bear
/// secrets: it is not to be printed.
pub struct Signature {
    parameter_string: Option<String>,
    base_string: Option<String>,
    signing_key: Option<String>,
}

/// The three texts, as far as they are worked out.
pub struct SignatureView {
    pub parameter_string: Option<Seq<char>>,
    pub base_string: Option<Seq<char>>,
    pub signing_key: Option<Seq<char>>,
}

/// The text of an optional string.
pub open spec fn text_of(text: Option<String>) -> Option<Seq<char>> {
    match text {
        Some(t) => Some(t@),
        None => None,
    }
}

impl View for Signature {
    type V = SignatureView;

    closed spec fn view(&self) -> SignatureView {
        SignatureView {
            parameter_string: text_of(self.parameter_string),
            base_string: text_of(self.base_string),
            signing_key: text_of(self.signing_key),
        }
    }
}

impl Default for Signature {
    fn default() -> (r: Self)
        ensures
            r@ == (SignatureView { parameter_string: None, base_string: None, signing_key: None }),
    {
        Signature { parameter_string: None, base_string: None, signing_key: None }
    }
}

proof fn lemma_parameter_names()
    ensures
        "include_entities"@.len() == 16,
        "oauth_consumer_key"@.len() == 18,
        "oauth_nonce"@.len() == 11,
        "oauth_nonce"@[6] == 'n',
        "oauth_signature_method"@.len() == 22,
        "oauth_timestamp"@.len() == 15,
        "oauth_version"@.len() == 13,
        "oauth_token"@.len() == 11,
        "oauth_token"@[6] == 't',
{
    reveal_strlit("include_entities");
    reveal_strlit("oauth_consumer_key");
    reveal_strlit("oauth_nonce");
    reveal_strlit("oauth_signature_method");
    reveal_strlit("oauth_timestamp");
    reveal_strlit("oauth_version");
    reveal_strlit("oauth_token");
}

impl Signature {
    /// Works out the three texts for a request.
    pub fn new(request: AuthorizeRequest) -> (r: Self)
        ensures
            r@ == (SignatureView {
                parameter_string: Some(parameter_string_of(request)),
                base_string: Some(base_string_of(request)),
                signing_key: Some(signing_key_of(request)),
            }),
    {
        let mut signature: Signature = Signature::default();
        let parameter_string = signature.get_parameter(&request);
        signature.parameter_string = Some(parameter_string);
        let base_string = signature.get_base_string(&request);
        signature.base_string = Some(base_string);
        let signing_key = signature.get_signing_key(&request);
        signature.signing_key = Some(signing_key);
        signature
    }

    /// The canonical parameter string.
    pub fn parameter_string(&self) -> (r: Option<&String>)
        ensures
            text_of(match r {
                Some(t) => Some(*t),
                None => None,
            }) == self@.parameter_string,
    {
        self.parameter_string.as_ref()
    }

    /// The signature base string.
    pub fn base_string(&self) -> (r: Option<&String>)
        ensures
            text_of(match r {
                Some(t) => Some(*t),
                None => None,
            }) == self@.base_string,
    {
        self.base_string.as_ref()
    }

    /// The signing key.
    pub fn signing_key(&self) -> (r: Option<&String>)
        ensures
            text_of(match r {
                Some(t) => Some(*t),
                None => None,
            }) == self@.signing_key,
    {
        self.signing_key.as_ref()
    }

    fn get_parameter(&self, request: &AuthorizeRequest) -> (r: String)
        ensures
            r@ == parameter_string_of(*request),
    {
        proof {
            lemma_parameter_names();
        }
        let ghost want = request_entries(*request);
        let e1 = KeyVal::new().add_param("include_entities", request.include_entities.clone());
        proof {
            lemma_put_fresh(Seq::empty(), "include_entities"@, request.include_entities@);
            assert(e1@ =~= want.take(1));
        }
        let e2 = e1.add_param("oauth_consumer_key", request.oauth_consumer_key.clone());
        proof {
            lemma_put_fresh(want.take(1), "oauth_consumer_key"@, request.oauth_consumer_key@);
            assert(e2@ =~= want.take(2));
        }
        let e3 = e2.add_param("oauth_nonce", request.oauth_nonce.clone());
        proof {
            lemma_put_fresh(want.take(2), "oauth_nonce"@, request.oauth_nonce@);
            assert(e3@ =~= want.take(3));
        }
        let e4 = e3.add_param("oauth_signature_method", request.oauth_signature_method.clone());
        proof {
            lemma_put_fresh(
                want.take(3),
                "oauth_signature_method"@,
                request.oauth_signature_method@,
            );
            assert(e4@ =~= want.take(4));
        }
        let e5 = e4.add_param("oauth_timestamp", request.oauth_timestamp.clone());
        proof {
            lemma_put_fresh(want.take(4), "oauth_timestamp"@, request.oauth_timestamp@);
            assert(e5@ =~= want.take(5));
        }
        let e6 = e5.add_param("oauth_version", request.oauth_version.clone());
        proof {
            lemma_put_fresh(want.take(5), "oauth_version"@, request.oauth_version@);
            assert(e6@ =~= want.take(6));
        }
        let request_params = match &request.oauth_token {
            Some(token) => {
                proof {
                    lemma_put_fresh(want.take(6), "oauth_token"@, token@);
                }
                e6.add_param("oauth_token", token.clone())
            },
            None => e6,
        };
        assert(request_params@ =~= want);
        canonicalize(&request_params)
    }

    fn get_base_string(&self, request: &AuthorizeRequest) -> (r: String)
        requires
            self@.parameter_string is Some,
        ensures
            r@ == base_string_text(
                request.method.name(),
                request.base_url@,
                Seq::empty(),
                self@.parameter_string->0,
            ),
    {
        proof {
            reveal_strlit("");
            assert(""@ =~= Seq::<char>::empty());
        }
        match &self.parameter_string {
            Some(parameter_string) => base_string(
                &request.method,
                request.base_url.as_str(),
                "",
                parameter_string.as_str(),
            ),
            None => String::new(),
        }
    }

    fn get_signing_key(&self, request: &AuthorizeRequest) -> (r: String)
        ensures
            r@ == signing_key_of(*request),
    {
        proof {
            reveal_strlit("");
            assert(""@ =~= Seq::<char>::empty());
        }
        signing_key(
            request.consumer_secret.as_str(),
            match &request.oauth_token_secret {
                Some(secret) => secret.as_str(),
                None => "",
            },
        )
    }

    /// The signature: the Base64 text of the HMAC-SHA1 of the base string
    /// under the signing key. There is none before the texts are worked out.
    pub fn calculate_signature(&self) -> (r: Option<String>)
        ensures
            match (self@.signing_key, self@.base_string) {
                (Some(key), Some(base)) => r matches Some(s) && s@ == signature_text(key, base),
                _ => r is None,
            },
    {
        match (&self.signing_key, &self.base_string) {
            (Some(key), Some(base)) => Some(sign_text(key.as_str(), base.as_str())),
            _ => None,
        }
    }
}

} // verus!
