//! The OAuth 2.0 authorization-code exchange with PKCE: the check of the
//! callback's state, the request to the token endpoint, and what is stored
//! of the grant.

use vstd::prelude::*;
use vstd::string::*;
use crate::codec::{
    encoded_entries, field, form_text, join_fields, lemma_unreserved_text_is_unchanged,
    percent_encoded, to_urlencode,
};
use crate::errors::{ErrorKind, TError, THeaders, TResult, TwitterErrors};
use crate::keyval::{lemma_put_fresh, string_pairs, Entries, KeyVal};
use crate::method::ApiCallMethod;
use crate::request_builder::{
    basic_credentials, HttpRequest, HttpRequestView, RequestBuilder,
};
use crate::response::{interpret_response, rate_limited, CONTENT_TYPE};

verus! {

/// What the process is configured with.
#[derive(Debug)]
pub struct SettingsVars {
    pub client_id: String,
    pub client_secret: String,
    /// The redirect URI of the OAuth 2.0 flow.
    pub oauth2_callback: String,
    /// The anti-forgery value that went out with the authorization URL.
    pub state: String,
    /// The consumer key of the OAuth 1.0a flow.
    pub api_key: String,
}

/// The settings as plain text.
pub struct SettingsView {
    pub client_id: Seq<char>,
    pub client_secret: Seq<char>,
    pub oauth2_callback: Seq<char>,
    pub state: Seq<char>,
    pub api_key: Seq<char>,
}

impl View for SettingsVars {
    type V = SettingsView;

    open spec fn view(&self) -> SettingsView {
        SettingsView {
            client_id: self.client_id@,
            client_secret: self.client_secret@,
            oauth2_callback: self.oauth2_callback@,
            state: self.state@,
            api_key: self.api_key@,
        }
    }
}

/// What an OAuth 2.0 callback carries.
#[derive(Debug)]
pub struct AccessToken {
    pub state: String,
    pub code: String,
}

impl AccessToken {
    /// Lets the callback pass where its state is the local one, and no other.
    pub fn validate_state(self, local_state: String) -> (r: TResult<Self>)
        ensures
            match r {
                Ok(token) => self.state@ == local_state@ && token == self,
                Err(err) => {
                    &&& self.state@ != local_state@
                    &&& err matches TError::InvalidCredentialError(message)
                    &&& message@
                        == "The state value obtained from the redirect uri does not match the local one"@
                },
            },
    {
        if self.state != local_state {
            return Err(
                TError::InvalidCredentialError(
                    String::from_str(
                        "The state value obtained from the redirect uri does not match the local one",
                    ),
                ),
            );
        }
        Ok(self)
    }
}

/// The grant that the token endpoint hands out.
#[derive(Debug)]
pub struct AppAccess {
    pub token_type: String,
    pub expires_in: i32,
    pub access_token: String,
    pub scope: String,
    pub refresh_token: String,
}

/// The grant as plain text.
pub struct GrantView {
    pub token_type: Seq<char>,
    pub expires_in: i32,
    pub access_token: Seq<char>,
    pub scope: Seq<char>,
    pub refresh_token: Seq<char>,
}

impl View for AppAccess {
    type V = GrantView;

    open spec fn view(&self) -> GrantView {
        GrantView {
            token_type: self.token_type@,
            expires_in: self.expires_in,
            access_token: self.access_token@,
            scope: self.scope@,
            refresh_token: self.refresh_token@,
        }
    }
}

/// The fields of the token request, in the order of its body.
pub open spec fn token_form(
    code: Seq<char>,
    client_id: Seq<char>,
    redirect_uri: Seq<char>,
    verifier: Seq<char>,
) -> Entries {
    seq![
        ("code"@, code),
        ("grant_type"@, "authorization_code"@),
        ("client_id"@, client_id),
        ("redirect_uri"@, redirect_uri),
        ("code_verifier"@, verifier),
    ]
}

/// The request that exchanges an authorization code for a grant.
pub open spec fn token_request_view(config: SettingsView, code: Seq<char>, verifier: Seq<char>)
    -> HttpRequestView {
    HttpRequestView {
        method: ApiCallMethod::POST,
        uri: "https://api.twitter.com/2/oauth2/token?"@,
        headers: seq![
            ("Authorization"@, basic_credentials(config.client_id, config.client_secret)),
            ("content-type"@, "application/x-www-form-urlencoded"@),
        ],
        body: form_text(token_form(code, config.client_id, config.oauth2_callback, verifier)),
    }
}

/// The entries of the credential store that a grant is kept in.
pub open spec fn grant_writes(grant: GrantView) -> Entries {
    seq![
        ("tolumide_test_access"@, grant.access_token),
        ("tolumide_refresh_token"@, grant.refresh_token),
        ("tolumide_token_type"@, grant.token_type),
    ]
}

/// The provider's answer to a request, with its body read both ways: as an
/// error payload and as a grant, each where the body has that shape.
#[derive(Debug)]
pub struct ProviderReply {
    pub status: u16,
    pub headers: THeaders,
    pub body: Vec<u8>,
    pub errors: Option<TwitterErrors>,
    pub grant: Option<AppAccess>,
}

/// What of the provider's answer decides its meaning.
pub struct ProviderReplyView {
    pub status: u16,
    pub headers: Entries,
    pub codes: Option<Seq<i32>>,
    pub grant: Option<GrantView>,
}

impl View for ProviderReply {
    type V = ProviderReplyView;

    open spec fn view(&self) -> ProviderReplyView {
        ProviderReplyView {
            status: self.status,
            headers: string_pairs(self.headers@),
            codes: match self.errors {
                Some(payload) => Some(payload.codes()),
                None => None,
            },
            grant: match self.grant {
                Some(grant) => Some(grant@),
                None => None,
            },
        }
    }
}

/// What an answer of the token endpoint comes to: a grant, where the status
/// is a success and the body has the shape of a grant and not of an error.
pub open spec fn reply_outcome(reply: ProviderReplyView) -> Result<GrantView, ErrorKind> {
    match reply.codes {
        Some(codes) => if rate_limited(codes, reply.headers) {
            Err(ErrorKind::RateLimited)
        } else {
            Err(ErrorKind::ProviderError)
        },
        None => if !(200 <= reply.status < 300) {
            Err(ErrorKind::BadStatus(reply.status))
        } else {
            match reply.grant {
                Some(grant) => Ok(grant),
                None => Err(ErrorKind::Malformed),
            }
        },
    }
}

/// The names of the token request's fields differ in length, so no two are the same.
proof fn lemma_token_form_names()
    ensures
        "code"@.len() == 4,
        "grant_type"@.len() == 10,
        "client_id"@.len() == 9,
        "redirect_uri"@.len() == 12,
        "code_verifier"@.len() == 13,
{
    reveal_strlit("code");
    reveal_strlit("grant_type");
    reveal_strlit("client_id");
    reveal_strlit("redirect_uri");
    reveal_strlit("code_verifier");
}

/// The body of the token request is made of five fields, in this order and
/// with `&` between them. One of them is called `code` and holds the
/// authorization code, one is called `code_verifier` and holds the stored
/// verifier, each value percent-encoded.
pub proof fn lemma_token_body_holds_one_code_and_one_verifier(
    code: Seq<char>,
    client_id: Seq<char>,
    redirect_uri: Seq<char>,
    verifier: Seq<char>,
)
    ensures
        form_text(token_form(code, client_id, redirect_uri, verifier)) == "code"@ + seq!['=']
            + percent_encoded(code) + seq!['&'] + "grant_type"@ + seq!['=']
            + "authorization_code"@ + seq!['&'] + "client_id"@ + seq!['='] + percent_encoded(
            client_id,
        ) + seq!['&'] + "redirect_uri"@ + seq!['='] + percent_encoded(redirect_uri) + seq!['&']
            + "code_verifier"@ + seq!['='] + percent_encoded(verifier),
{
    reveal_strlit("code");
    reveal_strlit("grant_type");
    reveal_strlit("authorization_code");
    reveal_strlit("client_id");
    reveal_strlit("redirect_uri");
    reveal_strlit("code_verifier");
    lemma_unreserved_text_is_unchanged("code"@);
    lemma_unreserved_text_is_unchanged("grant_type"@);
    lemma_unreserved_text_is_unchanged("authorization_code"@);
    lemma_unreserved_text_is_unchanged("client_id"@);
    lemma_unreserved_text_is_unchanged("redirect_uri"@);
    lemma_unreserved_text_is_unchanged("code_verifier"@);
    let form = token_form(code, client_id, redirect_uri, verifier);
    let enc = encoded_entries(form);
    assert(enc.len() == 5);
    assert(enc.take(1) =~= enc.take(2).drop_last());
    assert(enc.take(2) =~= enc.take(3).drop_last());
    assert(enc.take(3) =~= enc.take(4).drop_last());
    assert(enc.take(4) =~= enc.drop_last());
    assert(join_fields(enc.take(1)) == field(enc[0]));
    assert(join_fields(enc.take(2)) == join_fields(enc.take(1)) + seq!['&'] + field(enc[1]));
    assert(join_fields(enc.take(3)) == join_fields(enc.take(2)) + seq!['&'] + field(enc[2]));
    assert(join_fields(enc.take(4)) == join_fields(enc.take(3)) + seq!['&'] + field(enc[3]));
    assert(join_fields(enc) == join_fields(enc.take(4)) + seq!['&'] + field(enc[4]));
    assert(form_text(form) =~= "code"@ + seq!['='] + percent_encoded(code) + seq!['&']
        + "grant_type"@ + seq!['='] + "authorization_code"@ + seq!['&'] + "client_id"@ + seq!['=']
        + percent_encoded(client_id) + seq!['&'] + "redirect_uri"@ + seq!['='] + percent_encoded(
        redirect_uri,
    ) + seq!['&'] + "code_verifier"@ + seq!['='] + percent_encoded(verifier));
}

/// The name of the store entry that holds the PKCE code verifier.
pub fn verifier_key() -> (r: &'static str)
    ensures
        r@ == "tolumide_test_pkce"@,
{
    "tolumide_test_pkce"
}

/// Builds the request to the token endpoint.
pub fn token_request(config: &SettingsVars, code: String, verifier: String) -> (r: HttpRequest)
    ensures
        r@ == token_request_view(config@, code@, verifier@),
{
    proof {
        lemma_token_form_names();
    }
    let ghost form = token_form(code@, config.client_id@, config.oauth2_callback@, verifier@);
    let f1 = KeyVal::new().add_param("code", code);
    proof {
        lemma_put_fresh(Seq::empty(), "code"@, code@);
        assert(f1@ =~= form.take(1));
    }
    let f2 = f1.add_param("grant_type", String::from_str("authorization_code"));
    proof {
        lemma_put_fresh(form.take(1), "grant_type"@, "authorization_code"@);
        assert(f2@ =~= form.take(2));
    }
    let f3 = f2.add_param("client_id", config.client_id.clone());
    proof {
        lemma_put_fresh(form.take(2), "client_id"@, config.client_id@);
        assert(f3@ =~= form.take(3));
    }
    let f4 = f3.add_param("redirect_uri", config.oauth2_callback.clone());
    proof {
        lemma_put_fresh(form.take(3), "redirect_uri"@, config.oauth2_callback@);
        assert(f4@ =~= form.take(4));
    }
    let f5 = f4.add_param("code_verifier", verifier);
    proof {
        lemma_put_fresh(form.take(4), "code_verifier"@, verifier@);
        assert(f5@ =~= form);
    }
    let req_body = to_urlencode(&f5);
    let request = RequestBuilder::new(
        ApiCallMethod::POST,
        "https://api.twitter.com/2/oauth2/token",
    ).with_basic_auth(config.client_id.clone(), config.client_secret.clone()).with_body(
        req_body,
        CONTENT_TYPE,
    ).build_request(None);
    proof {
        reveal_strlit("https://api.twitter.com/2/oauth2/token");
        reveal_strlit("https://api.twitter.com/2/oauth2/token?");
        lemma_put_fresh(
            Seq::empty(),
            "Authorization"@,
            basic_credentials(config.client_id@, config.client_secret@),
        );
        let want = token_request_view(config@, code@, verifier@);
        assert(request@.uri =~= want.uri);
        assert(request@.headers =~= want.headers);
    }
    request
}

/// The store entries of a grant, in the order in which they are written.
pub fn grant_entries(grant: AppAccess) -> (r: Vec<(String, String)>)
    ensures
        string_pairs(r@) == grant_writes(grant@),
{
    let mut writes: Vec<(String, String)> = Vec::new();
    writes.push((String::from_str("tolumide_test_access"), grant.access_token));
    writes.push((String::from_str("tolumide_refresh_token"), grant.refresh_token));
    writes.push((String::from_str("tolumide_token_type"), grant.token_type));
    assert(string_pairs(writes@) =~= grant_writes(grant@));
    writes
}

/// Reads the answer of the token endpoint.
pub fn read_grant(reply: ProviderReply) -> (r: TResult<AppAccess>)
    ensures
        match reply_outcome(reply@) {
            Ok(grant) => r matches Ok(access) && access@ == grant,
            Err(kind) => r matches Err(err) && err@ == kind,
        },
{
    match interpret_response(reply.status, reply.headers, reply.body, reply.errors) {
        Err(err) => Err(err),
        Ok(_) => match reply.grant {
            Some(grant) => Ok(grant),
            None => Err(
                TError::MalformedResponse(String::from_str("the body is no access grant")),
            ),
        },
    }
}

} // verus!
