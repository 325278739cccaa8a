//! The OAuth 1.0a signature engine: from the material of one request to the
//! parameters of its `Authorization` header.

use std::time::SystemTime;
use vstd::prelude::*;
use vstd::string::*;
use vstd::utf8::*;
use crate::codec::{
    canonical_text, canonicalize, decode_bytes, decode_raw, encode, encode_bytes, encode_raw,
    lemma_canonical_text_ignores_insertion_order, lemma_decode_undoes_encode_bytes,
    lemma_encoded_bytes_are_ascii, percent_encoded,
};
use crate::keyval::{
    distinct_keys, lemma_put_same_pairs, lookup, put, Entries, KeyPair, KeyVal, RequestParams,
};
use crate::method::ApiCallMethod;
use crate::signer::{sign_text, signature_text};
use crate::text::{decimal, decimal_text, str_eq};

verus! {

/// What a signing operation adds for one leg of the three-legged flow.
#[derive(Debug)]
pub enum OAuthAddOn {
    /// oauth_callback: the callback URL, when a request token is asked for.
    Callback(String),
    /// oauth_verifier: the verifier, when an access token is asked for.
    Verifier(String),
    /// Neither of the two.
    Neither,
}

/// The add-on as plain text.
pub enum AddOnView {
    Callback(Seq<char>),
    Verifier(Seq<char>),
    Neither,
}

impl View for OAuthAddOn {
    type V = AddOnView;

    open spec fn view(&self) -> AddOnView {
        match self {
            OAuthAddOn::Callback(url) => AddOnView::Callback(url@),
            OAuthAddOn::Verifier(v) => AddOnView::Verifier(v@),
            OAuthAddOn::Neither => AddOnView::Neither,
        }
    }
}

impl Clone for OAuthAddOn {
    fn clone(&self) -> (r: Self)
        ensures
            r@ == self@,
    {
        match self {
            OAuthAddOn::Callback(url) => OAuthAddOn::Callback(url.clone()),
            OAuthAddOn::Verifier(v) => OAuthAddOn::Verifier(v.clone()),
            OAuthAddOn::Neither => OAuthAddOn::Neither,
        }
    }
}

impl Default for OAuthAddOn {
    fn default() -> (r: Self)
        ensures
            r@ == AddOnView::Neither,
    {
        OAuthAddOn::Neither
    }
}

impl OAuthAddOn {
    /// The callback URL, where the add-on is one.
    pub fn with_callback(&self) -> (r: Option<String>)
        ensures
            match self@ {
                AddOnView::Callback(url) => r matches Some(s) && s@ == url,
                _ => r is None,
            },
    {
        match self {
            OAuthAddOn::Callback(url) => Some(url.clone()),
            _ => None,
        }
    }

    /// The verifier, where the add-on is one.
    pub fn with_verifier(&self) -> (r: Option<String>)
        ensures
            match self@ {
                AddOnView::Verifier(v) => r matches Some(s) && s@ == v,
                _ => r is None,
            },
    {
        match self {
            OAuthAddOn::Verifier(v) => Some(v.clone()),
            _ => None,
        }
    }
}

/// The material of one signing operation.
#[derive(Debug)]
pub struct OAuthParams {
    pub consumer: KeyPair,
    pub nonce: String,
    pub timestamp: u64,
    pub token: Option<KeyPair>,
    pub addon: OAuthAddOn,
}

/// The signing material as plain text and numbers.
pub struct OAuthParamsView {
    pub consumer: (Seq<char>, Seq<char>),
    pub nonce: Seq<char>,
    pub timestamp: nat,
    pub token: Option<(Seq<char>, Seq<char>)>,
    pub addon: AddOnView,
}

/// The credential of an optional token as plain text.
pub open spec fn optional_pair(token: Option<KeyPair>) -> Option<(Seq<char>, Seq<char>)> {
    match token {
        Some(t) => Some(t@),
        None => None,
    }
}

impl View for OAuthParams {
    type V = OAuthParamsView;

    open spec fn view(&self) -> OAuthParamsView {
        OAuthParamsView {
            consumer: self.consumer@,
            nonce: self.nonce@,
            timestamp: self.timestamp as nat,
            token: optional_pair(self.token),
            addon: self.addon@,
        }
    }
}

/// A hexadecimal digit in lower case.
pub open spec fn is_lower_hex(c: char) -> bool {
    ('0' <= c <= '9') || ('a' <= c <= 'f')
}

/// The shape of a hyphenated lower-case UUID: 36 characters, `-` at four places.
pub open spec fn is_uuid_text(s: Seq<char>) -> bool {
    &&& s.len() == 36
    &&& forall|i: int|
        0 <= i < 36 ==> if i == 8 || i == 13 || i == 18 || i == 23 {
            s[i] == '-'
        } else {
            is_lower_hex(#[trigger] s[i])
        }
}

/// The parameter set that is signed: the caller's parameters with the protocol
/// parameters stored over them, so that a protocol value wins where names collide.
pub open spec fn protocol_entries(p: OAuthParamsView, extra: Entries) -> Entries {
    let s1 = match p.addon {
        AddOnView::Callback(url) => put(extra, "oauth_callback"@, url),
        _ => extra,
    };
    let s2 = put(s1, "oauth_consumer_key"@, p.consumer.0);
    let s3 = put(s2, "oauth_nonce"@, p.nonce);
    let s4 = put(s3, "oauth_signature_method"@, "HMAC-SHA1"@);
    let s5 = put(s4, "oauth_timestamp"@, decimal_text(p.timestamp));
    let s6 = match p.token {
        Some(t) => put(s5, "oauth_token"@, t.0),
        None => s5,
    };
    let s7 = match p.addon {
        AddOnView::Verifier(v) => put(s6, "oauth_verifier"@, v),
        _ => s6,
    };
    put(s7, "oauth_version"@, "1.0"@)
}

/// The bytes of the request URL that goes into the base string: the URL, then
/// the query percent-decoded once.
pub open spec fn request_uri_bytes(url: Seq<char>, query: Seq<char>) -> Seq<u8> {
    encode_utf8(url) + decode_bytes(encode_utf8(query))
}

/// `METHOD&encode(URL)&encode(parameter string)`.
pub open spec fn base_string_text(
    method: Seq<char>,
    url: Seq<char>,
    query: Seq<char>,
    parameter_string: Seq<char>,
) -> Seq<char> {
    method + seq!['&'] + encode_bytes(request_uri_bytes(url, query)) + seq!['&'] + percent_encoded(
        parameter_string,
    )
}

/// `encode(consumer secret)&encode(token secret)`; the second part is empty
/// where there is no token, and the `&` stays.
pub open spec fn signing_key_text(consumer_secret: Seq<char>, token_secret: Seq<char>) -> Seq<char> {
    percent_encoded(consumer_secret) + seq!['&'] + percent_encoded(token_secret)
}

/// The secret of the token, or the empty text where there is no token.
pub open spec fn token_secret(token: Option<(Seq<char>, Seq<char>)>) -> Seq<char> {
    match token {
        Some(t) => t.1,
        None => Seq::empty(),
    }
}

/// The signature of a request: a function of the signing material, the method,
/// the caller's parameters, the URL and the query, and of nothing else.
pub open spec fn request_signature(
    p: OAuthParamsView,
    method: ApiCallMethod,
    extra: Entries,
    url: Seq<char>,
    query: Seq<char>,
) -> Seq<char> {
    signature_text(
        signing_key_text(p.consumer.1, token_secret(p.token)),
        base_string_text(method.name(), url, query, canonical_text(protocol_entries(p, extra))),
    )
}

/// The signed parameters in the order in which they are emitted:
/// `oauth_consumer_key` first, the add-on and the token last.
pub open spec fn signed_entries(p: OAuthParamsView, signature: Seq<char>) -> Entries {
    seq![
        ("oauth_consumer_key"@, p.consumer.0),
        ("oauth_nonce"@, p.nonce),
        ("oauth_signature"@, signature),
        ("oauth_signature_method"@, "HMAC-SHA1"@),
        ("oauth_timestamp"@, decimal_text(p.timestamp)),
        ("oauth_version"@, "1.0"@),
    ] + match p.addon {
        AddOnView::Callback(url) => seq![("oauth_callback"@, url)],
        AddOnView::Verifier(v) => seq![("oauth_verifier"@, v)],
        AddOnView::Neither => Seq::empty(),
    } + match p.token {
        Some(t) => seq![("oauth_token"@, t.0)],
        None => Seq::empty(),
    }
}

/// A query that arrives percent-encoded is decoded once and encoded once:
/// it stands in the base string as the text it spells does.
pub proof fn lemma_encoded_query_is_decoded_once(
    method: Seq<char>,
    url: Seq<char>,
    query: Seq<char>,
    parameter_string: Seq<char>,
)
    ensures
        base_string_text(method, url, percent_encoded(query), parameter_string) == method
            + seq!['&'] + encode_bytes(encode_utf8(url) + encode_utf8(query)) + seq!['&']
            + percent_encoded(parameter_string),
{
    lemma_encoded_bytes_are_ascii(encode_utf8(query));
    lemma_decode_undoes_encode_bytes(encode_utf8(query));
}

/// Signing is a function of its inputs: the same material, nonce and
/// timestamp included, with the same method, parameters, URL and query
/// gives the same signature and the same signed parameters.
pub proof fn lemma_signing_is_repeatable(
    p: OAuthParamsView,
    q: OAuthParamsView,
    method: ApiCallMethod,
    extra: Entries,
    url: Seq<char>,
    query: Seq<char>,
)
    requires
        p.consumer == q.consumer,
        p.nonce == q.nonce,
        p.timestamp == q.timestamp,
        p.token == q.token,
        p.addon == q.addon,
    ensures
        request_signature(p, method, extra, url, query) == request_signature(
            q,
            method,
            extra,
            url,
            query,
        ),
        signed_entries(p, request_signature(p, method, extra, url, query)) == signed_entries(
            q,
            request_signature(q, method, extra, url, query),
        ),
{
}

/// The signature does not depend on the order in which the caller's
/// parameters were inserted.
pub proof fn lemma_signature_ignores_insertion_order(
    p: OAuthParamsView,
    method: ApiCallMethod,
    a: Entries,
    b: Entries,
    url: Seq<char>,
    query: Seq<char>,
)
    requires
        distinct_keys(a),
        distinct_keys(b),
        forall|x: (Seq<char>, Seq<char>)| a.contains(x) <==> b.contains(x),
    ensures
        request_signature(p, method, a, url, query) == request_signature(p, method, b, url, query),
{
    let (a1, b1) = match p.addon {
        AddOnView::Callback(url) => {
            lemma_put_same_pairs(a, b, "oauth_callback"@, url);
            (put(a, "oauth_callback"@, url), put(b, "oauth_callback"@, url))
        },
        _ => (a, b),
    };
    lemma_put_same_pairs(a1, b1, "oauth_consumer_key"@, p.consumer.0);
    let a2 = put(a1, "oauth_consumer_key"@, p.consumer.0);
    let b2 = put(b1, "oauth_consumer_key"@, p.consumer.0);
    lemma_put_same_pairs(a2, b2, "oauth_nonce"@, p.nonce);
    let a3 = put(a2, "oauth_nonce"@, p.nonce);
    let b3 = put(b2, "oauth_nonce"@, p.nonce);
    lemma_put_same_pairs(a3, b3, "oauth_signature_method"@, "HMAC-SHA1"@);
    let a4 = put(a3, "oauth_signature_method"@, "HMAC-SHA1"@);
    let b4 = put(b3, "oauth_signature_method"@, "HMAC-SHA1"@);
    lemma_put_same_pairs(a4, b4, "oauth_timestamp"@, decimal_text(p.timestamp));
    let a5 = put(a4, "oauth_timestamp"@, decimal_text(p.timestamp));
    let b5 = put(b4, "oauth_timestamp"@, decimal_text(p.timestamp));
    let (a6, b6) = match p.token {
        Some(t) => {
            lemma_put_same_pairs(a5, b5, "oauth_token"@, t.0);
            (put(a5, "oauth_token"@, t.0), put(b5, "oauth_token"@, t.0))
        },
        None => (a5, b5),
    };
    let (a7, b7) = match p.addon {
        AddOnView::Verifier(v) => {
            lemma_put_same_pairs(a6, b6, "oauth_verifier"@, v);
            (put(a6, "oauth_verifier"@, v), put(b6, "oauth_verifier"@, v))
        },
        _ => (a6, b6),
    };
    lemma_put_same_pairs(a7, b7, "oauth_version"@, "1.0"@);
    lemma_canonical_text_ignores_insertion_order(protocol_entries(p, a), protocol_entries(p, b));
}

/// The parameters of a signed request, in the order of `signed_entries`.
#[derive(Debug)]
pub struct SignedHeader {
    pub params: Vec<(&'static str, String)>,
}

impl View for SignedHeader {
    type V = Entries;

    open spec fn view(&self) -> Entries {
        self.params@.map_values(|p: (&'static str, String)| (p.0@, p.1@))
    }
}

/// One parameter as it stands in an `Authorization` header: `name="value"`,
/// both percent-encoded.
pub open spec fn quoted_field(p: (Seq<char>, Seq<char>)) -> Seq<char> {
    percent_encoded(p.0) + seq!['=', '"'] + percent_encoded(p.1) + seq!['"']
}

/// The parameters in their order, with a comma and a space between them.
pub open spec fn quoted_fields(pairs: Entries) -> Seq<char>
    decreases pairs.len(),
{
    if pairs.len() == 0 {
        Seq::empty()
    } else if pairs.len() == 1 {
        quoted_field(pairs[0])
    } else {
        quoted_fields(pairs.drop_last()) + seq![',', ' '] + quoted_field(pairs.last())
    }
}

/// The value of the `Authorization` header of a signed request.
pub open spec fn authorization_text(pairs: Entries) -> Seq<char> {
    "OAuth "@ + quoted_fields(pairs)
}

impl SignedHeader {
    /// The value of the `Authorization` header that carries these parameters.
    pub fn get_header(&self) -> (r: String)
        ensures
            r@ == authorization_text(self@),
    {
        let ghost all = self@;
        let mut out = String::from_str("OAuth ");
        let mut i: usize = 0;
        assert(out@ =~= "OAuth "@ + quoted_fields(all.take(0)));
        while i < self.params.len()
            invariant
                i <= self.params.len(),
                all == self@,
                out@ == "OAuth "@ + quoted_fields(all.take(i as int)),
            decreases self.params.len() - i,
        {
            proof {
                reveal_strlit(", ");
                reveal_strlit("=\"");
                reveal_strlit("\"");
                assert(all.take(i + 1).drop_last() =~= all.take(i as int));
                assert(all.take(i + 1).last() == all[i as int]);
            }
            if i > 0 {
                out.append(", ");
            }
            out.append(encode(self.params[i].0).as_str());
            out.append("=\"");
            out.append(encode(self.params[i].1.as_str()).as_str());
            out.append("\"");
            assert(out@ =~= "OAuth "@ + quoted_fields(all.take(i + 1)));
            i += 1;
        }
        assert(all.take(self.params.len() as int) =~= all);
        out
    }

    /// The value of the first parameter called `name`.
    pub fn get(&self, name: &str) -> (r: Option<&String>)
        ensures
            match r {
                Some(v) => lookup(self@, name@) == Some(v@),
                None => lookup(self@, name@) is None,
            },
    {
        let mut i: usize = 0;
        while i < self.params.len()
            invariant
                i <= self.params.len(),
                forall|j: int| 0 <= j < i ==> (#[trigger] self@[j]).0 != name@,
            decreases self.params.len() - i,
        {
            if str_eq(self.params[i].0, name) {
                proof {
                    crate::keyval::lemma_position_is(self@, name@, i as int);
                }
                return Some(&self.params[i].1);
            }
            assert(self@[i as int].0 != name@);
            i += 1;
        }
        proof {
            crate::keyval::lemma_position_is(self@, name@, i as int);
        }
        None
    }
}

/// Calls `Uuid::new_v4` and renders the UUID with `to_string`: the hyphenated
/// lower-case form. Which UUID comes is left to the random source.
#[verifier::external_body]
fn fresh_nonce() -> (r: String)
    ensures
        is_uuid_text(r@),
{
    uuid::Uuid::new_v4().to_string()
}

/// Reads the system clock with `SystemTime::now` and gives the whole seconds
/// since the Unix epoch, or `None` where the clock stands before it.
#[verifier::external_body]
fn unix_seconds() -> (r: Option<u64>) {
    match SystemTime::now().duration_since(SystemTime::UNIX_EPOCH) {
        Ok(elapsed) => Some(elapsed.as_secs()),
        Err(_) => None,
    }
}

/// Builds the signature base string.
pub fn base_string(method: &ApiCallMethod, url: &str, query: &str, parameter_string: &str) -> (r:
    String)
    ensures
        r@ == base_string_text(method.name(), url@, query@, parameter_string@),
{
    let mut uri = url.as_bytes_vec();
    let mut tail = decode_raw(query.as_bytes());
    uri.append(&mut tail);
    let mut out = String::from_str(method.as_str());
    proof {
        reveal_strlit("&");
    }
    out.append("&");
    out.append(encode_raw(uri.as_slice()).as_str());
    out.append("&");
    out.append(encode(parameter_string).as_str());
    assert(out@ =~= base_string_text(method.name(), url@, query@, parameter_string@));
    out
}

/// Builds the signing key from the two secrets.
pub fn signing_key(consumer_secret: &str, token_secret: &str) -> (r: String)
    ensures
        r@ == signing_key_text(consumer_secret@, token_secret@),
{
    let mut out = encode(consumer_secret);
    proof {
        reveal_strlit("&");
    }
    out.append("&");
    out.append(encode(token_secret).as_str());
    assert(out@ =~= signing_key_text(consumer_secret@, token_secret@));
    out
}

impl OAuthParams {
    /// Signing material with a fresh nonce and the present time, and no keys yet.
    fn new() -> (r: Option<Self>)
        ensures
            r matches Some(p) ==> {
                &&& p@.consumer == (Seq::<char>::empty(), Seq::<char>::empty())
                &&& is_uuid_text(p@.nonce)
                &&& p@.token is None
                &&& p@.addon == AddOnView::Neither
            },
    {
        OAuthParams::from_parts(KeyPair::empty(), None, fresh_nonce(), unix_seconds())
    }

    /// Signing material from its parts; there is none where the clock gave no time.
    pub fn from_parts(
        consumer: KeyPair,
        token: Option<KeyPair>,
        nonce: String,
        clock: Option<u64>,
    ) -> (r: Option<Self>)
        ensures
            match clock {
                Some(t) => r matches Some(p) && p@ == (OAuthParamsView {
                    consumer: consumer@,
                    nonce: nonce@,
                    timestamp: t as nat,
                    token: optional_pair(token),
                    addon: AddOnView::Neither,
                }),
                None => r is None,
            },
    {
        match clock {
            Some(timestamp) => Some(
                OAuthParams { consumer, nonce, timestamp, token, addon: OAuthAddOn::Neither },
            ),
            None => None,
        }
    }

    /// Signing material for the given keys, with a nonce that was never used
    /// and the time of the call. `None` only where the system clock stands
    /// before the Unix epoch.
    pub fn from_keys(consumer: KeyPair, token: Option<KeyPair>) -> (r: Option<Self>)
        ensures
            r matches Some(p) ==> {
                &&& p@.consumer == consumer@
                &&& p@.token == optional_pair(token)
                &&& p@.addon == AddOnView::Neither
                &&& is_uuid_text(p@.nonce)
            },
    {
        match OAuthParams::new() {
            Some(fresh) => Some(
                OAuthParams {
                    consumer,
                    token,
                    nonce: fresh.nonce,
                    timestamp: fresh.timestamp,
                    addon: fresh.addon,
                },
            ),
            None => None,
        }
    }

    /// The same material with the given add-on.
    pub fn with_addon(self, addon: OAuthAddOn) -> (r: Self)
        ensures
            r@ == (OAuthParamsView { addon: addon@, ..self@ }),
    {
        OAuthParams {
            consumer: self.consumer,
            nonce: self.nonce,
            timestamp: self.timestamp,
            token: self.token,
            addon,
        }
    }

    /// Signs one request and gives the parameters of its header.
    pub fn sign_request(
        self,
        method: &ApiCallMethod,
        params: Option<&RequestParams>,
        url: &str,
        req_query: String,
    ) -> (r: SignedHeader)
        ensures
            r@ == signed_entries(
                self@,
                request_signature(
                    self@,
                    *method,
                    match params {
                        Some(p) => p@,
                        None => Seq::empty(),
                    },
                    url@,
                    req_query@,
                ),
            ),
    {
        let extra = match params {
            Some(p) => p.clone(),
            None => KeyVal::new(),
        };
        let timestamp = decimal(self.timestamp);
        let token_key = match &self.token {
            Some(t) => Some(t.key.clone()),
            None => None,
        };
        let the_params = extra.add_opt_param("oauth_callback", self.addon.with_callback()).add_param(
            "oauth_consumer_key",
            self.consumer.key.clone(),
        ).add_param("oauth_nonce", self.nonce.clone()).add_param(
            "oauth_signature_method",
            String::from_str("HMAC-SHA1"),
        ).add_param("oauth_timestamp", timestamp.clone()).add_opt_param(
            "oauth_token",
            token_key,
        ).add_opt_param("oauth_verifier", self.addon.with_verifier()).add_param(
            "oauth_version",
            String::from_str("1.0"),
        );
        let params_str = canonicalize(&the_params);
        let base_str = base_string(method, url, req_query.as_str(), params_str.as_str());
        proof {
            reveal_strlit("");
            assert(""@ =~= Seq::<char>::empty());
        }
        let key = signing_key(
            self.consumer.value.as_str(),
            match &self.token {
                Some(t) => t.value.as_str(),
                None => "",
            },
        );
        let signed_key = sign_text(key.as_str(), base_str.as_str());

        let mut all_params: Vec<(&'static str, String)> = Vec::new();
        all_params.push(("oauth_consumer_key", self.consumer.key));
        all_params.push(("oauth_nonce", self.nonce));
        all_params.push(("oauth_signature", signed_key));
        all_params.push(("oauth_signature_method", String::from_str("HMAC-SHA1")));
        all_params.push(("oauth_timestamp", timestamp));
        all_params.push(("oauth_version", String::from_str("1.0")));
        match self.addon {
            OAuthAddOn::Callback(c) => {
                all_params.push(("oauth_callback", c));
            },
            OAuthAddOn::Verifier(v) => {
                all_params.push(("oauth_verifier", v));
            },
            OAuthAddOn::Neither => {},
        }
        if let Some(token) = self.token {
            all_params.push(("oauth_token", token.key));
        }
        let r = SignedHeader { params: all_params };
        assert(r@ =~= signed_entries(
            self@,
            request_signature(
                self@,
                *method,
                match params {
                    Some(p) => p@,
                    None => Seq::empty(),
                },
                url@,
                req_query@,
            ),
        ));
        r
    }
}

} // verus!
