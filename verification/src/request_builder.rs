//! Assembles an outbound request from its parts.

use vstd::prelude::*;
use vstd::string::*;
use vstd::utf8::*;
use crate::codec::{join, join_fields};
use crate::errors::THeaders;
use crate::keyval::{put, string_pairs, Entries, KeyVal};
use crate::method::ApiCallMethod;
use crate::signer::{base64_string, base64_text};

verus! {

/// A request, ready to be sent.
#[derive(Debug)]
pub struct HttpRequest {
    pub method: ApiCallMethod,
    pub uri: String,
    pub headers: THeaders,
    pub body: String,
}

/// A request as plain text.
pub struct HttpRequestView {
    pub method: ApiCallMethod,
    pub uri: Seq<char>,
    pub headers: Entries,
    pub body: Seq<char>,
}

impl View for HttpRequest {
    type V = HttpRequestView;

    open spec fn view(&self) -> HttpRequestView {
        HttpRequestView {
            method: self.method,
            uri: self.uri@,
            headers: string_pairs(self.headers@),
            body: self.body@,
        }
    }
}

/// What a builder holds: the URI without its query, the method, the query
/// string, the body with its content type, and the headers.
pub struct RequestBuilderView {
    pub base_uri: Seq<char>,
    pub method: ApiCallMethod,
    pub query: Option<Seq<char>>,
    pub body: Option<(Seq<char>, Seq<char>)>,
    pub header: Option<Entries>,
}

/// The sequence, or the empty one where there is none.
pub open spec fn or_empty<A>(s: Option<Seq<A>>) -> Seq<A> {
    match s {
        Some(x) => x,
        None => Seq::empty(),
    }
}

/// The value of an `Authorization` header for HTTP Basic authentication.
pub open spec fn basic_credentials(id: Seq<char>, secret: Seq<char>) -> Seq<char> {
    "Basic "@ + base64_text(encode_utf8(id + seq![':'] + secret))
}

/// The URI of the request: a `?` always follows the base, then the query.
pub open spec fn uri_text(base_uri: Seq<char>, query: Option<Seq<char>>) -> Seq<char> {
    base_uri + seq!['?'] + or_empty(query)
}

/// The query string after one more `key=value`.
pub open spec fn query_with(query: Option<Seq<char>>, key: Seq<char>, value: Seq<char>) -> Seq<
    char,
> {
    match query {
        Some(q) => q + seq!['&'] + key + seq!['='] + value,
        None => key + seq!['='] + value,
    }
}

/// The request that a builder stands for. Its headers are those of the
/// builder, then the authorization handed in, then the content type of the body.
pub open spec fn request_of(b: RequestBuilderView, authorization: Option<Seq<char>>)
    -> HttpRequestView {
    HttpRequestView {
        method: b.method,
        uri: uri_text(b.base_uri, b.query),
        headers: or_empty(b.header) + match authorization {
            Some(auth) => seq![("authorization"@, "Basic "@ + auth)],
            None => Seq::empty(),
        } + match b.body {
            Some(content) => seq![("content-type"@, content.1)],
            None => Seq::empty(),
        },
        body: match b.body {
            Some(content) => content.0,
            None => Seq::empty(),
        },
    }
}

/// Collects the parts of a request one by one.
pub struct RequestBuilder<'a> {
    base_uri: &'a str,
    method: ApiCallMethod,
    query: Option<String>,
    body: Option<(String, &'static str)>,
    header: Option<KeyVal>,
}

impl<'a> View for RequestBuilder<'a> {
    type V = RequestBuilderView;

    closed spec fn view(&self) -> RequestBuilderView {
        RequestBuilderView {
            base_uri: self.base_uri@,
            method: self.method,
            query: match self.query {
                Some(q) => Some(q@),
                None => None,
            },
            body: match self.body {
                Some(b) => Some((b.0@, b.1@)),
                None => None,
            },
            header: match self.header {
                Some(h) => Some(h@),
                None => None,
            },
        }
    }
}

impl<'a> RequestBuilder<'a> {
    /// A builder for a request to `base_uri`, with nothing else set.
    pub fn new(method: ApiCallMethod, base_uri: &'a str) -> (r: Self)
        ensures
            r@ == (RequestBuilderView {
                base_uri: base_uri@,
                method,
                query: None,
                body: None,
                header: None,
            }),
    {
        RequestBuilder { base_uri, method, query: None, body: None, header: None }
    }

    /// Adds `key=value` to the query string, as they are.
    pub fn with_query(self, key: &str, value: &str) -> (r: Self)
        ensures
            r@ == (RequestBuilderView { query: Some(query_with(self@.query, key@, value@)), ..self@ }),
    {
        proof {
            reveal_strlit("&");
            reveal_strlit("=");
        }
        let mut query = match self.query {
            Some(q) => {
                let mut q = q;
                q.append("&");
                q
            },
            None => String::new(),
        };
        query.append(key);
        query.append("=");
        query.append(value);
        assert(query@ =~= query_with(self@.query, key@, value@));
        RequestBuilder {
            base_uri: self.base_uri,
            method: self.method,
            query: Some(query),
            body: self.body,
            header: self.header,
        }
    }

    /// Replaces the query string by the pairs of `query_dict`, as they are.
    pub fn add_query_params(self, query_dict: KeyVal) -> (r: Self)
        ensures
            r@ == (RequestBuilderView { query: Some(join_fields(query_dict@)), ..self@ }),
    {
        let query_str = join(query_dict.pairs());
        RequestBuilder {
            base_uri: self.base_uri,
            method: self.method,
            query: Some(query_str),
            body: self.body,
            header: self.header,
        }
    }

    /// Replaces the headers where some are given.
    pub fn with_header(self, header_dict: Option<KeyVal>) -> (r: Self)
        ensures
            r@ == match header_dict {
                Some(h) => RequestBuilderView { header: Some(h@), ..self@ },
                None => self@,
            },
    {
        match header_dict {
            Some(h) => RequestBuilder {
                base_uri: self.base_uri,
                method: self.method,
                query: self.query,
                body: self.body,
                header: Some(h),
            },
            None => self,
        }
    }

    /// The URI of the request, with its query.
    pub fn get_uri(&self) -> (r: String)
        ensures
            r@ == uri_text(self@.base_uri, self@.query),
    {
        proof {
            reveal_strlit("?");
        }
        let mut uri = String::from_str(self.base_uri);
        uri.append("?");
        match &self.query {
            Some(q) => {
                uri.append(q.as_str());
            },
            None => {},
        }
        assert(uri@ =~= uri_text(self@.base_uri, self@.query));
        uri
    }

    /// Sets the body and its content type.
    pub fn with_body(self, body: String, content: &'static str) -> (r: Self)
        ensures
            r@ == (RequestBuilderView { body: Some((body@, content@)), ..self@ }),
    {
        RequestBuilder {
            base_uri: self.base_uri,
            method: self.method,
            query: self.query,
            body: Some((body, content)),
            header: self.header,
        }
    }

    /// Sets a body that is JSON text already.
    pub fn with_json_body(self, body: String) -> (r: Self)
        ensures
            r@ == (RequestBuilderView {
                body: Some((body@, "application/json; charset=UTF-8"@)),
                ..self@
            }),
    {
        self.with_body(body, "application/json; charset=UTF-8")
    }

    /// Stores the `Authorization` header of HTTP Basic authentication.
    pub fn with_basic_auth(self, id: String, secret: String) -> (r: Self)
        ensures
            r@ == (RequestBuilderView {
                header: Some(
                    put(or_empty(self@.header), "Authorization"@, basic_credentials(id@, secret@)),
                ),
                ..self@
            }),
    {
        proof {
            reveal_strlit(":");
        }
        let mut credentials = id;
        credentials.append(":");
        credentials.append(secret.as_str());
        assert(credentials@ =~= id@ + seq![':'] + secret@);
        let auth_header = base64_string(credentials.as_str().as_bytes());
        let mut header_value = String::from_str("Basic ");
        header_value.append(auth_header.as_str());
        let header_key = String::from_str("Authorization");
        let updated_header = match self.header {
            Some(header) => header.add_keyval(header_key, header_value),
            None => {
                let h = KeyVal::new_with_keyval(header_key, header_value);
                assert(h@ =~= put(Seq::empty(), header_key@, header_value@));
                h
            },
        };
        RequestBuilder {
            base_uri: self.base_uri,
            method: self.method,
            query: self.query,
            body: self.body,
            header: Some(updated_header),
        }
    }

    /// The request without an authorization beyond the stored headers.
    pub fn request_no_keys(self) -> (r: HttpRequest)
        ensures
            r@ == request_of(self@, None),
    {
        self.build_request(None)
    }

    /// The request, with `Basic` and the given credentials as authorization where some are
    /// given.
    pub fn build_request(self, authorization: Option<String>) -> (r: HttpRequest)
        ensures
            r@ == request_of(
                self@,
                match authorization {
                    Some(auth) => Some(auth@),
                    None => None,
                },
            ),
    {
        let uri = self.get_uri();
        let mut headers: THeaders = match &self.header {
            Some(h) => h.to_pairs(),
            None => Vec::new(),
        };
        assert(string_pairs(headers@) =~= or_empty(self@.header));
        match authorization {
            Some(auth) => {
                let mut value = String::from_str("Basic ");
                value.append(auth.as_str());
                headers.push((String::from_str("authorization"), value));
            },
            None => {},
        }
        let ghost with_auth = string_pairs(headers@);
        let body = match self.body {
            Some((text, content)) => {
                headers.push((String::from_str("content-type"), String::from_str(content)));
                text
            },
            None => String::new(),
        };
        let r = HttpRequest { method: self.method, uri, headers, body };
        assert(r@.headers =~= request_of(
            self@,
            match authorization {
                Some(auth) => Some(auth@),
                None => None,
            },
        ).headers);
        r
    }
}

} // verus!
