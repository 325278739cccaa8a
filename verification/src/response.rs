//! What the provider's answer means, the reply to the caller, and helpers
//! for the records of a response body.

use std::collections::HashMap;
use vstd::prelude::*;
use vstd::string::*;
use vstd::utf8::*;
use crate::errors::{TError, THeaders, TResult, TwitterErrors};
use crate::keyval::{has_key, lookup, put_all, string_pairs, Entries, KeyVal};

verus! {

/// The provider's error code for a quota that is used up.
pub const RATE_LIMIT_CODE: i32 = 88;

/// The content type of a form body.
pub const CONTENT_TYPE: &'static str = "application/x-www-form-urlencoded";

/// Calls `http::StatusCode::from_u16`, which accepts the numbers from 100 to 999.
#[verifier::external_body]
fn status_is_valid(code: u16) -> (r: bool)
    ensures
        r == (100 <= code < 1000),
{
    http::StatusCode::from_u16(code).is_ok()
}

/// Calls `http::StatusCode::is_success` on the status of that number: true
/// from 200 to 299. A number that is no status is no success.
#[verifier::external_body]
fn status_is_success(code: u16) -> (r: bool)
    ensures
        r == (200 <= code < 300),
{
    match http::StatusCode::from_u16(code) {
        Ok(status) => status.is_success(),
        Err(_) => false,
    }
}

/// A byte with an ASCII capital letter turned into the small one.
pub open spec fn lower_byte(b: u8) -> u8 {
    if 0x41 <= b <= 0x5a {
        (b + 0x20) as u8
    } else {
        b
    }
}

/// A run of bytes with its ASCII capital letters turned into small ones.
pub open spec fn lowered(s: Seq<u8>) -> Seq<u8> {
    Seq::new(s.len(), |i: int| lower_byte(s[i]))
}

/// Two header names are one name where they differ in the case of ASCII
/// letters at most.
pub open spec fn same_name(a: Seq<char>, b: Seq<char>) -> bool {
    lowered(encode_utf8(a)) == lowered(encode_utf8(b))
}

/// Whether a header of that name is among `headers`.
pub open spec fn has_header(headers: Entries, name: Seq<char>) -> bool {
    exists|i: int| 0 <= i < headers.len() && same_name((#[trigger] headers[i]).0, name)
}

fn to_lower(b: u8) -> (r: u8)
    ensures
        r == lower_byte(b),
{
    if b >= 0x41 && b <= 0x5a {
        b + 0x20
    } else {
        b
    }
}

fn names_match(a: &str, b: &str) -> (r: bool)
    ensures
        r == same_name(a@, b@),
{
    let x = a.as_bytes();
    let y = b.as_bytes();
    if x.len() != y.len() {
        assert(lowered(x@).len() != lowered(y@).len());
        return false;
    }
    let mut i: usize = 0;
    while i < x.len()
        invariant
            i <= x.len(),
            x.len() == y.len(),
            x@ == encode_utf8(a@),
            y@ == encode_utf8(b@),
            forall|j: int| 0 <= j < i ==> lower_byte(x@[j]) == lower_byte(y@[j]),
        decreases x.len() - i,
    {
        if to_lower(x[i]) != to_lower(y[i]) {
            assert(lowered(x@)[i as int] != lowered(y@)[i as int]);
            return false;
        }
        i += 1;
    }
    assert(lowered(x@) =~= lowered(y@));
    true
}

/// Whether a header of that name is among `headers`, whatever the case of
/// its letters.
pub fn header_present(headers: &THeaders, name: &str) -> (r: bool)
    ensures
        r == has_header(string_pairs(headers@), name@),
{
    let ghost all = string_pairs(headers@);
    let mut i: usize = 0;
    while i < headers.len()
        invariant
            i <= headers.len(),
            all == string_pairs(headers@),
            forall|j: int| 0 <= j < i ==> !same_name((#[trigger] all[j]).0, name@),
        decreases headers.len() - i,
    {
        if names_match(headers[i].0.as_str(), name) {
            assert(same_name(all[i as int].0, name@));
            return true;
        }
        i += 1;
    }
    false
}

/// The quota is used up: the payload lists the rate-limit code and the
/// headers say when the quota is reset.
pub open spec fn rate_limited(codes: Seq<i32>, headers: Entries) -> bool {
    codes.contains(RATE_LIMIT_CODE) && has_header(headers, "X-Rate-Limit-Reset"@)
}

/// Reads the provider's answer. `errors` is the body where it parses as an
/// error payload. Such a payload is an error whatever the status, and the
/// rate limit is told apart before anything else; without a payload the
/// status decides.
pub fn interpret_response(
    status: u16,
    headers: THeaders,
    body: Vec<u8>,
    errors: Option<TwitterErrors>,
) -> (r: TResult<(THeaders, Vec<u8>)>)
    ensures
        match errors {
            Some(payload) => r matches Err(err) && if rate_limited(
                payload.codes(),
                string_pairs(headers@),
            ) {
                err == TError::RateLimit
            } else {
                err == TError::TwitterError(headers, payload)
            },
            None => if 200 <= status < 300 {
                r == Ok::<(THeaders, Vec<u8>), TError>((headers, body))
            } else {
                r == Err::<(THeaders, Vec<u8>), TError>(TError::BadStatus(status))
            },
        },
{
    match errors {
        Some(payload) => {
            if payload.has_code(RATE_LIMIT_CODE) && header_present(&headers, "X-Rate-Limit-Reset") {
                Err(TError::RateLimit)
            } else {
                Err(TError::TwitterError(headers, payload))
            }
        },
        None => {
            if !status_is_success(status) {
                Err(TError::BadStatus(status))
            } else {
                Ok((headers, body))
            }
        },
    }
}

/// The parts of a reply to the caller: a message, a body, and the status.
#[derive(Debug)]
pub struct ResponseBuilder<T> {
    pub message: String,
    pub body: Option<T>,
    pub code: u16,
}

/// A reply whose status is an HTTP status.
#[derive(Debug)]
pub struct ApiReply<T> {
    pub status: u16,
    pub content: ResponseBuilder<T>,
}

impl<T> ResponseBuilder<T> {
    /// The parts of a reply, as given.
    pub fn new(message: String, body: Option<T>, code: u16) -> (r: Self)
        ensures
            r == (ResponseBuilder { message, body, code }),
    {
        ResponseBuilder { message, body, code }
    }

    /// The reply, where the code is an HTTP status: a number from 100 to 999.
    pub fn reply(self) -> (r: TResult<ApiReply<T>>)
        ensures
            match r {
                Ok(reply) => 100 <= self.code < 1000 && reply == (ApiReply {
                    status: self.code,
                    content: self,
                }),
                Err(err) => !(100 <= self.code < 1000) && err == TError::InvalidStatusCode(self.code),
            },
    {
        if status_is_valid(self.code) {
            Ok(ApiReply { status: self.code, content: self })
        } else {
            Err(TError::InvalidStatusCode(self.code))
        }
    }
}

/// The error texts that a reply may carry, by name.
#[derive(Debug, Clone, Default)]
pub struct Errors(pub HashMap<&'static str, &'static str>);

impl Errors {
    /// The texts as they are; the errors handed in add nothing to them.
    pub fn new(self, errs: &[(TError, &'static str)]) -> (r: Self)
        ensures
            r == self,
    {
        self
    }
}

/// The records as lists of pairs.
pub open spec fn record_views(records: Seq<KeyVal>) -> Seq<Entries> {
    records.map_values(|record: KeyVal| record@)
}

/// The strings as texts.
pub open spec fn text_views(texts: Seq<String>) -> Seq<Seq<char>> {
    texts.map_values(|text: String| text@)
}

/// All records stored into one, the later over the earlier.
pub open spec fn merged(records: Seq<Entries>) -> Entries
    decreases records.len(),
{
    if records.len() == 0 {
        Seq::empty()
    } else {
        put_all(merged(records.drop_last()), records.last())
    }
}

/// A text that begins with `RT` is a retweet.
pub open spec fn is_retweet(text: Seq<char>) -> bool {
    text.len() >= 2 && text[0] == 'R' && text[1] == 'T'
}

/// A record that holds what a tweet is told apart by: an `id` and a `text`.
pub open spec fn is_tweet_record(record: Entries) -> bool {
    has_key(record, "id"@) && has_key(record, "text"@)
}

/// The records from index `start` on; none where there are not so many.
pub open spec fn records_from(records: Seq<Entries>, start: int) -> Seq<Entries> {
    if 0 <= start <= records.len() {
        records.skip(start)
    } else {
        Seq::empty()
    }
}

/// The ids of the retweets among `records`, or of the others, in their order.
pub open spec fn ids_of(records: Seq<Entries>, retweets: bool) -> Seq<Seq<char>>
    decreases records.len(),
{
    if records.len() == 0 {
        Seq::empty()
    } else {
        let before = ids_of(records.drop_last(), retweets);
        let record = records.last();
        if is_retweet(lookup(record, "text"@)->0) == retweets {
            before.push(lookup(record, "id"@)->0)
        } else {
            before
        }
    }
}

/// How many records at the head are passed over where the head is excluded.
pub const HEAD_LENGTH: usize = 11;

/// The ids of a timeline, the retweets apart from the rest.
#[derive(Debug)]
pub struct TweetIds {
    pub tweets: Vec<String>,
    pub rts: Vec<String>,
}

/// The records of a response body.
#[derive(Debug)]
pub struct TwitterResponseData {
    pub data: Vec<KeyVal>,
}

fn starts_with_rt(text: &str) -> (r: bool)
    ensures
        r == is_retweet(text@),
{
    text.unicode_len() >= 2 && text.get_char(0) == 'R' && text.get_char(1) == 'T'
}

impl TwitterResponseData {
    /// All records as one. Meant for a body whose list holds one record.
    pub fn into_one_dict(self) -> (r: KeyVal)
        ensures
            r@ == merged(record_views(self.data@)),
    {
        let ghost all = record_views(self.data@);
        let mut dict = KeyVal::new();
        let mut i: usize = 0;
        while i < self.data.len()
            invariant
                i <= self.data.len(),
                all == record_views(self.data@),
                dict@ == merged(all.take(i as int)),
            decreases self.data.len() - i,
        {
            proof {
                assert(all.take(i + 1).drop_last() =~= all.take(i as int));
                assert(all.take(i + 1).last() == self.data@[i as int]@);
            }
            dict = dict.add_list_keyval(self.data[i].to_pairs());
            i += 1;
        }
        assert(all.take(self.data.len() as int) =~= all);
        dict
    }

    /// The ids of the records, retweets apart from the rest; with
    /// `exclude_head` the first eleven records are passed over.
    pub fn separate_tweets_from_rts(self, exclude_head: bool) -> (r: TweetIds)
        requires
            forall|i: int|
                (if exclude_head {
                    HEAD_LENGTH as int
                } else {
                    0
                }) <= i < self.data@.len() ==> is_tweet_record(#[trigger] record_views(self.data@)[i]),
        ensures
            text_views(r.tweets@) == ids_of(
                records_from(
                    record_views(self.data@),
                    if exclude_head {
                        HEAD_LENGTH as int
                    } else {
                        0
                    },
                ),
                false,
            ),
            text_views(r.rts@) == ids_of(
                records_from(
                    record_views(self.data@),
                    if exclude_head {
                        HEAD_LENGTH as int
                    } else {
                        0
                    },
                ),
                true,
            ),
    {
        let start: usize = if exclude_head {
            HEAD_LENGTH
        } else {
            0
        };
        let ghost all = record_views(self.data@);
        let ghost rest = records_from(all, start as int);
        let mut tweets: Vec<String> = Vec::new();
        let mut rts: Vec<String> = Vec::new();
        if start > self.data.len() {
            assert(text_views(tweets@) =~= ids_of(rest, false));
            assert(text_views(rts@) =~= ids_of(rest, true));
            return TweetIds { tweets, rts };
        }
        let mut num: usize = start;
        assert(text_views(tweets@) =~= ids_of(rest.take(0), false));
        assert(text_views(rts@) =~= ids_of(rest.take(0), true));
        while num < self.data.len()
            invariant
                start <= num <= self.data.len(),
                all == record_views(self.data@),
                rest == all.skip(start as int),
                forall|i: int| start <= i < self.data@.len() ==> is_tweet_record(#[trigger] all[i]),
                text_views(tweets@) == ids_of(rest.take(num - start), false),
                text_views(rts@) == ids_of(rest.take(num - start), true),
            decreases self.data.len() - num,
        {
            let tweet = &self.data[num];
            proof {
                assert(is_tweet_record(all[num as int]));
                assert(rest.take(num - start + 1).drop_last() =~= rest.take(num - start));
                assert(rest.take(num - start + 1).last() == tweet@);
            }
            let id = match tweet.get("id") {
                Some(id) => id.clone(),
                None => String::new(),
            };
            let is_rt = match tweet.get("text") {
                Some(text) => starts_with_rt(text.as_str()),
                None => false,
            };
            let ghost tweets_before = text_views(tweets@);
            let ghost rts_before = text_views(rts@);
            if is_rt {
                rts.push(id);
                assert(text_views(rts@) =~= rts_before.push(id@));
            } else {
                tweets.push(id);
                assert(text_views(tweets@) =~= tweets_before.push(id@));
            }
            num += 1;
        }
        assert(rest.take(self.data.len() - start) =~= rest);
        TweetIds { tweets, rts }
    }
}

} // verus!
