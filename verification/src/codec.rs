//! Percent-encoding as RFC 3986 has it, and the canonical parameter string
//! that OAuth 1.0a signs.

use vstd::prelude::*;
use vstd::relations::{sorted_by, total_ordering};
use vstd::seq_lib::{
    lemma_sorted_unique, to_multiset_build, to_multiset_contains, to_multiset_insert,
    to_multiset_len, to_multiset_remove,
};
use vstd::string::*;
use vstd::utf8::*;
use crate::keyval::{distinct_keys, pair_views, Entries, KeyPair, KeyVal};
use crate::text::{
    lemma_lex_le_antisymmetric, lemma_lex_le_connected, lemma_lex_le_reflexive,
    lemma_lex_le_transitive, lemma_utf8_injective, str_eq, str_le, text_le, text_of_bytes,
};

verus! {

/// The bytes that RFC 3986 leaves as they are: letters, digits, `-`, `.`, `_` and `~`.
pub open spec fn is_unreserved(b: u8) -> bool {
    ||| 0x30 <= b <= 0x39
    ||| 0x41 <= b <= 0x5a
    ||| 0x61 <= b <= 0x7a
    ||| b == 0x2d
    ||| b == 0x2e
    ||| b == 0x5f
    ||| b == 0x7e
}

/// The upper-case hexadecimal digit of a value below sixteen, as a byte.
pub open spec fn hex_upper(d: int) -> u8
    recommends
        0 <= d < 16,
{
    if d < 10 {
        (0x30 + d) as u8
    } else {
        (0x41 + d - 10) as u8
    }
}

/// One byte, encoded: itself where unreserved, else `%` and two hexadecimal digits.
pub open spec fn encode_byte(b: u8) -> Seq<char> {
    if is_unreserved(b) {
        seq![b as char]
    } else {
        seq!['%', hex_upper(b as int / 16) as char, hex_upper(b as int % 16) as char]
    }
}

/// A run of bytes, percent-encoded byte by byte.
pub open spec fn encode_bytes(data: Seq<u8>) -> Seq<char>
    decreases data.len(),
{
    if data.len() == 0 {
        Seq::empty()
    } else {
        encode_bytes(data.drop_last()) + encode_byte(data.last())
    }
}

/// A text, percent-encoded over its UTF-8 bytes.
pub open spec fn percent_encoded(text: Seq<char>) -> Seq<char> {
    encode_bytes(encode_utf8(text))
}

/// The value of a hexadecimal digit in either case.
pub open spec fn hex_value(c: u8) -> Option<int> {
    if 0x30 <= c <= 0x39 {
        Some(c - 0x30)
    } else if 0x41 <= c <= 0x46 {
        Some(c - 0x41 + 10)
    } else if 0x61 <= c <= 0x66 {
        Some(c - 0x61 + 10)
    } else {
        None
    }
}

/// Whether `data` starts with `%` and two hexadecimal digits.
pub open spec fn starts_with_escape(data: Seq<u8>) -> bool {
    &&& data.len() >= 3
    &&& data[0] == 0x25
    &&& hex_value(data[1]) is Some
    &&& hex_value(data[2]) is Some
}

/// Percent-decoding: each well-formed escape becomes its byte, all else stays.
pub open spec fn decode_bytes(data: Seq<u8>) -> Seq<u8>
    decreases data.len(),
{
    if data.len() == 0 {
        Seq::empty()
    } else if starts_with_escape(data) {
        seq![(hex_value(data[1])->0 * 16 + hex_value(data[2])->0) as u8] + decode_bytes(
            data.skip(3),
        )
    } else {
        seq![data[0]] + decode_bytes(data.drop_first())
    }
}

/// Calls `urlencoding::encode_binary`, which copies the bytes that are ASCII
/// letters, digits, `-`, `.`, `_` or `~` and writes every other byte as `%`
/// followed by its two upper-case hexadecimal digits.
#[verifier::external_body]
pub(crate) fn encode_raw(data: &[u8]) -> (r: String)
    ensures
        r@ == encode_bytes(data@),
{
    urlencoding::encode_binary(data).into_owned()
}

/// Calls `urlencoding::decode_binary`, which replaces each `%` that two
/// hexadecimal digits follow by the byte they spell and copies every other byte.
#[verifier::external_body]
pub(crate) fn decode_raw(data: &[u8]) -> (r: Vec<u8>)
    ensures
        r@ == decode_bytes(data@),
{
    urlencoding::decode_binary(data).into_owned()
}

/// Percent-encodes a text.
pub fn encode(text: &str) -> (r: String)
    ensures
        r@ == percent_encoded(text@),
{
    encode_raw(text.as_bytes())
}

/// What a text decodes to: the text of its decoded bytes, where they are one.
pub open spec fn percent_decoded(text: Seq<char>) -> Option<Seq<char>> {
    let bytes = decode_bytes(encode_utf8(text));
    if valid_utf8(bytes) {
        Some(decode_utf8(bytes))
    } else {
        None
    }
}

/// Undoes percent-encoding. There is no result where the decoded bytes are
/// not UTF-8.
pub fn decode(text: &str) -> (r: Option<String>)
    ensures
        match r {
            Some(decoded) => percent_decoded(text@) == Some(decoded@),
            None => percent_decoded(text@) is None,
        },
{
    text_of_bytes(decode_raw(text.as_bytes()))
}

/// A pair with name and value both percent-encoded.
pub open spec fn encoded_pair(p: (Seq<char>, Seq<char>)) -> (Seq<char>, Seq<char>) {
    (percent_encoded(p.0), percent_encoded(p.1))
}

/// A parameter list with every name and value percent-encoded.
pub open spec fn encoded_entries(s: Entries) -> Entries {
    s.map_values(|p: (Seq<char>, Seq<char>)| encoded_pair(p))
}

/// The order of the canonical string: by name, byte-wise; equal names by value.
pub open spec fn pair_le(p: (Seq<char>, Seq<char>), q: (Seq<char>, Seq<char>)) -> bool {
    if p.0 == q.0 {
        text_le(p.1, q.1)
    } else {
        text_le(p.0, q.0)
    }
}

/// The canonical order as a relation.
pub open spec fn pair_order() -> spec_fn((Seq<char>, Seq<char>), (Seq<char>, Seq<char>)) -> bool {
    |p: (Seq<char>, Seq<char>), q: (Seq<char>, Seq<char>)| pair_le(p, q)
}

/// One `name=value` field.
pub open spec fn field(p: (Seq<char>, Seq<char>)) -> Seq<char> {
    p.0 + seq!['='] + p.1
}

/// The fields of `pairs` in their order, with `&` between them and none at the end.
pub open spec fn join_fields(pairs: Entries) -> Seq<char>
    decreases pairs.len(),
{
    if pairs.len() == 0 {
        Seq::empty()
    } else if pairs.len() == 1 {
        field(pairs[0])
    } else {
        join_fields(pairs.drop_last()) + seq!['&'] + field(pairs.last())
    }
}

/// A parameter list as the body of a form: the pairs in their order, names
/// and values percent-encoded.
pub open spec fn form_text(params: Entries) -> Seq<char> {
    join_fields(encoded_entries(params))
}

/// The encoded pairs of a parameter list in canonical order.
pub open spec fn canonical_pairs(params: Entries) -> Entries {
    encoded_entries(params).sort_by(pair_order())
}

/// The canonical parameter string of a parameter list.
pub open spec fn canonical_text(params: Entries) -> Seq<char> {
    join_fields(canonical_pairs(params))
}

/// Of two pairs, one stands no later than the other.
pub proof fn lemma_pair_le_connected(p: (Seq<char>, Seq<char>), q: (Seq<char>, Seq<char>))
    ensures
        pair_le(p, q) || pair_le(q, p),
{
    lemma_lex_le_connected(encode_utf8(p.0), encode_utf8(q.0));
    lemma_lex_le_connected(encode_utf8(p.1), encode_utf8(q.1));
}

/// Two pairs, each no later than the other, are one pair.
pub proof fn lemma_pair_le_antisymmetric(p: (Seq<char>, Seq<char>), q: (Seq<char>, Seq<char>))
    requires
        pair_le(p, q),
        pair_le(q, p),
    ensures
        p == q,
{
    if p.0 == q.0 {
        lemma_lex_le_antisymmetric(encode_utf8(p.1), encode_utf8(q.1));
        lemma_utf8_injective(p.1, q.1);
    } else {
        lemma_lex_le_antisymmetric(encode_utf8(p.0), encode_utf8(q.0));
        lemma_utf8_injective(p.0, q.0);
    }
}

/// The canonical order is transitive.
pub proof fn lemma_pair_le_transitive(
    p: (Seq<char>, Seq<char>),
    q: (Seq<char>, Seq<char>),
    r: (Seq<char>, Seq<char>),
)
    requires
        pair_le(p, q),
        pair_le(q, r),
    ensures
        pair_le(p, r),
{
    if p.0 == q.0 && q.0 == r.0 {
        lemma_lex_le_transitive(encode_utf8(p.1), encode_utf8(q.1), encode_utf8(r.1));
    } else if p.0 == q.0 || q.0 == r.0 {
    } else {
        lemma_lex_le_transitive(encode_utf8(p.0), encode_utf8(q.0), encode_utf8(r.0));
        if p.0 == r.0 {
            lemma_lex_le_antisymmetric(encode_utf8(p.0), encode_utf8(q.0));
            lemma_utf8_injective(p.0, q.0);
        }
    }
}

/// The canonical order is a total order on pairs.
pub proof fn lemma_pair_order_is_total()
    ensures
        total_ordering(pair_order()),
{
    let leq = pair_order();
    assert forall|p: (Seq<char>, Seq<char>)| #[trigger] leq(p, p) by {
        lemma_lex_le_reflexive(encode_utf8(p.1));
    }
    assert forall|p: (Seq<char>, Seq<char>), q: (Seq<char>, Seq<char>)|
        #[trigger] leq(p, q) && #[trigger] leq(q, p) implies p == q by {
        lemma_pair_le_antisymmetric(p, q);
    }
    assert forall|p: (Seq<char>, Seq<char>), q: (Seq<char>, Seq<char>), r: (Seq<char>, Seq<char>)|
        #[trigger] leq(p, q) && #[trigger] leq(q, r) implies leq(p, r) by {
        lemma_pair_le_transitive(p, q, r);
    }
    assert forall|p: (Seq<char>, Seq<char>), q: (Seq<char>, Seq<char>)|
        #[trigger] leq(p, q) || #[trigger] leq(q, p) by {
        lemma_pair_le_connected(p, q);
    }
}

/// The canonical pairs are the encoded pairs, each as often as it occurs,
/// in canonical order.
pub proof fn lemma_canonical_pairs_are_sorted(params: Entries)
    ensures
        sorted_by(canonical_pairs(params), pair_order()),
        canonical_pairs(params).to_multiset() == encoded_entries(params).to_multiset(),
        canonical_pairs(params).len() == params.len(),
{
    lemma_pair_order_is_total();
    encoded_entries(params).lemma_sort_by_ensures(pair_order());
    to_multiset_len(canonical_pairs(params));
    to_multiset_len(encoded_entries(params));
}

/// The characters that a query string or a header gives a meaning of its own.
pub open spec fn is_reserved_char(c: char) -> bool {
    ||| c == '+'
    ||| c == '&'
    ||| c == '='
    ||| c == '?'
    ||| c == '/'
    ||| c == ':'
    ||| c == '@'
    ||| c == '!'
    ||| c == '*'
    ||| c == '\''
    ||| c == '('
    ||| c == ')'
}

/// A letter, a digit, `-`, `.`, `_` or `~`.
pub open spec fn is_unreserved_char(c: char) -> bool {
    ||| '0' <= c <= '9'
    ||| 'A' <= c <= 'Z'
    ||| 'a' <= c <= 'z'
    ||| c == '-'
    ||| c == '.'
    ||| c == '_'
    ||| c == '~'
}

/// A hexadecimal digit in upper case.
pub open spec fn is_upper_hex_char(c: char) -> bool {
    ('0' <= c <= '9') || ('A' <= c <= 'F')
}

/// Encoded bytes consist of unreserved characters and `%` alone.
pub proof fn lemma_encoded_bytes_are_unreserved(data: Seq<u8>)
    ensures
        forall|i: int|
            0 <= i < encode_bytes(data).len() ==> {
                let c = #[trigger] encode_bytes(data)[i];
                is_unreserved_char(c) || c == '%'
            },
    decreases data.len(),
{
    if data.len() > 0 {
        lemma_encoded_bytes_are_unreserved(data.drop_last());
        let b = data.last();
        let tail = encode_byte(b);
        assert forall|k: int| 0 <= k < tail.len() implies is_unreserved_char(#[trigger] tail[k])
            || tail[k] == '%' by {
            if !is_unreserved(b) {
                assert(is_upper_hex_char(hex_upper(b as int / 16) as char));
                assert(is_upper_hex_char(hex_upper(b as int % 16) as char));
            }
        }
        let front = encode_bytes(data.drop_last());
        let whole = encode_bytes(data);
        assert forall|i: int| 0 <= i < whole.len() implies is_unreserved_char(#[trigger] whole[i])
            || whole[i] == '%' by {
            if i < front.len() {
                assert(whole[i] == front[i]);
            } else {
                assert(whole[i] == tail[i - front.len()]);
            }
        }
    }
}

/// Whatever a name or a value holds, its encoded form holds none of the
/// reserved characters `+ & = ? / : @ ! * ' ( )`.
pub proof fn lemma_encoded_text_has_no_reserved_char(text: Seq<char>)
    ensures
        forall|i: int|
            0 <= i < percent_encoded(text).len() ==> !is_reserved_char(
                #[trigger] percent_encoded(text)[i],
            ),
{
    lemma_encoded_bytes_are_unreserved(encode_utf8(text));
}

/// A text of unreserved characters alone is its own encoded form.
pub proof fn lemma_unreserved_text_is_unchanged(text: Seq<char>)
    requires
        forall|i: int| 0 <= i < text.len() ==> is_unreserved_char(#[trigger] text[i]),
    ensures
        percent_encoded(text) == text,
    decreases text.len(),
{
    assert(is_ascii_chars(text));
    is_ascii_chars_encode_utf8(text);
    if text.len() > 0 {
        let front = text.drop_last();
        assert(is_ascii_chars(front));
        is_ascii_chars_encode_utf8(front);
        lemma_unreserved_text_is_unchanged(front);
        let bytes = encode_utf8(text);
        assert(encode_utf8(front) =~= bytes.drop_last());
        let c = text.last();
        assert(bytes.last() == c as u8);
        assert(is_unreserved(bytes.last()));
        assert((bytes.last() as char) == c);
        assert(percent_encoded(text) =~= text);
    }
}

/// The bytes of a text of ASCII characters.
pub open spec fn ascii_bytes(text: Seq<char>) -> Seq<u8> {
    Seq::new(text.len(), |i: int| text[i] as u8)
}

/// Encoding goes byte by byte: a run of bytes encodes to what its parts encode to.
pub proof fn lemma_encode_bytes_of_parts(a: Seq<u8>, b: Seq<u8>)
    ensures
        encode_bytes(a + b) == encode_bytes(a) + encode_bytes(b),
    decreases b.len(),
{
    if b.len() == 0 {
        assert(a + b =~= a);
        assert(encode_bytes(a) + encode_bytes(b) =~= encode_bytes(a));
    } else {
        lemma_encode_bytes_of_parts(a, b.drop_last());
        assert((a + b).drop_last() =~= a + b.drop_last());
        assert((a + b).last() == b.last());
        assert(encode_bytes(a + b) =~= encode_bytes(a) + encode_bytes(b));
    }
}

/// Decoding reads an encoded byte back as that byte.
pub proof fn lemma_decode_of_encoded_byte(b: u8, rest: Seq<u8>)
    ensures
        decode_bytes(ascii_bytes(encode_byte(b)) + rest) == seq![b] + decode_bytes(rest),
{
    let data = ascii_bytes(encode_byte(b)) + rest;
    if is_unreserved(b) {
        assert(data[0] == b);
        assert(data.drop_first() =~= rest);
    } else {
        let high = b as int / 16;
        let low = b as int % 16;
        assert(data[0] == 0x25);
        assert(data[1] == hex_upper(high));
        assert(data[2] == hex_upper(low));
        assert(hex_value(data[1]) == Some(high));
        assert(hex_value(data[2]) == Some(low));
        assert(data.skip(3) =~= rest);
    }
}

/// Decoding the encoded form of a run of bytes gives the bytes back.
pub proof fn lemma_decode_undoes_encode_bytes(data: Seq<u8>)
    ensures
        decode_bytes(ascii_bytes(encode_bytes(data))) == data,
    decreases data.len(),
{
    if data.len() == 0 {
        assert(ascii_bytes(encode_bytes(data)) =~= Seq::<u8>::empty());
    } else {
        let b = data[0];
        let rest = data.drop_first();
        assert(data =~= seq![b] + rest);
        lemma_encode_bytes_of_parts(seq![b], rest);
        let one = seq![b];
        assert(one.drop_last().len() == 0);
        assert(encode_bytes(one.drop_last()) =~= Seq::<char>::empty());
        assert(one.last() == b);
        assert(encode_bytes(one) =~= encode_byte(b));
        assert(ascii_bytes(encode_bytes(data)) =~= ascii_bytes(encode_byte(b)) + ascii_bytes(
            encode_bytes(rest),
        ));
        lemma_decode_of_encoded_byte(b, ascii_bytes(encode_bytes(rest)));
        lemma_decode_undoes_encode_bytes(rest);
    }
}

/// The encoded form of a run of bytes is ASCII text, and these are its bytes.
pub proof fn lemma_encoded_bytes_are_ascii(data: Seq<u8>)
    ensures
        encode_utf8(encode_bytes(data)) == ascii_bytes(encode_bytes(data)),
{
    let enc = encode_bytes(data);
    lemma_encoded_bytes_are_unreserved(data);
    assert(is_ascii_chars(enc)) by {
        assert forall|i: int| 0 <= i < enc.len() implies '\0' <= #[trigger] enc[i] <= '\u{7f}' by {
            assert(is_unreserved_char(enc[i]) || enc[i] == '%');
        }
    }
    is_ascii_chars_encode_utf8(enc);
    assert(encode_utf8(enc) =~= ascii_bytes(enc));
}

/// Decoding what was encoded gives the text back.
pub proof fn lemma_decode_undoes_encode(text: Seq<char>)
    ensures
        percent_decoded(percent_encoded(text)) == Some(text),
{
    lemma_encoded_bytes_are_ascii(encode_utf8(text));
    lemma_decode_undoes_encode_bytes(encode_utf8(text));
    encode_utf8_valid_utf8(text);
    encode_utf8_decode_utf8(text);
}

/// Two lists with the same pairs, each as often, have the same encoded pairs, each as often.
pub proof fn lemma_encoded_entries_of_permutation(a: Entries, b: Entries)
    requires
        a.to_multiset() == b.to_multiset(),
    ensures
        encoded_entries(a).to_multiset() == encoded_entries(b).to_multiset(),
    decreases a.len(),
{
    to_multiset_len(a);
    to_multiset_len(b);
    if a.len() == 0 {
        assert(encoded_entries(a) =~= encoded_entries(b));
    } else {
        let x = a.last();
        let front = a.drop_last();
        assert(a =~= front.push(x));
        to_multiset_build(front, x);
        to_multiset_contains(a, x);
        to_multiset_contains(b, x);
        assert(a.contains(x));
        let j = choose|j: int| 0 <= j < b.len() && b[j] == x;
        let rest = b.remove(j);
        to_multiset_remove(b, j);
        assert(front.to_multiset() =~= a.to_multiset().remove(x));
        lemma_encoded_entries_of_permutation(front, rest);
        let y = encoded_pair(x);
        assert(encoded_entries(a) =~= encoded_entries(front).push(y));
        to_multiset_build(encoded_entries(front), y);
        assert(encoded_entries(b) =~= encoded_entries(rest).insert(j, y));
        to_multiset_insert(encoded_entries(rest), j, y);
    }
}

/// Two lists with the same pairs, each as often, have one canonical string.
pub proof fn lemma_canonical_text_of_permutation(a: Entries, b: Entries)
    requires
        a.to_multiset() == b.to_multiset(),
    ensures
        canonical_text(a) == canonical_text(b),
{
    lemma_encoded_entries_of_permutation(a, b);
    lemma_pair_order_is_total();
    encoded_entries(a).lemma_sort_by_ensures(pair_order());
    encoded_entries(b).lemma_sort_by_ensures(pair_order());
    lemma_sorted_unique(canonical_pairs(a), canonical_pairs(b), pair_order());
}

/// The canonical string does not depend on the order of insertion: two
/// mappings that hold the same pairs have the same canonical string.
pub proof fn lemma_canonical_text_ignores_insertion_order(a: Entries, b: Entries)
    requires
        distinct_keys(a),
        distinct_keys(b),
        forall|p: (Seq<char>, Seq<char>)| a.contains(p) <==> b.contains(p),
    ensures
        canonical_text(a) == canonical_text(b),
{
    assert(a.no_duplicates());
    assert(b.no_duplicates());
    a.lemma_multiset_has_no_duplicates();
    b.lemma_multiset_has_no_duplicates();
    assert forall|p: (Seq<char>, Seq<char>)| a.to_multiset().count(p) == b.to_multiset().count(
        p,
    ) by {
        to_multiset_contains(a, p);
        to_multiset_contains(b, p);
    }
    assert(a.to_multiset() =~= b.to_multiset());
    lemma_canonical_text_of_permutation(a, b);
}

fn pair_no_later(a: &KeyPair, b: &KeyPair) -> (r: bool)
    ensures
        r == pair_le(a@, b@),
{
    if str_eq(a.key.as_str(), b.key.as_str()) {
        str_le(a.value.as_str(), b.value.as_str())
    } else {
        str_le(a.key.as_str(), b.key.as_str())
    }
}

/// The first index whose pair stands later than `item`.
fn insertion_point(sorted: &Vec<KeyPair>, item: &KeyPair) -> (j: usize)
    ensures
        j <= sorted@.len(),
        forall|k: int| 0 <= k < j ==> pair_le(#[trigger] pair_views(sorted@)[k], item@),
        j < sorted@.len() ==> !pair_le(pair_views(sorted@)[j as int], item@),
{
    let mut j: usize = 0;
    while j < sorted.len()
        invariant
            j <= sorted@.len(),
            forall|k: int| 0 <= k < j ==> pair_le(#[trigger] pair_views(sorted@)[k], item@),
        decreases sorted.len() - j,
    {
        if !pair_no_later(&sorted[j], item) {
            return j;
        }
        j += 1;
    }
    j
}

/// Puts `item` where it belongs in a sorted run.
fn insert_sorted(sorted: &mut Vec<KeyPair>, item: KeyPair)
    requires
        sorted_by(pair_views(old(sorted)@), pair_order()),
    ensures
        sorted_by(pair_views(final(sorted)@), pair_order()),
        pair_views(final(sorted)@).to_multiset() == pair_views(old(sorted)@).to_multiset().insert(
            item@,
        ),
{
    let j = insertion_point(sorted, &item);
    let ghost before = pair_views(sorted@);
    let ghost x = item@;
    sorted.insert(j, item);
    proof {
        let after = pair_views(sorted@);
        assert(after =~= before.insert(j as int, x));
        to_multiset_insert(before, j as int, x);
        assert forall|a: int, b: int| 0 <= a < b < after.len() implies #[trigger] pair_le(
            after[a],
            after[b],
        ) by {
            if b < j {
                assert(pair_order()(before[a], before[b]));
            } else if b == j {
                assert(pair_le(before[a], x));
            } else if a == j {
                lemma_pair_le_connected(before[j as int], x);
                if b - 1 > j {
                    assert(pair_order()(before[j as int], before[b - 1]));
                    lemma_pair_le_transitive(x, before[j as int], before[b - 1]);
                }
            } else if a < j {
                assert(pair_order()(before[a], before[b - 1]));
            } else {
                assert(pair_order()(before[a - 1], before[b - 1]));
            }
        }
        assert(sorted_by(after, pair_order()));
    }
}

/// Writes the fields of `pairs` out with `=` and `&`.
pub fn join(pairs: &Vec<KeyPair>) -> (r: String)
    ensures
        r@ == join_fields(pair_views(pairs@)),
{
    let ghost all = pair_views(pairs@);
    let mut out = String::new();
    let mut i: usize = 0;
    while i < pairs.len()
        invariant
            i <= pairs.len(),
            all == pair_views(pairs@),
            out@ == join_fields(all.take(i as int)),
        decreases pairs.len() - i,
    {
        proof {
            reveal_strlit("&");
            reveal_strlit("=");
            assert(all.take(i + 1).drop_last() =~= all.take(i as int));
            assert(all.take(i + 1).last() == all[i as int]);
        }
        if i > 0 {
            out.append("&");
        }
        out.append(pairs[i].key.as_str());
        out.append("=");
        out.append(pairs[i].value.as_str());
        assert(out@ =~= join_fields(all.take(i + 1)));
        i += 1;
    }
    assert(all.take(pairs.len() as int) =~= all);
    out
}

/// Writes a parameter list as the body of a form.
pub fn to_urlencode(params: &KeyVal) -> (r: String)
    ensures
        r@ == form_text(params@),
{
    let pairs = params.pairs();
    let mut encoded: Vec<KeyPair> = Vec::new();
    let mut i: usize = 0;
    while i < pairs.len()
        invariant
            i <= pairs.len(),
            pair_views(pairs@) == params@,
            encoded@.len() == i,
            forall|j: int| 0 <= j < i ==> (#[trigger] encoded@[j])@ == encoded_pair(params@[j]),
        decreases pairs.len() - i,
    {
        let e = &pairs[i];
        assert(e@ == params@[i as int]);
        encoded.push(KeyPair { key: encode(e.key.as_str()), value: encode(e.value.as_str()) });
        i += 1;
    }
    assert(pair_views(encoded@) =~= encoded_entries(params@));
    join(&encoded)
}

/// Builds the canonical parameter string: every name and value percent-encoded,
/// the pairs in canonical order, written as `k1=v1&k2=v2`.
pub fn canonicalize(params: &KeyVal) -> (r: String)
    ensures
        r@ == canonical_text(params@),
{
    let n = params.len();
    let mut sorted: Vec<KeyPair> = Vec::new();
    let mut i: usize = 0;
    assert(encoded_entries(params@.take(0)) =~= pair_views(sorted@));
    while i < n
        invariant
            i <= n,
            n == params@.len(),
            sorted_by(pair_views(sorted@), pair_order()),
            pair_views(sorted@).to_multiset() == encoded_entries(
                params@.take(i as int),
            ).to_multiset(),
        decreases n - i,
    {
        let e = params.entry(i);
        let item = KeyPair { key: encode(e.key.as_str()), value: encode(e.value.as_str()) };
        proof {
            let done = encoded_entries(params@.take(i as int));
            assert(encoded_entries(params@.take(i + 1)) =~= done.push(item@));
            to_multiset_build(done, item@);
        }
        insert_sorted(&mut sorted, item);
        i += 1;
    }
    proof {
        assert(params@.take(n as int) =~= params@);
        let enc = encoded_entries(params@);
        lemma_pair_order_is_total();
        enc.lemma_sort_by_ensures(pair_order());
        lemma_sorted_unique(pair_views(sorted@), enc.sort_by(pair_order()), pair_order());
    }
    join(&sorted)
}

} // verus!
