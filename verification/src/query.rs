//! Reads the query of a callback into parameters.

use vstd::prelude::*;
use vstd::slice::slice_subrange;
use vstd::string::*;
use vstd::utf8::*;
use crate::codec::{decode_bytes, decode_raw};
use crate::text::text_of_bytes;
use crate::keyval::{put_all, Entries, KeyVal};

verus! {

/// The index of the first `b` in `data`, or the length of `data` if there is none.
pub open spec fn first_index(data: Seq<u8>, b: u8) -> int
    decreases data.len(),
{
    if data.len() == 0 {
        0
    } else if data[0] == b {
        0
    } else {
        1 + first_index(data.drop_first(), b)
    }
}

/// What follows the separator at index `at`; nothing where `at` is the end.
pub open spec fn after(data: Seq<u8>, at: int) -> Seq<u8> {
    if 0 <= at < data.len() {
        data.skip(at + 1)
    } else {
        Seq::empty()
    }
}

/// One piece of a query, split at its first `=` and percent-decoded. A
/// piece without `=` is a name with an empty value.
pub open spec fn field_of(piece: Seq<u8>) -> (Seq<u8>, Seq<u8>) {
    let eq = first_index(piece, 0x3d);
    (decode_bytes(piece.take(eq)), decode_bytes(after(piece, eq)))
}

/// The fields of a query: its pieces between `&`, the empty ones left out.
pub open spec fn fields_of(data: Seq<u8>) -> Seq<(Seq<u8>, Seq<u8>)>
    decreases data.len(),
{
    if data.len() == 0 {
        Seq::empty()
    } else {
        let end = first_index(data, 0x26);
        let head = if end == 0 {
            Seq::empty()
        } else {
            seq![field_of(data.take(end))]
        };
        head + fields_of(after(data, end))
    }
}

/// Every name and every value is UTF-8.
pub open spec fn all_text(fields: Seq<(Seq<u8>, Seq<u8>)>) -> bool {
    forall|i: int|
        0 <= i < fields.len() ==> valid_utf8((#[trigger] fields[i]).0) && valid_utf8(fields[i].1)
}

/// The fields as text.
pub open spec fn text_fields(fields: Seq<(Seq<u8>, Seq<u8>)>) -> Entries {
    fields.map_values(|f: (Seq<u8>, Seq<u8>)| (decode_utf8(f.0), decode_utf8(f.1)))
}

/// The parameters that a query spells, a later field over an earlier one of
/// the same name. There are none where a decoded name or value is no text.
pub open spec fn query_params(query: Seq<char>) -> Option<Entries> {
    let fields = fields_of(encode_utf8(query));
    if all_text(fields) {
        Some(put_all(Seq::empty(), text_fields(fields)))
    } else {
        None
    }
}

/// `first_index` finds the first such byte and nothing before it.
pub proof fn lemma_first_index(data: Seq<u8>, b: u8)
    ensures
        0 <= first_index(data, b) <= data.len(),
        forall|j: int| 0 <= j < first_index(data, b) ==> data[j] != b,
        first_index(data, b) < data.len() ==> data[first_index(data, b)] == b,
    decreases data.len(),
{
    if data.len() > 0 && data[0] != b {
        let rest = data.drop_first();
        lemma_first_index(rest, b);
        assert forall|j: int| 0 <= j < first_index(data, b) implies data[j] != b by {
            if j > 0 {
                assert(data[j] == rest[j - 1]);
            }
        }
    }
}

/// An index that holds `b`, with no `b` before it, is the first index of `b`.
pub proof fn lemma_first_index_is(data: Seq<u8>, b: u8, i: int)
    requires
        0 <= i <= data.len(),
        forall|j: int| 0 <= j < i ==> data[j] != b,
        i < data.len() ==> data[i] == b,
    ensures
        first_index(data, b) == i,
{
    lemma_first_index(data, b);
}

/// The index of the first `b` at or after `from`, or the length.
fn find_byte(data: &[u8], from: usize, b: u8) -> (r: usize)
    requires
        from <= data@.len(),
    ensures
        from <= r <= data@.len(),
        r - from == first_index(data@.skip(from as int), b),
{
    let mut i: usize = from;
    while i < data.len()
        invariant
            from <= i <= data@.len(),
            forall|j: int| from <= j < i ==> data@[j] != b,
        decreases data.len() - i,
    {
        if data[i] == b {
            proof {
                lemma_first_index_is(data@.skip(from as int), b, i - from);
            }
            return i;
        }
        i += 1;
    }
    proof {
        lemma_first_index_is(data@.skip(from as int), b, i - from);
    }
    i
}

/// Reads one piece of a query.
fn parse_field(piece: &[u8]) -> (r: Option<(String, String)>)
    ensures
        match r {
            Some(pair) => {
                &&& valid_utf8(field_of(piece@).0)
                &&& valid_utf8(field_of(piece@).1)
                &&& pair.0@ == decode_utf8(field_of(piece@).0)
                &&& pair.1@ == decode_utf8(field_of(piece@).1)
            },
            None => !valid_utf8(field_of(piece@).0) || !valid_utf8(field_of(piece@).1),
        },
{
    assert(piece@.skip(0) =~= piece@);
    let eq = find_byte(piece, 0, 0x3d);
    let name = decode_raw(slice_subrange(piece, 0, eq));
    assert(piece@.subrange(0, eq as int) =~= piece@.take(eq as int));
    let value = if eq < piece.len() {
        assert(piece@.subrange(eq + 1, piece@.len() as int) =~= after(piece@, eq as int));
        decode_raw(slice_subrange(piece, eq + 1, piece.len()))
    } else {
        Vec::new()
    };
    match text_of_bytes(name) {
        Some(name) => match text_of_bytes(value) {
            Some(value) => Some((name, value)),
            None => None,
        },
        None => None,
    }
}

/// Reads the query of a URI, without its `?`, into parameters.
pub fn parse_query(query: &str) -> (r: Option<KeyVal>)
    ensures
        match r {
            Some(params) => query_params(query@) == Some(params@),
            None => query_params(query@) is None,
        },
{
    let data = query.as_bytes();
    let mut params = KeyVal::new();
    let mut start: usize = 0;
    let ghost mut done: Seq<(Seq<u8>, Seq<u8>)> = Seq::empty();
    proof {
        assert(data@.skip(0) =~= data@);
        assert(text_fields(done) =~= Seq::empty());
    }
    while start < data.len()
        invariant
            start <= data@.len(),
            data@ == encode_utf8(query@),
            fields_of(data@) == done + fields_of(data@.skip(start as int)),
            all_text(done),
            params@ == put_all(Seq::empty(), text_fields(done)),
        decreases data.len() - start,
    {
        let ghost rest = data@.skip(start as int);
        let end = find_byte(data, start, 0x26);
        let next_start = if end < data.len() {
            end + 1
        } else {
            end
        };
        proof {
            assert(rest.take(end - start) =~= data@.subrange(start as int, end as int));
            assert(after(rest, end - start) =~= data@.skip(next_start as int));
        }
        if end > start {
            let ghost field = field_of(rest.take(end - start));
            proof {
                assert(fields_of(rest) == seq![field] + fields_of(data@.skip(next_start as int)));
                assert(fields_of(data@) =~= done.push(field) + fields_of(
                    data@.skip(next_start as int),
                ));
            }
            match parse_field(slice_subrange(data, start, end)) {
                Some(pair) => {
                    proof {
                        assert(text_fields(done.push(field)) =~= text_fields(done).push(
                            (pair.0@, pair.1@),
                        ));
                        assert(text_fields(done.push(field)).drop_last() =~= text_fields(done));
                        done = done.push(field);
                    }
                    params = params.add_keyval(pair.0, pair.1);
                },
                None => {
                    proof {
                        let all = fields_of(data@);
                        assert(all[done.len() as int] == field);
                        assert(!all_text(all));
                    }
                    return None;
                },
            }
        } else {
            proof {
                assert(fields_of(rest) =~= fields_of(data@.skip(next_start as int)));
            }
        }
        start = next_start;
    }
    proof {
        assert(fields_of(data@.skip(start as int)) =~= Seq::empty());
        assert(fields_of(data@) =~= done);
    }
    Some(params)
}

} // verus!
