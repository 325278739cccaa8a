//! HMAC-SHA1 over a signing key and a base string, and the Base64 text of the MAC.

use hmac::{Hmac, Mac};
use sha1::Sha1;
use vstd::prelude::*;
use vstd::string::*;
use vstd::utf8::*;

verus! {

/// The HMAC-SHA1 of `message` under `key` (RFC 2104 over SHA-1).
pub uninterp spec fn hmac_sha1(key: Seq<u8>, message: Seq<u8>) -> Seq<u8>;

/// The Base64 symbol of a six-bit value.
pub open spec fn base64_symbol(v: int) -> char
    recommends
        0 <= v < 64,
{
    if v < 26 {
        ((0x41 + v) as u8) as char
    } else if v < 52 {
        ((0x61 + v - 26) as u8) as char
    } else if v < 62 {
        ((0x30 + v - 52) as u8) as char
    } else if v == 62 {
        '+'
    } else {
        '/'
    }
}

/// Base64 with the standard alphabet and `=` padding (RFC 4648, section 4).
pub open spec fn base64_text(data: Seq<u8>) -> Seq<char>
    decreases data.len(),
{
    if data.len() == 0 {
        Seq::empty()
    } else if data.len() == 1 {
        seq![base64_symbol(data[0] as int / 4), base64_symbol((data[0] as int % 4) * 16), '=', '=']
    } else if data.len() == 2 {
        seq![
            base64_symbol(data[0] as int / 4),
            base64_symbol((data[0] as int % 4) * 16 + data[1] as int / 16),
            base64_symbol((data[1] as int % 16) * 4),
            '=',
        ]
    } else {
        seq![
            base64_symbol(data[0] as int / 4),
            base64_symbol((data[0] as int % 4) * 16 + data[1] as int / 16),
            base64_symbol((data[1] as int % 16) * 4 + data[2] as int / 64),
            base64_symbol(data[2] as int % 64),
        ] + base64_text(data.skip(3))
    }
}

/// The signature of a base string under a signing key, as it is sent.
pub open spec fn signature_text(key: Seq<char>, base: Seq<char>) -> Seq<char> {
    base64_text(hmac_sha1(encode_utf8(key), encode_utf8(base)))
}

/// Runs `Hmac<Sha1>` from the `hmac` and `sha1` crates over `message`:
/// `new_from_slice`, `update`, `finalize`. The construction takes a key of any
/// length and cannot fail; the MAC of SHA-1 has twenty bytes.
#[verifier::external_body]
fn mac_sha1(key: &[u8], message: &[u8]) -> (r: Vec<u8>)
    ensures
        r@ == hmac_sha1(key@, message@),
        r@.len() == 20,
{
    let mut mac = Hmac::<Sha1>::new_from_slice(key).expect("HMAC takes a key of any length");
    mac.update(message);
    mac.finalize().into_bytes().to_vec()
}

/// Calls `base64::encode`: the standard alphabet, padded with `=`.
#[verifier::external_body]
pub(crate) fn base64_string(data: &[u8]) -> (r: String)
    ensures
        r@ == base64_text(data@),
{
    base64::encode(data)
}

/// Computes the raw twenty-byte HMAC-SHA1 of `message` under `key`.
pub fn sign(key: &[u8], message: &[u8]) -> (r: Vec<u8>)
    ensures
        r@ == hmac_sha1(key@, message@),
        r@.len() == 20,
{
    mac_sha1(key, message)
}

/// Signs a base string and renders the MAC in Base64.
pub fn sign_text(key: &str, base: &str) -> (r: String)
    ensures
        r@ == signature_text(key@, base@),
{
    let mac = sign(key.as_bytes(), base.as_bytes());
    base64_string(mac.as_slice())
}

} // verus!
