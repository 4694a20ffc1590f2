//! Trusted wrappers around the base64 crate's URL-safe engines. The codec
//! stores the session JSON in a cookie through these.

use vstd::prelude::*;
use base64::Engine;

verus! {

/// The URL-safe, padded base64 text of the UTF-8 bytes of `s`.
pub uninterp spec fn b64url_of(s: Seq<char>) -> Seq<char>;

/// What URL-safe, padded base64 decoding (followed by a UTF-8 read) yields
/// on arbitrary text; a pure function of the input.
pub uninterp spec fn b64url_decode_of(s: Seq<char>) -> Option<Seq<char>>;

/// What URL-safe, unpadded base64 decoding (followed by a UTF-8 read)
/// yields on arbitrary text; a pure function of the input.
pub uninterp spec fn b64url_nopad_decode_of(s: Seq<char>) -> Option<Seq<char>>;

/// Relies on base64's `Engine::encode` with the `URL_SAFE` engine: encoding
/// is a pure function of the input bytes, and `Engine::decode` inverts it;
/// `str::as_bytes` and `String::from_utf8` convert at either end.
#[verifier::external_body]
pub(crate) fn b64url_encode(s: &str) -> (r: String)
    ensures
        r@ == b64url_of(s@),
        b64url_decode_of(r@) == Some(s@),
{
    base64::engine::general_purpose::URL_SAFE.encode(s.as_bytes())
}

/// Relies on base64's `Engine::decode` with the `URL_SAFE` engine: a pure
/// function of the input, failing exactly on text that is not the encoding
/// of any byte string; `String::from_utf8` reads the bytes back.
#[verifier::external_body]
pub(crate) fn b64url_decode(s: &str) -> (r: Option<String>)
    ensures
        match r {
            Some(t) => b64url_decode_of(s@) == Some(t@),
            None => b64url_decode_of(s@) is None,
        },
{
    match base64::engine::general_purpose::URL_SAFE.decode(s.as_bytes()) {
        Ok(bytes) => String::from_utf8(bytes).ok(),
        Err(_) => None,
    }
}

/// Relies on base64's `Engine::decode` with the `URL_SAFE_NO_PAD` engine: a
/// pure function of the input; `String::from_utf8` reads the bytes back.
#[verifier::external_body]
pub(crate) fn b64url_nopad_decode(s: &str) -> (r: Option<String>)
    ensures
        match r {
            Some(t) => b64url_nopad_decode_of(s@) == Some(t@),
            None => b64url_nopad_decode_of(s@) is None,
        },
{
    match base64::engine::general_purpose::URL_SAFE_NO_PAD.decode(s.as_bytes()) {
        Ok(bytes) => String::from_utf8(bytes).ok(),
        Err(_) => None,
    }
}

} // verus!
