//! The boundary to the outside crates. Every function here is
//! `external_body`: its body makes one outside call, and its contract is
//! believed rather than proved.

use vstd::prelude::*;

verus! {

/// What base64 decoding with the standard alphabet (padding required)
/// yields for a character sequence; `None` on input that is not base64.
pub uninterp spec fn b64_standard_decoded(s: Seq<char>) -> Option<Seq<u8>>;

/// What base64 encoding with the URL-safe alphabet and no padding yields
/// for a byte sequence.
pub uninterp spec fn b64_url_encoded(b: Seq<u8>) -> Seq<char>;

/// The canonical (lowercase, hyphenated) form of a UUID written in any of
/// the textual formats the `uuid` crate accepts; `None` when the string is
/// not a UUID.
pub uninterp spec fn uuid_canonical(s: Seq<char>) -> Option<Seq<char>>;

/// Relies on base64's `Engine::decode` with the `STANDARD` engine: the
/// result is a function of the input characters alone.
#[verifier::external_body]
pub(crate) fn b64_standard_decode(s: &str) -> (r: Option<Vec<u8>>)
    ensures
        match r {
            Some(b) => b64_standard_decoded(s@) == Some(b@),
            None => b64_standard_decoded(s@) is None,
        },
{
    base64::Engine::decode(&base64::engine::general_purpose::STANDARD, s.as_bytes()).ok()
}

/// Relies on base64's `Engine::encode` with the `URL_SAFE_NO_PAD` engine:
/// the result is a function of the input bytes alone.
#[verifier::external_body]
pub(crate) fn b64_url_nopad_encode(b: &Vec<u8>) -> (r: String)
    ensures
        r@ == b64_url_encoded(b@),
{
    base64::Engine::encode(&base64::engine::general_purpose::URL_SAFE_NO_PAD, b.as_slice())
}

/// Relies on `String::from_utf8`: it succeeds exactly on valid UTF-8 and
/// returns the characters those bytes encode.
#[verifier::external_body]
pub(crate) fn utf8_to_string(b: Vec<u8>) -> (r: Option<String>)
    ensures
        match r {
            Some(s) => vstd::utf8::valid_utf8(b@) && s@ == vstd::utf8::decode_utf8(b@),
            None => !vstd::utf8::valid_utf8(b@),
        },
{
    String::from_utf8(b).ok()
}

/// Relies on `uuid::Uuid::parse_str` and `Uuid::to_string` (the lowercase
/// hyphenated `Display` form): together they canonicalize a UUID string, as
/// a function of the input characters alone.
#[verifier::external_body]
pub(crate) fn uuid_canonicalize(s: &str) -> (r: Option<String>)
    ensures
        match r {
            Some(c) => uuid_canonical(s@) == Some(c@),
            None => uuid_canonical(s@) is None,
        },
{
    match uuid::Uuid::parse_str(s) {
        Ok(u) => Some(u.to_string()),
        Err(_) => None,
    }
}

/// Relies on `uuid::Uuid::new_v4` and `Uuid::to_string`: a random
/// version-4 UUID in canonical form. The canonical form is 36 characters
/// long and parses back to itself; nothing is assumed about the random
/// value itself.
#[verifier::external_body]
pub(crate) fn fresh_identity() -> (r: String)
    ensures
        r@.len() == 36,
        uuid_canonical(r@) == Some(r@),
{
    uuid::Uuid::new_v4().to_string()
}

/// Relies on rand's `Rng::fill` over `thread_rng`: fills a buffer of the
/// requested length with random bytes; nothing is assumed of their values.
#[verifier::external_body]
pub(crate) fn random_bytes(n: usize) -> (r: Vec<u8>)
    ensures
        r@.len() == n,
{
    let mut buf = vec![0u8; n];
    rand::Rng::fill(&mut rand::thread_rng(), buf.as_mut_slice());
    buf
}

/// Relies on chrono's `Utc::now` and `DateTime::timestamp`: the current
/// time as Unix seconds; nothing is assumed of the value.
#[verifier::external_body]
pub(crate) fn now_epoch_seconds() -> i64 {
    chrono::Utc::now().timestamp()
}

/// Relies on `char::to_string`: the returned string holds exactly the one
/// character.
#[verifier::external_body]
pub(crate) fn char_to_string(c: char) -> (r: String)
    ensures
        r@ == seq![c],
{
    c.to_string()
}

} // verus!
