//! Keyed tags and URL-safe base64, as the token logic sees them.
use base64::Engine;
use hmac::Mac;
use vstd::prelude::*;

verus! {

/// The characters of the URL-safe base64 alphabet.
pub open spec fn is_url_safe_char(c: char) -> bool {
    ('A' <= c && c <= 'Z') || ('a' <= c && c <= 'z') || ('0' <= c && c <= '9') || c == '-' || c
        == '_'
}

/// The unpadded URL-safe base64 text of some bytes.
pub uninterp spec fn b64url_encoded(b: Seq<u8>) -> Seq<char>;

/// What unpadded URL-safe base64 decoding makes of some text, if it accepts it.
pub uninterp spec fn b64url_decoded(s: Seq<char>) -> Option<Seq<u8>>;

/// The HMAC-SHA-256 tag of a message's UTF-8 bytes under a key.
pub uninterp spec fn hmac_sha256(key: Seq<u8>, msg: Seq<char>) -> Seq<u8>;

#[verifier::external_type_specification]
#[verifier::external_body]
pub struct ExDecodeError(base64::DecodeError);

/// Relies on `base64::engine::general_purpose::URL_SAFE_NO_PAD.encode`: its
/// output uses only the URL-safe alphabet, has four characters for each three
/// bytes and no padding, and the same engine decodes it back to the input.
#[verifier::external_body]
pub(crate) fn encode_b64url(b: &[u8]) -> (r: String)
    ensures
        r@ == b64url_encoded(b@),
        r@.len() == (4 * b@.len() + 2) / 3,
        b64url_decoded(r@) == Some(b@),
        forall|i: int| 0 <= i < r@.len() ==> is_url_safe_char(#[trigger] r@[i]),
{
    base64::engine::general_purpose::URL_SAFE_NO_PAD.encode(b)
}

/// Relies on `base64::engine::general_purpose::URL_SAFE_NO_PAD.decode`: the
/// engine rejects padding and non-zero trailing bits, so it accepts a text
/// only when that text is the encoding of the bytes it returns.
#[verifier::external_body]
pub(crate) fn decode_b64url(s: &str) -> (r: Result<Vec<u8>, base64::DecodeError>)
    ensures
        match r {
            Ok(v) => b64url_decoded(s@) == Some(v@),
            Err(_) => b64url_decoded(s@) is None,
        },
        r matches Ok(v) ==> b64url_encoded(v@) == s@,
{
    base64::engine::general_purpose::URL_SAFE_NO_PAD.decode(s)
}

/// Relies on `hmac::Hmac::<sha2::Sha256>`: `new_from_slice` accepts a key of
/// any length, and `finalize` yields the tag of the bytes given to `update`.
#[verifier::external_body]
pub(crate) fn hmac_tag(key: &[u8], msg: &str) -> (r: Vec<u8>)
    ensures
        r@ == hmac_sha256(key@, msg@),
{
    let mut mac = hmac::Hmac::<sha2::Sha256>::new_from_slice(key).expect("HMAC takes any key");
    mac.update(msg.as_bytes());
    mac.finalize().into_bytes().to_vec()
}

/// Relies on `hmac::Mac::verify_slice` for `Hmac<Sha256>`: it succeeds exactly
/// when `tag` equals the tag of the message, compared in constant time.
#[verifier::external_body]
pub(crate) fn hmac_tag_matches(key: &[u8], msg: &str, tag: &[u8]) -> (r: bool)
    ensures
        r == (tag@ == hmac_sha256(key@, msg@)),
{
    let mut mac = hmac::Hmac::<sha2::Sha256>::new_from_slice(key).expect("HMAC takes any key");
    mac.update(msg.as_bytes());
    mac.verify_slice(tag).is_ok()
}

} // verus!
