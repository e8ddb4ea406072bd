//! Base64url and UTF-8: the encodings that envelopes are written in.

use crate::error::{err_caused, Error, ErrorKind};
use vstd::prelude::*;
use vstd::string::{StrSliceExecFns, StringSliceAdditionalSpecFns};
use vstd::utf8::{decode_utf8, encode_utf8, valid_utf8};

verus! {

/// What the `base64` crate decodes from a text in the URL-safe alphabet
/// without padding: the bytes, or its complaint.
pub uninterp spec fn base64url_decoded(text: Seq<char>) -> core::result::Result<
    Seq<u8>,
    Seq<char>,
>;

/// The text that the `base64` crate writes for bytes, in the URL-safe
/// alphabet without padding.
pub uninterp spec fn base64url_encoded(bytes: Seq<u8>) -> Seq<char>;

/// The SHA-256 digest of bytes.
pub uninterp spec fn sha256_digest(bytes: Seq<u8>) -> Seq<u8>;

/// What the `bs58` crate decodes from a text in the Bitcoin alphabet: the
/// bytes, or its complaint.
pub uninterp spec fn base58_decoded(text: Seq<char>) -> core::result::Result<
    Seq<u8>,
    Seq<char>,
>;

/// `base64::decode_config` with `URL_SAFE_NO_PAD`: the decoded bytes, or the
/// printed form of the decode error. The result depends on the text alone.
/// The call panics only where the text's length plus three overflows, which
/// no string reaches.
#[verifier::external_body]
fn decode_with_base64(text: &str) -> (r: core::result::Result<Vec<u8>, String>)
    ensures
        match r {
            Ok(b) => base64url_decoded(text@) == Ok::<Seq<u8>, Seq<char>>(b@),
            Err(e) => base64url_decoded(text@) == Err::<Seq<u8>, Seq<char>>(e@),
        },
{
    match base64::decode_config(text, base64::URL_SAFE_NO_PAD) {
        Ok(bytes) => Ok(bytes),
        Err(e) => Err(e.to_string()),
    }
}

/// `base64::encode_config` with `URL_SAFE_NO_PAD`. The result depends on the
/// bytes alone.
#[verifier::external_body]
fn encode_with_base64(bytes: &[u8]) -> (r: String)
    ensures
        r@ == base64url_encoded(bytes@),
{
    base64::encode_config(bytes, base64::URL_SAFE_NO_PAD)
}

/// `String::from_utf8`: the string that the bytes encode, where they are
/// valid UTF-8, and nothing where they are not.
#[verifier::external_body]
fn string_from_utf8(bytes: Vec<u8>) -> (r: Option<String>)
    ensures
        r is Some <==> valid_utf8(bytes@),
        r is Some ==> r->Some_0@ == decode_utf8(bytes@),
{
    String::from_utf8(bytes).ok()
}

/// `Sha256::digest` of the `sha2` crate, as a vector of its 32 bytes.
#[verifier::external_body]
fn digest_with_sha2(bytes: &[u8]) -> (r: Vec<u8>)
    ensures
        r@ == sha256_digest(bytes@),
        r@.len() == 32,
{
    <sha2::Sha256 as sha2::Digest>::digest(bytes).to_vec()
}

/// `bs58::decode(..).into_vec()`: the decoded bytes, or the printed form
/// of the decode error. The result depends on the text alone.
#[verifier::external_body]
fn decode_with_bs58(text: &str) -> (r: core::result::Result<Vec<u8>, String>)
    ensures
        match r {
            Ok(b) => base58_decoded(text@) == Ok::<Seq<u8>, Seq<char>>(b@),
            Err(e) => base58_decoded(text@) == Err::<Seq<u8>, Seq<char>>(e@),
        },
{
    match bs58::decode(text).into_vec() {
        Ok(bytes) => Ok(bytes),
        Err(e) => Err(e.to_string()),
    }
}

/// The byte of the padding sign `=`.
pub const PADDING: u8 = 61;

/// What went wrong where a text holds a padding sign.
pub open spec fn padding_complaint() -> Seq<char> {
    "Padding is not allowed"@
}

/// Strict base64url decoding: a text with a padding sign is refused, any
/// other text decodes as the `base64` crate decodes it.
pub open spec fn base64url_strict(text: Seq<char>) -> core::result::Result<Seq<u8>, Seq<char>> {
    if encode_utf8(text).contains(PADDING) {
        Err(padding_complaint())
    } else {
        base64url_decoded(text)
    }
}

/// The text that bytes encode, if they are valid UTF-8.
pub open spec fn utf8_text(bytes: Seq<u8>) -> Option<Seq<char>> {
    if valid_utf8(bytes) {
        Some(decode_utf8(bytes))
    } else {
        None
    }
}

/// Whether `bytes` holds `wanted`.
pub fn contains_byte(bytes: &[u8], wanted: u8) -> (r: bool)
    ensures
        r == bytes@.contains(wanted),
{
    let mut i: usize = 0;
    while i < bytes.len()
        invariant
            i <= bytes.len(),
            forall|k: int| 0 <= k < i ==> bytes@[k] != wanted,
        decreases bytes.len() - i,
    {
        if bytes[i] == wanted {
            return true;
        }
        i += 1;
    }
    false
}

/// Decodes base64url text, strictly: no padding.
pub fn decode(text: &str) -> (r: core::result::Result<Vec<u8>, String>)
    ensures
        match r {
            Ok(b) => base64url_strict(text@) == Ok::<Seq<u8>, Seq<char>>(b@),
            Err(e) => base64url_strict(text@) == Err::<Seq<u8>, Seq<char>>(e@),
        },
{
    if contains_byte(text.as_bytes(), PADDING) {
        Err("Padding is not allowed".to_owned())
    } else {
        decode_with_base64(text)
    }
}

/// Decodes a base64url field of an envelope; a failure is a `Malformed`
/// error whose message starts with `context`.
pub fn decode_field(text: &str, context: &str) -> (r: core::result::Result<Vec<u8>, Error>)
    ensures
        match r {
            Ok(b) => base64url_strict(text@) == Ok::<Seq<u8>, Seq<char>>(b@),
            Err(e) => base64url_strict(text@) is Err && e@ == crate::error::error_caused(
                ErrorKind::Malformed,
                context@,
                base64url_strict(text@)->Err_0,
            ),
        },
{
    match decode(text) {
        Ok(bytes) => Ok(bytes),
        Err(cause) => Err(err_caused(ErrorKind::Malformed, context, cause.as_str())),
    }
}

/// Decodes base58 text.
pub fn decode_base58(text: &str) -> (r: core::result::Result<Vec<u8>, String>)
    ensures
        match r {
            Ok(b) => base58_decoded(text@) == Ok::<Seq<u8>, Seq<char>>(b@),
            Err(e) => base58_decoded(text@) == Err::<Seq<u8>, Seq<char>>(e@),
        },
{
    decode_with_bs58(text)
}

/// Encodes bytes as base64url text without padding.
pub fn encode(bytes: &[u8]) -> (r: String)
    ensures
        r@ == base64url_encoded(bytes@),
{
    encode_with_base64(bytes)
}

/// Encodes the UTF-8 bytes of a text as base64url.
pub fn encode_text(text: &str) -> (r: String)
    ensures
        r@ == base64url_encoded(encode_utf8(text@)),
{
    encode_with_base64(text.as_bytes())
}

/// The text that the bytes encode in UTF-8.
pub fn text_from_utf8(bytes: Vec<u8>) -> (r: Option<String>)
    ensures
        match r {
            Some(s) => utf8_text(bytes@) == Some(s@),
            None => utf8_text(bytes@) is None,
        },
{
    string_from_utf8(bytes)
}

/// The UTF-8 bytes of a text.
pub fn utf8_bytes(text: &str) -> (r: Vec<u8>)
    ensures
        r@ == encode_utf8(text@),
{
    text.as_bytes_vec()
}

/// The SHA-256 digest of bytes.
pub fn sha256(bytes: &[u8]) -> (r: Vec<u8>)
    ensures
        r@ == sha256_digest(bytes@),
        r@.len() == 32,
{
    digest_with_sha2(bytes)
}

} // verus!
