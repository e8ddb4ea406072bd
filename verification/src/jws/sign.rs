//! Making a signed envelope.

use crate::algorithms::SignAlg;
use crate::crypto::{make_signature, signature_made};
use crate::encoding::{base64url_encoded, encode, encode_text};
use crate::error::{err_caused, error_caused, Error, ErrorKind, ErrorView};
use crate::json::{json_written, lemma_array_view, members_of, to_text, values_of, Json, JsonValue};
use crate::jwk::{KeyPair, KeyPairView};
use crate::jws::envelope::sign_alg_name;
use crate::jws::verify::{signing_input, signing_text};
use crate::message::codec::{object, push_member};
use crate::ordered::ordered;
use vstd::prelude::*;
use vstd::string::StringSliceAdditionalSpecFns;
use vstd::utf8::encode_utf8;

verus! {

/// The `typ` of a signed envelope.
pub open spec fn signed_typ() -> Seq<char> {
    "application/didcomm-signed+json"@
}

/// The members of the protected header of a signature.
pub open spec fn sign_header_members(alg: SignAlg) -> Seq<(Seq<char>, JsonValue)> {
    seq![("typ"@, JsonValue::Str(signed_typ())), ("alg"@, JsonValue::Str(sign_alg_name(alg)))]
}

/// The protected header of a signature, as JSON: its members, in the order
/// of their names.
pub open spec fn sign_header(alg: SignAlg) -> JsonValue {
    ordered(sign_header_members(alg))
}

/// The protected header of a signature, as it stands in the envelope.
pub open spec fn sign_protected(alg: SignAlg) -> Seq<char> {
    base64url_encoded(encode_utf8(json_written(sign_header(alg))))
}

/// The members of one signature of a signed envelope.
pub open spec fn signature_members(protected: Seq<char>, signature: Seq<char>, kid: Seq<char>) -> Seq<
    (Seq<char>, JsonValue),
> {
    seq![
        ("protected"@, JsonValue::Str(protected)),
        ("signature"@, JsonValue::Str(signature)),
        ("header"@, ordered(seq![("kid"@, JsonValue::Str(kid))])),
    ]
}

/// The members of a signed envelope with one signature.
pub open spec fn jws_members(
    payload: Seq<char>,
    protected: Seq<char>,
    signature: Seq<char>,
    kid: Seq<char>,
) -> Seq<(Seq<char>, JsonValue)> {
    seq![
        ("payload"@, JsonValue::Str(payload)),
        (
            "signatures"@,
            JsonValue::Array(seq![ordered(signature_members(protected, signature, kid))]),
        ),
    ]
}

/// A signed envelope with one signature, as JSON: the members of each
/// object in the order of their names.
pub open spec fn jws_json(
    payload: Seq<char>,
    protected: Seq<char>,
    signature: Seq<char>,
    kid: Seq<char>,
) -> JsonValue {
    ordered(jws_members(payload, protected, signature, kid))
}

/// The signed envelope of a payload: one signature by the key `kid`, over
/// the protected header and the payload as they stand in the envelope.
pub open spec fn signed_envelope(
    payload: Seq<u8>,
    kid: Seq<char>,
    key: KeyPairView,
    alg: SignAlg,
) -> Result<Seq<char>, ErrorView> {
    let protected = sign_protected(alg);
    let encoded = base64url_encoded(payload);
    match signature_made(key.jwk, alg, signing_input(protected, encoded)) {
        Err(cause) => Err(error_caused(ErrorKind::InvalidState, "Unable create signature"@, cause)),
        Ok(signature) => Ok(
            json_written(jws_json(encoded, protected, base64url_encoded(signature), kid)),
        ),
    }
}

/// The name of a signing algorithm in a protected header.
pub fn alg_name(alg: SignAlg) -> (r: &'static str)
    ensures
        r@ == sign_alg_name(alg),
{
    match alg {
        SignAlg::EdDSA => "EdDSA",
        SignAlg::ES256 => "ES256",
        SignAlg::ES256K => "ES256K",
    }
}

fn protected_header(alg: SignAlg) -> (r: String)
    ensures
        r@ == sign_protected(alg),
{
    let mut members: Vec<(String, Json)> = Vec::new();
    assert(members_of(members@) =~= Seq::empty());
    push_member(&mut members, "typ", Json::text("application/didcomm-signed+json"));
    push_member(&mut members, "alg", Json::text(alg_name(alg)));
    assert(members_of(members@) =~= sign_header_members(alg));
    let header = to_text(&object(members));
    encode_text(header.as_str())
}

fn envelope_json(payload: String, protected: String, signature: String, kid: &str) -> (r: Json)
    ensures
        r@ == jws_json(payload@, protected@, signature@, kid@),
{
    let mut header: Vec<(String, Json)> = Vec::new();
    assert(members_of(header@) =~= Seq::empty());
    push_member(&mut header, "kid", Json::text(kid));
    assert(members_of(header@) =~= seq![("kid"@, JsonValue::Str(kid@))]);
    let mut one: Vec<(String, Json)> = Vec::new();
    assert(members_of(one@) =~= Seq::empty());
    push_member(&mut one, "protected", Json::Str(protected));
    push_member(&mut one, "signature", Json::Str(signature));
    push_member(&mut one, "header", object(header));
    assert(members_of(one@) =~= signature_members(protected@, signature@, kid@));
    let mut signatures: Vec<Json> = Vec::new();
    signatures.push(object(one));
    proof {
        lemma_array_view(signatures);
        assert(values_of(signatures@) =~= seq![signatures[0]@]);
    }
    let mut members: Vec<(String, Json)> = Vec::new();
    assert(members_of(members@) =~= Seq::empty());
    push_member(&mut members, "payload", Json::Str(payload));
    push_member(&mut members, "signatures", Json::Array(signatures));
    assert(members_of(members@) =~= jws_members(payload@, protected@, signature@, kid@));
    object(members)
}

/// Makes the signed envelope of a payload, with one signature by the key
/// `kid`.
pub fn sign(payload: &[u8], kid: &str, key: &KeyPair, alg: SignAlg) -> (r: Result<String, Error>)
    ensures
        match r {
            Ok(text) => signed_envelope(payload@, kid@, key@, alg) == Ok::<Seq<char>, ErrorView>(
                text@,
            ),
            Err(e) => signed_envelope(payload@, kid@, key@, alg) == Err::<Seq<char>, ErrorView>(
                e@,
            ),
        },
{
    let protected = protected_header(alg);
    let encoded = encode(payload);
    let input = signing_text(protected.as_str(), encoded.as_str());
    let signature = match make_signature(key.jwk.as_str(), alg, input.as_str().as_bytes()) {
        Ok(s) => s,
        Err(cause) => {
            return Err(
                err_caused(ErrorKind::InvalidState, "Unable create signature", cause.as_str()),
            );
        },
    };
    let signature = encode(signature.as_slice());
    Ok(to_text(&envelope_json(encoded, protected, signature, kid)))
}

} // verus!
