//! `from_prior`: the proof that a sender rotated its DID, a signed token in
//! compact form.

use crate::algorithms::SignAlg;
use crate::crypto::{make_signature, signature_made};
use crate::did::{documents, method_by_id, DIDDocView, DIDResolver};
use crate::encoding::{
    base64url_encoded, decode_field, encode, encode_text, text_from_utf8, utf8_text,
};
use crate::error::{
    err_caused, err_msg, error_caused, error_of, resolver_failed, Error, ErrorKind, ErrorView,
    Result,
};
use crate::json::{
    json_read, json_written, members_of, parse, parse_or_malformed, to_text, Json, JsonValue,
};
use crate::jwe::parse::decoded;
use crate::jwk::{key_of_method, sign_alg_of, KeyPairView};
use crate::jws::envelope::{sign_alg_name, sign_alg_named, Signature, SignatureView};
use crate::jws::parse::sign_alg_from_name;
use crate::jws::sign::alg_name;
use crate::jws::verify::{signature_verified, signing_input, signing_text, verify_signature};
use crate::message::codec::{
    json_of_number, json_of_text, number_json, object, optional_member, optional_number,
    optional_text, push_member, push_optional, read_optional_number, read_optional_text, text_json,
};
use crate::message::pack_signed::{find_signing_key, signing_key};
use crate::ordered::ordered;
use crate::secrets::{holdings, resolvers_failed, SecretView, SecretsResolver};
use crate::utils::{
    contains_text, did_or_url, did_part, find_char, has_fragment, is_did, is_did_text,
    lemma_first_is_position, position, same_text,
};
use vstd::prelude::*;
use vstd::string::{StrSliceExecFns, StringExecFns, StringSliceAdditionalSpecFns};
use vstd::utf8::encode_utf8;

verus! {

/// What a sender that rotated its DID asserts: the DID it had, the DID it
/// has, and when.
#[derive(Debug, Clone, PartialEq, Eq)]
pub struct FromPrior {
    /// The DID that the sender had before.
    pub iss: String,
    /// The DID that the sender has now.
    pub sub: String,
    /// Whom the token is meant for.
    pub aud: Option<String>,
    /// When the token stops to hold, in seconds since the epoch.
    pub exp: Option<u64>,
    /// When the token starts to hold, in seconds since the epoch.
    pub nbf: Option<u64>,
    /// When the token was made, in seconds since the epoch.
    pub iat: Option<u64>,
    /// The id of the token.
    pub jti: Option<String>,
}

/// The mathematical value of a [`FromPrior`].
pub ghost struct FromPriorView {
    pub iss: Seq<char>,
    pub sub: Seq<char>,
    pub aud: Option<Seq<char>>,
    pub exp: Option<u64>,
    pub nbf: Option<u64>,
    pub iat: Option<u64>,
    pub jti: Option<Seq<char>>,
}

impl View for FromPrior {
    type V = FromPriorView;

    open spec fn view(&self) -> FromPriorView {
        FromPriorView {
            iss: self.iss@,
            sub: self.sub@,
            aud: self.aud.deep_view(),
            exp: self.exp,
            nbf: self.nbf,
            iat: self.iat,
            jti: self.jti.deep_view(),
        }
    }
}

/// The three parts of a compact token: what stands before the first full
/// stop, between the first and the second, and behind the second. A text
/// with fewer or more full stops has no such parts.
pub open spec fn compact_parts(text: Seq<char>) -> Option<(Seq<char>, Seq<char>, Seq<char>)> {
    if !text.contains('.') {
        None
    } else {
        let i = position(text, '.');
        let rest = text.subrange(i + 1, text.len() as int);
        if !rest.contains('.') {
            None
        } else {
            let j = position(rest, '.');
            let last = rest.subrange(j + 1, rest.len() as int);
            if last.contains('.') {
                None
            } else {
                Some((text.subrange(0, i), rest.subrange(0, j), last))
            }
        }
    }
}

/// The header of a compact token, as far as it is read.
pub ghost struct TokenHeader {
    pub typ: Seq<char>,
    pub alg: Seq<char>,
    pub kid: Seq<char>,
}

/// The error for a token header that lacks a member.
pub open spec fn missing_in_header(name: Seq<char>) -> ErrorView {
    error_of(ErrorKind::Malformed, "Unable parse header: missing field '"@ + name + "'"@)
}

/// The header that a base64url text holds: a JSON object with the texts
/// `typ`, `alg` and `kid`.
pub open spec fn token_header(text: Seq<char>) -> core::result::Result<TokenHeader, ErrorView> {
    match decoded(text, "Unable decode header"@) {
        Err(e) => Err(e),
        Ok(bytes) => match utf8_text(bytes) {
            None => Err(error_caused(ErrorKind::Malformed, "Unable parse header"@, "invalid UTF-8"@)),
            Some(json) => match json_read(json) {
                Err(cause) => Err(error_caused(ErrorKind::Malformed, "Unable parse header"@, cause)),
                Ok(h) => match (h.text_field("typ"@), h.text_field("alg"@), h.text_field("kid"@)) {
                    (None, _, _) => Err(missing_in_header("typ"@)),
                    (Some(_), None, _) => Err(missing_in_header("alg"@)),
                    (Some(_), Some(_), None) => Err(missing_in_header("kid"@)),
                    (Some(typ), Some(alg), Some(kid)) => Ok(TokenHeader { typ, alg, kid }),
                },
            },
        },
    }
}

/// The assertion that a JSON value holds: the texts `iss` and `sub`, and
/// the other members with their types where they are there.
pub open spec fn from_prior_of(v: JsonValue) -> Option<FromPriorView> {
    match (
        v.text_field("iss"@),
        v.text_field("sub"@),
        optional_text(v, "aud"@),
        optional_number(v, "exp"@),
        optional_number(v, "nbf"@),
        optional_number(v, "iat"@),
        optional_text(v, "jti"@),
    ) {
        (Some(iss), Some(sub), Some(aud), Some(exp), Some(nbf), Some(iat), Some(jti)) => Some(
            FromPriorView { iss, sub, aud, exp, nbf, iat, jti },
        ),
        _ => None,
    }
}

/// The assertion as JSON: its members, in the order of their names.
pub open spec fn from_prior_json(fp: FromPriorView) -> JsonValue {
    ordered(
        seq![("iss"@, JsonValue::Str(fp.iss)), ("sub"@, JsonValue::Str(fp.sub))] + optional_member(
            "aud"@,
            text_json(fp.aud),
        ) + optional_member("exp"@, number_json(fp.exp)) + optional_member(
            "nbf"@,
            number_json(fp.nbf),
        ) + optional_member("iat"@, number_json(fp.iat)) + optional_member(
            "jti"@,
            text_json(fp.jti),
        ),
    )
}

/// The issuer's key: the key id is a DID URL, its DID resolves, the
/// document lists the key id for authentication, and has a verification
/// method of that id.
pub open spec fn issuer_key(
    kid: Seq<char>,
    known: spec_fn(Seq<char>) -> Option<DIDDocView>,
) -> core::result::Result<KeyPairView, ErrorView> {
    if !has_fragment(kid) {
        Err(error_of(ErrorKind::Malformed, "from_prior kid is not DID URL"@))
    } else {
        match known(did_part(kid)) {
            None => Err(
                error_of(ErrorKind::DIDNotResolved, "from_prior issuer DIDDoc not found"@),
            ),
            Some(doc) => if !doc.authentications.contains(kid) {
                Err(error_of(ErrorKind::DIDUrlNotFound, "from_prior issuer kid not found"@))
            } else {
                match method_by_id(doc.verification_methods, kid) {
                    None => Err(
                        error_of(
                            ErrorKind::DIDUrlNotFound,
                            "from_prior issuer verification method not found"@,
                        ),
                    ),
                    Some(method) => key_of_method(method),
                }
            },
        }
    }
}

/// The assertion that the payload of a token holds.
pub open spec fn token_payload(payload: Seq<char>) -> core::result::Result<FromPriorView, ErrorView> {
    match decoded(payload, "from_prior payload is not a valid base64"@) {
        Err(e) => Err(e),
        Ok(bytes) => match utf8_text(bytes) {
            None => Err(
                error_of(ErrorKind::Malformed, "Decoded from_prior payload is not a valid UTF-8"@),
            ),
            Some(json) => match json_read(json) {
                Err(_) => Err(error_of(ErrorKind::Malformed, "Unable to parse from_prior"@)),
                Ok(v) => match from_prior_of(v) {
                    None => Err(error_of(ErrorKind::Malformed, "Unable to parse from_prior"@)),
                    Some(fp) => Ok(fp),
                },
            },
        },
    }
}

/// Unpacking a `from_prior` token, as a function of the token and of what
/// the resolver knows: the token has three parts, its header names `JWT` as
/// its `typ`, the issuer's key is found, the signature holds under it, and
/// the payload is an assertion. The result is the assertion and the id of
/// the issuer's key.
pub open spec fn from_prior_unpacked(
    token: Seq<char>,
    known: spec_fn(Seq<char>) -> Option<DIDDocView>,
) -> core::result::Result<(FromPriorView, Seq<char>), ErrorView> {
    match compact_parts(token) {
        None => Err(error_of(ErrorKind::Malformed, "Unable to parse compactly serialized JWS"@)),
        Some((protected, payload, signature)) => match token_header(protected) {
            Err(e) => Err(e),
            Ok(header) => if header.typ != "JWT"@ {
                Err(error_of(ErrorKind::Malformed, "from_prior is malformed: typ is not JWT"@))
            } else {
                match issuer_key(header.kid, known) {
                    Err(e) => Err(e),
                    Ok(key) => match signature_verified(
                        payload,
                        SignatureView {
                            protected,
                            typ: header.typ,
                            alg: sign_alg_named(header.alg),
                            kid: header.kid,
                            signature,
                        },
                        key,
                    ) {
                        Err(e) => Err(e),
                        Ok(_) => match token_payload(payload) {
                            Err(e) => Err(e),
                            Ok(fp) => Ok((fp, header.kid)),
                        },
                    },
                }
            },
        },
    }
}

/// Whether unpacking a token asks the resolver: the token has three parts,
/// its header reads, has the `typ` of a token and names a key by a DID URL.
/// On every other text the resolver is left alone.
pub open spec fn token_asks(token: Seq<char>) -> bool {
    match compact_parts(token) {
        None => false,
        Some((protected, _, _)) => match token_header(protected) {
            Err(_) => false,
            Ok(header) => header.typ == "JWT"@ && has_fragment(header.kid),
        },
    }
}

/// The header of a token, as JSON: its members, in the order of their
/// names.
pub open spec fn token_header_json(alg: SignAlg, kid: Seq<char>) -> JsonValue {
    ordered(
        seq![
            ("typ"@, JsonValue::Str("JWT"@)),
            ("alg"@, JsonValue::Str(sign_alg_name(alg))),
            ("kid"@, JsonValue::Str(kid)),
        ],
    )
}

/// What is asked of an assertion and of the key id that is to sign it:
/// `iss` and `sub` are DIDs and differ, and the key id, where one is given,
/// is a DID URL of `iss`.
pub open spec fn assertion_checked(fp: FromPriorView, issuer_kid: Option<Seq<char>>) -> core::result::Result<
    (),
    ErrorView,
> {
    if !is_did_text(fp.iss) || has_fragment(fp.iss) {
        Err(error_of(ErrorKind::Malformed, "from_prior iss is not a valid DID"@))
    } else if !is_did_text(fp.sub) || has_fragment(fp.sub) {
        Err(error_of(ErrorKind::Malformed, "from_prior sub is not a valid DID"@))
    } else if fp.iss == fp.sub {
        Err(error_of(ErrorKind::Malformed, "from_prior iss and sub values must not be equal"@))
    } else {
        match issuer_kid {
            None => Ok(()),
            Some(kid) => if !has_fragment(kid) {
                Err(error_of(ErrorKind::IllegalArgument, "issuer_kid is not a valid DID URL"@))
            } else if did_part(kid) != fp.iss {
                Err(
                    error_of(
                        ErrorKind::IllegalArgument,
                        "from_prior issuer kid does not belong to from_prior iss"@,
                    ),
                )
            } else {
                Ok(())
            },
        }
    }
}

/// Packing an assertion into a `from_prior` token, as a function of the
/// assertion, of the key id that is to sign, and of what the resolvers know
/// and hold: the token, and the id of the key that signed.
pub open spec fn from_prior_packed(
    fp: FromPriorView,
    issuer_kid: Option<Seq<char>>,
    known: spec_fn(Seq<char>) -> Option<DIDDocView>,
    held: spec_fn(Seq<char>) -> Option<SecretView>,
) -> core::result::Result<(Seq<char>, Seq<char>), ErrorView> {
    match assertion_checked(fp, issuer_kid) {
        Err(e) => Err(e),
        Ok(_) => {
            let sign_by = match issuer_kid {
                Some(kid) => kid,
                None => fp.iss,
            };
            match signing_key(sign_by, known, held) {
                Err(e) => Err(e),
                Ok((kid, key)) => match sign_alg_of(key.curve) {
                    None => Err(error_of(ErrorKind::Unsupported, "Unsupported signature alg"@)),
                    Some(alg) => {
                        let header = base64url_encoded(
                            encode_utf8(json_written(token_header_json(alg, kid))),
                        );
                        let payload = base64url_encoded(
                            encode_utf8(json_written(from_prior_json(fp))),
                        );
                        match signature_made(key.jwk, alg, signing_input(header, payload)) {
                            Err(cause) => Err(
                                error_caused(
                                    ErrorKind::InvalidState,
                                    "Unable create signature"@,
                                    cause,
                                ),
                            ),
                            Ok(signature) => Ok(
                                (
                                    header + "."@ + payload + "."@ + base64url_encoded(signature),
                                    kid,
                                ),
                            ),
                        }
                    },
                },
            }
        },
    }
}

/// Parts a compact token at its two full stops.
pub fn split_compact(text: &str) -> (r: Option<(String, String, String)>)
    ensures
        match r {
            Some((a, b, c)) => compact_parts(text@) == Some((a@, b@, c@)),
            None => compact_parts(text@) is None,
        },
{
    let n = text.unicode_len();
    let i = match find_char(text, '.') {
        Some(i) => i,
        None => return None,
    };
    proof {
        lemma_first_is_position(text@, '.', i as int);
    }
    let rest = text.substring_char(i + 1, n);
    let m = rest.unicode_len();
    let j = match find_char(rest, '.') {
        Some(j) => j,
        None => return None,
    };
    proof {
        lemma_first_is_position(rest@, '.', j as int);
    }
    let last = rest.substring_char(j + 1, m);
    if find_char(last, '.').is_some() {
        return None;
    }
    Some(
        (text.substring_char(0, i).to_owned(), rest.substring_char(0, j).to_owned(), last.to_owned()),
    )
}

fn missing(name: &str) -> (r: Error)
    ensures
        r@ == missing_in_header(name@),
{
    let mut message = "Unable parse header: missing field '".to_owned();
    message.append(name);
    message.append("'");
    Error { kind: ErrorKind::Malformed, message }
}

fn read_header(text: &str) -> (r: Result<(String, String, String)>)
    ensures
        match r {
            Ok((typ, alg, kid)) => token_header(text@) == Ok::<TokenHeader, ErrorView>(
                TokenHeader { typ: typ@, alg: alg@, kid: kid@ },
            ),
            Err(e) => token_header(text@) == Err::<TokenHeader, ErrorView>(e@),
        },
{
    let bytes = decode_field(text, "Unable decode header")?;
    let json = match text_from_utf8(bytes) {
        Some(t) => t,
        None => {
            return Err(err_caused(ErrorKind::Malformed, "Unable parse header", "invalid UTF-8"));
        },
    };
    let h = parse_or_malformed(json.as_str(), "Unable parse header")?;
    let typ = match h.get_text("typ") {
        Some(t) => t,
        None => return Err(missing("typ")),
    };
    let alg = match h.get_text("alg") {
        Some(t) => t,
        None => return Err(missing("alg")),
    };
    let kid = match h.get_text("kid") {
        Some(t) => t,
        None => return Err(missing("kid")),
    };
    Ok((typ, alg, kid))
}

fn read_payload(payload: &str) -> (r: Result<FromPrior>)
    ensures
        match r {
            Ok(fp) => token_payload(payload@) == Ok::<FromPriorView, ErrorView>(fp@),
            Err(e) => token_payload(payload@) == Err::<FromPriorView, ErrorView>(e@),
        },
{
    let bytes = decode_field(payload, "from_prior payload is not a valid base64")?;
    let json = match text_from_utf8(bytes) {
        Some(t) => t,
        None => {
            return Err(
                err_msg(ErrorKind::Malformed, "Decoded from_prior payload is not a valid UTF-8"),
            );
        },
    };
    let v = match parse(json.as_str()) {
        Ok(v) => v,
        Err(_) => return Err(err_msg(ErrorKind::Malformed, "Unable to parse from_prior")),
    };
    match FromPrior::from_json(&v) {
        Some(fp) => Ok(fp),
        None => Err(err_msg(ErrorKind::Malformed, "Unable to parse from_prior")),
    }
}

fn find_issuer_key<D: DIDResolver>(kid: &str, did_resolver: &D) -> (r: Result<crate::jwk::KeyPair>)
    ensures
        match r {
            Ok(key) => issuer_key(kid@, documents(did_resolver)) == Ok::<KeyPairView, ErrorView>(
                key@,
            ),
            Err(e) => (resolver_failed(e@, did_resolver.reliable()) && has_fragment(
                kid@,
            )) || issuer_key(kid@, documents(did_resolver)) == Err::<KeyPairView, ErrorView>(e@),
        },
{
    let (did, is_url) = did_or_url(kid);
    if !is_url {
        return Err(err_msg(ErrorKind::Malformed, "from_prior kid is not DID URL"));
    }
    let doc = match did_resolver.resolve(did.as_str())? {
        Some(doc) => doc,
        None => {
            return Err(err_msg(ErrorKind::DIDNotResolved, "from_prior issuer DIDDoc not found"));
        },
    };
    if !contains_text(&doc.authentications, kid) {
        return Err(err_msg(ErrorKind::DIDUrlNotFound, "from_prior issuer kid not found"));
    }
    let method = match doc.find_method(kid) {
        Some(m) => m,
        None => {
            return Err(
                err_msg(
                    ErrorKind::DIDUrlNotFound,
                    "from_prior issuer verification method not found",
                ),
            );
        },
    };
    method.as_key_pair()
}

/// The key id that the header of a token names as the signer's.
pub open spec fn token_kid(token: Seq<char>) -> core::result::Result<Seq<char>, ErrorView> {
    match compact_parts(token) {
        None => Err(error_of(ErrorKind::Malformed, "Unable to parse compactly serialized JWS"@)),
        Some((protected, _, _)) => match token_header(protected) {
            Err(e) => Err(e),
            Ok(header) => Ok(header.kid),
        },
    }
}

/// The DIDs whose documents unpacking a token asks for: the DID of the key
/// that the header names, where unpacking gets as far as asking.
pub open spec fn token_documents(token: Seq<char>) -> Seq<Seq<char>> {
    if token_asks(token) {
        seq![did_part(token_kid(token)->Ok_0)]
    } else {
        Seq::empty()
    }
}

impl FromPrior {
    /// The DIDs whose documents unpacking a token asks the resolver for.
    pub fn unpack_documents(from_prior_jwt: &str) -> (r: Vec<String>)
        ensures
            r.deep_view() == token_documents(from_prior_jwt@),
    {
        let mut dids: Vec<String> = Vec::new();
        assert(dids.deep_view() =~= Seq::<Seq<char>>::empty());
        let (protected, _, _) = match split_compact(from_prior_jwt) {
            Some(parts) => parts,
            None => return dids,
        };
        let (typ, _, kid) = match read_header(protected.as_str()) {
            Ok(header) => header,
            Err(_) => return dids,
        };
        let (did, is_url) = did_or_url(kid.as_str());
        if same_text(typ.as_str(), "JWT") && is_url {
            dids.push(did);
            assert(dids.deep_view() =~= seq![did_part(kid@)]);
        }
        dids
    }

    /// Reads an assertion from a JSON value.
    pub fn from_json(v: &Json) -> (r: Option<FromPrior>)
        ensures
            match r {
                Some(fp) => from_prior_of(v@) == Some(fp@),
                None => from_prior_of(v@) is None,
            },
    {
        let iss = match v.get_text("iss") {
            Some(t) => t,
            None => return None,
        };
        let sub = match v.get_text("sub") {
            Some(t) => t,
            None => return None,
        };
        let aud = match read_optional_text(v, "aud") {
            Some(t) => t,
            None => return None,
        };
        let exp = match read_optional_number(v, "exp") {
            Some(t) => t,
            None => return None,
        };
        let nbf = match read_optional_number(v, "nbf") {
            Some(t) => t,
            None => return None,
        };
        let iat = match read_optional_number(v, "iat") {
            Some(t) => t,
            None => return None,
        };
        let jti = match read_optional_text(v, "jti") {
            Some(t) => t,
            None => return None,
        };
        Some(FromPrior { iss, sub, aud, exp, nbf, iat, jti })
    }

    /// This assertion as JSON.
    pub fn to_json(&self) -> (r: Json)
        ensures
            r@ == from_prior_json(self@),
    {
        let mut members: Vec<(String, Json)> = Vec::new();
        assert(members_of(members@) =~= Seq::empty());
        push_member(&mut members, "iss", Json::Str(self.iss.clone()));
        push_member(&mut members, "sub", Json::Str(self.sub.clone()));
        assert(members_of(members@) =~= seq![
            ("iss"@, JsonValue::Str(self@.iss)),
            ("sub"@, JsonValue::Str(self@.sub)),
        ]);
        push_optional(&mut members, "aud", json_of_text(&self.aud));
        push_optional(&mut members, "exp", json_of_number(self.exp));
        push_optional(&mut members, "nbf", json_of_number(self.nbf));
        push_optional(&mut members, "iat", json_of_number(self.iat));
        push_optional(&mut members, "jti", json_of_text(&self.jti));
        object(members)
    }

    /// Unpacks a plaintext value of the `from_prior` header: checks the
    /// signature of the token and reads the assertion.
    ///
    /// # Parameters
    /// - `from_prior_jwt` a signed token in compact form.
    /// - `did_resolver` instance of `DIDResolver` to resolve DIDs.
    ///
    /// # Returns
    /// Tuple (assertion, id of the key that signed the token).
    ///
    /// # Errors
    /// - `Malformed` The token is malformed or its signature does not hold.
    /// - `DIDNotResolved` Issuer DID not found.
    /// - `DIDUrlNotFound` Issuer key id not found in the DID document.
    /// - `Unsupported` Used crypto or method is unsupported.
    /// - `IOError` IO error during DID resolving.
    pub fn unpack<D: DIDResolver>(from_prior_jwt: &str, did_resolver: &D) -> (r: Result<
        (FromPrior, String),
    >)
        ensures
            match r {
                Ok((fp, kid)) => from_prior_unpacked(from_prior_jwt@, documents(did_resolver))
                    == Ok::<(FromPriorView, Seq<char>), ErrorView>((fp@, kid@)),
                Err(e) => (resolver_failed(e@, did_resolver.reliable()) && token_asks(
                    from_prior_jwt@,
                )) || from_prior_unpacked(
                    from_prior_jwt@,
                    documents(did_resolver),
                ) == Err::<(FromPriorView, Seq<char>), ErrorView>(e@),
            },
    {
        let (protected, payload, signature) = match split_compact(from_prior_jwt) {
            Some(parts) => parts,
            None => {
                return Err(
                    err_msg(ErrorKind::Malformed, "Unable to parse compactly serialized JWS"),
                );
            },
        };
        let (typ, alg, kid) = read_header(protected.as_str())?;
        if !same_text(typ.as_str(), "JWT") {
            return Err(err_msg(ErrorKind::Malformed, "from_prior is malformed: typ is not JWT"));
        }
        let key = find_issuer_key(kid.as_str(), did_resolver)?;
        let signature = Signature {
            protected,
            typ,
            alg: sign_alg_from_name(alg.as_str()),
            kid,
            signature,
        };
        verify_signature(payload.as_str(), &signature, &key)?;
        let fp = read_payload(payload.as_str())?;
        Ok((fp, signature.kid))
    }

    /// Holds the assertion, and the key id that is to sign it, to what is
    /// asked of them.
    pub fn validate_pack(&self, issuer_kid: Option<&str>) -> (r: Result<()>)
        ensures
            match r {
                Ok(()) => assertion_checked(self@, crate::message::pack_encrypted::argument_view(issuer_kid))
                    == Ok::<(), ErrorView>(()),
                Err(e) => assertion_checked(self@, crate::message::pack_encrypted::argument_view(issuer_kid))
                    == Err::<(), ErrorView>(e@),
            },
    {
        let (_, iss_is_url) = did_or_url(self.iss.as_str());
        if !is_did(self.iss.as_str()) || iss_is_url {
            return Err(err_msg(ErrorKind::Malformed, "from_prior iss is not a valid DID"));
        }
        let (_, sub_is_url) = did_or_url(self.sub.as_str());
        if !is_did(self.sub.as_str()) || sub_is_url {
            return Err(err_msg(ErrorKind::Malformed, "from_prior sub is not a valid DID"));
        }
        if self.iss == self.sub {
            return Err(
                err_msg(ErrorKind::Malformed, "from_prior iss and sub values must not be equal"),
            );
        }
        match issuer_kid {
            None => Ok(()),
            Some(kid) => {
                let (did, is_url) = did_or_url(kid);
                if !is_url {
                    return Err(
                        err_msg(ErrorKind::IllegalArgument, "issuer_kid is not a valid DID URL"),
                    );
                }
                if did != self.iss {
                    return Err(
                        err_msg(
                            ErrorKind::IllegalArgument,
                            "from_prior issuer kid does not belong to from_prior iss",
                        ),
                    );
                }
                Ok(())
            },
        }
    }

    /// Packs the assertion into a signed token in compact form.
    ///
    /// # Parameters
    /// - `issuer_kid` (optional) the key id to sign with; a key of `iss`
    ///   that a secret is held for is taken where none is given.
    /// - `did_resolver` instance of `DIDResolver` to resolve DIDs.
    /// - `secrets_resolver` instance of `SecretsResolver` to resolve the
    ///   issuer's secrets.
    ///
    /// # Returns
    /// Tuple (token, id of the key that signed it).
    ///
    /// # Errors
    /// - `Malformed` `iss` or `sub` is no DID, or they are equal.
    /// - `IllegalArgument` `issuer_kid` is no key id of `iss`.
    /// - `DIDNotResolved` Issuer DID not found.
    /// - `DIDUrlNotFound` Issuer key id not found in the DID document.
    /// - `SecretNotFound` No secret is held for the issuer.
    /// - `Unsupported` The key cannot sign.
    /// - `IOError` IO error during DID or secrets resolving.
    pub fn pack<D: DIDResolver, S: SecretsResolver>(
        &self,
        issuer_kid: Option<&str>,
        did_resolver: &D,
        secrets_resolver: &S,
    ) -> (r: Result<(String, String)>)
        ensures
            match r {
                Ok((token, kid)) => from_prior_packed(
                    self@,
                    crate::message::pack_encrypted::argument_view(issuer_kid),
                    documents(did_resolver),
                    holdings(secrets_resolver),
                ) == Ok::<(Seq<char>, Seq<char>), ErrorView>((token@, kid@)),
                Err(e) => (resolvers_failed(e@, did_resolver, secrets_resolver) && assertion_checked(
                    self@,
                    crate::message::pack_encrypted::argument_view(issuer_kid),
                ) is Ok) || from_prior_packed(
                    self@,
                    crate::message::pack_encrypted::argument_view(issuer_kid),
                    documents(did_resolver),
                    holdings(secrets_resolver),
                ) == Err::<(Seq<char>, Seq<char>), ErrorView>(e@),
            },
    {
        self.validate_pack(issuer_kid)?;
        let sign_by: &str = match issuer_kid {
            Some(kid) => kid,
            None => self.iss.as_str(),
        };
        let (kid, key) = find_signing_key(sign_by, did_resolver, secrets_resolver)?;
        let alg = match key.sign_alg() {
            Some(alg) => alg,
            None => return Err(err_msg(ErrorKind::Unsupported, "Unsupported signature alg")),
        };
        let mut members: Vec<(String, Json)> = Vec::new();
        assert(members_of(members@) =~= Seq::empty());
        push_member(&mut members, "typ", Json::text("JWT"));
        push_member(&mut members, "alg", Json::text(alg_name(alg)));
        push_member(&mut members, "kid", Json::Str(kid.clone()));
        assert(members_of(members@) =~= seq![
            ("typ"@, JsonValue::Str("JWT"@)),
            ("alg"@, JsonValue::Str(sign_alg_name(alg))),
            ("kid"@, JsonValue::Str(kid@)),
        ]);
        let header = encode_text(to_text(&object(members)).as_str());
        let payload = encode_text(to_text(&self.to_json()).as_str());
        let input = signing_text(header.as_str(), payload.as_str());
        let signature = match make_signature(key.jwk.as_str(), alg, input.as_str().as_bytes()) {
            Ok(s) => s,
            Err(cause) => {
                return Err(
                    err_caused(ErrorKind::InvalidState, "Unable create signature", cause.as_str()),
                );
            },
        };
        let mut token = input;
        token.append(".");
        token.append(encode(signature.as_slice()).as_str());
        Ok((token, kid))
    }
}

} // verus!
