//! Making an encrypted envelope.

use crate::crypto::{
    a256kw_wrapped, content_sealed, derive_ecdh_1pu, derive_ecdh_es, ecdh_1pu_key, ecdh_es_key,
    jwk_public, public_jwk, random_bytes, seal_content, wrap_a256kw,
    ContentEncryption, Curve,
};
use crate::encoding::{base64url_encoded, encode, encode_text};
use crate::error::{err_caused, err_msg, error_caused, error_of, Error, ErrorKind, ErrorView};
use crate::json::{
    json_read, json_written, lemma_array_view, members_of, parse, to_text, values_of, Json,
    JsonValue,
};
use crate::jwe::envelope::{
    content_encryption_name, ecdh_1pu_name, ecdh_es_name, KeyManagement,
};
use crate::jwe::parse::{apv_of, compute_apv};
use crate::jwk::{key_of_jwk, KeyPair, KeyPairView};
use crate::message::codec::{
    json_of_text, object, optional_member, push_member, push_optional, text_json,
};
use crate::ordered::ordered;
use vstd::prelude::*;
use vstd::string::StringSliceAdditionalSpecFns;
use vstd::utf8::encode_utf8;

verus! {

/// A key with its id: a sender or a recipient of an envelope.
#[derive(Debug, Clone, PartialEq, Eq)]
pub struct Party {
    pub kid: String,
    pub key: KeyPair,
}

/// The mathematical value of a [`Party`].
pub ghost struct PartyView {
    pub kid: Seq<char>,
    pub key: KeyPairView,
}

impl View for Party {
    type V = PartyView;

    open spec fn view(&self) -> PartyView {
        PartyView { kid: self.kid@, key: self.key@ }
    }
}

/// The views of a list of parties, one for one.
pub open spec fn parties_view(list: Seq<Party>) -> Seq<PartyView> {
    Seq::new(list.len(), |i: int| list[i]@)
}

/// The key ids of a list of parties, one for one.
pub open spec fn party_kids(list: Seq<PartyView>) -> Seq<Seq<char>> {
    Seq::new(list.len(), |i: int| list[i].kid)
}

/// The view of an optional party.
pub open spec fn party_view(party: Option<&Party>) -> Option<PartyView> {
    match party {
        Some(p) => Some(p@),
        None => None,
    }
}

/// What chance gives to an envelope: the content key, the ephemeral key
/// pair as a JSON Web Key (or why none could be made), and the nonce.
pub ghost struct Drawn {
    pub cek: Seq<u8>,
    pub epk: Result<Seq<char>, Seq<char>>,
    pub iv: Seq<u8>,
}

/// Whether the ephemeral key of a draw is on a curve: the key that was
/// drawn, where one was, reads as a key on that curve.
pub open spec fn drawn_on(drawn: Drawn, curve: Curve) -> bool {
    match drawn.epk {
        Ok(jwk) => key_of_jwk(jwk) is Ok && key_of_jwk(jwk)->Ok_0.curve == curve,
        Err(_) => true,
    }
}

/// Whether the ephemeral key of a draw is on the curve of the recipients,
/// which is the curve of the first of them.
pub open spec fn drawn_for_recipients(drawn: Drawn, recipients: Seq<PartyView>) -> bool {
    recipients.len() > 0 ==> drawn_on(drawn, recipients[0].key.curve)
}

/// The `typ` of an encrypted envelope.
pub open spec fn encrypted_typ() -> Seq<char> {
    "application/didcomm-encrypted+json"@
}

/// The name of a key management in a protected header.
pub open spec fn key_management_name(alg: KeyManagement) -> Seq<char> {
    match alg {
        KeyManagement::Ecdh1puA256kw => ecdh_1pu_name(),
        KeyManagement::EcdhEsA256kw => ecdh_es_name(),
        KeyManagement::Other => "unknown"@,
    }
}

/// The length of the content key of a content encryption, in bytes.
pub open spec fn key_length(enc: ContentEncryption) -> nat {
    match enc {
        ContentEncryption::A256cbcHs512 => 64,
        ContentEncryption::Xc20P => 32,
        ContentEncryption::A256Gcm => 32,
    }
}

/// The length of the nonce of a content encryption, in bytes.
pub open spec fn nonce_length(enc: ContentEncryption) -> nat {
    match enc {
        ContentEncryption::A256cbcHs512 => 16,
        ContentEncryption::Xc20P => 24,
        ContentEncryption::A256Gcm => 12,
    }
}

/// The id of an optional party.
pub open spec fn kid_of(party: Option<PartyView>) -> Option<Seq<char>> {
    match party {
        Some(p) => Some(p.kid),
        None => None,
    }
}

/// `apu` as it stands in a protected header: base64url of the sender's key
/// id.
pub open spec fn apu_text(sender: Option<PartyView>) -> Option<Seq<char>> {
    match sender {
        Some(p) => Some(base64url_encoded(encode_utf8(p.kid))),
        None => None,
    }
}

/// `apu` as the key derivation takes it: the bytes of the sender's key id,
/// or nothing.
pub open spec fn apu_bytes(sender: Option<PartyView>) -> Seq<u8> {
    match sender {
        Some(p) => encode_utf8(p.kid),
        None => Seq::empty(),
    }
}

/// The members of the protected header of an encrypted envelope.
pub open spec fn jwe_header_members(
    alg: KeyManagement,
    enc: ContentEncryption,
    sender: Option<PartyView>,
    apv: Seq<u8>,
    epk: JsonValue,
) -> Seq<(Seq<char>, JsonValue)> {
    seq![
        ("typ"@, JsonValue::Str(encrypted_typ())),
        ("alg"@, JsonValue::Str(key_management_name(alg))),
        ("enc"@, JsonValue::Str(content_encryption_name(enc))),
    ] + optional_member("skid"@, text_json(kid_of(sender))) + optional_member(
        "apu"@,
        text_json(apu_text(sender)),
    ) + seq![("apv"@, JsonValue::Str(base64url_encoded(apv))), ("epk"@, epk)]
}

/// The protected header of an encrypted envelope, as JSON: its members, in
/// the order of their names.
pub open spec fn jwe_header(
    alg: KeyManagement,
    enc: ContentEncryption,
    sender: Option<PartyView>,
    apv: Seq<u8>,
    epk: JsonValue,
) -> JsonValue {
    ordered(jwe_header_members(alg, enc, sender, apv, epk))
}

/// The key that wraps the content key for one recipient, on the sending
/// side.
pub open spec fn sending_key(
    alg: KeyManagement,
    epk: Seq<char>,
    sender: Option<PartyView>,
    recipient: PartyView,
    apv: Seq<u8>,
    tag: Seq<u8>,
) -> Result<Seq<u8>, ErrorView> {
    let derived = match (alg, sender) {
        (KeyManagement::EcdhEsA256kw, _) => Ok(
            ecdh_es_key(
                epk,
                recipient.key.jwk,
                encode_utf8(ecdh_es_name()),
                apu_bytes(sender),
                apv,
                false,
            ),
        ),
        (KeyManagement::Ecdh1puA256kw, Some(s)) => Ok(
            ecdh_1pu_key(
                epk,
                s.key.jwk,
                recipient.key.jwk,
                encode_utf8(ecdh_1pu_name()),
                apu_bytes(sender),
                apv,
                tag,
                false,
            ),
        ),
        (KeyManagement::Ecdh1puA256kw, None) => Err(
            error_of(ErrorKind::InvalidState, "Sender key is missing"@),
        ),
        (KeyManagement::Other, _) => Err(
            error_of(ErrorKind::Unsupported, "Unsupported key management algorithm"@),
        ),
    };
    match derived {
        Err(e) => Err(e),
        Ok(Ok(key)) => Ok(key),
        Ok(Err(cause)) => Err(error_caused(ErrorKind::InvalidState, "Unable derive kw"@, cause)),
    }
}

/// One recipient of an envelope, as JSON: its key id and the content key
/// wrapped for it.
pub open spec fn recipient_json(kid: Seq<char>, encrypted_key: Seq<char>) -> JsonValue {
    ordered(recipient_members(kid, encrypted_key))
}

/// The members of one recipient of an envelope.
pub open spec fn recipient_members(kid: Seq<char>, encrypted_key: Seq<char>) -> Seq<
    (Seq<char>, JsonValue),
> {
    seq![
        ("header"@, ordered(seq![("kid"@, JsonValue::Str(kid))])),
        ("encrypted_key"@, JsonValue::Str(encrypted_key)),
    ]
}

/// The content key wrapped for one recipient, as JSON.
pub open spec fn wrapped_for(
    alg: KeyManagement,
    epk: Seq<char>,
    sender: Option<PartyView>,
    recipient: PartyView,
    apv: Seq<u8>,
    tag: Seq<u8>,
    cek: Seq<u8>,
) -> Result<JsonValue, ErrorView> {
    match sending_key(alg, epk, sender, recipient, apv, tag) {
        Err(e) => Err(e),
        Ok(kek) => match a256kw_wrapped(kek, cek) {
            Err(cause) => Err(error_caused(ErrorKind::InvalidState, "Unable wrap key"@, cause)),
            Ok(wrapped) => Ok(recipient_json(recipient.kid, base64url_encoded(wrapped))),
        },
    }
}

/// The content key wrapped for each recipient, in their order; the first
/// failure gives the error.
pub open spec fn wrapped_for_all(
    alg: KeyManagement,
    epk: Seq<char>,
    sender: Option<PartyView>,
    recipients: Seq<PartyView>,
    apv: Seq<u8>,
    tag: Seq<u8>,
    cek: Seq<u8>,
) -> Result<Seq<JsonValue>, ErrorView>
    decreases recipients.len(),
{
    if recipients.len() == 0 {
        Ok(Seq::empty())
    } else {
        match wrapped_for_all(alg, epk, sender, recipients.drop_last(), apv, tag, cek) {
            Err(e) => Err(e),
            Ok(before) => match wrapped_for(alg, epk, sender, recipients.last(), apv, tag, cek) {
                Err(e) => Err(e),
                Ok(last) => Ok(before.push(last)),
            },
        }
    }
}

/// The members of an encrypted envelope.
pub open spec fn jwe_members(
    protected: Seq<char>,
    recipients: Seq<JsonValue>,
    iv: Seq<u8>,
    ciphertext: Seq<u8>,
    tag: Seq<u8>,
) -> Seq<(Seq<char>, JsonValue)> {
    seq![
        ("protected"@, JsonValue::Str(protected)),
        ("recipients"@, JsonValue::Array(recipients)),
        ("iv"@, JsonValue::Str(base64url_encoded(iv))),
        ("ciphertext"@, JsonValue::Str(base64url_encoded(ciphertext))),
        ("tag"@, JsonValue::Str(base64url_encoded(tag))),
    ]
}

/// An encrypted envelope, as JSON: its members, in the order of their
/// names.
pub open spec fn jwe_json(
    protected: Seq<char>,
    recipients: Seq<JsonValue>,
    iv: Seq<u8>,
    ciphertext: Seq<u8>,
    tag: Seq<u8>,
) -> JsonValue {
    ordered(jwe_members(protected, recipients, iv, ciphertext, tag))
}

/// The ephemeral public key of an envelope, as JSON.
pub open spec fn ephemeral_public(epk: Result<Seq<char>, Seq<char>>) -> Result<
    (Seq<char>, JsonValue),
    ErrorView,
> {
    match epk {
        Err(cause) => Err(error_caused(ErrorKind::InvalidState, "Unable generate epk"@, cause)),
        Ok(secret) => match jwk_public(secret) {
            Err(cause) => Err(error_caused(ErrorKind::InvalidState, "Unable produce epk"@, cause)),
            Ok(public) => match json_read(public) {
                Err(cause) => Err(
                    error_caused(ErrorKind::InvalidState, "Unable parse epk"@, cause),
                ),
                Ok(value) => Ok((secret, value)),
            },
        },
    }
}

/// The encrypted envelope of a plaintext for the recipients, with what
/// chance gave: the content is encrypted under the content key, with the
/// protected header as additional data; the content key is wrapped for each
/// recipient under a key agreed between the ephemeral key, the recipient's
/// key and, for authenticated encryption, the sender's key.
pub open spec fn encrypted_envelope(
    plaintext: Seq<u8>,
    alg: KeyManagement,
    enc: ContentEncryption,
    sender: Option<PartyView>,
    recipients: Seq<PartyView>,
    drawn: Drawn,
) -> Result<Seq<char>, ErrorView> {
    match ephemeral_public(drawn.epk) {
        Err(e) => Err(e),
        Ok((epk, epk_json)) => {
            let apv = apv_of(party_kids(recipients));
            let protected = base64url_encoded(
                encode_utf8(json_written(jwe_header(alg, enc, sender, apv, epk_json))),
            );
            match content_sealed(enc, drawn.cek, plaintext, drawn.iv, encode_utf8(protected)) {
                Err(cause) => Err(
                    error_caused(ErrorKind::InvalidState, "Unable encrypt content"@, cause),
                ),
                Ok((sealed, len)) => if len > sealed.len() {
                    Err(error_of(ErrorKind::InvalidState, "Unable encrypt content"@))
                } else {
                    let ciphertext = sealed.subrange(0, len as int);
                    let tag = sealed.subrange(len as int, sealed.len() as int);
                    match wrapped_for_all(alg, epk, sender, recipients, apv, tag, drawn.cek) {
                        Err(e) => Err(e),
                        Ok(wrapped) => Ok(
                            json_written(jwe_json(protected, wrapped, drawn.iv, ciphertext, tag)),
                        ),
                    }
                },
            }
        },
    }
}

/// The name of a content encryption in a protected header.
pub fn enc_name(enc: ContentEncryption) -> (r: &'static str)
    ensures
        r@ == content_encryption_name(enc),
{
    match enc {
        ContentEncryption::A256cbcHs512 => "A256CBC-HS512",
        ContentEncryption::Xc20P => "XC20P",
        ContentEncryption::A256Gcm => "A256GCM",
    }
}

/// The name of a key management in a protected header.
pub fn alg_name(alg: KeyManagement) -> (r: &'static str)
    ensures
        r@ == key_management_name(alg),
{
    match alg {
        KeyManagement::Ecdh1puA256kw => "ECDH-1PU+A256KW",
        KeyManagement::EcdhEsA256kw => "ECDH-ES+A256KW",
        KeyManagement::Other => "unknown",
    }
}

/// The key ids of a list of parties.
pub fn kids_of_parties(list: &Vec<Party>) -> (r: Vec<String>)
    ensures
        r.deep_view() == party_kids(parties_view(list@)),
{
    let mut out: Vec<String> = Vec::new();
    let mut i: usize = 0;
    while i < list.len()
        invariant
            i <= list.len(),
            out.len() == i,
            forall|k: int| 0 <= k < i ==> out[k]@ == list[k].kid@,
        decreases list.len() - i,
    {
        out.push(list[i].kid.clone());
        i += 1;
    }
    assert(out.deep_view() =~= party_kids(parties_view(list@)));
    out
}

fn header_json(
    alg: KeyManagement,
    enc: ContentEncryption,
    sender: Option<&Party>,
    apv: &Vec<u8>,
    epk: Json,
) -> (r: Json)
    ensures
        r@ == jwe_header(alg, enc, party_view(sender), apv@, epk@),
{
    let mut members: Vec<(String, Json)> = Vec::new();
    assert(members_of(members@) =~= Seq::empty());
    push_member(&mut members, "typ", Json::text("application/didcomm-encrypted+json"));
    push_member(&mut members, "alg", Json::text(alg_name(alg)));
    push_member(&mut members, "enc", Json::text(enc_name(enc)));
    assert(members_of(members@) =~= seq![
        ("typ"@, JsonValue::Str(encrypted_typ())),
        ("alg"@, JsonValue::Str(key_management_name(alg))),
        ("enc"@, JsonValue::Str(content_encryption_name(enc))),
    ]);
    let (skid, apu) = match sender {
        Some(p) => (Some(p.kid.clone()), Some(encode_text(p.kid.as_str()))),
        None => (None, None),
    };
    push_optional(&mut members, "skid", json_of_text(&skid));
    push_optional(&mut members, "apu", json_of_text(&apu));
    let ghost before = members_of(members@);
    push_member(&mut members, "apv", Json::Str(encode(apv.as_slice())));
    push_member(&mut members, "epk", epk);
    assert(members_of(members@) =~= before + seq![
        ("apv"@, JsonValue::Str(base64url_encoded(apv@))),
        ("epk"@, epk@),
    ]);
    assert(members_of(members@) =~= jwe_header_members(alg, enc, party_view(sender), apv@, epk@));
    object(members)
}

fn derive_sending_key(
    alg: KeyManagement,
    epk: &str,
    sender: Option<&Party>,
    recipient: &Party,
    apv: &Vec<u8>,
    tag: &Vec<u8>,
) -> (r: Result<Vec<u8>, Error>)
    ensures
        match r {
            Ok(k) => sending_key(alg, epk@, party_view(sender), recipient@, apv@, tag@) == Ok::<
                Seq<u8>,
                ErrorView,
            >(k@),
            Err(e) => sending_key(alg, epk@, party_view(sender), recipient@, apv@, tag@) == Err::<
                Seq<u8>,
                ErrorView,
            >(e@),
        },
{
    let apu: Vec<u8> = match sender {
        Some(p) => crate::encoding::utf8_bytes(p.kid.as_str()),
        None => Vec::new(),
    };
    assert(apu@ =~= apu_bytes(party_view(sender)));
    let derived = match alg {
        KeyManagement::EcdhEsA256kw => derive_ecdh_es(
            epk,
            recipient.key.jwk.as_str(),
            "ECDH-ES+A256KW".as_bytes(),
            apu.as_slice(),
            apv.as_slice(),
            false,
        ),
        KeyManagement::Ecdh1puA256kw => match sender {
            Some(s) => derive_ecdh_1pu(
                epk,
                s.key.jwk.as_str(),
                recipient.key.jwk.as_str(),
                "ECDH-1PU+A256KW".as_bytes(),
                apu.as_slice(),
                apv.as_slice(),
                tag.as_slice(),
                false,
            ),
            None => return Err(err_msg(ErrorKind::InvalidState, "Sender key is missing")),
        },
        KeyManagement::Other => {
            return Err(err_msg(ErrorKind::Unsupported, "Unsupported key management algorithm"));
        },
    };
    match derived {
        Ok(key) => Ok(key),
        Err(cause) => Err(err_caused(ErrorKind::InvalidState, "Unable derive kw", cause.as_str())),
    }
}

fn wrap_for(
    alg: KeyManagement,
    epk: &str,
    sender: Option<&Party>,
    recipient: &Party,
    apv: &Vec<u8>,
    tag: &Vec<u8>,
    cek: &[u8],
) -> (r: Result<Json, Error>)
    ensures
        match r {
            Ok(j) => wrapped_for(alg, epk@, party_view(sender), recipient@, apv@, tag@, cek@)
                == Ok::<JsonValue, ErrorView>(j@),
            Err(e) => wrapped_for(alg, epk@, party_view(sender), recipient@, apv@, tag@, cek@)
                == Err::<JsonValue, ErrorView>(e@),
        },
{
    let kek = derive_sending_key(alg, epk, sender, recipient, apv, tag)?;
    let wrapped = match wrap_a256kw(kek.as_slice(), cek) {
        Ok(w) => w,
        Err(cause) => {
            return Err(err_caused(ErrorKind::InvalidState, "Unable wrap key", cause.as_str()));
        },
    };
    let mut header: Vec<(String, Json)> = Vec::new();
    assert(members_of(header@) =~= Seq::empty());
    push_member(&mut header, "kid", Json::Str(recipient.kid.clone()));
    assert(members_of(header@) =~= seq![("kid"@, JsonValue::Str(recipient.kid@))]);
    let mut members: Vec<(String, Json)> = Vec::new();
    assert(members_of(members@) =~= Seq::empty());
    push_member(&mut members, "header", object(header));
    push_member(&mut members, "encrypted_key", Json::Str(encode(wrapped.as_slice())));
    assert(members_of(members@) =~= recipient_members(
        recipient.kid@,
        base64url_encoded(wrapped@),
    ));
    Ok(object(members))
}

/// Where wrapping fails for the recipients up to some place, it fails the
/// same for all of them.
proof fn lemma_wrapping_fails(
    alg: KeyManagement,
    epk: Seq<char>,
    sender: Option<PartyView>,
    recipients: Seq<PartyView>,
    apv: Seq<u8>,
    tag: Seq<u8>,
    cek: Seq<u8>,
    n: int,
)
    requires
        0 <= n <= recipients.len(),
        wrapped_for_all(alg, epk, sender, recipients.take(n), apv, tag, cek) is Err,
    ensures
        wrapped_for_all(alg, epk, sender, recipients, apv, tag, cek) == wrapped_for_all(
            alg,
            epk,
            sender,
            recipients.take(n),
            apv,
            tag,
            cek,
        ),
    decreases recipients.len() - n,
{
    if n < recipients.len() {
        assert(recipients.take(n + 1).drop_last() =~= recipients.take(n));
        lemma_wrapping_fails(alg, epk, sender, recipients, apv, tag, cek, n + 1);
    } else {
        assert(recipients.take(n) =~= recipients);
    }
}

fn wrap_for_all(
    alg: KeyManagement,
    epk: &str,
    sender: Option<&Party>,
    recipients: &Vec<Party>,
    apv: &Vec<u8>,
    tag: &Vec<u8>,
    cek: &[u8],
) -> (r: Result<Vec<Json>, Error>)
    ensures
        match r {
            Ok(list) => wrapped_for_all(
                alg,
                epk@,
                party_view(sender),
                parties_view(recipients@),
                apv@,
                tag@,
                cek@,
            ) == Ok::<Seq<JsonValue>, ErrorView>(values_of(list@)),
            Err(e) => wrapped_for_all(
                alg,
                epk@,
                party_view(sender),
                parties_view(recipients@),
                apv@,
                tag@,
                cek@,
            ) == Err::<Seq<JsonValue>, ErrorView>(e@),
        },
{
    let ghost all = parties_view(recipients@);
    let ghost from = party_view(sender);
    let mut out: Vec<Json> = Vec::new();
    let mut i: usize = 0;
    assert(all.take(0) =~= Seq::<PartyView>::empty());
    assert(values_of(out@) =~= Seq::<JsonValue>::empty());
    while i < recipients.len()
        invariant
            i <= recipients.len(),
            all == parties_view(recipients@),
            from == party_view(sender),
            wrapped_for_all(alg, epk@, from, all.take(i as int), apv@, tag@, cek@) == Ok::<
                Seq<JsonValue>,
                ErrorView,
            >(values_of(out@)),
        decreases recipients.len() - i,
    {
        let ghost before = values_of(out@);
        let ghost upto = all.take(i + 1);
        assert(upto.drop_last() =~= all.take(i as int));
        assert(upto.last() == recipients[i as int]@);
        match wrap_for(alg, epk, sender, &recipients[i], apv, tag, cek) {
            Ok(j) => {
                out.push(j);
                assert(values_of(out@) =~= before.push(j@));
            },
            Err(e) => {
                proof {
                    lemma_wrapping_fails(alg, epk@, from, all, apv@, tag@, cek@, i + 1);
                }
                return Err(e);
            },
        }
        i += 1;
    }
    assert(all.take(recipients.len() as int) =~= all);
    Ok(out)
}

fn envelope_json(
    protected: String,
    recipients: Vec<Json>,
    iv: &[u8],
    ciphertext: &[u8],
    tag: &[u8],
) -> (r: Json)
    ensures
        r@ == jwe_json(protected@, values_of(recipients@), iv@, ciphertext@, tag@),
{
    proof {
        lemma_array_view(recipients);
    }
    let mut members: Vec<(String, Json)> = Vec::new();
    assert(members_of(members@) =~= Seq::empty());
    push_member(&mut members, "protected", Json::Str(protected));
    push_member(&mut members, "recipients", Json::Array(recipients));
    push_member(&mut members, "iv", Json::Str(encode(iv)));
    push_member(&mut members, "ciphertext", Json::Str(encode(ciphertext)));
    push_member(&mut members, "tag", Json::Str(encode(tag)));
    assert(members_of(members@) =~= jwe_members(
        protected@,
        values_of(recipients@),
        iv@,
        ciphertext@,
        tag@,
    ));
    object(members)
}

fn read_ephemeral(epk: core::result::Result<String, String>) -> (r: Result<(String, Json), Error>)
    ensures
        match r {
            Ok((secret, value)) => ephemeral_public(drawn_key(epk)) == Ok::<
                (Seq<char>, JsonValue),
                ErrorView,
            >((secret@, value@)),
            Err(e) => ephemeral_public(drawn_key(epk)) == Err::<
                (Seq<char>, JsonValue),
                ErrorView,
            >(e@),
        },
{
    let secret = match epk {
        Ok(s) => s,
        Err(cause) => {
            return Err(err_caused(ErrorKind::InvalidState, "Unable generate epk", cause.as_str()));
        },
    };
    let public = match public_jwk(secret.as_str()) {
        Ok(p) => p,
        Err(cause) => {
            return Err(err_caused(ErrorKind::InvalidState, "Unable produce epk", cause.as_str()));
        },
    };
    match parse(public.as_str()) {
        Ok(value) => Ok((secret, value)),
        Err(cause) => Err(err_caused(ErrorKind::InvalidState, "Unable parse epk", cause.as_str())),
    }
}

/// The view of an ephemeral key that was drawn, or of why none was.
pub open spec fn drawn_key(epk: core::result::Result<String, String>) -> Result<
    Seq<char>,
    Seq<char>,
> {
    match epk {
        Ok(k) => Ok(k@),
        Err(c) => Err(c@),
    }
}

/// Makes the encrypted envelope of a plaintext for the recipients, with a
/// content key, an ephemeral key and a nonce that are given.
pub fn encrypt_with(
    plaintext: &[u8],
    alg: KeyManagement,
    enc: ContentEncryption,
    sender: Option<&Party>,
    recipients: &Vec<Party>,
    cek: &[u8],
    epk: core::result::Result<String, String>,
    iv: &[u8],
) -> (r: Result<String, Error>)
    ensures
        match r {
            Ok(text) => encrypted_envelope(
                plaintext@,
                alg,
                enc,
                party_view(sender),
                parties_view(recipients@),
                Drawn { cek: cek@, epk: drawn_key(epk), iv: iv@ },
            ) == Ok::<Seq<char>, ErrorView>(text@),
            Err(e) => encrypted_envelope(
                plaintext@,
                alg,
                enc,
                party_view(sender),
                parties_view(recipients@),
                Drawn { cek: cek@, epk: drawn_key(epk), iv: iv@ },
            ) == Err::<Seq<char>, ErrorView>(e@),
        },
{
    let (secret, epk_json) = read_ephemeral(epk)?;
    let kids = kids_of_parties(recipients);
    let apv = compute_apv(&kids);
    let header = to_text(&header_json(alg, enc, sender, &apv, epk_json));
    let protected = encode_text(header.as_str());
    let (sealed, len) = match seal_content(enc, cek, plaintext, iv, protected.as_str().as_bytes()) {
        Ok(s) => s,
        Err(cause) => {
            return Err(
                err_caused(ErrorKind::InvalidState, "Unable encrypt content", cause.as_str()),
            );
        },
    };
    if len > sealed.len() {
        return Err(err_msg(ErrorKind::InvalidState, "Unable encrypt content"));
    }
    let mut ciphertext = sealed;
    let tag = ciphertext.split_off(len);
    let wrapped = wrap_for_all(alg, secret.as_str(), sender, recipients, &apv, &tag, cek)?;
    Ok(
        to_text(
            &envelope_json(protected, wrapped, iv, ciphertext.as_slice(), tag.as_slice()),
        ),
    )
}

/// Makes the encrypted envelope of a plaintext for the recipients. Content
/// key, ephemeral key and nonce are drawn at random, so only this is known
/// of the envelope: it is the one that some draw gives, with a content key
/// and a nonce of the lengths of the content encryption and an ephemeral
/// key on `curve`.
pub fn encrypt(
    plaintext: &[u8],
    alg: KeyManagement,
    enc: ContentEncryption,
    curve: Curve,
    sender: Option<&Party>,
    recipients: &Vec<Party>,
) -> (r: Result<String, Error>)
    ensures
        exists|drawn: Drawn|
            {
                &&& drawn.cek.len() == key_length(enc)
                &&& drawn.iv.len() == nonce_length(enc)
                &&& drawn_on(drawn, curve)
                &&& match r {
                    Ok(text) => #[trigger] encrypted_envelope(
                        plaintext@,
                        alg,
                        enc,
                        party_view(sender),
                        parties_view(recipients@),
                        drawn,
                    ) == Ok::<Seq<char>, ErrorView>(text@),
                    Err(e) => encrypted_envelope(
                        plaintext@,
                        alg,
                        enc,
                        party_view(sender),
                        parties_view(recipients@),
                        drawn,
                    ) == Err::<Seq<char>, ErrorView>(e@),
                }
            },
{
    let (key_len, nonce_len): (usize, usize) = match enc {
        ContentEncryption::A256cbcHs512 => (64, 16),
        ContentEncryption::Xc20P => (32, 24),
        ContentEncryption::A256Gcm => (32, 12),
    };
    let cek = random_bytes(key_len);
    let iv = random_bytes(nonce_len);
    let epk: core::result::Result<String, String> = match KeyPair::generate(curve) {
        Ok(key) => Ok(key.jwk),
        Err(e) => Err(e.message),
    };
    let ghost drawn = Drawn { cek: cek@, epk: drawn_key(epk), iv: iv@ };
    let r = encrypt_with(plaintext, alg, enc, sender, recipients, cek.as_slice(), epk, iv.as_slice());
    proof {
        let outcome = encrypted_envelope(
            plaintext@,
            alg,
            enc,
            party_view(sender),
            parties_view(recipients@),
            drawn,
        );
        assert(drawn.cek.len() == key_length(enc));
        assert(drawn.iv.len() == nonce_length(enc));
        assert(drawn_on(drawn, curve));
        assert(match r {
            Ok(text) => outcome == Ok::<Seq<char>, ErrorView>(text@),
            Err(e) => outcome == Err::<Seq<char>, ErrorView>(e@),
        });
    }
    r
}

} // verus!
