//! What was packed unpacks to the same message, where the primitives keep
//! their promises.

use crate::algorithms::{AnonCryptAlg, AuthCryptAlg, SignAlg};
use crate::crypto::{a256kw_unwrapped, content_opened, signature_checked, ContentEncryption};
use crate::did::DIDDocView;
use crate::encoding::base64url_encoded;
use crate::error::ErrorView;
use crate::json::{json_written, JsonValue};
use crate::jwe::decrypt::{opened_for, wrapped_key_of, wrapping_key, OpenedView};
use crate::jwe::encrypt::{encrypted_envelope, party_kids, sending_key, Drawn, PartyView};
use crate::jwe::envelope::{JweView, KeyManagement};
use crate::jwe::parse::{looks_like_jwe, read_jwe, shape_of};
use crate::jwe::round_trip::{
    base64_agrees, envelope_agrees, envelope_as_read, envelope_recipients, json_agrees,
    lemma_envelope_kids, lemma_envelope_read, lemma_utf8_round_trip, made, wrapped_key,
};
use crate::jwk::{key_of_jwk, key_of_secret, sign_alg_of, KeyPairView};
use crate::jws::envelope::{sign_alg_name, sign_alg_named, JwsView, SignatureView};
use crate::jws::parse::{
    general_shape_of, jws_shape_of, looks_like_jws, read_jws, signature_of, signature_shape_of,
    signature_shapes_of, signatures_of, SignatureShape,
};
use crate::jws::sign::{
    jws_json, jws_members, sign_header, sign_header_members, sign_protected, signature_members,
    signed_envelope, signed_typ,
};
use crate::jws::verify::{signature_verified, signing_input};
use crate::message::{plaintext_typ, MessageView};
use crate::message::codec::{message_json, message_read};
use crate::message::pack_encrypted::{encrypted_packed, payload_packed};
use crate::message::pack_encrypted::anoncrypt::{anon_encryption, anoncrypt_recipients};
use crate::message::pack_encrypted::authcrypt::{
    auth_encryption, authcrypt_parties, authcrypted, AuthParties,
};
use crate::message::pack_plaintext::plaintext_packed;
use crate::message::pack_signed::{signed_packed, signing_key};
use crate::message::round_trip::{
    law_message_json_round_trip, lemma_member_concat, lemma_member_one,
};
use crate::message::unpack::{
    after_anon_metadata, after_anon_text, after_auth_metadata, after_auth_text, after_sign_metadata,
    after_sign_text, plaintext_of, unpacked, unprotected, UnpackMetadataView,
};
use crate::message::unpack::anoncrypt::{
    after_anoncrypt, anon_alg_of, anoncrypt_layer, anoncrypt_opened, AnonLayer,
};
use crate::message::unpack::authcrypt::{
    after_authcrypt, authcrypt_layer, authcrypt_opened, sender_key, sender_kid, AuthLayer,
};
use crate::message::unpack::keys::{
    fitting_encryption, of_one_did, opened_by, opened_with, opened_with_rest, recipients_checked,
};
use crate::message::unpack::laws::taken_for_envelope;
use crate::message::unpack::sign::{
    sign_layer, sign_opened, signature_accepted, signatures_accepted, signer_key, SignLayer,
};
use crate::ordered::{lemma_sorted_lookups, ordered};
use crate::secrets::{held_among, SecretView};
use crate::utils::has_fragment;
use vstd::prelude::*;
use vstd::utf8::encode_utf8;

verus! {

/// The metadata of a message that was signed and not encrypted.
pub open spec fn signed_metadata(kid: Seq<char>, alg: SignAlg, text: Seq<char>) -> UnpackMetadataView {
    UnpackMetadataView {
        authenticated: true,
        non_repudiation: true,
        sign_from: Some(kid),
        sign_alg: Some(alg),
        signed_message: Some(text),
        ..unprotected()
    }
}

/// The name of a signing algorithm names that algorithm.
pub proof fn lemma_sign_alg_names(alg: SignAlg)
    ensures
        sign_alg_named(sign_alg_name(alg)) == Some(alg),
{
    reveal_strlit("EdDSA");
    reveal_strlit("ES256");
    reveal_strlit("ES256K");
    assert("EdDSA"@.len() == 5 && "ES256"@.len() == 5 && "ES256K"@.len() == 6);
    assert("EdDSA"@[1] == 'd' && "ES256"@[1] == 'S');
}

/// A signed envelope that was written is read back as the envelope it is:
/// its payload and its one signature with its header.
pub proof fn lemma_signed_envelope_read(
    payload: Seq<char>,
    alg: SignAlg,
    signature: Seq<char>,
    kid: Seq<char>,
)
    requires
        json_agrees(jws_json(payload, sign_protected(alg), signature, kid)),
        json_agrees(sign_header(alg)),
        base64_agrees(encode_utf8(json_written(sign_header(alg)))),
    ensures
        ({
            let text = json_written(jws_json(payload, sign_protected(alg), signature, kid));
            &&& !looks_like_jwe(text)
            &&& read_jws(text) == Ok::<Option<JwsView>, ErrorView>(
                Some(
                    JwsView {
                        payload,
                        signatures: seq![
                            SignatureView {
                                protected: sign_protected(alg),
                                typ: signed_typ(),
                                alg: Some(alg),
                                kid,
                                signature,
                            },
                        ],
                    },
                ),
            )
        }),
{
    reveal_strlit("payload");
    reveal_strlit("signatures");
    reveal_strlit("protected");
    reveal_strlit("signature");
    reveal_strlit("header");
    reveal_strlit("kid");
    reveal_strlit("typ");
    reveal_strlit("alg");
    assert("payload"@.len() == 7 && "signatures"@.len() == 10 && "protected"@.len() == 9);
    assert("signature"@.len() == 9 && "header"@.len() == 6 && "kid"@.len() == 3);
    assert("protected"@[0] == 'p' && "signature"@[0] == 's');
    assert("typ"@.len() == 3 && "alg"@.len() == 3 && "typ"@[0] == 't' && "alg"@[0] == 'a');
    let protected = sign_protected(alg);
    let j = jws_json(payload, protected, signature, kid);
    let text = json_written(j);
    let head = ordered(seq![("kid"@, JsonValue::Str(kid))]);
    let one = ordered(signature_members(protected, signature, kid));
    lemma_sorted_lookups(seq![("kid"@, JsonValue::Str(kid))]);
    lemma_sorted_lookups(signature_members(protected, signature, kid));
    lemma_sorted_lookups(jws_members(payload, protected, signature, kid));
    lemma_sorted_lookups(sign_header_members(alg));
    let list = JsonValue::Array(seq![one]);
    let part0 = seq![("payload"@, JsonValue::Str(payload))];
    let part1 = seq![("signatures"@, list)];
    assert(jws_members(payload, protected, signature, kid) =~= part0 + part1);
    lemma_member_concat(part0, part1, "payload"@);
    lemma_member_concat(part0, part1, "signatures"@);
    lemma_member_concat(part0, part1, "protected"@);
    lemma_member_one("payload"@, JsonValue::Str(payload), "payload"@);
    lemma_member_one("payload"@, JsonValue::Str(payload), "signatures"@);
    lemma_member_one("payload"@, JsonValue::Str(payload), "protected"@);
    lemma_member_one("signatures"@, list, "signatures"@);
    lemma_member_one("signatures"@, list, "protected"@);
    assert(j.text_field("protected"@) is None);
    assert(shape_of(j) is None);
    let s0 = seq![("protected"@, JsonValue::Str(protected))];
    let s1 = seq![("signature"@, JsonValue::Str(signature))];
    let s2 = seq![("header"@, head)];
    assert(signature_members(protected, signature, kid) =~= s0 + s1 + s2);
    lemma_member_concat(s0 + s1, s2, "protected"@);
    lemma_member_concat(s0 + s1, s2, "signature"@);
    lemma_member_concat(s0 + s1, s2, "header"@);
    lemma_member_concat(s0, s1, "protected"@);
    lemma_member_concat(s0, s1, "signature"@);
    lemma_member_concat(s0, s1, "header"@);
    lemma_member_one("protected"@, JsonValue::Str(protected), "protected"@);
    lemma_member_one("protected"@, JsonValue::Str(protected), "signature"@);
    lemma_member_one("protected"@, JsonValue::Str(protected), "header"@);
    lemma_member_one("signature"@, JsonValue::Str(signature), "signature"@);
    lemma_member_one("signature"@, JsonValue::Str(signature), "header"@);
    lemma_member_one("header"@, head, "header"@);
    lemma_member_one("kid"@, JsonValue::Str(kid), "kid"@);
    let shape = SignatureShape { protected, kid, signature };
    assert(signature_shape_of(one) == Some(shape));
    let items = seq![one];
    assert(items.drop_last() =~= Seq::<JsonValue>::empty());
    assert(items.last() == one);
    assert(signature_shapes_of(items.drop_last()) == Some(Seq::<SignatureShape>::empty()));
    assert(Seq::<SignatureShape>::empty().push(shape) =~= seq![shape]);
    assert(signature_shapes_of(items) == Some(seq![shape]));
    assert(general_shape_of(j) == Some((payload, seq![shape])));
    assert(jws_shape_of(j) == Some((payload, seq![shape])));
    let header_text = json_written(sign_header(alg));
    lemma_utf8_round_trip(header_text);
    let h = sign_header(alg);
    let h0 = seq![("typ"@, JsonValue::Str(signed_typ()))];
    let h1 = seq![("alg"@, JsonValue::Str(sign_alg_name(alg)))];
    assert(sign_header_members(alg) =~= h0 + h1);
    lemma_member_concat(h0, h1, "typ"@);
    lemma_member_concat(h0, h1, "alg"@);
    lemma_member_one("typ"@, JsonValue::Str(signed_typ()), "typ"@);
    lemma_member_one("typ"@, JsonValue::Str(signed_typ()), "alg"@);
    lemma_member_one("alg"@, JsonValue::Str(sign_alg_name(alg)), "alg"@);
    lemma_sign_alg_names(alg);
    let sig = SignatureView { protected, typ: signed_typ(), alg: Some(alg), kid, signature };
    assert(signature_of(shape) == Ok::<SignatureView, ErrorView>(sig));
    let shapes = seq![shape];
    assert(shapes.drop_last() =~= Seq::<SignatureShape>::empty());
    assert(shapes.last() == shape);
    assert(signatures_of(shapes.drop_last()) == Ok::<Seq<SignatureView>, ErrorView>(
        Seq::<SignatureView>::empty(),
    ));
    assert(Seq::<SignatureView>::empty().push(sig) =~= seq![sig]);
    assert(signatures_of(shapes) == Ok::<Seq<SignatureView>, ErrorView>(seq![sig]));
}

/// Whether the signature of a signed envelope holds for the recipient: the
/// key can sign and signs, the signer's document publishes a key on its
/// curve under the key id, the signature that was made holds under that
/// key, and what the envelope is written in reads back as it was written.
pub open spec fn signature_holds(
    content: Seq<char>,
    kid: Seq<char>,
    key: KeyPairView,
    known: spec_fn(Seq<char>) -> Option<DIDDocView>,
) -> bool {
    let alg = sign_alg_of(key.curve)->Some_0;
    let payload = base64url_encoded(encode_utf8(content));
    let input = signing_input(sign_protected(alg), payload);
    let signature = crate::crypto::signature_made(key.jwk, alg, input)->Ok_0;
    &&& sign_alg_of(key.curve) is Some
    &&& crate::crypto::signature_made(key.jwk, alg, input) is Ok
    &&& signer_key(kid, known) is Ok
    &&& signer_key(kid, known)->Ok_0.curve == key.curve
    &&& signature_checked(signer_key(kid, known)->Ok_0.jwk, alg, input, signature) == Ok::<
        bool,
        Seq<char>,
    >(true)
    &&& json_agrees(sign_header(alg))
    &&& json_agrees(jws_json(payload, sign_protected(alg), base64url_encoded(signature), kid))
    &&& base64_agrees(encode_utf8(content))
    &&& base64_agrees(encode_utf8(json_written(sign_header(alg))))
    &&& base64_agrees(signature)
}

/// A signed envelope whose signature holds for the recipient is no
/// encrypted envelope, and its signed layer comes off: the content is what
/// was signed, the signer is the key that signed, with the algorithm of its
/// curve, and the signed message is the envelope itself.
pub proof fn lemma_sign_layer(
    content: Seq<char>,
    kid: Seq<char>,
    key: KeyPairView,
    known: spec_fn(Seq<char>) -> Option<DIDDocView>,
)
    requires
        signature_holds(content, kid, key, known),
    ensures
        ({
            let alg = sign_alg_of(key.curve)->Some_0;
            let text = signed_envelope(encode_utf8(content), kid, key, alg)->Ok_0;
            &&& signed_envelope(encode_utf8(content), kid, key, alg) is Ok
            &&& !looks_like_jwe(text)
            &&& sign_layer(text, known) == Ok::<Option<SignLayer>, ErrorView>(
                Some(SignLayer { payload: content, sign_from: kid, alg, signed_message: text }),
            )
        }),
{
    let alg = sign_alg_of(key.curve)->Some_0;
    let text = signed_envelope(encode_utf8(content), kid, key, alg)->Ok_0;
    let payload = base64url_encoded(encode_utf8(content));
    let protected = sign_protected(alg);
    let input = signing_input(protected, payload);
    let made = crate::crypto::signature_made(key.jwk, alg, input)->Ok_0;
    let signature = base64url_encoded(made);
    assert(text == json_written(jws_json(payload, protected, signature, kid)));
    lemma_signed_envelope_read(payload, alg, signature, kid);
    let sig = SignatureView { protected, typ: signed_typ(), alg: Some(alg), kid, signature };
    let jws = JwsView { payload, signatures: seq![sig] };
    let public = signer_key(kid, known)->Ok_0;
    assert(jws.signatures[0] == sig);
    assert(signature_verified(payload, sig, public) == Ok::<SignAlg, ErrorView>(alg));
    assert(signature_accepted(payload, sig, known) == Ok::<SignAlg, ErrorView>(alg));
    assert(signatures_accepted(jws, known, 1) == Ok::<(), ErrorView>(()));
    lemma_utf8_round_trip(content);
    let layer = SignLayer { payload: content, sign_from: kid, alg, signed_message: text };
    assert(sign_opened(text, jws, known) == Ok::<SignLayer, ErrorView>(layer));
}

/// The plaintext of a message that keeps the rules of a message and cannot
/// be taken for an envelope is no envelope, and reads back as the message.
pub proof fn lemma_plaintext_read(m: MessageView)
    requires
        m.well_formed(),
        m.typ == plaintext_typ(),
        !taken_for_envelope(m),
        json_agrees(message_json(m)),
    ensures
        !looks_like_jwe(json_written(message_json(m))),
        !looks_like_jws(json_written(message_json(m))),
        plaintext_of(json_written(message_json(m))) == Ok::<MessageView, ErrorView>(m),
{
    let text = json_written(message_json(m));
    law_message_json_round_trip(m);
    assert(message_read(text) == Ok::<MessageView, ErrorView>(m));
}

/// A message that was packed in a signed envelope unpacks to the same
/// message, with metadata that tell of the signature: the message is
/// authenticated and cannot be repudiated, the signer is the key that
/// signed, the algorithm is the one of that key's curve, and the signed
/// message is the packed text. This holds of every message that keeps the
/// rules of a message and cannot be taken for an envelope, whatever secrets
/// the recipient holds, where the signature holds for the recipient and
/// the JSON of the message reads back as it was written.
pub proof fn law_signed_round_trip(
    m: MessageView,
    sign_by: Seq<char>,
    known: spec_fn(Seq<char>) -> Option<DIDDocView>,
    held: spec_fn(Seq<char>) -> Option<SecretView>,
    held_by_recipient: spec_fn(Seq<char>) -> Option<SecretView>,
    all_keys: bool,
)
    requires
        m.well_formed(),
        !taken_for_envelope(m),
        json_agrees(message_json(m)),
        signed_packed(m, sign_by, known, held) is Ok,
        signature_holds(
            json_written(message_json(m)),
            signing_key(sign_by, known, held)->Ok_0.0,
            signing_key(sign_by, known, held)->Ok_0.1,
            known,
        ),
    ensures
        ({
            let (text, kid) = signed_packed(m, sign_by, known, held)->Ok_0;
            let key = signing_key(sign_by, known, held)->Ok_0.1;
            let alg = sign_alg_of(key.curve)->Some_0;
            unpacked(text, known, held_by_recipient, all_keys, false) == Ok::<
                (MessageView, UnpackMetadataView),
                ErrorView,
            >((m, signed_metadata(kid, alg, text)))
        }),
{
    let (text, kid) = signed_packed(m, sign_by, known, held)->Ok_0;
    let key = signing_key(sign_by, known, held)->Ok_0.1;
    let content = json_written(message_json(m));
    assert(plaintext_packed(m) == Ok::<Seq<char>, ErrorView>(content));
    lemma_sign_layer(content, kid, key, known);
    lemma_plaintext_read(m);
    assert(read_jwe(text) == Ok::<Option<JweView>, ErrorView>(None));
    assert(anoncrypt_layer(text, held_by_recipient, all_keys) is Ok);
    assert(authcrypt_layer(text, known, held_by_recipient, all_keys) is Ok);
}

/// The place of the first party with the key id `kid`; a negative number
/// where there is none.
pub open spec fn place_of(parties: Seq<PartyView>, kid: Seq<char>) -> int
    decreases parties.len(),
{
    if parties.len() == 0 {
        -1
    } else if parties[0].kid == kid {
        0
    } else {
        let rest = place_of(parties.drop_first(), kid);
        if rest < 0 {
            -1
        } else {
            rest + 1
        }
    }
}

/// The first key id that is held is one of the key ids, and is held.
pub proof fn lemma_found_first(
    kids: Seq<Seq<char>>,
    held: spec_fn(Seq<char>) -> Option<SecretView>,
)
    requires
        held_among(kids, held).len() > 0,
    ensures
        kids.contains(held_among(kids, held)[0]),
        held(held_among(kids, held)[0]) is Some,
    decreases kids.len(),
{
    let before = kids.drop_last();
    if held_among(before, held).len() > 0 {
        lemma_found_first(before, held);
        let k = held_among(before, held)[0];
        let i = choose|i: int| 0 <= i < before.len() && before[i] == k;
        assert(kids[i] == k);
    } else {
        assert(kids[kids.len() - 1] == kids.last());
    }
}

/// A key id that one of the parties has is the key id of the party at its
/// place, and the envelope holds the content key that was wrapped for that
/// party under it.
pub proof fn lemma_place_found(
    alg: KeyManagement,
    epk: Seq<char>,
    sender: Option<PartyView>,
    recipients: Seq<PartyView>,
    apv: Seq<u8>,
    tag: Seq<u8>,
    cek: Seq<u8>,
    kid: Seq<char>,
)
    requires
        party_kids(recipients).contains(kid),
    ensures
        0 <= place_of(recipients, kid) < recipients.len(),
        recipients[place_of(recipients, kid)].kid == kid,
        wrapped_key_of(envelope_recipients(alg, epk, sender, recipients, apv, tag, cek), kid)
            == Some(
            base64url_encoded(
                wrapped_key(
                    alg,
                    epk,
                    sender,
                    recipients[place_of(recipients, kid)],
                    apv,
                    tag,
                    cek,
                ),
            ),
        ),
    decreases recipients.len(),
{
    let listed = envelope_recipients(alg, epk, sender, recipients, apv, tag, cek);
    let i = choose|i: int| 0 <= i < party_kids(recipients).len() && party_kids(recipients)[i] == kid;
    assert(recipients.len() > 0);
    assert(listed[0].kid == recipients[0].kid);
    if recipients[0].kid != kid {
        let rest = recipients.drop_first();
        assert(party_kids(rest)[i - 1] == party_kids(recipients)[i]);
        lemma_place_found(alg, epk, sender, rest, apv, tag, cek, kid);
        assert(listed.drop_first() =~= envelope_recipients(alg, epk, sender, rest, apv, tag, cek));
        assert(rest[place_of(rest, kid)] == recipients[place_of(rest, kid) + 1]);
    }
}

/// Whether the recipient can open the envelope with the secret that it
/// holds for a key id: the key id is one of the recipients', the secret is
/// a key that fits the envelope and is on the curve of the ephemeral key,
/// the key that it agrees on with the ephemeral key (and the sender's) is
/// the one that the sender wrapped the content key under, unwrapping gives
/// that content key back, and opening the content under it gives the
/// plaintext back.
pub open spec fn key_opens(
    plaintext: Seq<u8>,
    alg: KeyManagement,
    enc: ContentEncryption,
    sender: Option<PartyView>,
    sender_public: Option<KeyPairView>,
    recipients: Seq<PartyView>,
    drawn: Drawn,
    held: spec_fn(Seq<char>) -> Option<SecretView>,
    kid: Seq<char>,
) -> bool {
    let m = made(plaintext, alg, enc, sender, recipients, drawn);
    let jwe = envelope_as_read(plaintext, alg, enc, sender, recipients, drawn);
    let recipient = recipients[place_of(recipients, kid)];
    let key = key_of_secret(held(kid)->Some_0)->Ok_0;
    let kek = sending_key(alg, m.epk, sender, recipient, m.apv, m.tag)->Ok_0;
    let wrapped = wrapped_key(alg, m.epk, sender, recipient, m.apv, m.tag, drawn.cek);
    &&& party_kids(recipients).contains(kid)
    &&& held(kid) is Some
    &&& key_of_secret(held(kid)->Some_0) is Ok
    &&& fitting_encryption(jwe, sender_public, key) == Ok::<ContentEncryption, ErrorView>(enc)
    &&& base64_agrees(wrapped)
    &&& key_of_jwk(jwe.epk) is Ok
    &&& key_of_jwk(jwe.epk)->Ok_0.curve == key.curve
    &&& wrapping_key(jwe, sender_public, key) == Ok::<Seq<u8>, ErrorView>(kek)
    &&& a256kw_unwrapped(kek, wrapped) == Ok::<Seq<u8>, Seq<char>>(drawn.cek)
    &&& content_opened(
        enc,
        drawn.cek,
        m.ciphertext + m.tag,
        drawn.iv,
        encode_utf8(m.protected),
    ) == Ok::<Seq<u8>, Seq<char>>(plaintext)
}

/// Whether the recipient can open the envelope: it holds a secret for one
/// of the recipients' key ids and can open the envelope with the first that
/// it holds; where every key is to open the envelope, it can open it with
/// each that it holds.
pub open spec fn recipient_opens(
    plaintext: Seq<u8>,
    alg: KeyManagement,
    enc: ContentEncryption,
    sender: Option<PartyView>,
    sender_public: Option<KeyPairView>,
    recipients: Seq<PartyView>,
    drawn: Drawn,
    held: spec_fn(Seq<char>) -> Option<SecretView>,
    all_keys: bool,
) -> bool {
    let found = held_among(party_kids(recipients), held);
    &&& found.len() > 0
    &&& key_opens(plaintext, alg, enc, sender, sender_public, recipients, drawn, held, found[0])
    &&& all_keys ==> forall|i: int|
        0 <= i < found.len() ==> key_opens(
            plaintext,
            alg,
            enc,
            sender,
            sender_public,
            recipients,
            drawn,
            held,
            #[trigger] found[i],
        )
}

/// An envelope opens with a secret that can open it, to the plaintext that
/// went into it.
pub proof fn lemma_key_opens(
    plaintext: Seq<u8>,
    alg: KeyManagement,
    enc: ContentEncryption,
    sender: Option<PartyView>,
    sender_public: Option<KeyPairView>,
    recipients: Seq<PartyView>,
    drawn: Drawn,
    held: spec_fn(Seq<char>) -> Option<SecretView>,
    kid: Seq<char>,
)
    requires
        key_opens(plaintext, alg, enc, sender, sender_public, recipients, drawn, held, kid),
    ensures
        opened_with(
            envelope_as_read(plaintext, alg, enc, sender, recipients, drawn),
            sender_public,
            kid,
            held,
        ) == Ok::<OpenedView, ErrorView>(OpenedView { cek: drawn.cek, payload: plaintext }),
{
    let m = made(plaintext, alg, enc, sender, recipients, drawn);
    let jwe = envelope_as_read(plaintext, alg, enc, sender, recipients, drawn);
    lemma_place_found(alg, m.epk, sender, recipients, m.apv, m.tag, drawn.cek, kid);
    let key = key_of_secret(held(kid)->Some_0)->Ok_0;
    assert(opened_for(jwe, enc, sender_public, kid, key) == Ok::<OpenedView, ErrorView>(
        OpenedView { cek: drawn.cek, payload: plaintext },
    ));
}

/// An envelope opens with each of the secrets that can open it, and each
/// gives the content key that the first one gave.
pub proof fn lemma_rest_opens(
    plaintext: Seq<u8>,
    alg: KeyManagement,
    enc: ContentEncryption,
    sender: Option<PartyView>,
    sender_public: Option<KeyPairView>,
    recipients: Seq<PartyView>,
    drawn: Drawn,
    held: spec_fn(Seq<char>) -> Option<SecretView>,
    kids: Seq<Seq<char>>,
)
    requires
        forall|i: int|
            0 <= i < kids.len() ==> key_opens(
                plaintext,
                alg,
                enc,
                sender,
                sender_public,
                recipients,
                drawn,
                held,
                #[trigger] kids[i],
            ),
    ensures
        opened_with_rest(
            envelope_as_read(plaintext, alg, enc, sender, recipients, drawn),
            sender_public,
            kids,
            held,
            OpenedView { cek: drawn.cek, payload: plaintext },
        ) == Ok::<OpenedView, ErrorView>(OpenedView { cek: drawn.cek, payload: plaintext }),
    decreases kids.len(),
{
    if kids.len() > 0 {
        assert(key_opens(
            plaintext,
            alg,
            enc,
            sender,
            sender_public,
            recipients,
            drawn,
            held,
            kids[0],
        ));
        lemma_key_opens(
            plaintext,
            alg,
            enc,
            sender,
            sender_public,
            recipients,
            drawn,
            held,
            kids[0],
        );
        assert forall|i: int| 0 <= i < kids.drop_first().len() implies key_opens(
            plaintext,
            alg,
            enc,
            sender,
            sender_public,
            recipients,
            drawn,
            held,
            #[trigger] kids.drop_first()[i],
        ) by {
            assert(kids.drop_first()[i] == kids[i + 1]);
        }
        lemma_rest_opens(
            plaintext,
            alg,
            enc,
            sender,
            sender_public,
            recipients,
            drawn,
            held,
            kids.drop_first(),
        );
    }
}

/// An envelope that the recipient can open opens to the plaintext that went
/// into it.
pub proof fn lemma_envelope_opens(
    plaintext: Seq<u8>,
    alg: KeyManagement,
    enc: ContentEncryption,
    sender: Option<PartyView>,
    sender_public: Option<KeyPairView>,
    recipients: Seq<PartyView>,
    drawn: Drawn,
    held: spec_fn(Seq<char>) -> Option<SecretView>,
    all_keys: bool,
)
    requires
        recipient_opens(
            plaintext,
            alg,
            enc,
            sender,
            sender_public,
            recipients,
            drawn,
            held,
            all_keys,
        ),
    ensures
        opened_by(
            envelope_as_read(plaintext, alg, enc, sender, recipients, drawn),
            sender_public,
            held,
            all_keys,
        ) == Ok::<OpenedView, ErrorView>(OpenedView { cek: drawn.cek, payload: plaintext }),
{
    let m = made(plaintext, alg, enc, sender, recipients, drawn);
    let jwe = envelope_as_read(plaintext, alg, enc, sender, recipients, drawn);
    lemma_envelope_kids(alg, m.epk, sender, recipients, m.apv, m.tag, drawn.cek);
    assert(jwe.kids() == party_kids(recipients));
    let found = held_among(party_kids(recipients), held);
    lemma_key_opens(
        plaintext,
        alg,
        enc,
        sender,
        sender_public,
        recipients,
        drawn,
        held,
        found[0],
    );
    if all_keys {
        assert forall|i: int| 0 <= i < found.drop_first().len() implies key_opens(
            plaintext,
            alg,
            enc,
            sender,
            sender_public,
            recipients,
            drawn,
            held,
            #[trigger] found.drop_first()[i],
        ) by {
            assert(found.drop_first()[i] == found[i + 1]);
        }
        lemma_rest_opens(
            plaintext,
            alg,
            enc,
            sender,
            sender_public,
            recipients,
            drawn,
            held,
            found.drop_first(),
        );
    }
}

/// Whether an anonymous envelope opens for the recipient: the recipients'
/// key ids are DID URLs of one DID, the recipient can open the envelope
/// with the first of its secrets, and what the envelope is written in
/// reads back as it was written.
pub open spec fn anoncrypt_holds(
    content: Seq<char>,
    recipients: Seq<PartyView>,
    alg: AnonCryptAlg,
    drawn: Drawn,
    held: spec_fn(Seq<char>) -> Option<SecretView>,
    all_keys: bool,
) -> bool {
    let plaintext = encode_utf8(content);
    let enc = anon_encryption(alg);
    &&& of_one_did(party_kids(recipients))
    &&& envelope_agrees(plaintext, KeyManagement::EcdhEsA256kw, enc, None, recipients, drawn)
    &&& recipient_opens(
        plaintext,
        KeyManagement::EcdhEsA256kw,
        enc,
        None,
        None,
        recipients,
        drawn,
        held,
        all_keys,
    )
}

/// An anonymous envelope that opens for the recipient comes off: the
/// content is what went into it, for the recipients it was made for, with
/// the algorithm it was made with.
pub proof fn lemma_anoncrypt_layer(
    content: Seq<char>,
    recipients: Seq<PartyView>,
    alg: AnonCryptAlg,
    drawn: Drawn,
    held: spec_fn(Seq<char>) -> Option<SecretView>,
    all_keys: bool,
)
    requires
        encrypted_envelope(
            encode_utf8(content),
            KeyManagement::EcdhEsA256kw,
            anon_encryption(alg),
            None,
            recipients,
            drawn,
        ) is Ok,
        anoncrypt_holds(content, recipients, alg, drawn, held, all_keys),
    ensures
        anoncrypt_layer(
            encrypted_envelope(
                encode_utf8(content),
                KeyManagement::EcdhEsA256kw,
                anon_encryption(alg),
                None,
                recipients,
                drawn,
            )->Ok_0,
            held,
            all_keys,
        ) == Ok::<Option<AnonLayer>, ErrorView>(
            Some(AnonLayer { payload: content, to_kids: party_kids(recipients), alg }),
        ),
{
    let plaintext = encode_utf8(content);
    let enc = anon_encryption(alg);
    let km = KeyManagement::EcdhEsA256kw;
    lemma_envelope_read(plaintext, km, enc, None, recipients, drawn);
    let jwe = envelope_as_read(plaintext, km, enc, None, recipients, drawn);
    let made = made(plaintext, km, enc, None, recipients, drawn);
    lemma_envelope_kids(km, made.epk, None, recipients, made.apv, made.tag, drawn.cek);
    lemma_envelope_opens(plaintext, km, enc, None, None, recipients, drawn, held, all_keys);
    lemma_found_first(party_kids(recipients), held);
    assert(party_kids(recipients).len() > 0);
    assert(recipients_checked(jwe.kids()) == Ok::<(), ErrorView>(()));
    lemma_utf8_round_trip(content);
    assert(anon_alg_of(enc) == alg);
    assert(anoncrypt_opened(jwe, held, all_keys) == Ok::<AnonLayer, ErrorView>(
        AnonLayer { payload: content, to_kids: party_kids(recipients), alg },
    ));
}

/// Whether an authenticated envelope opens for the recipient: the key ids
/// of sender and recipients are DID URLs, those of the recipients of one
/// DID, the sender's document publishes its key for key agreement, the
/// recipient can open the envelope with the first of its secrets, and what
/// the envelope is written in reads back as it was written.
pub open spec fn authcrypt_holds(
    content: Seq<char>,
    parties: AuthParties,
    alg: AuthCryptAlg,
    drawn: Drawn,
    known: spec_fn(Seq<char>) -> Option<DIDDocView>,
    held: spec_fn(Seq<char>) -> Option<SecretView>,
    all_keys: bool,
) -> bool {
    let plaintext = encode_utf8(content);
    let enc = auth_encryption(alg);
    let km = KeyManagement::Ecdh1puA256kw;
    &&& has_fragment(parties.sender.kid)
    &&& of_one_did(party_kids(parties.recipients))
    &&& sender_key(parties.sender.kid, known) is Ok
    &&& base64_agrees(encode_utf8(parties.sender.kid))
    &&& envelope_agrees(plaintext, km, enc, Some(parties.sender), parties.recipients, drawn)
    &&& recipient_opens(
        plaintext,
        km,
        enc,
        Some(parties.sender),
        Some(sender_key(parties.sender.kid, known)->Ok_0),
        parties.recipients,
        drawn,
        held,
        all_keys,
    )
}

/// An authenticated envelope that opens for the recipient is no anonymous
/// envelope, and comes off: the content is what went into it, from the
/// sender and for the recipients it was made for.
pub proof fn lemma_authcrypt_layer(
    content: Seq<char>,
    parties: AuthParties,
    alg: AuthCryptAlg,
    drawn: Drawn,
    known: spec_fn(Seq<char>) -> Option<DIDDocView>,
    held: spec_fn(Seq<char>) -> Option<SecretView>,
    all_keys: bool,
)
    requires
        encrypted_envelope(
            encode_utf8(content),
            KeyManagement::Ecdh1puA256kw,
            auth_encryption(alg),
            Some(parties.sender),
            parties.recipients,
            drawn,
        ) is Ok,
        authcrypt_holds(content, parties, alg, drawn, known, held, all_keys),
    ensures
        ({
            let text = encrypted_envelope(
                encode_utf8(content),
                KeyManagement::Ecdh1puA256kw,
                auth_encryption(alg),
                Some(parties.sender),
                parties.recipients,
                drawn,
            )->Ok_0;
            &&& anoncrypt_layer(text, held, all_keys) == Ok::<Option<AnonLayer>, ErrorView>(None)
            &&& authcrypt_layer(text, known, held, all_keys) == Ok::<Option<AuthLayer>, ErrorView>(
                Some(
                    AuthLayer {
                        payload: content,
                        from_kid: parties.sender.kid,
                        to_kids: party_kids(parties.recipients),
                        alg: AuthCryptAlg::A256cbcHs512Ecdh1puA256kw,
                    },
                ),
            )
        }),
{
    let sender = parties.sender;
    let recipients = parties.recipients;
    let plaintext = encode_utf8(content);
    let enc = auth_encryption(alg);
    let km = KeyManagement::Ecdh1puA256kw;
    let public = sender_key(sender.kid, known)->Ok_0;
    lemma_envelope_read(plaintext, km, enc, Some(sender), recipients, drawn);
    let jwe = envelope_as_read(plaintext, km, enc, Some(sender), recipients, drawn);
    let made = made(plaintext, km, enc, Some(sender), recipients, drawn);
    lemma_envelope_kids(km, made.epk, Some(sender), recipients, made.apv, made.tag, drawn.cek);
    lemma_envelope_opens(
        plaintext,
        km,
        enc,
        Some(sender),
        Some(public),
        recipients,
        drawn,
        held,
        all_keys,
    );
    lemma_found_first(party_kids(recipients), held);
    assert(party_kids(recipients).len() > 0);
    assert(recipients_checked(jwe.kids()) == Ok::<(), ErrorView>(()));
    lemma_utf8_round_trip(sender.kid);
    assert(sender_kid(jwe) == Ok::<Seq<char>, ErrorView>(sender.kid));
    lemma_utf8_round_trip(content);
    assert(authcrypt_opened(jwe, known, held, all_keys) == Ok::<AuthLayer, ErrorView>(
        AuthLayer {
            payload: content,
            from_kid: sender.kid,
            to_kids: party_kids(recipients),
            alg: AuthCryptAlg::A256cbcHs512Ecdh1puA256kw,
        },
    ));
}

/// The metadata that unpacking gives for a message that was packed in an
/// encrypted envelope: it was encrypted for the recipients that packing
/// named; it is authenticated where a sender or a signer was given, and
/// cannot be repudiated where a signer was; the sender is anonymous where
/// none was given or it was to be protected; the algorithms are those that
/// were asked for, each where its envelope was made; signer and signed
/// message are those of the signed envelope inside.
pub open spec fn packed_metadata(
    from_kid: Option<Seq<char>>,
    to_kids: Seq<Seq<char>>,
    signed: Option<(Seq<char>, SignAlg, Seq<char>)>,
    protect_sender: bool,
    enc_alg_auth: AuthCryptAlg,
    enc_alg_anon: AnonCryptAlg,
) -> UnpackMetadataView {
    UnpackMetadataView {
        encrypted: true,
        authenticated: from_kid is Some || signed is Some,
        non_repudiation: signed is Some,
        anonymous_sender: from_kid is None || protect_sender,
        re_wrapped_in_forward: false,
        encrypted_from_kid: from_kid,
        encrypted_to_kids: Some(to_kids),
        sign_from: match signed {
            Some(s) => Some(s.0),
            None => None,
        },
        enc_alg_auth: match from_kid {
            Some(_) => Some(enc_alg_auth),
            None => None,
        },
        enc_alg_anon: if from_kid is None || protect_sender {
            Some(enc_alg_anon)
        } else {
            None
        },
        sign_alg: match signed {
            Some(s) => Some(s.1),
            None => None,
        },
        signed_message: match signed {
            Some(s) => Some(s.2),
            None => None,
        },
    }
}

/// What is asked of the primitives and of the parties for a message that
/// is packed in an encrypted envelope to unpack: the signature, where one
/// is made, holds for the recipient; each envelope that is made opens for
/// the recipient; and the JSON of the message reads back as it was written.
pub open spec fn packing_holds(
    m: MessageView,
    to: Seq<char>,
    from: Option<Seq<char>>,
    sign_by: Option<Seq<char>>,
    known: spec_fn(Seq<char>) -> Option<DIDDocView>,
    held: spec_fn(Seq<char>) -> Option<SecretView>,
    held_by_recipient: spec_fn(Seq<char>) -> Option<SecretView>,
    all_keys: bool,
    protect_sender: bool,
    enc_alg_auth: AuthCryptAlg,
    enc_alg_anon: AnonCryptAlg,
    inner: Drawn,
    outer: Drawn,
) -> bool {
    let content = json_written(message_json(m));
    let payload = payload_packed(m, sign_by, known, held)->Ok_0.0;
    &&& json_agrees(message_json(m))
    &&& match sign_by {
        Some(signer) => signature_holds(
            content,
            signing_key(signer, known, held)->Ok_0.0,
            signing_key(signer, known, held)->Ok_0.1,
            known,
        ),
        None => true,
    }
    &&& match from {
        None => anoncrypt_holds(
            payload,
            anoncrypt_recipients(to, known)->Ok_0,
            enc_alg_anon,
            inner,
            held_by_recipient,
            all_keys,
        ),
        Some(sender) => {
            let parties = authcrypt_parties(to, sender, known, held)->Ok_0;
            let envelope = encrypted_envelope(
                encode_utf8(payload),
                KeyManagement::Ecdh1puA256kw,
                auth_encryption(enc_alg_auth),
                Some(parties.sender),
                parties.recipients,
                inner,
            )->Ok_0;
            &&& authcrypt_holds(
                payload,
                parties,
                enc_alg_auth,
                inner,
                known,
                held_by_recipient,
                all_keys,
            )
            &&& protect_sender ==> anoncrypt_holds(
                envelope,
                parties.recipients,
                enc_alg_anon,
                outer,
                held_by_recipient,
                all_keys,
            )
        },
    }
}

/// The signer, the signing algorithm and the signed envelope of a message
/// that is packed with a signer.
pub open spec fn signed_inside(
    m: MessageView,
    sign_by: Option<Seq<char>>,
    known: spec_fn(Seq<char>) -> Option<DIDDocView>,
    held: spec_fn(Seq<char>) -> Option<SecretView>,
) -> Option<(Seq<char>, SignAlg, Seq<char>)> {
    match sign_by {
        Some(signer) => Some(
            (
                signing_key(signer, known, held)->Ok_0.0,
                sign_alg_of(signing_key(signer, known, held)->Ok_0.1.curve)->Some_0,
                signed_packed(m, signer, known, held)->Ok_0.0,
            ),
        ),
        None => None,
    }
}

/// The signed envelope that is inside the encrypted ones, as unpacking
/// takes it off, where the message is packed with a signer.
pub open spec fn signed_layer_inside(
    m: MessageView,
    sign_by: Option<Seq<char>>,
    known: spec_fn(Seq<char>) -> Option<DIDDocView>,
    held: spec_fn(Seq<char>) -> Option<SecretView>,
) -> Option<SignLayer> {
    match signed_inside(m, sign_by, known, held) {
        Some(s) => Some(
            SignLayer {
                payload: json_written(message_json(m)),
                sign_from: s.0,
                alg: s.1,
                signed_message: s.2,
            },
        ),
        None => None,
    }
}

/// What goes into the encrypted envelopes is no encrypted envelope itself;
/// its signed envelope, where it has one, comes off; and what is left reads
/// back as the message.
pub proof fn lemma_payload_read(
    m: MessageView,
    sign_by: Option<Seq<char>>,
    known: spec_fn(Seq<char>) -> Option<DIDDocView>,
    held: spec_fn(Seq<char>) -> Option<SecretView>,
)
    requires
        m.well_formed(),
        !taken_for_envelope(m),
        json_agrees(message_json(m)),
        payload_packed(m, sign_by, known, held) is Ok,
        match sign_by {
            Some(signer) => signature_holds(
                json_written(message_json(m)),
                signing_key(signer, known, held)->Ok_0.0,
                signing_key(signer, known, held)->Ok_0.1,
                known,
            ),
            None => true,
        },
    ensures
        ({
            let payload = payload_packed(m, sign_by, known, held)->Ok_0.0;
            let layer = signed_layer_inside(m, sign_by, known, held);
            &&& payload_packed(m, sign_by, known, held)->Ok_0.1 == match signed_inside(
                m,
                sign_by,
                known,
                held,
            ) {
                Some(s) => Some(s.0),
                None => None,
            }
            &&& read_jwe(payload) == Ok::<Option<JweView>, ErrorView>(None)
            &&& sign_layer(payload, known) == Ok::<Option<SignLayer>, ErrorView>(layer)
            &&& plaintext_of(after_sign_text(payload, layer)) == Ok::<
                MessageView,
                ErrorView,
            >(m)
        }),
{
    let content = json_written(message_json(m));
    let payload = payload_packed(m, sign_by, known, held)->Ok_0.0;
    assert(plaintext_packed(m) == Ok::<Seq<char>, ErrorView>(content));
    lemma_plaintext_read(m);
    match sign_by {
        Some(signer) => {
            let kid = signing_key(signer, known, held)->Ok_0.0;
            let key = signing_key(signer, known, held)->Ok_0.1;
            lemma_sign_layer(content, kid, key, known);
        },
        None => {
            assert(payload == content);
        },
    }
}

/// Unpacking, where each envelope comes off as it is known to: the message
/// is what is left, and the metadata are what the envelopes add, one after
/// the other.
pub proof fn lemma_unpacked_by_layers(
    text: Seq<char>,
    known: spec_fn(Seq<char>) -> Option<DIDDocView>,
    held: spec_fn(Seq<char>) -> Option<SecretView>,
    all_keys: bool,
    anon: Option<AnonLayer>,
    auth: Option<AuthLayer>,
    signed: Option<SignLayer>,
    m: MessageView,
)
    requires
        anoncrypt_layer(text, held, all_keys) == Ok::<Option<AnonLayer>, ErrorView>(anon),
        authcrypt_layer(after_anon_text(text, anon), known, held, all_keys) == Ok::<
            Option<AuthLayer>,
            ErrorView,
        >(auth),
        sign_layer(after_auth_text(after_anon_text(text, anon), auth), known) == Ok::<
            Option<SignLayer>,
            ErrorView,
        >(signed),
        plaintext_of(
            after_sign_text(after_auth_text(after_anon_text(text, anon), auth), signed),
        ) == Ok::<MessageView, ErrorView>(m),
    ensures
        unpacked(text, known, held, all_keys, false) == Ok::<
            (MessageView, UnpackMetadataView),
            ErrorView,
        >(
            (
                m,
                after_sign_metadata(
                    after_auth_metadata(after_anon_metadata(unprotected(), anon), auth),
                    signed,
                ),
            ),
        ),
{
}

/// The envelopes of a message that was packed without a sender come off:
/// the anonymous one, then the signed one where there is one.
proof fn lemma_unpacked_anonymous(
    payload: Seq<char>,
    recipients: Seq<PartyView>,
    alg: AnonCryptAlg,
    drawn: Drawn,
    known: spec_fn(Seq<char>) -> Option<DIDDocView>,
    held: spec_fn(Seq<char>) -> Option<SecretView>,
    all_keys: bool,
    signed: Option<SignLayer>,
    m: MessageView,
)
    requires
        encrypted_envelope(
            encode_utf8(payload),
            KeyManagement::EcdhEsA256kw,
            anon_encryption(alg),
            None,
            recipients,
            drawn,
        ) is Ok,
        anoncrypt_holds(payload, recipients, alg, drawn, held, all_keys),
        read_jwe(payload) == Ok::<Option<JweView>, ErrorView>(None),
        sign_layer(payload, known) == Ok::<Option<SignLayer>, ErrorView>(signed),
        plaintext_of(after_sign_text(payload, signed)) == Ok::<MessageView, ErrorView>(m),
    ensures
        unpacked(
            encrypted_envelope(
                encode_utf8(payload),
                KeyManagement::EcdhEsA256kw,
                anon_encryption(alg),
                None,
                recipients,
                drawn,
            )->Ok_0,
            known,
            held,
            all_keys,
            false,
        ) == Ok::<(MessageView, UnpackMetadataView), ErrorView>(
            (
                m,
                after_sign_metadata(
                    after_anoncrypt(
                        unprotected(),
                        AnonLayer { payload, to_kids: party_kids(recipients), alg },
                    ),
                    signed,
                ),
            ),
        ),
{
    let text = encrypted_envelope(
        encode_utf8(payload),
        KeyManagement::EcdhEsA256kw,
        anon_encryption(alg),
        None,
        recipients,
        drawn,
    )->Ok_0;
    lemma_anoncrypt_layer(payload, recipients, alg, drawn, held, all_keys);
    let anon = AnonLayer { payload, to_kids: party_kids(recipients), alg };
    assert(authcrypt_layer(payload, known, held, all_keys) == Ok::<Option<AuthLayer>, ErrorView>(
        None,
    ));
    lemma_unpacked_by_layers(text, known, held, all_keys, Some(anon), None, signed, m);
}

/// The envelopes of a message that was packed with a sender come off: the
/// anonymous one where the sender was protected, the authenticated one,
/// then the signed one where there is one.
proof fn lemma_unpacked_authenticated(
    payload: Seq<char>,
    parties: AuthParties,
    alg: AuthCryptAlg,
    alg_anon: AnonCryptAlg,
    protect_sender: bool,
    inner: Drawn,
    outer: Drawn,
    known: spec_fn(Seq<char>) -> Option<DIDDocView>,
    held: spec_fn(Seq<char>) -> Option<SecretView>,
    all_keys: bool,
    signed: Option<SignLayer>,
    m: MessageView,
)
    requires
        authcrypted(encode_utf8(payload), parties, alg, alg_anon, protect_sender, inner, outer)
            is Ok,
        authcrypt_holds(payload, parties, alg, inner, known, held, all_keys),
        protect_sender ==> anoncrypt_holds(
            encrypted_envelope(
                encode_utf8(payload),
                KeyManagement::Ecdh1puA256kw,
                auth_encryption(alg),
                Some(parties.sender),
                parties.recipients,
                inner,
            )->Ok_0,
            parties.recipients,
            alg_anon,
            outer,
            held,
            all_keys,
        ),
        sign_layer(payload, known) == Ok::<Option<SignLayer>, ErrorView>(signed),
        plaintext_of(after_sign_text(payload, signed)) == Ok::<MessageView, ErrorView>(m),
    ensures
        unpacked(
            authcrypted(
                encode_utf8(payload),
                parties,
                alg,
                alg_anon,
                protect_sender,
                inner,
                outer,
            )->Ok_0,
            known,
            held,
            all_keys,
            false,
        ) == Ok::<(MessageView, UnpackMetadataView), ErrorView>(
            (
                m,
                after_sign_metadata(
                    after_authcrypt(
                        if protect_sender {
                            after_anoncrypt(
                                unprotected(),
                                AnonLayer {
                                    payload: encrypted_envelope(
                                        encode_utf8(payload),
                                        KeyManagement::Ecdh1puA256kw,
                                        auth_encryption(alg),
                                        Some(parties.sender),
                                        parties.recipients,
                                        inner,
                                    )->Ok_0,
                                    to_kids: party_kids(parties.recipients),
                                    alg: alg_anon,
                                },
                            )
                        } else {
                            unprotected()
                        },
                        AuthLayer {
                            payload,
                            from_kid: parties.sender.kid,
                            to_kids: party_kids(parties.recipients),
                            alg: AuthCryptAlg::A256cbcHs512Ecdh1puA256kw,
                        },
                    ),
                    signed,
                ),
            ),
        ),
{
    let text = authcrypted(
        encode_utf8(payload),
        parties,
        alg,
        alg_anon,
        protect_sender,
        inner,
        outer,
    )->Ok_0;
    let envelope = encrypted_envelope(
        encode_utf8(payload),
        KeyManagement::Ecdh1puA256kw,
        auth_encryption(alg),
        Some(parties.sender),
        parties.recipients,
        inner,
    )->Ok_0;
    lemma_authcrypt_layer(payload, parties, alg, inner, known, held, all_keys);
    let auth = AuthLayer {
        payload,
        from_kid: parties.sender.kid,
        to_kids: party_kids(parties.recipients),
        alg: AuthCryptAlg::A256cbcHs512Ecdh1puA256kw,
    };
    if protect_sender {
        lemma_anoncrypt_layer(envelope, parties.recipients, alg_anon, outer, held, all_keys);
        let anon = AnonLayer {
            payload: envelope,
            to_kids: party_kids(parties.recipients),
            alg: alg_anon,
        };
        lemma_unpacked_by_layers(text, known, held, all_keys, Some(anon), Some(auth), signed, m);
    } else {
        assert(text == envelope);
        lemma_unpacked_by_layers(text, known, held, all_keys, None, Some(auth), signed, m);
    }
}

/// A message that was packed in an encrypted envelope unpacks to the same
/// message, with metadata that tell how it was packed: encrypted for the
/// recipients that packing named, authenticated where a sender or a signer
/// was given, not to be repudiated where a signer was given, the sender
/// anonymous where none was given or it was to be protected, and signer and
/// sender as packing named them. This holds of every message that keeps the
/// rules of a message and cannot be taken for an envelope, of every
/// recipient, every sender and every signer, with or without protection of
/// the sender, whether one key or every key is to open the envelopes, where
/// the primitives keep their promises for what was packed.
pub proof fn law_encrypted_round_trip(
    m: MessageView,
    to: Seq<char>,
    from: Option<Seq<char>>,
    sign_by: Option<Seq<char>>,
    known: spec_fn(Seq<char>) -> Option<DIDDocView>,
    held: spec_fn(Seq<char>) -> Option<SecretView>,
    held_by_recipient: spec_fn(Seq<char>) -> Option<SecretView>,
    all_keys: bool,
    protect_sender: bool,
    enc_alg_auth: AuthCryptAlg,
    enc_alg_anon: AnonCryptAlg,
    inner: Drawn,
    outer: Drawn,
)
    requires
        m.well_formed(),
        !taken_for_envelope(m),
        encrypted_packed(
            m,
            to,
            from,
            sign_by,
            known,
            held,
            protect_sender,
            enc_alg_auth,
            enc_alg_anon,
            inner,
            outer,
        ) is Ok,
        packing_holds(
            m,
            to,
            from,
            sign_by,
            known,
            held,
            held_by_recipient,
            all_keys,
            protect_sender,
            enc_alg_auth,
            enc_alg_anon,
            inner,
            outer,
        ),
    ensures
        ({
            let (text, packed) = encrypted_packed(
                m,
                to,
                from,
                sign_by,
                known,
                held,
                protect_sender,
                enc_alg_auth,
                enc_alg_anon,
                inner,
                outer,
            )->Ok_0;
            &&& (packed.from_kid is Some) == (from is Some)
            &&& (packed.sign_by_kid is Some) == (sign_by is Some)
            &&& unpacked(text, known, held_by_recipient, all_keys, false) == Ok::<
                (MessageView, UnpackMetadataView),
                ErrorView,
            >(
                (
                    m,
                    packed_metadata(
                        packed.from_kid,
                        packed.to_kids,
                        signed_inside(m, sign_by, known, held),
                        protect_sender,
                        enc_alg_auth,
                        enc_alg_anon,
                    ),
                ),
            )
        }),
{
    let (text, packed) = encrypted_packed(
        m,
        to,
        from,
        sign_by,
        known,
        held,
        protect_sender,
        enc_alg_auth,
        enc_alg_anon,
        inner,
        outer,
    )->Ok_0;
    let payload = payload_packed(m, sign_by, known, held)->Ok_0.0;
    let signed = signed_layer_inside(m, sign_by, known, held);
    lemma_payload_read(m, sign_by, known, held);
    match from {
        None => {
            lemma_unpacked_anonymous(
                payload,
                anoncrypt_recipients(to, known)->Ok_0,
                enc_alg_anon,
                inner,
                known,
                held_by_recipient,
                all_keys,
                signed,
                m,
            );
        },
        Some(sender) => {
            lemma_unpacked_authenticated(
                payload,
                authcrypt_parties(to, sender, known, held)->Ok_0,
                enc_alg_auth,
                enc_alg_anon,
                protect_sender,
                inner,
                outer,
                known,
                held_by_recipient,
                all_keys,
                signed,
                m,
            );
        },
    }
}

} // verus!
