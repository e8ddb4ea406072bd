//! An encrypted envelope that was written is read back as the envelope it
//! is, where JSON and base64url keep their promises.

use crate::crypto::{a256kw_wrapped, content_sealed, ContentEncryption};
use crate::encoding::{base64url_encoded, base64url_strict, utf8_text};
use crate::error::ErrorView;
use crate::json::{json_read, json_written, member, JsonValue};
use crate::jwe::encrypt::{
    apu_bytes, apu_text, encrypted_envelope, encrypted_typ, ephemeral_public, jwe_header,
    jwe_header_members, jwe_json, jwe_members, key_management_name, kid_of, party_kids,
    recipient_json, recipient_members, sending_key, wrapped_for, wrapped_for_all, Drawn, PartyView,
};
use crate::jwe::envelope::{
    content_encryption_name, content_encryption_of, key_management_of, kids_of, JweView,
    KeyManagement, RecipientView,
};
use crate::jwe::parse::{
    apv_of, assemble, decoded_optional, header_fields, header_of, looks_like_jwe, read_jwe,
    recipient_of, recipients_of, shape_of, HeaderView, JweShape,
};
use crate::message::codec::{optional_member, text_json};
use crate::message::round_trip::{
    lemma_member_concat, lemma_member_one, lemma_member_optional, named, or_else,
};
use crate::ordered::{lemma_sorted_lookup, lemma_sorted_lookups, ordered};
use vstd::prelude::*;
use vstd::utf8::{encode_utf8, encode_utf8_decode_utf8, encode_utf8_valid_utf8};

verus! {

/// Whether JSON that is written is read back as it was. A reader that
/// keeps the members of an object by name hands them back in the order of
/// the names, each name once: this can hold only of values whose objects
/// are written that way, as are all that the library writes.
pub open spec fn json_agrees(v: JsonValue) -> bool {
    json_read(json_written(v)) == Ok::<JsonValue, Seq<char>>(v)
}

/// Whether bytes that are encoded in base64url decode to themselves.
pub open spec fn base64_agrees(bytes: Seq<u8>) -> bool {
    base64url_strict(base64url_encoded(bytes)) == Ok::<Seq<u8>, Seq<char>>(bytes)
}

/// A text, written in UTF-8, reads back as itself.
pub proof fn lemma_utf8_round_trip(text: Seq<char>)
    ensures
        utf8_text(encode_utf8(text)) == Some(text),
{
    encode_utf8_valid_utf8(text);
    encode_utf8_decode_utf8(text);
}

/// The content key as it is wrapped for one recipient.
pub open spec fn wrapped_key(
    alg: KeyManagement,
    epk: Seq<char>,
    sender: Option<PartyView>,
    recipient: PartyView,
    apv: Seq<u8>,
    tag: Seq<u8>,
    cek: Seq<u8>,
) -> Seq<u8> {
    a256kw_wrapped(sending_key(alg, epk, sender, recipient, apv, tag)->Ok_0, cek)->Ok_0
}

/// The recipients of an envelope as they stand in it.
pub open spec fn envelope_recipients(
    alg: KeyManagement,
    epk: Seq<char>,
    sender: Option<PartyView>,
    recipients: Seq<PartyView>,
    apv: Seq<u8>,
    tag: Seq<u8>,
    cek: Seq<u8>,
) -> Seq<RecipientView> {
    Seq::new(
        recipients.len(),
        |i: int|
            RecipientView {
                kid: recipients[i].kid,
                encrypted_key: base64url_encoded(
                    wrapped_key(alg, epk, sender, recipients[i], apv, tag, cek),
                ),
            },
    )
}

/// A recipient that was written as JSON is read back as it was.
pub proof fn lemma_recipient_read(kid: Seq<char>, encrypted_key: Seq<char>)
    ensures
        recipient_of(recipient_json(kid, encrypted_key)) == Some(
            RecipientView { kid, encrypted_key },
        ),
{
    reveal_strlit("header");
    reveal_strlit("encrypted_key");
    reveal_strlit("kid");
    assert("header"@.len() == 6 && "encrypted_key"@.len() == 13 && "kid"@.len() == 3);
    let head = ordered(seq![("kid"@, JsonValue::Str(kid))]);
    let part0 = seq![("header"@, head)];
    let part1 = seq![("encrypted_key"@, JsonValue::Str(encrypted_key))];
    assert(recipient_members(kid, encrypted_key) =~= part0 + part1);
    lemma_sorted_lookups(recipient_members(kid, encrypted_key));
    lemma_sorted_lookups(seq![("kid"@, JsonValue::Str(kid))]);
    lemma_member_concat(part0, part1, "header"@);
    lemma_member_concat(part0, part1, "encrypted_key"@);
    lemma_member_one("header"@, head, "header"@);
    lemma_member_one("header"@, head, "encrypted_key"@);
    lemma_member_one("encrypted_key"@, JsonValue::Str(encrypted_key), "encrypted_key"@);
    lemma_member_one("kid"@, JsonValue::Str(kid), "kid"@);
}

/// Where the content key was wrapped for all recipients, it was wrapped for
/// each, and the list that was written is read back as the recipients of
/// the envelope.
pub proof fn lemma_recipients_read(
    alg: KeyManagement,
    epk: Seq<char>,
    sender: Option<PartyView>,
    recipients: Seq<PartyView>,
    apv: Seq<u8>,
    tag: Seq<u8>,
    cek: Seq<u8>,
)
    requires
        wrapped_for_all(alg, epk, sender, recipients, apv, tag, cek) is Ok,
    ensures
        recipients_of(wrapped_for_all(alg, epk, sender, recipients, apv, tag, cek)->Ok_0) == Some(
            envelope_recipients(alg, epk, sender, recipients, apv, tag, cek),
        ),
        forall|i: int|
            0 <= i < recipients.len() ==> (#[trigger] sending_key(
                alg,
                epk,
                sender,
                recipients[i],
                apv,
                tag,
            )) is Ok && a256kw_wrapped(
                sending_key(alg, epk, sender, recipients[i], apv, tag)->Ok_0,
                cek,
            ) is Ok,
    decreases recipients.len(),
{
    let all = wrapped_for_all(alg, epk, sender, recipients, apv, tag, cek)->Ok_0;
    let expected = envelope_recipients(alg, epk, sender, recipients, apv, tag, cek);
    if recipients.len() == 0 {
        assert(expected =~= Seq::<RecipientView>::empty());
    } else {
        let before = recipients.drop_last();
        let last = recipients.last();
        lemma_recipients_read(alg, epk, sender, before, apv, tag, cek);
        let w_before = wrapped_for_all(alg, epk, sender, before, apv, tag, cek)->Ok_0;
        let w_last = wrapped_for(alg, epk, sender, last, apv, tag, cek)->Ok_0;
        assert(all == w_before.push(w_last));
        assert(all.drop_last() =~= w_before);
        assert(all.last() == w_last);
        let ek = base64url_encoded(wrapped_key(alg, epk, sender, last, apv, tag, cek));
        assert(w_last == recipient_json(last.kid, ek));
        lemma_recipient_read(last.kid, ek);
        assert(expected =~= envelope_recipients(alg, epk, sender, before, apv, tag, cek).push(
            RecipientView { kid: last.kid, encrypted_key: ek },
        ));
        assert forall|i: int| 0 <= i < recipients.len() implies (#[trigger] sending_key(
            alg,
            epk,
            sender,
            recipients[i],
            apv,
            tag,
        )) is Ok && a256kw_wrapped(
            sending_key(alg, epk, sender, recipients[i], apv, tag)->Ok_0,
            cek,
        ) is Ok by {
            if i < recipients.len() - 1 {
                assert(before[i] == recipients[i]);
            } else {
                assert(recipients[i] == last);
            }
        }
    }
}

/// The key ids of the recipients as they stand in the envelope are the key
/// ids of the parties.
pub proof fn lemma_envelope_kids(
    alg: KeyManagement,
    epk: Seq<char>,
    sender: Option<PartyView>,
    recipients: Seq<PartyView>,
    apv: Seq<u8>,
    tag: Seq<u8>,
    cek: Seq<u8>,
)
    ensures
        kids_of(envelope_recipients(alg, epk, sender, recipients, apv, tag, cek)) == party_kids(
            recipients,
        ),
{
    assert(kids_of(envelope_recipients(alg, epk, sender, recipients, apv, tag, cek))
        =~= party_kids(recipients));
}

/// The names of the key managements and of the content encryptions name
/// what they are names of.
pub proof fn lemma_algorithm_names(alg: KeyManagement, enc: ContentEncryption)
    requires
        alg != KeyManagement::Other,
    ensures
        key_management_of(key_management_name(alg)) == alg,
        content_encryption_of(content_encryption_name(enc)) == Some(enc),
{
    reveal_strlit("ECDH-ES+A256KW");
    reveal_strlit("ECDH-1PU+A256KW");
    reveal_strlit("A256CBC-HS512");
    reveal_strlit("XC20P");
    reveal_strlit("A256GCM");
    assert("ECDH-ES+A256KW"@.len() == 14 && "ECDH-1PU+A256KW"@.len() == 15);
    assert("A256CBC-HS512"@.len() == 13 && "XC20P"@.len() == 5 && "A256GCM"@.len() == 7);
}

/// The protected header of an envelope, as it is read back.
pub open spec fn header_read(
    alg: KeyManagement,
    enc: ContentEncryption,
    sender: Option<PartyView>,
    apv: Seq<u8>,
    epk: JsonValue,
) -> HeaderView {
    HeaderView {
        typ: Some(encrypted_typ()),
        alg: key_management_name(alg),
        enc: content_encryption_name(enc),
        skid: kid_of(sender),
        apu: apu_text(sender),
        apv: base64url_encoded(apv),
        epk: json_written(epk),
    }
}

/// Looking a name up in a protected header that was written as JSON: the
/// first member of that name, in the order in which the members are
/// written.
pub proof fn lemma_header_lookup(
    alg: KeyManagement,
    enc: ContentEncryption,
    sender: Option<PartyView>,
    apv: Seq<u8>,
    epk: JsonValue,
    key: Seq<char>,
)
    ensures
        member(jwe_header(alg, enc, sender, apv, epk)->Object_0, key) == or_else(
            named("typ"@, Some(JsonValue::Str(encrypted_typ())), key),
            or_else(
                named("alg"@, Some(JsonValue::Str(key_management_name(alg))), key),
                or_else(
                    named("enc"@, Some(JsonValue::Str(content_encryption_name(enc))), key),
                    or_else(
                        named("skid"@, text_json(kid_of(sender)), key),
                        or_else(
                            named("apu"@, text_json(apu_text(sender)), key),
                            or_else(
                                named("apv"@, Some(JsonValue::Str(base64url_encoded(apv))), key),
                                named("epk"@, Some(epk), key),
                            ),
                        ),
                    ),
                ),
            ),
        ),
{
    let part0 = seq![("typ"@, JsonValue::Str(encrypted_typ()))];
    let part1 = seq![("alg"@, JsonValue::Str(key_management_name(alg)))];
    let part2 = seq![("enc"@, JsonValue::Str(content_encryption_name(enc)))];
    let part3 = optional_member("skid"@, text_json(kid_of(sender)));
    let part4 = optional_member("apu"@, text_json(apu_text(sender)));
    let part5 = seq![("apv"@, JsonValue::Str(base64url_encoded(apv)))];
    let part6 = seq![("epk"@, epk)];
    assert(seq![
        ("typ"@, JsonValue::Str(encrypted_typ())),
        ("alg"@, JsonValue::Str(key_management_name(alg))),
        ("enc"@, JsonValue::Str(content_encryption_name(enc))),
    ] =~= part0 + part1 + part2);
    assert(seq![("apv"@, JsonValue::Str(base64url_encoded(apv))), ("epk"@, epk)] =~= part5 + part6);
    assert(jwe_header_members(alg, enc, sender, apv, epk) =~= part0 + part1 + part2 + part3 + part4
        + part5 + part6);
    lemma_sorted_lookup(jwe_header_members(alg, enc, sender, apv, epk), key);
    lemma_member_concat(part0 + part1 + part2 + part3 + part4 + part5, part6, key);
    lemma_member_concat(part0 + part1 + part2 + part3 + part4, part5, key);
    lemma_member_concat(part0 + part1 + part2 + part3, part4, key);
    lemma_member_concat(part0 + part1 + part2, part3, key);
    lemma_member_concat(part0 + part1, part2, key);
    lemma_member_concat(part0, part1, key);
    lemma_member_one("typ"@, JsonValue::Str(encrypted_typ()), key);
    lemma_member_one("alg"@, JsonValue::Str(key_management_name(alg)), key);
    lemma_member_one("enc"@, JsonValue::Str(content_encryption_name(enc)), key);
    lemma_member_optional("skid"@, text_json(kid_of(sender)), key);
    lemma_member_optional("apu"@, text_json(apu_text(sender)), key);
    lemma_member_one("apv"@, JsonValue::Str(base64url_encoded(apv)), key);
    lemma_member_one("epk"@, epk, key);
}

/// A protected header that was written as JSON is read back as it was.
pub proof fn lemma_header_fields(
    alg: KeyManagement,
    enc: ContentEncryption,
    sender: Option<PartyView>,
    apv: Seq<u8>,
    epk: JsonValue,
)
    ensures
        header_fields(jwe_header(alg, enc, sender, apv, epk)) == Ok::<HeaderView, ErrorView>(
            header_read(alg, enc, sender, apv, epk),
        ),
{
    reveal_strlit("typ");
    reveal_strlit("alg");
    reveal_strlit("enc");
    reveal_strlit("skid");
    reveal_strlit("apu");
    reveal_strlit("apv");
    reveal_strlit("epk");
    assert("typ"@.len() == 3 && "alg"@.len() == 3 && "enc"@.len() == 3 && "skid"@.len() == 4);
    assert("apu"@.len() == 3 && "apv"@.len() == 3 && "epk"@.len() == 3);
    assert("typ"@[0] == 't' && "alg"@[0] == 'a' && "enc"@[0] == 'e');
    assert("apu"@[0] == 'a' && "apv"@[0] == 'a' && "epk"@[0] == 'e');
    assert("alg"@[1] == 'l' && "apu"@[1] == 'p' && "apv"@[1] == 'p');
    assert("enc"@[1] == 'n' && "epk"@[1] == 'p');
    assert("apu"@[2] == 'u' && "apv"@[2] == 'v');
    lemma_header_lookup(alg, enc, sender, apv, epk, "typ"@);
    lemma_header_lookup(alg, enc, sender, apv, epk, "alg"@);
    lemma_header_lookup(alg, enc, sender, apv, epk, "enc"@);
    lemma_header_lookup(alg, enc, sender, apv, epk, "skid"@);
    lemma_header_lookup(alg, enc, sender, apv, epk, "apu"@);
    lemma_header_lookup(alg, enc, sender, apv, epk, "apv"@);
    lemma_header_lookup(alg, enc, sender, apv, epk, "epk"@);
}

/// The members that make an envelope, written as JSON, are read back as
/// they were.
pub proof fn lemma_shape_read(
    protected: Seq<char>,
    wrapped: Seq<JsonValue>,
    recipients: Seq<RecipientView>,
    iv: Seq<u8>,
    ciphertext: Seq<u8>,
    tag: Seq<u8>,
)
    requires
        recipients_of(wrapped) == Some(recipients),
    ensures
        shape_of(jwe_json(protected, wrapped, iv, ciphertext, tag)) == Some(
            JweShape {
                protected,
                recipients,
                iv: base64url_encoded(iv),
                ciphertext: base64url_encoded(ciphertext),
                tag: base64url_encoded(tag),
            },
        ),
{
    reveal_strlit("protected");
    reveal_strlit("recipients");
    reveal_strlit("iv");
    reveal_strlit("ciphertext");
    reveal_strlit("tag");
    assert("protected"@.len() == 9 && "recipients"@.len() == 10 && "iv"@.len() == 2);
    assert("ciphertext"@.len() == 10 && "tag"@.len() == 3);
    assert("recipients"@[0] == 'r' && "ciphertext"@[0] == 'c');
    let j = jwe_json(protected, wrapped, iv, ciphertext, tag);
    let part0 = seq![("protected"@, JsonValue::Str(protected))];
    let part1 = seq![("recipients"@, JsonValue::Array(wrapped))];
    let part2 = seq![("iv"@, JsonValue::Str(base64url_encoded(iv)))];
    let part3 = seq![("ciphertext"@, JsonValue::Str(base64url_encoded(ciphertext)))];
    let part4 = seq![("tag"@, JsonValue::Str(base64url_encoded(tag)))];
    assert(jwe_members(protected, wrapped, iv, ciphertext, tag) =~= part0 + part1 + part2 + part3
        + part4);
    lemma_sorted_lookups(jwe_members(protected, wrapped, iv, ciphertext, tag));
    assert forall|key: Seq<char>|
        #[trigger] member(j->Object_0, key) == or_else(
            named("protected"@, Some(JsonValue::Str(protected)), key),
            or_else(
                named("recipients"@, Some(JsonValue::Array(wrapped)), key),
                or_else(
                    named("iv"@, Some(JsonValue::Str(base64url_encoded(iv))), key),
                    or_else(
                        named(
                            "ciphertext"@,
                            Some(JsonValue::Str(base64url_encoded(ciphertext))),
                            key,
                        ),
                        named("tag"@, Some(JsonValue::Str(base64url_encoded(tag))), key),
                    ),
                ),
            ),
        ) by {
        lemma_member_concat(part0 + part1 + part2 + part3, part4, key);
        lemma_member_concat(part0 + part1 + part2, part3, key);
        lemma_member_concat(part0 + part1, part2, key);
        lemma_member_concat(part0, part1, key);
        lemma_member_one("protected"@, JsonValue::Str(protected), key);
        lemma_member_one("recipients"@, JsonValue::Array(wrapped), key);
        lemma_member_one("iv"@, JsonValue::Str(base64url_encoded(iv)), key);
        lemma_member_one("ciphertext"@, JsonValue::Str(base64url_encoded(ciphertext)), key);
        lemma_member_one("tag"@, JsonValue::Str(base64url_encoded(tag)), key);
    }
    assert(j.text_field("protected"@) == Some(protected));
    assert(j.field("recipients"@) == Some(JsonValue::Array(wrapped)));
    assert(j.text_field("iv"@) == Some(base64url_encoded(iv)));
    assert(j.text_field("ciphertext"@) == Some(base64url_encoded(ciphertext)));
    assert(j.text_field("tag"@) == Some(base64url_encoded(tag)));
}

/// What making an envelope goes through.
pub ghost struct Made {
    /// The ephemeral key pair, a JSON Web Key as JSON text.
    pub epk: Seq<char>,
    /// The ephemeral public key, as JSON.
    pub epk_json: JsonValue,
    /// `apv`: the digest of the recipients' key ids.
    pub apv: Seq<u8>,
    /// The protected header as it stands in the envelope.
    pub protected: Seq<char>,
    /// The ciphertext.
    pub ciphertext: Seq<u8>,
    /// The tag of the content encryption.
    pub tag: Seq<u8>,
}

/// What making an envelope goes through, where it makes one.
pub open spec fn made(
    plaintext: Seq<u8>,
    alg: KeyManagement,
    enc: ContentEncryption,
    sender: Option<PartyView>,
    recipients: Seq<PartyView>,
    drawn: Drawn,
) -> Made {
    let (epk, epk_json) = ephemeral_public(drawn.epk)->Ok_0;
    let apv = apv_of(party_kids(recipients));
    let protected = base64url_encoded(
        encode_utf8(json_written(jwe_header(alg, enc, sender, apv, epk_json))),
    );
    let (sealed, len) = content_sealed(
        enc,
        drawn.cek,
        plaintext,
        drawn.iv,
        encode_utf8(protected),
    )->Ok_0;
    Made {
        epk,
        epk_json,
        apv,
        protected,
        ciphertext: sealed.subrange(0, len as int),
        tag: sealed.subrange(len as int, sealed.len() as int),
    }
}

/// The envelope that was made, as it is read back.
pub open spec fn envelope_as_read(
    plaintext: Seq<u8>,
    alg: KeyManagement,
    enc: ContentEncryption,
    sender: Option<PartyView>,
    recipients: Seq<PartyView>,
    drawn: Drawn,
) -> JweView {
    let m = made(plaintext, alg, enc, sender, recipients, drawn);
    JweView {
        protected: m.protected,
        typ: Some(encrypted_typ()),
        alg,
        enc: Some(enc),
        skid: kid_of(sender),
        apu: match sender {
            Some(p) => Some(encode_utf8(p.kid)),
            None => None,
        },
        apv: m.apv,
        epk: json_written(m.epk_json),
        recipients: envelope_recipients(alg, m.epk, sender, recipients, m.apv, m.tag, drawn.cek),
        iv: drawn.iv,
        ciphertext: m.ciphertext,
        tag: m.tag,
    }
}

/// Whether what an envelope is written in keeps its promises for this
/// envelope: its JSON and its base64url read back as they were written.
pub open spec fn envelope_agrees(
    plaintext: Seq<u8>,
    alg: KeyManagement,
    enc: ContentEncryption,
    sender: Option<PartyView>,
    recipients: Seq<PartyView>,
    drawn: Drawn,
) -> bool {
    let m = made(plaintext, alg, enc, sender, recipients, drawn);
    let header = jwe_header(alg, enc, sender, m.apv, m.epk_json);
    let wrapped = wrapped_for_all(alg, m.epk, sender, recipients, m.apv, m.tag, drawn.cek)->Ok_0;
    &&& json_agrees(header)
    &&& json_agrees(jwe_json(m.protected, wrapped, drawn.iv, m.ciphertext, m.tag))
    &&& base64_agrees(encode_utf8(json_written(header)))
    &&& base64_agrees(m.apv)
    &&& base64_agrees(drawn.iv)
    &&& base64_agrees(m.ciphertext)
    &&& base64_agrees(m.tag)
    &&& base64_agrees(apu_bytes(sender))
}

/// An envelope that was made and written is read back as the envelope it
/// is, where its JSON and its base64url read back as they were written.
pub proof fn lemma_envelope_read(
    plaintext: Seq<u8>,
    alg: KeyManagement,
    enc: ContentEncryption,
    sender: Option<PartyView>,
    recipients: Seq<PartyView>,
    drawn: Drawn,
)
    requires
        alg != KeyManagement::Other,
        encrypted_envelope(plaintext, alg, enc, sender, recipients, drawn) is Ok,
        envelope_agrees(plaintext, alg, enc, sender, recipients, drawn),
    ensures
        read_jwe(encrypted_envelope(plaintext, alg, enc, sender, recipients, drawn)->Ok_0) == Ok::<
            Option<JweView>,
            ErrorView,
        >(Some(envelope_as_read(plaintext, alg, enc, sender, recipients, drawn))),
{
    let text = encrypted_envelope(plaintext, alg, enc, sender, recipients, drawn)->Ok_0;
    let m = made(plaintext, alg, enc, sender, recipients, drawn);
    let header = jwe_header(alg, enc, sender, m.apv, m.epk_json);
    let wrapped = wrapped_for_all(alg, m.epk, sender, recipients, m.apv, m.tag, drawn.cek)->Ok_0;
    let j = jwe_json(m.protected, wrapped, drawn.iv, m.ciphertext, m.tag);
    assert(text == json_written(j));
    lemma_recipients_read(alg, m.epk, sender, recipients, m.apv, m.tag, drawn.cek);
    let listed = envelope_recipients(alg, m.epk, sender, recipients, m.apv, m.tag, drawn.cek);
    lemma_shape_read(m.protected, wrapped, listed, drawn.iv, m.ciphertext, m.tag);
    let shape = JweShape {
        protected: m.protected,
        recipients: listed,
        iv: base64url_encoded(drawn.iv),
        ciphertext: base64url_encoded(m.ciphertext),
        tag: base64url_encoded(m.tag),
    };
    assert(looks_like_jwe(text));
    lemma_utf8_round_trip(json_written(header));
    lemma_header_fields(alg, enc, sender, m.apv, m.epk_json);
    let read = header_read(alg, enc, sender, m.apv, m.epk_json);
    assert(header_of(m.protected) == Ok::<HeaderView, ErrorView>(read));
    lemma_algorithm_names(alg, enc);
    lemma_envelope_kids(alg, m.epk, sender, recipients, m.apv, m.tag, drawn.cek);
    match sender {
        Some(p) => {
            assert(decoded_optional(read.apu, "Unable decode apu"@) == Ok::<
                Option<Seq<u8>>,
                ErrorView,
            >(Some(encode_utf8(p.kid))));
        },
        None => {},
    }
    assert(assemble(shape, read) == Ok::<JweView, ErrorView>(
        envelope_as_read(plaintext, alg, enc, sender, recipients, drawn),
    ));
}

} // verus!
