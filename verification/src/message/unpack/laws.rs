//! What holds of every unpacking.

use crate::did::DIDDocView;
use crate::error::ErrorView;
use crate::jwe::envelope::KeyManagement;
use crate::jwe::parse::{looks_like_jwe, read_jwe, shape_of};
use crate::json::{json_read, json_written, JsonValue};
use crate::jws::parse::{jws_shape_of, looks_like_jws, read_jws};
use crate::message::codec::{message_json, message_read};
use crate::message::pack_plaintext::plaintext_packed;
use crate::message::round_trip::law_message_json_round_trip;
use crate::message::unpack::anoncrypt::{anon_alg_of, anoncrypt_layer};
use crate::message::unpack::authcrypt::authcrypt_layer;
use crate::message::unpack::sign::sign_layer;
use crate::message::unpack::{
    forward_unsupported, plaintext_of, unpacked, unprotected, UnpackMetadataView,
};
use crate::message::{plaintext_typ, MessageView};
use crate::secrets::SecretView;
use vstd::prelude::*;

verus! {

/// Whether the JSON of a message could be taken for an envelope: its custom
/// headers give it the members of an encrypted or of a signed one.
pub open spec fn taken_for_envelope(m: MessageView) -> bool {
    shape_of(message_json(m)) is Some || jws_shape_of(message_json(m)) is Some
}

/// A plaintext that was packed unpacks to the same message, with metadata
/// that tell of no protection: nothing was encrypted, authenticated or
/// signed. This holds of every message that keeps the rules of a message,
/// has the `typ` of a plaintext and cannot be taken for an envelope,
/// whatever the resolvers know and hold, where the JSON that was written is
/// read back as the JSON it was written from.
pub proof fn law_plaintext_round_trip(
    m: MessageView,
    known: spec_fn(Seq<char>) -> Option<DIDDocView>,
    held: spec_fn(Seq<char>) -> Option<SecretView>,
    all_keys: bool,
)
    requires
        m.well_formed(),
        m.typ == plaintext_typ(),
        !taken_for_envelope(m),
        json_read(json_written(message_json(m))) == Ok::<JsonValue, Seq<char>>(message_json(m)),
    ensures
        plaintext_packed(m) is Ok,
        unpacked(plaintext_packed(m)->Ok_0, known, held, all_keys, false) == Ok::<
            (MessageView, UnpackMetadataView),
            ErrorView,
        >((m, unprotected())),
{
    let text = json_written(message_json(m));
    law_message_json_round_trip(m);
    assert(!looks_like_jwe(text));
    assert(!looks_like_jws(text));
    assert(read_jwe(text) == Ok::<Option<crate::jwe::envelope::JweView>, ErrorView>(None));
    assert(anoncrypt_layer(text, held, all_keys) is Ok);
    assert(authcrypt_layer(text, known, held, all_keys) is Ok);
    assert(sign_layer(text, known) is Ok);
    assert(message_read(text) == Ok::<MessageView, ErrorView>(m));
}

/// A request to unwrap a forward is refused, whatever the message.
pub proof fn law_forward_refused(
    text: Seq<char>,
    known: spec_fn(Seq<char>) -> Option<DIDDocView>,
    held: spec_fn(Seq<char>) -> Option<SecretView>,
    all_keys: bool,
)
    ensures
        unpacked(text, known, held, all_keys, true) == Err::<
            (MessageView, UnpackMetadataView),
            ErrorView,
        >(forward_unsupported()),
{
}

/// A text that is neither an encrypted nor a signed envelope unpacks as a
/// plaintext: to the message it holds and metadata that tell of no
/// protection, or to the error of the plaintext.
pub proof fn law_bare_text(
    text: Seq<char>,
    known: spec_fn(Seq<char>) -> Option<DIDDocView>,
    held: spec_fn(Seq<char>) -> Option<SecretView>,
    all_keys: bool,
)
    requires
        !looks_like_jwe(text),
        !looks_like_jws(text),
    ensures
        unpacked(text, known, held, all_keys, false) == match plaintext_of(text) {
            Ok(m) => Ok::<(MessageView, UnpackMetadataView), ErrorView>((m, unprotected())),
            Err(e) => Err::<(MessageView, UnpackMetadataView), ErrorView>(e),
        },
{
}

/// The metadata of every message that unpacks are consistent: the message
/// was encrypted exactly where recipients are named; the sender is
/// anonymous exactly where an anonymous envelope was taken off; a sender
/// key is named exactly where an authenticated envelope was; signer,
/// signing algorithm and signed message are there exactly where the message
/// cannot be repudiated; it is authenticated exactly where it was in an
/// authenticated envelope or signed; and it was not re-wrapped in a
/// forward. The message has the `typ` of a plaintext.
pub proof fn law_metadata_consistent(
    text: Seq<char>,
    known: spec_fn(Seq<char>) -> Option<DIDDocView>,
    held: spec_fn(Seq<char>) -> Option<SecretView>,
    all_keys: bool,
    unwrap_forward: bool,
)
    requires
        unpacked(text, known, held, all_keys, unwrap_forward) is Ok,
    ensures
        ({
            let (m, md) = unpacked(text, known, held, all_keys, unwrap_forward)->Ok_0;
            &&& m.typ == plaintext_typ()
            &&& !unwrap_forward
            &&& !md.re_wrapped_in_forward
            &&& md.encrypted == (md.encrypted_to_kids is Some)
            &&& md.encrypted == (md.enc_alg_anon is Some || md.enc_alg_auth is Some)
            &&& md.anonymous_sender == (md.enc_alg_anon is Some)
            &&& (md.encrypted_from_kid is Some) == (md.enc_alg_auth is Some)
            &&& md.non_repudiation == (md.sign_from is Some)
            &&& md.non_repudiation == (md.sign_alg is Some)
            &&& md.non_repudiation == (md.signed_message is Some)
            &&& md.authenticated == (md.enc_alg_auth is Some || md.non_repudiation)
        }),
{
}

/// Where the packed text is an anonymous envelope, the metadata of the
/// message that unpacks say so: it was encrypted, for the recipients that
/// the envelope names, with the algorithm of the envelope, and the sender
/// is anonymous.
pub proof fn law_anoncrypt_noted(
    text: Seq<char>,
    known: spec_fn(Seq<char>) -> Option<DIDDocView>,
    held: spec_fn(Seq<char>) -> Option<SecretView>,
    all_keys: bool,
)
    requires
        unpacked(text, known, held, all_keys, false) is Ok,
        read_jwe(text) is Ok,
        read_jwe(text)->Ok_0 is Some,
        read_jwe(text)->Ok_0->Some_0.alg == KeyManagement::EcdhEsA256kw,
    ensures
        ({
            let (m, md) = unpacked(text, known, held, all_keys, false)->Ok_0;
            let jwe = read_jwe(text)->Ok_0->Some_0;
            &&& md.encrypted
            &&& md.anonymous_sender
            &&& md.encrypted_to_kids == Some(jwe.kids())
            &&& jwe.enc is Some
            &&& md.enc_alg_anon == Some(anon_alg_of(jwe.enc->Some_0))
        }),
{
}

/// Where the packed text is an authenticated envelope, the metadata of the
/// message that unpacks say so: it was encrypted and authenticated, for
/// the recipients that the envelope names, by the sender whose key id the
/// envelope holds in `apu`, and the sender is not anonymous.
pub proof fn law_authcrypt_noted(
    text: Seq<char>,
    known: spec_fn(Seq<char>) -> Option<DIDDocView>,
    held: spec_fn(Seq<char>) -> Option<SecretView>,
    all_keys: bool,
)
    requires
        unpacked(text, known, held, all_keys, false) is Ok,
        read_jwe(text) is Ok,
        read_jwe(text)->Ok_0 is Some,
        read_jwe(text)->Ok_0->Some_0.alg == KeyManagement::Ecdh1puA256kw,
    ensures
        ({
            let (m, md) = unpacked(text, known, held, all_keys, false)->Ok_0;
            let jwe = read_jwe(text)->Ok_0->Some_0;
            &&& md.encrypted
            &&& md.authenticated
            &&& !md.anonymous_sender
            &&& md.enc_alg_anon is None
            &&& md.enc_alg_auth is Some
            &&& md.encrypted_to_kids == Some(jwe.kids())
            &&& jwe.apu is Some
            &&& md.encrypted_from_kid == crate::encoding::utf8_text(jwe.apu->Some_0)
        }),
{
}

/// Where the packed text is a signed envelope, the metadata of the message
/// that unpacks say so: it is authenticated and cannot be repudiated, the
/// signer is the one of the first signature, with the algorithm of that
/// signature, the signed message is the packed text itself, and nothing was
/// encrypted.
pub proof fn law_signed_noted(
    text: Seq<char>,
    known: spec_fn(Seq<char>) -> Option<DIDDocView>,
    held: spec_fn(Seq<char>) -> Option<SecretView>,
    all_keys: bool,
)
    requires
        unpacked(text, known, held, all_keys, false) is Ok,
        !looks_like_jwe(text),
        looks_like_jws(text),
    ensures
        ({
            let (m, md) = unpacked(text, known, held, all_keys, false)->Ok_0;
            let jws = read_jws(text)->Ok_0->Some_0;
            &&& read_jws(text) is Ok
            &&& read_jws(text)->Ok_0 is Some
            &&& jws.signatures.len() > 0
            &&& md.authenticated
            &&& md.non_repudiation
            &&& !md.encrypted
            &&& !md.anonymous_sender
            &&& md.sign_from == Some(jws.signatures[0].kid)
            &&& md.sign_alg == jws.signatures[0].alg
            &&& md.signed_message == Some(text)
        }),
{
}

/// An encrypted envelope whose `enc` names no content encryption is
/// malformed: it opens for no key, whoever sent it, and a text that holds
/// such an envelope never unpacks.
pub proof fn law_unknown_encryption_is_malformed(
    text: Seq<char>,
    known: spec_fn(Seq<char>) -> Option<DIDDocView>,
    held: spec_fn(Seq<char>) -> Option<SecretView>,
    all_keys: bool,
    sender: Option<crate::jwk::KeyPairView>,
    recipient: crate::jwk::KeyPairView,
)
    requires
        read_jwe(text) is Ok,
        read_jwe(text)->Ok_0 is Some,
        read_jwe(text)->Ok_0->Some_0.enc is None,
        read_jwe(text)->Ok_0->Some_0.alg != KeyManagement::Other,
    ensures
        crate::message::unpack::keys::fitting_encryption(
            read_jwe(text)->Ok_0->Some_0,
            sender,
            recipient,
        ) == Err::<crate::crypto::ContentEncryption, ErrorView>(
            crate::message::unpack::keys::unknown_encryption(),
        ),
        crate::message::unpack::keys::unknown_encryption().kind
            == crate::error::ErrorKind::Malformed,
        unpacked(text, known, held, all_keys, false) is Err,
{
}

/// An envelope that does not come off ends the unpacking: where the
/// anonymous envelope, the authenticated envelope inside it or the signed
/// envelope inside that fails, unpacking fails with the same error, and
/// never gives a message.
pub proof fn law_failed_envelope_fails(
    text: Seq<char>,
    known: spec_fn(Seq<char>) -> Option<DIDDocView>,
    held: spec_fn(Seq<char>) -> Option<SecretView>,
    all_keys: bool,
)
    ensures
        anoncrypt_layer(text, held, all_keys) is Err ==> unpacked(
            text,
            known,
            held,
            all_keys,
            false,
        ) == Err::<(MessageView, UnpackMetadataView), ErrorView>(
            anoncrypt_layer(text, held, all_keys)->Err_0,
        ),
        anoncrypt_layer(text, held, all_keys) == Ok::<
            Option<crate::message::unpack::anoncrypt::AnonLayer>,
            ErrorView,
        >(None) && authcrypt_layer(text, known, held, all_keys) is Err ==> unpacked(
            text,
            known,
            held,
            all_keys,
            false,
        ) == Err::<(MessageView, UnpackMetadataView), ErrorView>(
            authcrypt_layer(text, known, held, all_keys)->Err_0,
        ),
        !looks_like_jwe(text) && sign_layer(text, known) is Err ==> unpacked(
            text,
            known,
            held,
            all_keys,
            false,
        ) == Err::<(MessageView, UnpackMetadataView), ErrorView>(sign_layer(text, known)->Err_0),
{
}

} // verus!
