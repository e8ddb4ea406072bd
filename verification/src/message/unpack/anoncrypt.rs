//! Taking off the anonymous envelope.

use crate::algorithms::AnonCryptAlg;
use crate::crypto::ContentEncryption;
use crate::encoding::{text_from_utf8, utf8_text};
use crate::error::{err_msg, error_of, resolver_failed, ErrorKind, ErrorView, Result};
use crate::jwe::envelope::{Jwe, JweView, KeyManagement};
use crate::jwe::parse::read_jwe;
use crate::message::unpack::keys::{
    check_recipients, open_envelope, opened_by, recipients_checked, unknown_encryption,
};
use crate::message::unpack::{UnpackMetadata, UnpackMetadataView, UnpackOptions};
use crate::secrets::{holdings, SecretView, SecretsResolver};
use vstd::prelude::*;

verus! {

/// What taking off an anonymous envelope gives.
pub ghost struct AnonLayer {
    /// The content of the envelope.
    pub payload: Seq<char>,
    /// The key ids of the recipients.
    pub to_kids: Seq<Seq<char>>,
    /// The algorithm of the envelope.
    pub alg: AnonCryptAlg,
}

/// The algorithm of anonymous encryption with a content encryption.
pub open spec fn anon_alg_of(enc: ContentEncryption) -> AnonCryptAlg {
    match enc {
        ContentEncryption::A256cbcHs512 => AnonCryptAlg::A256cbcHs512EcdhEsA256kw,
        ContentEncryption::Xc20P => AnonCryptAlg::Xc20pEcdhEsA256kw,
        ContentEncryption::A256Gcm => AnonCryptAlg::A256gcmEcdhEsA256kw,
    }
}

/// The metadata after an anonymous envelope was taken off: the message was
/// encrypted, for these recipients, with this algorithm, and nothing shows
/// who sent it.
pub open spec fn after_anoncrypt(md: UnpackMetadataView, layer: AnonLayer) -> UnpackMetadataView {
    UnpackMetadataView {
        encrypted: true,
        anonymous_sender: true,
        encrypted_to_kids: Some(layer.to_kids),
        enc_alg_anon: Some(layer.alg),
        ..md
    }
}

/// Taking off the anonymous envelope of an envelope that was read.
pub open spec fn anoncrypt_opened(
    jwe: JweView,
    held: spec_fn(Seq<char>) -> Option<SecretView>,
    all_keys: bool,
) -> core::result::Result<AnonLayer, ErrorView> {
    match recipients_checked(jwe.kids()) {
        Err(e) => Err(e),
        Ok(_) => match opened_by(jwe, None, held, all_keys) {
            Err(e) => Err(e),
            Ok(opened) => match (utf8_text(opened.payload), jwe.enc) {
                (Some(payload), Some(enc)) => Ok(
                    AnonLayer { payload, to_kids: jwe.kids(), alg: anon_alg_of(enc) },
                ),
                (None, _) => Err(
                    error_of(ErrorKind::Malformed, "Anoncrypt payload is invalid utf8"@),
                ),
                (_, None) => Err(unknown_encryption()),
            },
        },
    }
}

/// Taking off the anonymous envelope of a text: nothing where the text is
/// no encrypted envelope or its key management is not ECDH-ES.
pub open spec fn anoncrypt_layer(
    text: Seq<char>,
    held: spec_fn(Seq<char>) -> Option<SecretView>,
    all_keys: bool,
) -> core::result::Result<Option<AnonLayer>, ErrorView> {
    match read_jwe(text) {
        Err(e) => Err(e),
        Ok(None) => Ok(None),
        Ok(Some(jwe)) => if jwe.alg != KeyManagement::EcdhEsA256kw {
            Ok(None)
        } else {
            match anoncrypt_opened(jwe, held, all_keys) {
                Err(e) => Err(e),
                Ok(layer) => Ok(Some(layer)),
            }
        },
    }
}

/// Whether taking off the anonymous envelope of a text asks for secrets:
/// the text is an encrypted envelope with ECDH-ES key management whose
/// recipients pass. On every other text the secrets resolver is left alone.
pub open spec fn anoncrypt_asks(text: Seq<char>) -> bool {
    match read_jwe(text) {
        Ok(Some(jwe)) => jwe.alg == KeyManagement::EcdhEsA256kw && recipients_checked(
            jwe.kids(),
        ) is Ok,
        _ => false,
    }
}

/// The algorithm of anonymous encryption with a content encryption.
pub fn anon_alg(enc: ContentEncryption) -> (r: AnonCryptAlg)
    ensures
        r == anon_alg_of(enc),
{
    match enc {
        ContentEncryption::A256cbcHs512 => AnonCryptAlg::A256cbcHs512EcdhEsA256kw,
        ContentEncryption::Xc20P => AnonCryptAlg::Xc20pEcdhEsA256kw,
        ContentEncryption::A256Gcm => AnonCryptAlg::A256gcmEcdhEsA256kw,
    }
}

/// Takes off the anonymous envelope, if the message has one, and notes in
/// the metadata what it found.
pub fn try_unpack_anoncrypt<S: SecretsResolver>(
    msg: &str,
    secrets_resolver: &S,
    opts: &UnpackOptions,
    metadata: &mut UnpackMetadata,
) -> (r: Result<Option<String>>)
    ensures
        match r {
            Ok(Some(payload)) => {
                let layer = anoncrypt_layer(
                    msg@,
                    holdings(secrets_resolver),
                    opts.expect_decrypt_by_all_keys,
                );
                &&& layer is Ok
                &&& layer->Ok_0 is Some
                &&& payload@ == layer->Ok_0->Some_0.payload
                &&& final(metadata)@ == after_anoncrypt(old(metadata)@, layer->Ok_0->Some_0)
            },
            Ok(None) => {
                &&& anoncrypt_layer(
                    msg@,
                    holdings(secrets_resolver),
                    opts.expect_decrypt_by_all_keys,
                ) == Ok::<Option<AnonLayer>, ErrorView>(None)
                &&& final(metadata)@ == old(metadata)@
            },
            Err(e) => (resolver_failed(e@, secrets_resolver.reliable()) && anoncrypt_asks(msg@))
                || anoncrypt_layer(
                msg@,
                holdings(secrets_resolver),
                opts.expect_decrypt_by_all_keys,
            ) == Err::<Option<AnonLayer>, ErrorView>(e@),
        },
{
    let jwe = match Jwe::parse(msg)? {
        Some(jwe) => jwe,
        None => return Ok(None),
    };
    if jwe.alg != KeyManagement::EcdhEsA256kw {
        return Ok(None);
    }
    let to_kids = jwe.kids();
    check_recipients(&to_kids)?;
    let opened = open_envelope(&jwe, None, secrets_resolver, opts.expect_decrypt_by_all_keys)?;
    let payload = match text_from_utf8(opened.payload) {
        Some(p) => p,
        None => {
            return Err(err_msg(ErrorKind::Malformed, "Anoncrypt payload is invalid utf8"));
        },
    };
    let enc = match jwe.enc {
        Some(enc) => enc,
        None => {
            return Err(err_msg(ErrorKind::Malformed, "Unknown content encryption algorithm"));
        },
    };
    metadata.encrypted = true;
    metadata.anonymous_sender = true;
    metadata.encrypted_to_kids = Some(to_kids);
    metadata.enc_alg_anon = Some(anon_alg(enc));
    Ok(Some(payload))
}

} // verus!
