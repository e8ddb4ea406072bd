//! Taking off the authenticated envelope.

use crate::algorithms::AuthCryptAlg;
use crate::did::{documents, method_by_id, DIDDocView, DIDResolver};
use crate::encoding::{text_from_utf8, utf8_text};
use crate::error::{err_msg, error_of, ErrorKind, ErrorView, Result};
use crate::jwe::envelope::{Jwe, JweView, KeyManagement};
use crate::jwe::parse::read_jwe;
use crate::jwk::{key_of_method, KeyPairView};
use crate::message::unpack::{UnpackMetadata, UnpackMetadataView, UnpackOptions};
use crate::message::unpack::keys::{check_recipients, open_envelope, opened_by, recipients_checked};
use crate::secrets::{holdings, resolvers_failed, SecretView, SecretsResolver};
use crate::utils::{contains_text, copy_bytes, did_or_url, did_part, has_fragment};
use vstd::prelude::*;

verus! {

/// What taking off an authenticated envelope gives.
pub ghost struct AuthLayer {
    /// The content of the envelope.
    pub payload: Seq<char>,
    /// The key id of the sender.
    pub from_kid: Seq<char>,
    /// The key ids of the recipients.
    pub to_kids: Seq<Seq<char>>,
    /// The algorithm of the envelope.
    pub alg: AuthCryptAlg,
}

/// The metadata after an authenticated envelope was taken off: the message
/// was encrypted and authenticated, by this sender, with this algorithm.
/// The recipients are noted unless an outer envelope named them already.
pub open spec fn after_authcrypt(md: UnpackMetadataView, layer: AuthLayer) -> UnpackMetadataView {
    UnpackMetadataView {
        authenticated: true,
        encrypted: true,
        encrypted_from_kid: Some(layer.from_kid),
        encrypted_to_kids: match md.encrypted_to_kids {
            None => Some(layer.to_kids),
            Some(kids) => Some(kids),
        },
        enc_alg_auth: Some(layer.alg),
        ..md
    }
}

/// The key id of the sender of an authenticated envelope: what `apu` holds.
/// It is a DID URL.
pub open spec fn sender_kid(jwe: JweView) -> core::result::Result<Seq<char>, ErrorView> {
    match jwe.apu {
        None => Err(error_of(ErrorKind::Malformed, "No apu presented for authcrypt"@)),
        Some(apu) => match utf8_text(apu) {
            None => Err(error_of(ErrorKind::Malformed, "apu is invalid utf8"@)),
            Some(kid) => if !has_fragment(kid) {
                Err(
                    error_of(
                        ErrorKind::Malformed,
                        "Sender key can't be resolved to key agreement"@,
                    ),
                )
            } else {
                Ok(kid)
            },
        },
    }
}

/// The sender's key: the DID of the key id resolves, its document lists the
/// key id for key agreement, and has a verification method of that id.
pub open spec fn sender_key(
    kid: Seq<char>,
    known: spec_fn(Seq<char>) -> Option<DIDDocView>,
) -> core::result::Result<KeyPairView, ErrorView> {
    match known(did_part(kid)) {
        None => Err(error_of(ErrorKind::DIDNotResolved, "Sender did not found"@)),
        Some(doc) => if !doc.key_agreements.contains(kid) {
            Err(error_of(ErrorKind::DIDUrlNotFound, "Sender kid not found in did"@))
        } else {
            match method_by_id(doc.verification_methods, kid) {
                None => Err(
                    error_of(
                        ErrorKind::DIDUrlNotFound,
                        "Sender verification method not found in did"@,
                    ),
                ),
                Some(method) => key_of_method(method),
            }
        },
    }
}

/// Taking off the authenticated envelope of an envelope that was read.
pub open spec fn authcrypt_opened(
    jwe: JweView,
    known: spec_fn(Seq<char>) -> Option<DIDDocView>,
    held: spec_fn(Seq<char>) -> Option<SecretView>,
    all_keys: bool,
) -> core::result::Result<AuthLayer, ErrorView> {
    match sender_kid(jwe) {
        Err(e) => Err(e),
        Ok(from_kid) => match recipients_checked(jwe.kids()) {
            Err(e) => Err(e),
            Ok(_) => match sender_key(from_kid, known) {
                Err(e) => Err(e),
                Ok(key) => match opened_by(jwe, Some(key), held, all_keys) {
                    Err(e) => Err(e),
                    Ok(opened) => match utf8_text(opened.payload) {
                        None => Err(
                            error_of(ErrorKind::Malformed, "Authcrypt payload is invalid utf8"@),
                        ),
                        Some(payload) => Ok(
                            AuthLayer {
                                payload,
                                from_kid,
                                to_kids: jwe.kids(),
                                alg: AuthCryptAlg::A256cbcHs512Ecdh1puA256kw,
                            },
                        ),
                    },
                },
            },
        },
    }
}

/// Taking off the authenticated envelope of a text: nothing where the text
/// is no encrypted envelope or its key management is not ECDH-1PU.
pub open spec fn authcrypt_layer(
    text: Seq<char>,
    known: spec_fn(Seq<char>) -> Option<DIDDocView>,
    held: spec_fn(Seq<char>) -> Option<SecretView>,
    all_keys: bool,
) -> core::result::Result<Option<AuthLayer>, ErrorView> {
    match read_jwe(text) {
        Err(e) => Err(e),
        Ok(None) => Ok(None),
        Ok(Some(jwe)) => if jwe.alg != KeyManagement::Ecdh1puA256kw {
            Ok(None)
        } else {
            match authcrypt_opened(jwe, known, held, all_keys) {
                Err(e) => Err(e),
                Ok(layer) => Ok(Some(layer)),
            }
        },
    }
}

/// Whether taking off the authenticated envelope of a text asks a resolver:
/// the text is an encrypted envelope with ECDH-1PU key management, `apu`
/// holds the key id of a sender, and the recipients pass. On every other
/// text both resolvers are left alone.
pub open spec fn authcrypt_asks(text: Seq<char>) -> bool {
    match read_jwe(text) {
        Ok(Some(jwe)) => jwe.alg == KeyManagement::Ecdh1puA256kw && sender_kid(jwe) is Ok
            && recipients_checked(jwe.kids()) is Ok,
        _ => false,
    }
}

/// The key id of the sender of an authenticated envelope.
pub fn read_sender_kid(jwe: &Jwe) -> (r: Result<String>)
    ensures
        match r {
            Ok(kid) => sender_kid(jwe@) == Ok::<Seq<char>, ErrorView>(kid@),
            Err(e) => sender_kid(jwe@) == Err::<Seq<char>, ErrorView>(e@),
        },
{
    let apu = match &jwe.apu {
        Some(apu) => copy_bytes(apu),
        None => {
            return Err(err_msg(ErrorKind::Malformed, "No apu presented for authcrypt"));
        },
    };
    let kid = match text_from_utf8(apu) {
        Some(kid) => kid,
        None => return Err(err_msg(ErrorKind::Malformed, "apu is invalid utf8")),
    };
    let (_, is_url) = did_or_url(kid.as_str());
    if !is_url {
        return Err(
            err_msg(ErrorKind::Malformed, "Sender key can't be resolved to key agreement"),
        );
    }
    Ok(kid)
}

/// Takes off the authenticated envelope, if the message has one, and notes
/// in the metadata what it found.
pub fn try_unpack_authcrypt<D: DIDResolver, S: SecretsResolver>(
    msg: &str,
    did_resolver: &D,
    secrets_resolver: &S,
    opts: &UnpackOptions,
    metadata: &mut UnpackMetadata,
) -> (r: Result<Option<String>>)
    ensures
        match r {
            Ok(Some(payload)) => {
                let layer = authcrypt_layer(
                    msg@,
                    documents(did_resolver),
                    holdings(secrets_resolver),
                    opts.expect_decrypt_by_all_keys,
                );
                &&& layer is Ok
                &&& layer->Ok_0 is Some
                &&& payload@ == layer->Ok_0->Some_0.payload
                &&& final(metadata)@ == after_authcrypt(old(metadata)@, layer->Ok_0->Some_0)
            },
            Ok(None) => {
                &&& authcrypt_layer(
                    msg@,
                    documents(did_resolver),
                    holdings(secrets_resolver),
                    opts.expect_decrypt_by_all_keys,
                ) == Ok::<Option<AuthLayer>, ErrorView>(None)
                &&& final(metadata)@ == old(metadata)@
            },
            Err(e) => (resolvers_failed(e@, did_resolver, secrets_resolver) && authcrypt_asks(msg@)) || authcrypt_layer(
                msg@,
                documents(did_resolver),
                holdings(secrets_resolver),
                opts.expect_decrypt_by_all_keys,
            ) == Err::<Option<AuthLayer>, ErrorView>(e@),
        },
{
    let jwe = match Jwe::parse(msg)? {
        Some(jwe) => jwe,
        None => return Ok(None),
    };
    if jwe.alg != KeyManagement::Ecdh1puA256kw {
        return Ok(None);
    }
    let from_kid = read_sender_kid(&jwe)?;
    let to_kids = jwe.kids();
    check_recipients(&to_kids)?;
    let (from_did, _) = did_or_url(from_kid.as_str());
    let doc = match did_resolver.resolve(from_did.as_str())? {
        Some(doc) => doc,
        None => return Err(err_msg(ErrorKind::DIDNotResolved, "Sender did not found")),
    };
    if !contains_text(&doc.key_agreements, from_kid.as_str()) {
        return Err(err_msg(ErrorKind::DIDUrlNotFound, "Sender kid not found in did"));
    }
    let method = match doc.find_method(from_kid.as_str()) {
        Some(m) => m,
        None => {
            return Err(
                err_msg(ErrorKind::DIDUrlNotFound, "Sender verification method not found in did"),
            );
        },
    };
    let key = method.as_key_pair()?;
    let opened = open_envelope(
        &jwe,
        Some(&key),
        secrets_resolver,
        opts.expect_decrypt_by_all_keys,
    )?;
    let payload = match text_from_utf8(opened.payload) {
        Some(p) => p,
        None => {
            return Err(err_msg(ErrorKind::Malformed, "Authcrypt payload is invalid utf8"));
        },
    };
    metadata.authenticated = true;
    metadata.encrypted = true;
    metadata.encrypted_from_kid = Some(from_kid);
    if metadata.encrypted_to_kids.is_none() {
        metadata.encrypted_to_kids = Some(to_kids);
    }
    metadata.enc_alg_auth = Some(AuthCryptAlg::A256cbcHs512Ecdh1puA256kw);
    Ok(Some(payload))
}

} // verus!
