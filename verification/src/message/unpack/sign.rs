//! Taking off the signed envelope.

use crate::algorithms::SignAlg;
use crate::did::{documents, method_by_id, DIDDocView, DIDResolver};
use crate::encoding::{decode_field, text_from_utf8, utf8_text};
use crate::error::{err_msg, error_of, resolver_failed, ErrorKind, ErrorView, Result};
use crate::jwe::parse::decoded;
use crate::jwk::{key_of_method, KeyPairView};
use crate::jws::envelope::{Jws, JwsView, SignatureView};
use crate::jws::parse::read_jws;
use crate::jws::verify::signature_verified;
use crate::message::unpack::{UnpackMetadata, UnpackMetadataView, UnpackOptions};
use crate::utils::{contains_text, did_or_url, did_part, has_fragment};
use vstd::prelude::*;

verus! {

/// What taking off a signed envelope gives.
pub ghost struct SignLayer {
    /// The content of the envelope.
    pub payload: Seq<char>,
    /// The key id of the first signer.
    pub sign_from: Seq<char>,
    /// The algorithm of the first signature.
    pub alg: SignAlg,
    /// The envelope itself, as it was given.
    pub signed_message: Seq<char>,
}

/// The metadata after a signed envelope was taken off: the message was
/// authenticated and cannot be repudiated; signer, algorithm and the
/// envelope itself are kept.
pub open spec fn after_sign(md: UnpackMetadataView, layer: SignLayer) -> UnpackMetadataView {
    UnpackMetadataView {
        authenticated: true,
        non_repudiation: true,
        sign_from: Some(layer.sign_from),
        sign_alg: Some(layer.alg),
        signed_message: Some(layer.signed_message),
        ..md
    }
}

/// The signer's key: the key id is a DID URL, its DID resolves, the
/// document lists the key id for authentication, and has a verification
/// method of that id.
pub open spec fn signer_key(
    kid: Seq<char>,
    known: spec_fn(Seq<char>) -> Option<DIDDocView>,
) -> core::result::Result<KeyPairView, ErrorView> {
    if !has_fragment(kid) {
        Err(error_of(ErrorKind::Malformed, "Signer key can't be resolved to key agreement"@))
    } else {
        match known(did_part(kid)) {
            None => Err(error_of(ErrorKind::DIDNotResolved, "Signer did not found"@)),
            Some(doc) => if !doc.authentications.contains(kid) {
                Err(error_of(ErrorKind::DIDUrlNotFound, "Signer kid not found in did"@))
            } else {
                match method_by_id(doc.verification_methods, kid) {
                    None => Err(
                        error_of(
                            ErrorKind::DIDUrlNotFound,
                            "Signer verification method not found in did"@,
                        ),
                    ),
                    Some(method) => key_of_method(method),
                }
            },
        }
    }
}

/// Checking one signature: the signer's key is found and the signature
/// holds under it. The result is the algorithm.
pub open spec fn signature_accepted(
    payload: Seq<char>,
    signature: SignatureView,
    known: spec_fn(Seq<char>) -> Option<DIDDocView>,
) -> core::result::Result<SignAlg, ErrorView> {
    match signer_key(signature.kid, known) {
        Err(e) => Err(e),
        Ok(key) => signature_verified(payload, signature, key),
    }
}

/// Checking the signatures from place `from` on, in their order: the first
/// that fails gives the error.
pub open spec fn signatures_accepted(
    jws: JwsView,
    known: spec_fn(Seq<char>) -> Option<DIDDocView>,
    from: int,
) -> core::result::Result<(), ErrorView>
    decreases jws.signatures.len() - from,
{
    if from < 0 || from >= jws.signatures.len() {
        Ok(())
    } else {
        match signature_accepted(jws.payload, jws.signatures[from], known) {
            Err(e) => Err(e),
            Ok(_) => signatures_accepted(jws, known, from + 1),
        }
    }
}

/// Taking off the signed envelope of an envelope that was read: there is a
/// signature, every signature holds, and the payload is base64url of a
/// text.
pub open spec fn sign_opened(
    text: Seq<char>,
    jws: JwsView,
    known: spec_fn(Seq<char>) -> Option<DIDDocView>,
) -> core::result::Result<SignLayer, ErrorView> {
    if jws.signatures.len() == 0 {
        Err(error_of(ErrorKind::Malformed, "Wrong amount of signatures for jws"@))
    } else {
        match signature_accepted(jws.payload, jws.signatures[0], known) {
            Err(e) => Err(e),
            Ok(alg) => match signatures_accepted(jws, known, 1) {
                Err(e) => Err(e),
                Ok(_) => match decoded(jws.payload, "Signed payload is invalid base64"@) {
                    Err(e) => Err(e),
                    Ok(bytes) => match utf8_text(bytes) {
                        None => Err(
                            error_of(ErrorKind::Malformed, "Signed payload is invalid utf8"@),
                        ),
                        Some(payload) => Ok(
                            SignLayer {
                                payload,
                                sign_from: jws.signatures[0].kid,
                                alg,
                                signed_message: text,
                            },
                        ),
                    },
                },
            },
        }
    }
}

/// Taking off the signed envelope of a text: nothing where the text is no
/// signed envelope.
pub open spec fn sign_layer(
    text: Seq<char>,
    known: spec_fn(Seq<char>) -> Option<DIDDocView>,
) -> core::result::Result<Option<SignLayer>, ErrorView> {
    match read_jws(text) {
        Err(e) => Err(e),
        Ok(None) => Ok(None),
        Ok(Some(jws)) => match sign_opened(text, jws, known) {
            Err(e) => Err(e),
            Ok(layer) => Ok(Some(layer)),
        },
    }
}

/// Whether taking off the signed envelope of a text asks the resolver: the
/// text is a signed envelope that has a signature. On every other text the
/// resolver is left alone.
pub open spec fn sign_asks(text: Seq<char>) -> bool {
    match read_jws(text) {
        Ok(Some(jws)) => jws.signatures.len() > 0,
        _ => false,
    }
}

/// Checks the signature at place `index`: finds the signer's key with the
/// resolver and holds the signature against it.
pub fn accept_signature<D: DIDResolver>(jws: &Jws, index: usize, did_resolver: &D) -> (r: Result<
    SignAlg,
>)
    requires
        index < jws.signatures.len(),
    ensures
        match r {
            Ok(alg) => signature_accepted(
                jws@.payload,
                jws@.signatures[index as int],
                documents(did_resolver),
            ) == Ok::<SignAlg, ErrorView>(alg),
            Err(e) => (resolver_failed(e@, did_resolver.reliable()) && has_fragment(
                jws@.signatures[index as int].kid,
            )) || signature_accepted(
                jws@.payload,
                jws@.signatures[index as int],
                documents(did_resolver),
            ) == Err::<SignAlg, ErrorView>(e@),
        },
{
    let kid = &jws.signatures[index].kid;
    assert(jws@.signatures[index as int] == jws.signatures[index as int]@);
    let (did, is_url) = did_or_url(kid.as_str());
    if !is_url {
        return Err(
            err_msg(ErrorKind::Malformed, "Signer key can't be resolved to key agreement"),
        );
    }
    let doc = match did_resolver.resolve(did.as_str())? {
        Some(doc) => doc,
        None => return Err(err_msg(ErrorKind::DIDNotResolved, "Signer did not found")),
    };
    if !contains_text(&doc.authentications, kid.as_str()) {
        return Err(err_msg(ErrorKind::DIDUrlNotFound, "Signer kid not found in did"));
    }
    let method = match doc.find_method(kid.as_str()) {
        Some(m) => m,
        None => {
            return Err(
                err_msg(ErrorKind::DIDUrlNotFound, "Signer verification method not found in did"),
            );
        },
    };
    let key = method.as_key_pair()?;
    jws.verify(index, &key)
}

/// Takes off the signed envelope, if the message has one, and notes in the
/// metadata what it found.
#[verifier::loop_isolation(false)]
pub fn try_unpack_sign<D: DIDResolver>(
    msg: &str,
    did_resolver: &D,
    opts: &UnpackOptions,
    metadata: &mut UnpackMetadata,
) -> (r: Result<Option<String>>)
    ensures
        match r {
            Ok(Some(payload)) => {
                let layer = sign_layer(msg@, documents(did_resolver));
                &&& layer is Ok
                &&& layer->Ok_0 is Some
                &&& payload@ == layer->Ok_0->Some_0.payload
                &&& final(metadata)@ == after_sign(old(metadata)@, layer->Ok_0->Some_0)
            },
            Ok(None) => {
                &&& sign_layer(msg@, documents(did_resolver)) == Ok::<
                    Option<SignLayer>,
                    ErrorView,
                >(None)
                &&& final(metadata)@ == old(metadata)@
            },
            Err(e) => (resolver_failed(e@, did_resolver.reliable()) && sign_asks(msg@))
                || sign_layer(msg@, documents(did_resolver)) == Err::<
                Option<SignLayer>,
                ErrorView,
            >(e@),
        },
{
    let jws = match Jws::parse(msg)? {
        Some(jws) => jws,
        None => return Ok(None),
    };
    if jws.signatures.len() == 0 {
        return Err(err_msg(ErrorKind::Malformed, "Wrong amount of signatures for jws"));
    }
    let ghost known = documents(did_resolver);
    let alg = accept_signature(&jws, 0, did_resolver)?;
    let mut i: usize = 1;
    while i < jws.signatures.len()
        invariant
            1 <= i <= jws.signatures.len(),
            signatures_accepted(jws@, known, 1) == signatures_accepted(jws@, known, i as int),
        decreases jws.signatures.len() - i,
    {
        accept_signature(&jws, i, did_resolver)?;
        i += 1;
    }
    let bytes = decode_field(jws.payload.as_str(), "Signed payload is invalid base64")?;
    let payload = match text_from_utf8(bytes) {
        Some(p) => p,
        None => return Err(err_msg(ErrorKind::Malformed, "Signed payload is invalid utf8")),
    };
    assert(jws@.signatures[0] == jws.signatures[0]@);
    metadata.authenticated = true;
    metadata.non_repudiation = true;
    metadata.sign_from = Some(jws.signatures[0].kid.clone());
    metadata.sign_alg = Some(alg);
    metadata.signed_message = Some(msg.to_owned());
    Ok(Some(payload))
}

} // verus!
