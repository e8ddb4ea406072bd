//! Packing a message in a signed envelope.

use crate::did::{documents, DIDDocView, DIDResolver};
use crate::error::{err_msg, error_of, ErrorKind, ErrorView, Result};
use crate::jwk::{key_of_secret, sign_alg_of, KeyPairView};
use crate::jws::sign::{sign, signed_envelope};
use crate::message::{Message, MessageView};
use crate::message::pack_plaintext::plaintext_packed;
use crate::secrets::{held_among, holdings, resolvers_failed, SecretView, SecretsResolver};
use crate::utils::{
    contains_text, copy_texts, did_or_url, did_part, has_fragment, is_did, is_did_text,
};
use vstd::prelude::*;
use vstd::string::StringSliceAdditionalSpecFns;
use vstd::utf8::encode_utf8;

verus! {

/// Additional metadata about this `pack_signed` execution.
#[derive(Debug, Clone, PartialEq, Eq)]
pub struct PackSignedMetadata {
    /// Identifier (DID URL) of the key that signed.
    pub sign_by_kid: String,
}

/// The key ids that may sign for `sign_by`: the key id itself, where one is
/// given and the document lists it for authentication; else all that the
/// document lists for authentication.
pub open spec fn signer_kids(sign_by: Seq<char>, doc: DIDDocView) -> core::result::Result<
    Seq<Seq<char>>,
    ErrorView,
> {
    if has_fragment(sign_by) {
        if doc.authentications.contains(sign_by) {
            Ok(seq![sign_by])
        } else {
            Err(error_of(ErrorKind::DIDUrlNotFound, "Signer key id not found in did doc"@))
        }
    } else {
        Ok(doc.authentications)
    }
}

/// The key that signs for `sign_by`, and its id: the first of the signer's
/// key ids that a secret is held for.
pub open spec fn signing_key(
    sign_by: Seq<char>,
    known: spec_fn(Seq<char>) -> Option<DIDDocView>,
    held: spec_fn(Seq<char>) -> Option<SecretView>,
) -> core::result::Result<(Seq<char>, KeyPairView), ErrorView> {
    if !is_did_text(sign_by) {
        Err(
            error_of(
                ErrorKind::IllegalArgument,
                "'sign_by' value is not a valid DID or DID URL"@,
            ),
        )
    } else {
        match known(did_part(sign_by)) {
            None => Err(error_of(ErrorKind::DIDNotResolved, "Signer did not found"@)),
            Some(doc) => match signer_kids(sign_by, doc) {
                Err(e) => Err(e),
                Ok(kids) => {
                    let found = held_among(kids, held);
                    if found.len() == 0 {
                        Err(error_of(ErrorKind::SecretNotFound, "No signer secrets found"@))
                    } else {
                        match held(found[0]) {
                            None => Err(
                                error_of(ErrorKind::SecretNotFound, "Signer secret not found"@),
                            ),
                            Some(secret) => match key_of_secret(secret) {
                                Err(e) => Err(e),
                                Ok(key) => Ok((found[0], key)),
                            },
                        }
                    }
                },
            },
        }
    }
}

/// Packing a message in a signed envelope, as a function of the message, of
/// who signs, and of what the resolvers know and hold: the envelope, and
/// the id of the key that signed.
pub open spec fn signed_packed(
    m: MessageView,
    sign_by: Seq<char>,
    known: spec_fn(Seq<char>) -> Option<DIDDocView>,
    held: spec_fn(Seq<char>) -> Option<SecretView>,
) -> core::result::Result<(Seq<char>, Seq<char>), ErrorView> {
    match signing_key(sign_by, known, held) {
        Err(e) => Err(e),
        Ok((kid, key)) => match plaintext_packed(m) {
            Err(e) => Err(e),
            Ok(plaintext) => match sign_alg_of(key.curve) {
                None => Err(error_of(ErrorKind::Unsupported, "Unsupported signature alg"@)),
                Some(alg) => match signed_envelope(encode_utf8(plaintext), kid, key, alg) {
                    Err(e) => Err(e),
                    Ok(text) => Ok((text, kid)),
                },
            },
        },
    }
}

/// Finds the key that signs for `sign_by`, and its id.
pub fn find_signing_key<D: DIDResolver, S: SecretsResolver>(
    sign_by: &str,
    did_resolver: &D,
    secrets_resolver: &S,
) -> (r: Result<(String, crate::jwk::KeyPair)>)
    ensures
        match r {
            Ok((kid, key)) => signing_key(
                sign_by@,
                documents(did_resolver),
                holdings(secrets_resolver),
            ) == Ok::<(Seq<char>, KeyPairView), ErrorView>((kid@, key@)),
            Err(e) => (resolvers_failed(e@, did_resolver, secrets_resolver) && is_did_text(sign_by@))
                || signing_key(
                sign_by@,
                documents(did_resolver),
                holdings(secrets_resolver),
            ) == Err::<(Seq<char>, KeyPairView), ErrorView>(e@),
        },
{
    if !is_did(sign_by) {
        return Err(
            err_msg(ErrorKind::IllegalArgument, "'sign_by' value is not a valid DID or DID URL"),
        );
    }
    let (did, is_url) = did_or_url(sign_by);
    let doc = match did_resolver.resolve(did.as_str())? {
        Some(doc) => doc,
        None => return Err(err_msg(ErrorKind::DIDNotResolved, "Signer did not found")),
    };
    let kids: Vec<String> = if is_url {
        if !contains_text(&doc.authentications, sign_by) {
            return Err(err_msg(ErrorKind::DIDUrlNotFound, "Signer key id not found in did doc"));
        }
        let mut one: Vec<String> = Vec::new();
        one.push(sign_by.to_owned());
        assert(one.deep_view() =~= seq![sign_by@]);
        one
    } else {
        copy_texts(&doc.authentications)
    };
    let found = secrets_resolver.find_secrets(&kids)?;
    if found.len() == 0 {
        return Err(err_msg(ErrorKind::SecretNotFound, "No signer secrets found"));
    }
    assert(found.deep_view()[0] == found[0]@);
    let secret = match secrets_resolver.get_secret(found[0].as_str())? {
        Some(s) => s,
        None => return Err(err_msg(ErrorKind::SecretNotFound, "Signer secret not found")),
    };
    let key = secret.as_key_pair()?;
    Ok((found[0].clone(), key))
}

impl Message {
    /// Produces `DIDComm Signed Message`: the plaintext in a signed
    /// envelope, which the recipient can show to others.
    ///
    /// # Params
    /// - `sign_by` a DID or key id of the signer
    /// - `did_resolver` instance of `DIDResolver` to resolve DIDs
    /// - `secrets_resolver` instance of `SecretsResolver` to resolve the
    ///   signer's secrets
    ///
    /// # Returns
    /// Tuple (signed_message, metadata)
    ///
    /// # Errors
    /// - `IllegalArgument` `sign_by` is no DID or DID URL.
    /// - `DIDNotResolved` Signer DID not found.
    /// - `DIDUrlNotFound` Signer key id not found in the DID document.
    /// - `SecretNotFound` No secret is held for the signer.
    /// - `Unsupported` The key cannot sign.
    /// - `IOError` IO error during DID or secrets resolving.
    pub fn pack_signed<D: DIDResolver, S: SecretsResolver>(
        &self,
        sign_by: &str,
        did_resolver: &D,
        secrets_resolver: &S,
    ) -> (r: Result<(String, PackSignedMetadata)>)
        ensures
            match r {
                Ok((text, metadata)) => signed_packed(
                    self@,
                    sign_by@,
                    documents(did_resolver),
                    holdings(secrets_resolver),
                ) == Ok::<(Seq<char>, Seq<char>), ErrorView>((text@, metadata.sign_by_kid@)),
                Err(e) => (resolvers_failed(e@, did_resolver, secrets_resolver) && is_did_text(
                    sign_by@,
                )) || signed_packed(
                    self@,
                    sign_by@,
                    documents(did_resolver),
                    holdings(secrets_resolver),
                ) == Err::<(Seq<char>, Seq<char>), ErrorView>(e@),
            },
            !is_did_text(sign_by@) ==> r is Err && r->Err_0@ == error_of(
                ErrorKind::IllegalArgument,
                "'sign_by' value is not a valid DID or DID URL"@,
            ),
    {
        let (kid, key) = find_signing_key(sign_by, did_resolver, secrets_resolver)?;
        let plaintext = self.pack_plaintext(did_resolver)?;
        let alg = match key.sign_alg() {
            Some(alg) => alg,
            None => return Err(err_msg(ErrorKind::Unsupported, "Unsupported signature alg")),
        };
        let text = sign(plaintext.as_str().as_bytes(), kid.as_str(), &key, alg)?;
        Ok((text, PackSignedMetadata { sign_by_kid: kid }))
    }
}

} // verus!
