//! Packing a message in an encrypted envelope.

pub mod anoncrypt;
pub mod authcrypt;
pub mod parties;

use crate::algorithms::{AnonCryptAlg, AuthCryptAlg};
use crate::did::{documents, DIDDocView, DIDResolver};
use crate::error::{err_msg, error_of, resolver_failed, ErrorKind, ErrorView, Result};
use crate::json::Json;
use crate::jwe::encrypt::{drawn_for_recipients, parties_view, party_kids, Drawn};
use crate::message::{Message, MessageView};
use crate::message::pack_encrypted::anoncrypt::{
    anon_draw_fits, anon_encryption, anoncrypt, anoncrypt_recipients, anoncrypted,
};
use crate::message::pack_encrypted::authcrypt::{
    auth_encryption, authcrypt, authcrypt_parties, authcrypted, drawn_for, find_parties,
    AuthParties,
};
use crate::message::pack_plaintext::plaintext_packed;
use crate::message::pack_signed::signed_packed;
use crate::secrets::{holdings, resolvers_failed, SecretView, SecretsResolver};
use crate::utils::{is_did, is_did_text};
use vstd::prelude::*;
use vstd::string::StringSliceAdditionalSpecFns;
use vstd::utf8::encode_utf8;

verus! {

/// Allows fine customization of packing process
#[derive(Debug, PartialEq, Eq, Clone)]
pub struct PackEncryptedOptions {
    /// If `true` and message is authenticated than information about sender
    /// will be protected from mediators, but additional re-encryption will
    /// be required. Default `false`.
    pub protect_sender: bool,
    /// Whether the encrypted message is to be wrapped into a `Forward`
    /// message for the recipient's mediators. Default `true`. This version
    /// makes no forward: the option changes nothing.
    pub forward: bool,
    /// Headers for the forward message. This version makes no forward: the
    /// option changes nothing.
    pub forward_headers: Option<Vec<(String, Json)>>,
    /// Identifier (DID URL) of the messaging service to forward through.
    /// This version makes no forward: the option changes nothing.
    pub messaging_service: Option<String>,
    /// Algorithm used for authenticated encryption.
    pub enc_alg_auth: AuthCryptAlg,
    /// Algorithm used for anonymous encryption.
    pub enc_alg_anon: AnonCryptAlg,
}

impl Default for PackEncryptedOptions {
    fn default() -> (r: Self)
        ensures
            !r.protect_sender,
            r.forward,
            r.forward_headers is None,
            r.messaging_service is None,
            r.enc_alg_auth == AuthCryptAlg::A256cbcHs512Ecdh1puA256kw,
            r.enc_alg_anon == AnonCryptAlg::Xc20pEcdhEsA256kw,
    {
        PackEncryptedOptions {
            protect_sender: false,
            forward: true,
            forward_headers: None,
            messaging_service: None,
            enc_alg_auth: AuthCryptAlg::A256cbcHs512Ecdh1puA256kw,
            enc_alg_anon: AnonCryptAlg::Xc20pEcdhEsA256kw,
        }
    }
}

/// Information about the messaging service that a message was wrapped for.
#[derive(Debug, Clone, PartialEq, Eq)]
pub struct MessagingServiceMetadata {
    /// Identifier (DID URL) of used messaging service.
    pub id: String,
    /// Service endpoint of used messaging service.
    pub service_endpoint: String,
}

/// Additional metadata about this `pack_encrypted` execution.
#[derive(Debug, Clone, PartialEq, Eq)]
pub struct PackEncryptedMetadata {
    /// Information about the messaging service used for forwarding; `None`
    /// in this version.
    pub messaging_service: Option<MessagingServiceMetadata>,
    /// Identifier (DID URL) of sender key used for message encryption.
    pub from_kid: Option<String>,
    /// Identifier (DID URL) of sender key used for message sign.
    pub sign_by_kid: Option<String>,
    /// Identifiers (DID URLs) of recipient keys used for message
    /// encryption.
    pub to_kids: Vec<String>,
}

/// The mathematical value of a [`MessagingServiceMetadata`].
pub ghost struct MessagingServiceView {
    pub id: Seq<char>,
    pub service_endpoint: Seq<char>,
}

impl View for MessagingServiceMetadata {
    type V = MessagingServiceView;

    open spec fn view(&self) -> MessagingServiceView {
        MessagingServiceView { id: self.id@, service_endpoint: self.service_endpoint@ }
    }
}

/// The mathematical value of a [`PackEncryptedMetadata`].
pub ghost struct PackEncryptedMetadataView {
    pub messaging_service: Option<MessagingServiceView>,
    pub from_kid: Option<Seq<char>>,
    pub sign_by_kid: Option<Seq<char>>,
    pub to_kids: Seq<Seq<char>>,
}

impl View for PackEncryptedMetadata {
    type V = PackEncryptedMetadataView;

    open spec fn view(&self) -> PackEncryptedMetadataView {
        PackEncryptedMetadataView {
            messaging_service: match self.messaging_service {
                Some(service) => Some(service@),
                None => None,
            },
            from_kid: self.from_kid.deep_view(),
            sign_by_kid: self.sign_by_kid.deep_view(),
            to_kids: self.to_kids.deep_view(),
        }
    }
}

/// What is asked of the arguments: `to` is a DID or DID URL, and so are
/// `from` and `sign_by` where they are given.
pub open spec fn arguments_checked(
    to: Seq<char>,
    from: Option<Seq<char>>,
    sign_by: Option<Seq<char>>,
) -> core::result::Result<(), ErrorView> {
    if !is_did_text(to) {
        Err(error_of(ErrorKind::IllegalArgument, "'to' value is not a valid DID or DID URL"@))
    } else if from is Some && !is_did_text(from->Some_0) {
        Err(error_of(ErrorKind::IllegalArgument, "'from' value is not a valid DID or DID URL"@))
    } else if sign_by is Some && !is_did_text(sign_by->Some_0) {
        Err(
            error_of(
                ErrorKind::IllegalArgument,
                "'sign_by' value is not a valid DID or DID URL"@,
            ),
        )
    } else {
        Ok(())
    }
}

/// What goes into the encrypted envelope: the signed envelope of the
/// message, where a signer is given, else its plaintext. With it comes the
/// id of the key that signed.
pub open spec fn payload_packed(
    m: MessageView,
    sign_by: Option<Seq<char>>,
    known: spec_fn(Seq<char>) -> Option<DIDDocView>,
    held: spec_fn(Seq<char>) -> Option<SecretView>,
) -> core::result::Result<(Seq<char>, Option<Seq<char>>), ErrorView> {
    match sign_by {
        Some(signer) => match signed_packed(m, signer, known, held) {
            Err(e) => Err(e),
            Ok((text, kid)) => Ok((text, Some(kid))),
        },
        None => match plaintext_packed(m) {
            Err(e) => Err(e),
            Ok(text) => Ok((text, None)),
        },
    }
}

/// Packing a message in an encrypted envelope, as a function of the
/// message, of the arguments, of what the resolvers know and hold, and of
/// what chance gives to the envelopes: the message is signed where a signer
/// is given; with a sender it goes into an authenticated envelope, and that
/// into an anonymous one where the sender is to be protected; without a
/// sender it goes into an anonymous envelope. No messaging service is
/// used: the envelope is wrapped in no forward.
pub open spec fn encrypted_packed(
    m: MessageView,
    to: Seq<char>,
    from: Option<Seq<char>>,
    sign_by: Option<Seq<char>>,
    known: spec_fn(Seq<char>) -> Option<DIDDocView>,
    held: spec_fn(Seq<char>) -> Option<SecretView>,
    protect_sender: bool,
    enc_alg_auth: AuthCryptAlg,
    enc_alg_anon: AnonCryptAlg,
    inner: Drawn,
    outer: Drawn,
) -> core::result::Result<(Seq<char>, PackEncryptedMetadataView), ErrorView> {
    match arguments_checked(to, from, sign_by) {
        Err(e) => Err(e),
        Ok(_) => match payload_packed(m, sign_by, known, held) {
            Err(e) => Err(e),
            Ok((payload, sign_by_kid)) => match from {
                Some(sender) => match authcrypt_parties(to, sender, known, held) {
                    Err(e) => Err(e),
                    Ok(parties) => match authcrypted(
                        encode_utf8(payload),
                        parties,
                        enc_alg_auth,
                        enc_alg_anon,
                        protect_sender,
                        inner,
                        outer,
                    ) {
                        Err(e) => Err(e),
                        Ok(text) => Ok(
                            (
                                text,
                                PackEncryptedMetadataView {
                                    messaging_service: None,
                                    from_kid: Some(parties.sender.kid),
                                    sign_by_kid,
                                    to_kids: party_kids(parties.recipients),
                                },
                            ),
                        ),
                    },
                },
                None => match anoncrypted(encode_utf8(payload), to, enc_alg_anon, known, inner) {
                    Err(e) => Err(e),
                    Ok((text, to_kids)) => Ok(
                        (
                            text,
                            PackEncryptedMetadataView {
                                messaging_service: None,
                                from_kid: None,
                                sign_by_kid,
                                to_kids,
                            },
                        ),
                    ),
                },
            },
        },
    }
}

/// What is asked of the draws for the envelopes: content key and nonce of
/// each have the lengths of its content encryption, and the ephemeral key
/// of each is on the curve of the recipients. The inner draw is for the
/// authenticated envelope, or for the anonymous one where there is no
/// sender; the outer draw is for the anonymous envelope around the
/// authenticated one.
pub open spec fn draws_fit(
    to: Seq<char>,
    from: Option<Seq<char>>,
    known: spec_fn(Seq<char>) -> Option<DIDDocView>,
    held: spec_fn(Seq<char>) -> Option<SecretView>,
    enc_alg_auth: AuthCryptAlg,
    enc_alg_anon: AnonCryptAlg,
    inner: Drawn,
    outer: Drawn,
) -> bool {
    &&& drawn_for(
        inner,
        match from {
            Some(_) => auth_encryption(enc_alg_auth),
            None => anon_encryption(enc_alg_anon),
        },
    )
    &&& drawn_for(outer, anon_encryption(enc_alg_anon))
    &&& match from {
        Some(sender) => match authcrypt_parties(to, sender, known, held) {
            Ok(parties) => drawn_for_recipients(inner, parties.recipients)
                && drawn_for_recipients(outer, parties.recipients),
            Err(_) => true,
        },
        None => match anoncrypt_recipients(to, known) {
            Ok(recipients) => drawn_for_recipients(inner, recipients),
            Err(_) => true,
        },
    }
}

/// A draw of the lengths of a content encryption that holds nothing.
pub open spec fn blank_draw(enc: crate::crypto::ContentEncryption) -> Drawn {
    Drawn {
        cek: Seq::new(crate::jwe::encrypt::key_length(enc), |i: int| 0u8),
        epk: Err(Seq::empty()),
        iv: Seq::new(crate::jwe::encrypt::nonce_length(enc), |i: int| 0u8),
    }
}

/// The view of an optional text argument.
pub open spec fn argument_view(text: Option<&str>) -> Option<Seq<char>> {
    match text {
        Some(t) => Some(t@),
        None => None,
    }
}

/// Holds the arguments of `pack_encrypted` to what is asked of them.
pub fn check_arguments(to: &str, from: Option<&str>, sign_by: Option<&str>) -> (r: Result<()>)
    ensures
        match r {
            Ok(()) => arguments_checked(to@, argument_view(from), argument_view(sign_by)) == Ok::<
                (),
                ErrorView,
            >(()),
            Err(e) => arguments_checked(to@, argument_view(from), argument_view(sign_by))
                == Err::<(), ErrorView>(e@),
        },
{
    if !is_did(to) {
        return Err(
            err_msg(ErrorKind::IllegalArgument, "'to' value is not a valid DID or DID URL"),
        );
    }
    match from {
        Some(f) => if !is_did(f) {
            return Err(
                err_msg(ErrorKind::IllegalArgument, "'from' value is not a valid DID or DID URL"),
            );
        },
        None => {},
    }
    match sign_by {
        Some(s) => if !is_did(s) {
            return Err(
                err_msg(
                    ErrorKind::IllegalArgument,
                    "'sign_by' value is not a valid DID or DID URL",
                ),
            );
        },
        None => {},
    }
    Ok(())
}

impl Message {
    /// What goes into the encrypted envelope: the signed envelope of the
    /// message, where a signer is given, else its plaintext.
    pub fn pack_payload<D: DIDResolver, S: SecretsResolver>(
        &self,
        sign_by: Option<&str>,
        did_resolver: &D,
        secrets_resolver: &S,
    ) -> (r: Result<(String, Option<String>)>)
        ensures
            match r {
                Ok((text, kid)) => payload_packed(
                    self@,
                    argument_view(sign_by),
                    documents(did_resolver),
                    holdings(secrets_resolver),
                ) == Ok::<(Seq<char>, Option<Seq<char>>), ErrorView>((text@, kid.deep_view())),
                Err(e) => (resolvers_failed(e@, did_resolver, secrets_resolver) && sign_by is Some
                    && is_did_text(sign_by->Some_0@)) || payload_packed(
                    self@,
                    argument_view(sign_by),
                    documents(did_resolver),
                    holdings(secrets_resolver),
                ) == Err::<(Seq<char>, Option<Seq<char>>), ErrorView>(e@),
            },
    {
        match sign_by {
            Some(signer) => {
                let (text, metadata) = self.pack_signed(signer, did_resolver, secrets_resolver)?;
                Ok((text, Some(metadata.sign_by_kid)))
            },
            None => {
                let text = self.pack_plaintext(did_resolver)?;
                Ok((text, None))
            },
        }
    }

    /// Produces `DIDComm Encrypted Message`: the message, encrypted for the
    /// recipient; signed where a signer is given; authenticated where a
    /// sender is given; with the sender hidden from all but the recipient
    /// where `protect_sender` is set.
    ///
    /// # Params
    /// - `to` recipient DID or key id the sender uses encryption.
    /// - `from` a sender DID or key id. If set message will be repudiable
    ///   authenticated or anonymous otherwise.
    /// - `sign_by` if `Some` message will be additionally signed to provide
    ///   additional non-repudiable authentication by provided DID/Key.
    /// - `did_resolver` instance of `DIDResolver` to resolve DIDs.
    /// - `secrets_resolver` instance of `SecretsResolver` to resolve sender
    ///   DID keys secrets.
    /// - `options` allow fine configuration of packing process.
    ///
    /// # Returns
    /// Tuple `(encrypted_message, metadata)`. The envelopes are made with
    /// content keys, ephemeral keys and nonces drawn at random: the result
    /// is what `encrypted_packed` gives for some draw of the lengths that
    /// the content encryptions ask for.
    ///
    /// # Errors
    /// - `IllegalArgument` `to`, `from` or `sign_by` is no DID or DID URL.
    /// - `DIDNotResolved` Sender or recipient DID not found.
    /// - `DIDUrlNotFound` DID doesn't contain mentioned DID Urls (for ex.,
    ///   key id)
    /// - `SecretNotFound` Sender secrets not found.
    /// - `Unsupported` No keys that the sender and the recipient share a
    ///   curve of, or that the library can use.
    /// - `InvalidState` Indicates library error.
    /// - `IOError` IO error during DID or secrets resolving
    #[verifier::rlimit(60)]
    pub fn pack_encrypted<D: DIDResolver, S: SecretsResolver>(
        &self,
        to: &str,
        from: Option<&str>,
        sign_by: Option<&str>,
        did_resolver: &D,
        secrets_resolver: &S,
        options: &PackEncryptedOptions,
    ) -> (r: Result<(String, PackEncryptedMetadata)>)
        ensures
            exists|inner: Drawn, outer: Drawn|
                draws_fit(
                    to@,
                    argument_view(from),
                    documents(did_resolver),
                    holdings(secrets_resolver),
                    options.enc_alg_auth,
                    options.enc_alg_anon,
                    inner,
                    outer,
                ) && match r {
                    Ok((text, metadata)) => #[trigger] encrypted_packed(
                        self@,
                        to@,
                        argument_view(from),
                        argument_view(sign_by),
                        documents(did_resolver),
                        holdings(secrets_resolver),
                        options.protect_sender,
                        options.enc_alg_auth,
                        options.enc_alg_anon,
                        inner,
                        outer,
                    ) == Ok::<(Seq<char>, PackEncryptedMetadataView), ErrorView>(
                        (text@, metadata@),
                    ),
                    Err(e) => (resolvers_failed(e@, did_resolver, secrets_resolver)
                        && arguments_checked(
                        to@,
                        argument_view(from),
                        argument_view(sign_by),
                    ) is Ok) || encrypted_packed(
                        self@,
                        to@,
                        argument_view(from),
                        argument_view(sign_by),
                        documents(did_resolver),
                        holdings(secrets_resolver),
                        options.protect_sender,
                        options.enc_alg_auth,
                        options.enc_alg_anon,
                        inner,
                        outer,
                    ) == Err::<(Seq<char>, PackEncryptedMetadataView), ErrorView>(e@),
                },
            arguments_checked(to@, argument_view(from), argument_view(sign_by)) is Err ==> r is Err
                && r->Err_0@ == arguments_checked(
                to@,
                argument_view(from),
                argument_view(sign_by),
            )->Err_0,
    {
        let ghost known = documents(did_resolver);
        let ghost held = holdings(secrets_resolver);
        let ghost blank = blank_draw(anon_encryption(options.enc_alg_anon));
        let ghost first = blank_draw(
            match from {
                Some(_) => auth_encryption(options.enc_alg_auth),
                None => anon_encryption(options.enc_alg_anon),
            },
        );
        let ghost spec_with = |inner: Drawn, outer: Drawn|
            encrypted_packed(
                self@,
                to@,
                argument_view(from),
                argument_view(sign_by),
                known,
                held,
                options.protect_sender,
                options.enc_alg_auth,
                options.enc_alg_anon,
                inner,
                outer,
            );
        match check_arguments(to, from, sign_by) {
            Ok(()) => {},
            Err(e) => {
                assert(spec_with(first, blank) == Err::<
                    (Seq<char>, PackEncryptedMetadataView),
                    ErrorView,
                >(e@));
                return Err(e);
            },
        }
        let (payload, sign_by_kid) = match self.pack_payload(
            sign_by,
            did_resolver,
            secrets_resolver,
        ) {
            Ok(p) => p,
            Err(e) => {
                assert(resolvers_failed(e@, did_resolver, secrets_resolver) || spec_with(
                    first,
                    blank,
                ) == Err::<
                    (Seq<char>, PackEncryptedMetadataView),
                    ErrorView,
                >(e@));
                return Err(e);
            },
        };
        match from {
            Some(sender) => {
                let (party, recipients) = match find_parties(
                    to,
                    sender,
                    did_resolver,
                    secrets_resolver,
                ) {
                    Ok(p) => p,
                    Err(e) => {
                        assert(resolvers_failed(e@, did_resolver, secrets_resolver) || spec_with(
                            first,
                            blank,
                        ) == Err::<
                            (Seq<char>, PackEncryptedMetadataView),
                            ErrorView,
                        >(e@));
                        return Err(e);
                    },
                };
                let sealed = authcrypt(
                    payload.as_str().as_bytes(),
                    &party,
                    &recipients,
                    options.enc_alg_auth,
                    options.enc_alg_anon,
                    options.protect_sender,
                );
                let ghost parties = AuthParties {
                    sender: party@,
                    recipients: parties_view(recipients@),
                };
                let ghost pair = choose|inner: Drawn, outer: Drawn|
                    {
                        &&& drawn_for(inner, auth_encryption(options.enc_alg_auth))
                        &&& drawn_for(outer, anon_encryption(options.enc_alg_anon))
                        &&& drawn_for_recipients(inner, parties_view(recipients@))
                        &&& drawn_for_recipients(outer, parties_view(recipients@))
                        &&& match sealed {
                            Ok(text) => #[trigger] authcrypted(
                                encode_utf8(payload@),
                                parties,
                                options.enc_alg_auth,
                                options.enc_alg_anon,
                                options.protect_sender,
                                inner,
                                outer,
                            ) == Ok::<Seq<char>, ErrorView>(text@),
                            Err(e) => authcrypted(
                                encode_utf8(payload@),
                                parties,
                                options.enc_alg_auth,
                                options.enc_alg_anon,
                                options.protect_sender,
                                inner,
                                outer,
                            ) == Err::<Seq<char>, ErrorView>(e@),
                        }
                    };
                let ghost drawn = (pair.0, pair.1);
                match sealed {
                    Ok(text) => {
                        let to_kids = crate::jwe::encrypt::kids_of_parties(&recipients);
                        let metadata = PackEncryptedMetadata {
                            messaging_service: None,
                            from_kid: Some(party.kid),
                            sign_by_kid,
                            to_kids,
                        };
                        assert(spec_with(drawn.0, drawn.1) == Ok::<
                            (Seq<char>, PackEncryptedMetadataView),
                            ErrorView,
                        >((text@, metadata@)));
                        Ok((text, metadata))
                    },
                    Err(e) => {
                        assert(spec_with(drawn.0, drawn.1) == Err::<
                            (Seq<char>, PackEncryptedMetadataView),
                            ErrorView,
                        >(e@));
                        Err(e)
                    },
                }
            },
            None => {
                let sealed = anoncrypt(
                    to,
                    did_resolver,
                    payload.as_str().as_bytes(),
                    options.enc_alg_anon,
                );
                let ghost drawn = choose|d: Drawn|
                    anon_draw_fits(d, to@, options.enc_alg_anon, known) && match sealed {
                        Ok((text, kids)) => #[trigger] anoncrypted(
                            encode_utf8(payload@),
                            to@,
                            options.enc_alg_anon,
                            known,
                            d,
                        ) == Ok::<(Seq<char>, Seq<Seq<char>>), ErrorView>(
                            (text@, kids.deep_view()),
                        ),
                        Err(e) => resolver_failed(e@, did_resolver.reliable()) || anoncrypted(
                            encode_utf8(payload@),
                            to@,
                            options.enc_alg_anon,
                            known,
                            d,
                        ) == Err::<(Seq<char>, Seq<Seq<char>>), ErrorView>(e@),
                    };
                match sealed {
                    Ok((text, to_kids)) => {
                        let metadata = PackEncryptedMetadata {
                            messaging_service: None,
                            from_kid: None,
                            sign_by_kid,
                            to_kids,
                        };
                        assert(spec_with(drawn, blank) == Ok::<
                            (Seq<char>, PackEncryptedMetadataView),
                            ErrorView,
                        >((text@, metadata@)));
                        Ok((text, metadata))
                    },
                    Err(e) => {
                        assert(resolvers_failed(e@, did_resolver, secrets_resolver) || spec_with(
                            drawn,
                            blank,
                        ) == Err::<
                            (Seq<char>, PackEncryptedMetadataView),
                            ErrorView,
                        >(e@));
                        Err(e)
                    },
                }
            },
        }
    }
}

} // verus!
