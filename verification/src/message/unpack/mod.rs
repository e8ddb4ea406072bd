//! Unpacking: from a packed message to the plaintext and its trust
//! metadata.

pub mod anoncrypt;
pub mod authcrypt;
pub mod keys;
pub mod laws;
pub mod round_trip;
pub mod sign;

use crate::algorithms::{AnonCryptAlg, AuthCryptAlg, SignAlg};
use crate::did::{documents, DIDDocView, DIDResolver};
use crate::error::{err_msg, error_of, ErrorKind, ErrorView, Result};
use crate::jwe::parse::{looks_like_jwe, read_jwe};
use crate::jws::parse::looks_like_jws;
use crate::message::{plaintext_typ, Message, MessageView};
use crate::message::codec::{message_read, wrong_typ};
use crate::message::unpack::anoncrypt::{
    after_anoncrypt, anoncrypt_layer, try_unpack_anoncrypt, AnonLayer,
};
use crate::message::unpack::authcrypt::{
    after_authcrypt, authcrypt_layer, try_unpack_authcrypt, AuthLayer,
};
use crate::message::unpack::sign::{after_sign, sign_layer, try_unpack_sign, SignLayer};
use crate::secrets::{holdings, resolvers_failed, SecretView, SecretsResolver};
use vstd::prelude::*;

verus! {

/// Allows fine customization of unpacking process
pub struct UnpackOptions {
    /// Whether the plaintext must be decryptable by all keys resolved by the
    /// secrets resolver. False by default.
    pub expect_decrypt_by_all_keys: bool,
    /// If `true` and the packed message is a `Forward` wrapping a plaintext
    /// packed for the given recipient, then both Forward and packed
    /// plaintext are unpacked automatically, and the unpacked plaintext will
    /// be returned instead of unpacked Forward. False by default. This
    /// version refuses `true`.
    pub unwrap_re_wrapping_forward: bool,
}

impl Default for UnpackOptions {
    fn default() -> (r: Self)
        ensures
            !r.expect_decrypt_by_all_keys,
            !r.unwrap_re_wrapping_forward,
    {
        UnpackOptions { expect_decrypt_by_all_keys: false, unwrap_re_wrapping_forward: false }
    }
}

/// What unpacking found out about the protection of a message.
#[derive(Debug, PartialEq, Eq, Clone)]
pub struct UnpackMetadata {
    /// Whether the plaintext has been encrypted
    pub encrypted: bool,
    /// Whether the plaintext has been authenticated
    pub authenticated: bool,
    /// Whether the plaintext has been signed
    pub non_repudiation: bool,
    /// Whether the sender ID was protected
    pub anonymous_sender: bool,
    /// Whether the plaintext was re-wrapped in a forward message by a mediator
    pub re_wrapped_in_forward: bool,
    /// Key ID of the sender used for authentication encryption if the
    /// plaintext has been authenticated and encrypted
    pub encrypted_from_kid: Option<String>,
    /// Target key IDS for encryption if the plaintext has been encrypted
    pub encrypted_to_kids: Option<Vec<String>>,
    /// Key ID used for signature if the plaintext has been signed
    pub sign_from: Option<String>,
    /// Algorithm used for authenticated encryption
    pub enc_alg_auth: Option<AuthCryptAlg>,
    /// Algorithm used for anonymous encryption
    pub enc_alg_anon: Option<AnonCryptAlg>,
    /// Algorithm used for message signing
    pub sign_alg: Option<SignAlg>,
    /// If the plaintext has been signed, the JWS is returned for
    /// non-repudiation purposes
    pub signed_message: Option<String>,
}

/// The mathematical value of an [`UnpackMetadata`].
pub ghost struct UnpackMetadataView {
    pub encrypted: bool,
    pub authenticated: bool,
    pub non_repudiation: bool,
    pub anonymous_sender: bool,
    pub re_wrapped_in_forward: bool,
    pub encrypted_from_kid: Option<Seq<char>>,
    pub encrypted_to_kids: Option<Seq<Seq<char>>>,
    pub sign_from: Option<Seq<char>>,
    pub enc_alg_auth: Option<AuthCryptAlg>,
    pub enc_alg_anon: Option<AnonCryptAlg>,
    pub sign_alg: Option<SignAlg>,
    pub signed_message: Option<Seq<char>>,
}

impl View for UnpackMetadata {
    type V = UnpackMetadataView;

    open spec fn view(&self) -> UnpackMetadataView {
        UnpackMetadataView {
            encrypted: self.encrypted,
            authenticated: self.authenticated,
            non_repudiation: self.non_repudiation,
            anonymous_sender: self.anonymous_sender,
            re_wrapped_in_forward: self.re_wrapped_in_forward,
            encrypted_from_kid: self.encrypted_from_kid.deep_view(),
            encrypted_to_kids: self.encrypted_to_kids.deep_view(),
            sign_from: self.sign_from.deep_view(),
            enc_alg_auth: self.enc_alg_auth,
            enc_alg_anon: self.enc_alg_anon,
            sign_alg: self.sign_alg,
            signed_message: self.signed_message.deep_view(),
        }
    }
}

/// The metadata of a message that no envelope protected.
pub open spec fn unprotected() -> UnpackMetadataView {
    UnpackMetadataView {
        encrypted: false,
        authenticated: false,
        non_repudiation: false,
        anonymous_sender: false,
        re_wrapped_in_forward: false,
        encrypted_from_kid: None,
        encrypted_to_kids: None,
        sign_from: None,
        enc_alg_auth: None,
        enc_alg_anon: None,
        sign_alg: None,
        signed_message: None,
    }
}

/// The error for a request to unwrap a forward.
pub open spec fn forward_unsupported() -> ErrorView {
    error_of(ErrorKind::Unsupported, "Forward unwrapping is unsupported by this version"@)
}

/// The error for what is left after the envelopes and is no message.
pub open spec fn not_a_didcomm_message() -> ErrorView {
    error_of(ErrorKind::Malformed, "Message is not a valid JWE, JWS or JWM"@)
}

/// The plaintext that a text holds, held to the rules of a plaintext.
pub open spec fn plaintext_of(text: Seq<char>) -> core::result::Result<MessageView, ErrorView> {
    match message_read(text) {
        Err(_) => Err(not_a_didcomm_message()),
        Ok(m) => if m.typ != plaintext_typ() {
            Err(wrong_typ())
        } else {
            Ok(m)
        },
    }
}

/// What is left of a text after the anonymous envelope, if it has one.
pub open spec fn after_anon_text(text: Seq<char>, layer: Option<AnonLayer>) -> Seq<char> {
    match layer {
        Some(l) => l.payload,
        None => text,
    }
}

/// The metadata after the anonymous envelope, if there was one.
pub open spec fn after_anon_metadata(
    md: UnpackMetadataView,
    layer: Option<AnonLayer>,
) -> UnpackMetadataView {
    match layer {
        Some(l) => after_anoncrypt(md, l),
        None => md,
    }
}

/// What is left of a text after the authenticated envelope, if it has one.
pub open spec fn after_auth_text(text: Seq<char>, layer: Option<AuthLayer>) -> Seq<char> {
    match layer {
        Some(l) => l.payload,
        None => text,
    }
}

/// The metadata after the authenticated envelope, if there was one.
pub open spec fn after_auth_metadata(
    md: UnpackMetadataView,
    layer: Option<AuthLayer>,
) -> UnpackMetadataView {
    match layer {
        Some(l) => after_authcrypt(md, l),
        None => md,
    }
}

/// What is left of a text after the signed envelope, if it has one.
pub open spec fn after_sign_text(text: Seq<char>, layer: Option<SignLayer>) -> Seq<char> {
    match layer {
        Some(l) => l.payload,
        None => text,
    }
}

/// The metadata after the signed envelope, if there was one.
pub open spec fn after_sign_metadata(
    md: UnpackMetadataView,
    layer: Option<SignLayer>,
) -> UnpackMetadataView {
    match layer {
        Some(l) => after_sign(md, l),
        None => md,
    }
}

/// Unpacking, as a function of the packed text, of what the resolvers know
/// and hold, and of the options: the anonymous envelope is taken off, then
/// the authenticated one, then the signed one, each where it is there; what
/// is left must be a plaintext. Each envelope adds to the metadata.
pub open spec fn unpacked(
    text: Seq<char>,
    known: spec_fn(Seq<char>) -> Option<DIDDocView>,
    held: spec_fn(Seq<char>) -> Option<SecretView>,
    all_keys: bool,
    unwrap_forward: bool,
) -> core::result::Result<(MessageView, UnpackMetadataView), ErrorView> {
    if unwrap_forward {
        Err(forward_unsupported())
    } else {
        match anoncrypt_layer(text, held, all_keys) {
            Err(e) => Err(e),
            Ok(anon) => {
                let text1 = after_anon_text(text, anon);
                let md1 = after_anon_metadata(unprotected(), anon);
                match authcrypt_layer(text1, known, held, all_keys) {
                    Err(e) => Err(e),
                    Ok(auth) => {
                        let text2 = after_auth_text(text1, auth);
                        let md2 = after_auth_metadata(md1, auth);
                        match sign_layer(text2, known) {
                            Err(e) => Err(e),
                            Ok(signed) => {
                                let text3 = after_sign_text(text2, signed);
                                let md3 = after_sign_metadata(md2, signed);
                                match plaintext_of(text3) {
                                    Err(e) => Err(e),
                                    Ok(m) => Ok((m, md3)),
                                }
                            },
                        }
                    },
                }
            },
        }
    }
}

/// Whether unpacking a text asks a resolver at all: no forward is to be
/// unwrapped, the text is an envelope, encrypted or signed, and where it
/// has the shape of an encrypted one it reads as one. On every other text
/// both resolvers are left alone, and the result is owed whatever they are.
pub open spec fn unpack_asks(text: Seq<char>, unwrap_forward: bool) -> bool {
    &&& !unwrap_forward
    &&& looks_like_jwe(text) || looks_like_jws(text)
    &&& read_jwe(text) is Ok
}

/// A plaintext from text, held to the rules of a plaintext.
pub fn read_plaintext(text: &str) -> (r: Result<Message>)
    ensures
        match r {
            Ok(m) => plaintext_of(text@) == Ok::<MessageView, ErrorView>(m@),
            Err(e) => plaintext_of(text@) == Err::<MessageView, ErrorView>(e@),
        },
{
    match Message::from_str(text) {
        Ok(m) => m.validate(),
        Err(_) => Err(err_msg(ErrorKind::Malformed, "Message is not a valid JWE, JWS or JWM")),
    }
}

impl Message {
    /// Unpacks the packed message by doing decryption and verifying the
    /// signatures. This method supports all DID Comm message types
    /// (encrypted, signed, plaintext).
    ///
    /// # Params
    /// - `msg` the message as JSON string to be unpacked
    /// - `did_resolver` instance of `DIDResolver` to resolve DIDs
    /// - `secrets_resolver` instance of `SecretsResolver` to resolve the
    ///   recipient's secrets
    /// - `options` allow fine configuration of unpacking process
    ///
    /// # Returns
    /// Tuple `(message, metadata)`.
    /// - `message` plain message instance
    /// - `metadata` additional metadata about this `unpack` execution like
    ///   used keys identifiers, trust context, algorithms and etc.
    ///
    /// # Errors
    /// - `DIDNotResolved` Sender or signer DID not found.
    /// - `DIDUrlNotFound` DID doesn't contain mentioned DID Urls (for ex.,
    ///   key id)
    /// - `Malformed` message doesn't correspond to DID Comm or has invalid
    ///   encryption or signatures.
    /// - `Unsupported` Used crypto or method is unsupported.
    /// - `SecretNotFound` No recipient secrets found.
    /// - `InvalidState` Indicates library error.
    /// - `IOError` IO error during DID or secrets resolving.
    pub fn unpack<D: DIDResolver, S: SecretsResolver>(
        msg: &str,
        did_resolver: &D,
        secrets_resolver: &S,
        options: &UnpackOptions,
    ) -> (r: Result<(Message, UnpackMetadata)>)
        ensures
            match r {
                Ok((message, metadata)) => unpacked(
                    msg@,
                    documents(did_resolver),
                    holdings(secrets_resolver),
                    options.expect_decrypt_by_all_keys,
                    options.unwrap_re_wrapping_forward,
                ) == Ok::<(MessageView, UnpackMetadataView), ErrorView>((message@, metadata@)),
                Err(e) => (resolvers_failed(e@, did_resolver, secrets_resolver) && unpack_asks(msg@, options.unwrap_re_wrapping_forward)) || unpacked(
                    msg@,
                    documents(did_resolver),
                    holdings(secrets_resolver),
                    options.expect_decrypt_by_all_keys,
                    options.unwrap_re_wrapping_forward,
                ) == Err::<(MessageView, UnpackMetadataView), ErrorView>(e@),
            },
            options.unwrap_re_wrapping_forward ==> r is Err && r->Err_0@ == forward_unsupported(),
            !options.unwrap_re_wrapping_forward && !looks_like_jwe(msg@) && !looks_like_jws(msg@)
                ==> match r {
                Ok((message, metadata)) => plaintext_of(msg@) == Ok::<MessageView, ErrorView>(
                    message@,
                ) && metadata@ == unprotected(),
                Err(e) => plaintext_of(msg@) == Err::<MessageView, ErrorView>(e@),
            },
            !options.unwrap_re_wrapping_forward && read_jwe(msg@) is Err ==> r is Err
                && r->Err_0@ == read_jwe(msg@)->Err_0,
    {
        if options.unwrap_re_wrapping_forward {
            return Err(
                err_msg(ErrorKind::Unsupported, "Forward unwrapping is unsupported by this version"),
            );
        }
        let mut metadata = UnpackMetadata {
            encrypted: false,
            authenticated: false,
            non_repudiation: false,
            anonymous_sender: false,
            re_wrapped_in_forward: false,
            encrypted_from_kid: None,
            encrypted_to_kids: None,
            sign_from: None,
            enc_alg_auth: None,
            enc_alg_anon: None,
            sign_alg: None,
            signed_message: None,
        };
        let anoncrypted = try_unpack_anoncrypt(msg, secrets_resolver, options, &mut metadata)?;
        let msg1: String = match anoncrypted {
            Some(payload) => payload,
            None => msg.to_owned(),
        };
        let authcrypted = try_unpack_authcrypt(
            msg1.as_str(),
            did_resolver,
            secrets_resolver,
            options,
            &mut metadata,
        )?;
        let msg2: String = match authcrypted {
            Some(payload) => payload,
            None => msg1,
        };
        let signed = try_unpack_sign(msg2.as_str(), did_resolver, options, &mut metadata)?;
        let msg3: String = match signed {
            Some(payload) => payload,
            None => msg2,
        };
        let message = read_plaintext(msg3.as_str())?;
        Ok((message, metadata))
    }
}

} // verus!
