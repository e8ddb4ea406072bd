//! Opening an encrypted envelope with one recipient's key.

use crate::crypto::{
    a256kw_unwrapped, content_opened, derive_ecdh_1pu, derive_ecdh_es, ecdh_1pu_key, ecdh_es_key,
    open_content, unwrap_a256kw, ContentEncryption,
};
use crate::error::{err_caused, err_msg, error_caused, error_of, Error, ErrorKind, ErrorView};
use crate::jwe::envelope::{
    ecdh_1pu_name, ecdh_es_name, Jwe, JweView, KeyManagement, RecipientView,
};
use crate::jwe::parse::decoded;
use crate::jwk::{key_of_jwk, KeyPair, KeyPairView};
use vstd::prelude::*;
use vstd::string::StringSliceAdditionalSpecFns;
use vstd::utf8::encode_utf8;

verus! {

/// What opening an envelope gives: the content key and the content.
#[derive(Debug, Clone, PartialEq, Eq)]
pub struct Opened {
    pub cek: Vec<u8>,
    pub payload: Vec<u8>,
}

/// The mathematical value of an [`Opened`].
pub ghost struct OpenedView {
    pub cek: Seq<u8>,
    pub payload: Seq<u8>,
}

impl View for Opened {
    type V = OpenedView;

    open spec fn view(&self) -> OpenedView {
        OpenedView { cek: self.cek@, payload: self.payload@ }
    }
}

/// The wrapped key of the first recipient with the key id `kid`.
pub open spec fn wrapped_key_of(recipients: Seq<RecipientView>, kid: Seq<char>) -> Option<
    Seq<char>,
>
    decreases recipients.len(),
{
    if recipients.len() == 0 {
        None
    } else if recipients[0].kid == kid {
        Some(recipients[0].encrypted_key)
    } else {
        wrapped_key_of(recipients.drop_first(), kid)
    }
}

/// The ephemeral key of an envelope; whatever is wrong with it is
/// `Malformed`.
pub open spec fn ephemeral_key(epk: Seq<char>) -> Result<KeyPairView, ErrorView> {
    match key_of_jwk(epk) {
        Ok(key) => Ok(key),
        Err(e) => Err(error_caused(ErrorKind::Malformed, "Unable instantiate epk"@, e.message)),
    }
}

/// The key that wraps the content key for one recipient: ECDH-ES for
/// anonymous encryption; ECDH-1PU, with the sender's key and the tag of the
/// content, for authenticated encryption.
pub open spec fn wrapping_key(
    jwe: JweView,
    sender: Option<KeyPairView>,
    recipient: KeyPairView,
) -> Result<Seq<u8>, ErrorView> {
    let apu = match jwe.apu {
        Some(apu) => apu,
        None => Seq::empty(),
    };
    let derived = match jwe.alg {
        KeyManagement::EcdhEsA256kw => Ok(
            ecdh_es_key(jwe.epk, recipient.jwk, encode_utf8(ecdh_es_name()), apu, jwe.apv, true),
        ),
        KeyManagement::Ecdh1puA256kw => match sender {
            Some(sender) => Ok(
                ecdh_1pu_key(
                    jwe.epk,
                    sender.jwk,
                    recipient.jwk,
                    encode_utf8(ecdh_1pu_name()),
                    apu,
                    jwe.apv,
                    jwe.tag,
                    true,
                ),
            ),
            None => Err(error_of(ErrorKind::InvalidState, "Sender key is missing"@)),
        },
        KeyManagement::Other => Err(
            error_of(ErrorKind::Unsupported, "Unsupported key management algorithm"@),
        ),
    };
    match derived {
        Err(e) => Err(e),
        Ok(Ok(key)) => Ok(key),
        Ok(Err(cause)) => Err(error_caused(ErrorKind::InvalidState, "Unable derive kw"@, cause)),
    }
}

/// The error for an ephemeral key on another curve than the recipient's.
pub open spec fn curves_differ() -> ErrorView {
    error_of(ErrorKind::Malformed, "Ephemeral key and recipient key are on different curves"@)
}

/// Opening an envelope for the recipient `kid`: the wrapped key of `kid` is
/// decoded, the ephemeral key is read and is on the curve of the
/// recipient's key, the wrapping key is derived, the content key is
/// unwrapped, and the content is decrypted with the protected header as
/// additional data.
pub open spec fn opened_for(
    jwe: JweView,
    enc: ContentEncryption,
    sender: Option<KeyPairView>,
    kid: Seq<char>,
    recipient: KeyPairView,
) -> Result<OpenedView, ErrorView> {
    match wrapped_key_of(jwe.recipients, kid) {
        None => Err(error_of(ErrorKind::InvalidState, "KID not found in recipients"@)),
        Some(text) => match decoded(text, "Unable decode encrypted_key"@) {
            Err(e) => Err(e),
            Ok(wrapped) => match ephemeral_key(jwe.epk) {
                Err(e) => Err(e),
                Ok(epk) => if epk.curve != recipient.curve {
                    Err(curves_differ())
                } else {
                    match wrapping_key(jwe, sender, recipient) {
                        Err(e) => Err(e),
                        Ok(kek) => match a256kw_unwrapped(kek, wrapped) {
                            Err(cause) => Err(
                                error_caused(ErrorKind::Malformed, "Unable unwrap cek"@, cause),
                            ),
                            Ok(cek) => match content_opened(
                                enc,
                                cek,
                                jwe.ciphertext + jwe.tag,
                                jwe.iv,
                                encode_utf8(jwe.protected),
                            ) {
                                Err(cause) => Err(
                                    error_caused(
                                        ErrorKind::Malformed,
                                        "Unable decrypt content"@,
                                        cause,
                                    ),
                                ),
                                Ok(payload) => Ok(OpenedView { cek, payload }),
                            },
                        },
                    }
                },
            },
        },
    }
}

impl Jwe {
    /// The wrapped key of the recipient `kid`, in base64url.
    #[verifier::loop_isolation(false)]
    pub fn wrapped_key(&self, kid: &str) -> (r: Option<&String>)
        ensures
            match r {
                Some(k) => wrapped_key_of(self@.recipients, kid@) == Some(k@),
                None => wrapped_key_of(self@.recipients, kid@) is None,
            },
    {
        let wanted = kid.to_owned();
        let ghost all = self@.recipients;
        let mut i: usize = 0;
        assert(all.skip(0) =~= all);
        while i < self.recipients.len()
            invariant
                i <= self.recipients.len(),
                wrapped_key_of(all, kid@) == wrapped_key_of(all.skip(i as int), kid@),
            decreases self.recipients.len() - i,
        {
            let ghost rest = all.skip(i as int);
            assert(rest[0] == self.recipients[i as int]@);
            assert(rest.drop_first() =~= all.skip(i + 1));
            if self.recipients[i].kid == wanted {
                return Some(&self.recipients[i].encrypted_key);
            }
            i += 1;
        }
        None
    }

    fn wrapping_key(&self, sender: Option<&KeyPair>, recipient: &KeyPair) -> (r: Result<
        Vec<u8>,
        Error,
    >)
        ensures
            match r {
                Ok(k) => wrapping_key(self@, sender_view(sender), recipient@) == Ok::<
                    Seq<u8>,
                    ErrorView,
                >(k@),
                Err(e) => wrapping_key(self@, sender_view(sender), recipient@) == Err::<
                    Seq<u8>,
                    ErrorView,
                >(e@),
            },
    {
        let empty: Vec<u8> = Vec::new();
        let apu: &Vec<u8> = match &self.apu {
            Some(apu) => apu,
            None => &empty,
        };
        assert(empty@ =~= Seq::<u8>::empty());
        let derived = match self.alg {
            KeyManagement::EcdhEsA256kw => derive_ecdh_es(
                self.epk.as_str(),
                recipient.jwk.as_str(),
                "ECDH-ES+A256KW".as_bytes(),
                apu.as_slice(),
                self.apv.as_slice(),
                true,
            ),
            KeyManagement::Ecdh1puA256kw => match sender {
                Some(sender) => derive_ecdh_1pu(
                    self.epk.as_str(),
                    sender.jwk.as_str(),
                    recipient.jwk.as_str(),
                    "ECDH-1PU+A256KW".as_bytes(),
                    apu.as_slice(),
                    self.apv.as_slice(),
                    self.tag.as_slice(),
                    true,
                ),
                None => {
                    return Err(err_msg(ErrorKind::InvalidState, "Sender key is missing"));
                },
            },
            KeyManagement::Other => {
                return Err(
                    err_msg(ErrorKind::Unsupported, "Unsupported key management algorithm"),
                );
            },
        };
        match derived {
            Ok(key) => Ok(key),
            Err(cause) => Err(
                err_caused(ErrorKind::InvalidState, "Unable derive kw", cause.as_str()),
            ),
        }
    }

    /// Opens the envelope for the recipient `kid` with its key.
    pub fn decrypt(
        &self,
        enc: ContentEncryption,
        sender: Option<&KeyPair>,
        kid: &str,
        recipient: &KeyPair,
    ) -> (r: Result<Opened, Error>)
        ensures
            match r {
                Ok(o) => opened_for(self@, enc, sender_view(sender), kid@, recipient@) == Ok::<
                    OpenedView,
                    ErrorView,
                >(o@),
                Err(e) => opened_for(self@, enc, sender_view(sender), kid@, recipient@) == Err::<
                    OpenedView,
                    ErrorView,
                >(e@),
            },
    {
        let text = match self.wrapped_key(kid) {
            Some(t) => t,
            None => {
                return Err(err_msg(ErrorKind::InvalidState, "KID not found in recipients"));
            },
        };
        let wrapped = crate::encoding::decode_field(text.as_str(), "Unable decode encrypted_key")?;
        match KeyPair::from_jwk(self.epk.as_str()) {
            Ok(epk) => if epk.curve != recipient.curve {
                return Err(
                    err_msg(
                        ErrorKind::Malformed,
                        "Ephemeral key and recipient key are on different curves",
                    ),
                );
            },
            Err(e) => {
                return Err(
                    err_caused(ErrorKind::Malformed, "Unable instantiate epk", e.message.as_str()),
                );
            },
        }
        let kek = self.wrapping_key(sender, recipient)?;
        let cek = match unwrap_a256kw(kek.as_slice(), wrapped.as_slice()) {
            Ok(k) => k,
            Err(cause) => {
                return Err(
                    err_caused(ErrorKind::Malformed, "Unable unwrap cek", cause.as_str()),
                );
            },
        };
        let mut sealed = crate::utils::copy_bytes(&self.ciphertext);
        let mut tag = crate::utils::copy_bytes(&self.tag);
        sealed.append(&mut tag);
        match open_content(
            enc,
            cek.as_slice(),
            sealed.as_slice(),
            self.iv.as_slice(),
            self.protected.as_str().as_bytes(),
        ) {
            Ok(payload) => Ok(Opened { cek, payload }),
            Err(cause) => Err(
                err_caused(ErrorKind::Malformed, "Unable decrypt content", cause.as_str()),
            ),
        }
    }
}

/// The view of an optional sender key.
pub open spec fn sender_view(sender: Option<&KeyPair>) -> Option<KeyPairView> {
    match sender {
        Some(k) => Some(k@),
        None => None,
    }
}

/// Whatever the primitives refuse in an envelope makes it `Malformed`: where
/// the content key does not unwrap under the key that was agreed on, or the
/// content does not open under the content key, the envelope does not open,
/// and the error says that it is malformed.
pub proof fn law_refused_content_is_malformed(
    jwe: JweView,
    enc: ContentEncryption,
    sender: Option<KeyPairView>,
    kid: Seq<char>,
    recipient: KeyPairView,
)
    requires
        wrapped_key_of(jwe.recipients, kid) is Some,
        decoded(wrapped_key_of(jwe.recipients, kid)->Some_0, "Unable decode encrypted_key"@) is Ok,
        ephemeral_key(jwe.epk) is Ok,
        ephemeral_key(jwe.epk)->Ok_0.curve == recipient.curve,
        wrapping_key(jwe, sender, recipient) is Ok,
        ({
            let wrapped = decoded(
                wrapped_key_of(jwe.recipients, kid)->Some_0,
                "Unable decode encrypted_key"@,
            )->Ok_0;
            let unwrapped = a256kw_unwrapped(wrapping_key(jwe, sender, recipient)->Ok_0, wrapped);
            unwrapped is Err || content_opened(
                enc,
                unwrapped->Ok_0,
                jwe.ciphertext + jwe.tag,
                jwe.iv,
                encode_utf8(jwe.protected),
            ) is Err
        }),
    ensures
        opened_for(jwe, enc, sender, kid, recipient) is Err,
        opened_for(jwe, enc, sender, kid, recipient)->Err_0.kind == ErrorKind::Malformed,
{
}

} // verus!
