//! What an encrypted envelope holds.

use crate::crypto::ContentEncryption;
use vstd::prelude::*;

verus! {

/// How the content key reaches each recipient.
#[derive(Debug, Clone, Copy, PartialEq, Eq, Structural)]
pub enum KeyManagement {
    /// ECDH-1PU key agreement with A256KW key wrapping: authenticated.
    Ecdh1puA256kw,
    /// ECDH-ES key agreement with A256KW key wrapping: anonymous.
    EcdhEsA256kw,
    /// An algorithm that the library does not know.
    Other,
}

/// The name of ECDH-ES with A256KW in a protected header.
pub open spec fn ecdh_es_name() -> Seq<char> {
    "ECDH-ES+A256KW"@
}

/// The name of ECDH-1PU with A256KW in a protected header.
pub open spec fn ecdh_1pu_name() -> Seq<char> {
    "ECDH-1PU+A256KW"@
}

/// The key management that a protected header names.
pub open spec fn key_management_of(name: Seq<char>) -> KeyManagement {
    if name == ecdh_1pu_name() {
        KeyManagement::Ecdh1puA256kw
    } else if name == ecdh_es_name() {
        KeyManagement::EcdhEsA256kw
    } else {
        KeyManagement::Other
    }
}

/// The content encryption that a protected header names, where the library
/// knows it.
pub open spec fn content_encryption_of(name: Seq<char>) -> Option<ContentEncryption> {
    if name == "A256CBC-HS512"@ {
        Some(ContentEncryption::A256cbcHs512)
    } else if name == "XC20P"@ {
        Some(ContentEncryption::Xc20P)
    } else if name == "A256GCM"@ {
        Some(ContentEncryption::A256Gcm)
    } else {
        None
    }
}

/// The name of a content encryption in a protected header.
pub open spec fn content_encryption_name(enc: ContentEncryption) -> Seq<char> {
    match enc {
        ContentEncryption::A256cbcHs512 => "A256CBC-HS512"@,
        ContentEncryption::Xc20P => "XC20P"@,
        ContentEncryption::A256Gcm => "A256GCM"@,
    }
}

/// One recipient of an envelope: the key id and the content key wrapped for
/// it, in base64url.
#[derive(Debug, Clone, PartialEq, Eq)]
pub struct Recipient {
    pub kid: String,
    pub encrypted_key: String,
}

/// The mathematical value of a [`Recipient`].
pub ghost struct RecipientView {
    pub kid: Seq<char>,
    pub encrypted_key: Seq<char>,
}

impl View for Recipient {
    type V = RecipientView;

    open spec fn view(&self) -> RecipientView {
        RecipientView { kid: self.kid@, encrypted_key: self.encrypted_key@ }
    }
}

/// The views of a list of recipients, one for one.
pub open spec fn recipients_view(recipients: Seq<Recipient>) -> Seq<RecipientView> {
    Seq::new(recipients.len(), |i: int| recipients[i]@)
}

/// The key ids of a list of recipients, one for one.
pub open spec fn kids_of(recipients: Seq<RecipientView>) -> Seq<Seq<char>> {
    Seq::new(recipients.len(), |i: int| recipients[i].kid)
}

/// An encrypted envelope, read and decoded.
#[derive(Debug, Clone, PartialEq, Eq)]
pub struct Jwe {
    /// The protected header as it stands in the envelope, in base64url. Its
    /// bytes are the additional data of the content encryption.
    pub protected: String,
    /// `typ` of the protected header.
    pub typ: Option<String>,
    /// `alg` of the protected header.
    pub alg: KeyManagement,
    /// `enc` of the protected header; `None` for one that is not known.
    pub enc: Option<ContentEncryption>,
    /// `skid` of the protected header: the sender's key id.
    pub skid: Option<String>,
    /// `apu` of the protected header, decoded.
    pub apu: Option<Vec<u8>>,
    /// `apv` of the protected header, decoded.
    pub apv: Vec<u8>,
    /// `epk` of the protected header: the ephemeral public key, a JSON Web
    /// Key as JSON text.
    pub epk: String,
    /// The recipients.
    pub recipients: Vec<Recipient>,
    /// The nonce of the content encryption, decoded.
    pub iv: Vec<u8>,
    /// The ciphertext, decoded.
    pub ciphertext: Vec<u8>,
    /// The tag of the content encryption, decoded.
    pub tag: Vec<u8>,
}

/// The mathematical value of a [`Jwe`].
pub ghost struct JweView {
    pub protected: Seq<char>,
    pub typ: Option<Seq<char>>,
    pub alg: KeyManagement,
    pub enc: Option<ContentEncryption>,
    pub skid: Option<Seq<char>>,
    pub apu: Option<Seq<u8>>,
    pub apv: Seq<u8>,
    pub epk: Seq<char>,
    pub recipients: Seq<RecipientView>,
    pub iv: Seq<u8>,
    pub ciphertext: Seq<u8>,
    pub tag: Seq<u8>,
}

/// The view of optional bytes.
pub open spec fn bytes_view(bytes: Option<Vec<u8>>) -> Option<Seq<u8>> {
    match bytes {
        Some(b) => Some(b@),
        None => None,
    }
}

/// The view of an optional text.
pub open spec fn text_view(text: Option<String>) -> Option<Seq<char>> {
    match text {
        Some(t) => Some(t@),
        None => None,
    }
}

impl View for Jwe {
    type V = JweView;

    open spec fn view(&self) -> JweView {
        JweView {
            protected: self.protected@,
            typ: text_view(self.typ),
            alg: self.alg,
            enc: self.enc,
            skid: text_view(self.skid),
            apu: bytes_view(self.apu),
            apv: self.apv@,
            epk: self.epk@,
            recipients: recipients_view(self.recipients@),
            iv: self.iv@,
            ciphertext: self.ciphertext@,
            tag: self.tag@,
        }
    }
}

impl JweView {
    /// The key ids of the recipients, in their order.
    pub open spec fn kids(self) -> Seq<Seq<char>> {
        kids_of(self.recipients)
    }
}

impl Jwe {
    /// The key ids of the recipients, in their order.
    pub fn kids(&self) -> (r: Vec<String>)
        ensures
            r.deep_view() == self@.kids(),
    {
        let mut out: Vec<String> = Vec::new();
        let mut i: usize = 0;
        while i < self.recipients.len()
            invariant
                i <= self.recipients.len(),
                out.len() == i,
                forall|k: int| 0 <= k < i ==> out[k]@ == self.recipients[k].kid@,
            decreases self.recipients.len() - i,
        {
            out.push(self.recipients[i].kid.clone());
            i += 1;
        }
        assert(out.deep_view() =~= self@.kids());
        out
    }
}

} // verus!
