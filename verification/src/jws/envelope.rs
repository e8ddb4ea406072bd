//! What a signed envelope holds.

use crate::algorithms::SignAlg;
use vstd::prelude::*;

verus! {

/// The signing algorithm that a protected header names, where the library
/// knows it.
pub open spec fn sign_alg_named(name: Seq<char>) -> Option<SignAlg> {
    if name == "EdDSA"@ {
        Some(SignAlg::EdDSA)
    } else if name == "ES256"@ {
        Some(SignAlg::ES256)
    } else if name == "ES256K"@ {
        Some(SignAlg::ES256K)
    } else {
        None
    }
}

/// The name of a signing algorithm in a protected header.
pub open spec fn sign_alg_name(alg: SignAlg) -> Seq<char> {
    match alg {
        SignAlg::EdDSA => "EdDSA"@,
        SignAlg::ES256 => "ES256"@,
        SignAlg::ES256K => "ES256K"@,
    }
}

/// One signature of an envelope.
#[derive(Debug, Clone, PartialEq, Eq)]
pub struct Signature {
    /// The protected header as it stands in the envelope, in base64url.
    pub protected: String,
    /// `typ` of the protected header.
    pub typ: String,
    /// `alg` of the protected header; `None` for one that is not known.
    pub alg: Option<SignAlg>,
    /// The key id of the signer.
    pub kid: String,
    /// The signature, in base64url.
    pub signature: String,
}

/// The mathematical value of a [`Signature`].
pub ghost struct SignatureView {
    pub protected: Seq<char>,
    pub typ: Seq<char>,
    pub alg: Option<SignAlg>,
    pub kid: Seq<char>,
    pub signature: Seq<char>,
}

impl View for Signature {
    type V = SignatureView;

    open spec fn view(&self) -> SignatureView {
        SignatureView {
            protected: self.protected@,
            typ: self.typ@,
            alg: self.alg,
            kid: self.kid@,
            signature: self.signature@,
        }
    }
}

/// The views of a list of signatures, one for one.
pub open spec fn signatures_view(list: Seq<Signature>) -> Seq<SignatureView> {
    Seq::new(list.len(), |i: int| list[i]@)
}

/// A signed envelope, read.
#[derive(Debug, Clone, PartialEq, Eq)]
pub struct Jws {
    /// The signed content, in base64url.
    pub payload: String,
    /// The signatures.
    pub signatures: Vec<Signature>,
}

/// The mathematical value of a [`Jws`].
pub ghost struct JwsView {
    pub payload: Seq<char>,
    pub signatures: Seq<SignatureView>,
}

impl View for Jws {
    type V = JwsView;

    open spec fn view(&self) -> JwsView {
        JwsView { payload: self.payload@, signatures: signatures_view(self.signatures@) }
    }
}

} // verus!
