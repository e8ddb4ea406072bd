//! Secrets, and the resolver that holds them.

pub mod resolvers;

use crate::did::MaterialView;
use crate::error::{ErrorKind, Result};
use vstd::prelude::*;

verus! {

/// The type that a secret declares.
#[derive(Debug, Clone, Copy, PartialEq, Eq, Structural)]
pub enum SecretType {
    JsonWebKey2020,
    X25519KeyAgreementKey2019,
    Ed25519VerificationKey2018,
    EcdsaSecp256k1VerificationKey2019,
    X25519KeyAgreementKey2020,
    Ed25519VerificationKey2020,
    Other,
}

/// The private key of a secret, in the form it is stored in.
#[derive(Debug, Clone, PartialEq, Eq)]
pub enum SecretMaterial {
    /// A JSON Web Key with its private part, as JSON text.
    JWK(String),
    /// Multicodec bytes in multibase text.
    Multibase(String),
    /// Raw key bytes in base58 text.
    Base58(String),
    /// Raw key bytes in hexadecimal text.
    Hex(String),
    /// Anything else, as JSON text.
    Other(String),
}

impl View for SecretMaterial {
    type V = MaterialView;

    open spec fn view(&self) -> MaterialView {
        match self {
            SecretMaterial::JWK(t) => MaterialView::JWK(t@),
            SecretMaterial::Multibase(t) => MaterialView::Multibase(t@),
            SecretMaterial::Base58(t) => MaterialView::Base58(t@),
            SecretMaterial::Hex(t) => MaterialView::Hex(t@),
            SecretMaterial::Other(t) => MaterialView::Other(t@),
        }
    }
}

/// A private key and the key id it belongs to.
#[derive(Debug, Clone, PartialEq, Eq)]
pub struct Secret {
    /// The key id: a DID URL.
    pub id: String,
    pub type_: SecretType,
    pub secret_material: SecretMaterial,
}

/// The mathematical value of a [`Secret`].
pub ghost struct SecretView {
    pub id: Seq<char>,
    pub type_: SecretType,
    pub material: MaterialView,
}

impl View for Secret {
    type V = SecretView;

    open spec fn view(&self) -> SecretView {
        SecretView { id: self.id@, type_: self.type_, material: self.secret_material@ }
    }
}

impl SecretMaterial {
    /// A copy of this material.
    pub fn duplicate(&self) -> (r: SecretMaterial)
        ensures
            r@ == self@,
    {
        match self {
            SecretMaterial::JWK(t) => SecretMaterial::JWK(t.clone()),
            SecretMaterial::Multibase(t) => SecretMaterial::Multibase(t.clone()),
            SecretMaterial::Base58(t) => SecretMaterial::Base58(t.clone()),
            SecretMaterial::Hex(t) => SecretMaterial::Hex(t.clone()),
            SecretMaterial::Other(t) => SecretMaterial::Other(t.clone()),
        }
    }
}

impl Secret {
    /// A copy of this secret.
    pub fn duplicate(&self) -> (r: Secret)
        ensures
            r@ == self@,
    {
        Secret {
            id: self.id.clone(),
            type_: self.type_,
            secret_material: self.secret_material.duplicate(),
        }
    }
}

/// Of `kids`, in their order, those for which `held` has a secret.
pub open spec fn held_among(
    kids: Seq<Seq<char>>,
    held: spec_fn(Seq<char>) -> Option<SecretView>,
) -> Seq<Seq<char>>
    decreases kids.len(),
{
    if kids.len() == 0 {
        Seq::empty()
    } else if held(kids.last()) is Some {
        held_among(kids.drop_last(), held).push(kids.last())
    } else {
        held_among(kids.drop_last(), held)
    }
}

/// Whether an error is the failure of one of two resolvers: it is an
/// `IOError`, and one of the two is a resolver that can fail.
pub open spec fn resolvers_failed<D: crate::did::DIDResolver + ?Sized, S: SecretsResolver + ?Sized>(
    e: crate::error::ErrorView,
    did_resolver: &D,
    secrets_resolver: &S,
) -> bool {
    crate::error::resolver_failed(e, did_resolver.reliable() && secrets_resolver.reliable())
}

/// What a resolver holds, as a function from key ids.
pub open spec fn holdings<S: SecretsResolver + ?Sized>(resolver: &S) -> spec_fn(Seq<char>) -> Option<
    SecretView,
> {
    |kid: Seq<char>| resolver.held(kid)
}

/// Hands out the secrets that this process holds. Implement it over
/// whatever stores them: a list in memory, a wallet, a key service.
pub trait SecretsResolver {
    /// The secret that the resolver holds under a key id.
    spec fn held(&self, kid: Seq<char>) -> Option<SecretView>;

    /// Whether the resolver never fails: it answers every question from
    /// what it holds. A resolver over a list in memory is reliable; one
    /// that asks a wallet or a key service is not.
    spec fn reliable(&self) -> bool;

    /// The secret of a key id; `None` where none is held. A resolver that
    /// could not do its work returns an `IOError`.
    fn get_secret(&self, kid: &str) -> (r: Result<Option<Secret>>)
        ensures
            match r {
                Ok(Some(secret)) => self.held(kid@) == Some(secret@),
                Ok(None) => self.held(kid@) is None,
                Err(e) => e.kind == ErrorKind::IOError && !self.reliable(),
            },
    ;

    /// Of the given key ids, in their order, those that a secret is held
    /// for. A resolver that could not do its work returns an `IOError`.
    fn find_secrets(&self, kids: &Vec<String>) -> (r: Result<Vec<String>>)
        ensures
            match r {
                Ok(found) => found.deep_view() == held_among(
                    kids.deep_view(),
                    |kid: Seq<char>| self.held(kid),
                ),
                Err(e) => e.kind == ErrorKind::IOError && !self.reliable(),
            },
    ;
}

} // verus!
