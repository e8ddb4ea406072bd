//! DID documents and the resolver that finds them.

pub mod resolvers;

use crate::error::{ErrorKind, Result};
use crate::utils::copy_texts;
use vstd::prelude::*;

verus! {

/// The type that a verification method declares.
#[derive(Debug, Clone, Copy, PartialEq, Eq, Structural)]
pub enum VerificationMethodType {
    JsonWebKey2020,
    X25519KeyAgreementKey2019,
    Ed25519VerificationKey2018,
    EcdsaSecp256k1VerificationKey2019,
    X25519KeyAgreementKey2020,
    Ed25519VerificationKey2020,
    Other,
}

/// The public key of a verification method, in the form it was published in.
#[derive(Debug, Clone, PartialEq, Eq)]
pub enum VerificationMaterial {
    /// A JSON Web Key, as JSON text.
    JWK(String),
    /// Multicodec bytes in multibase text.
    Multibase(String),
    /// Raw key bytes in base58 text.
    Base58(String),
    /// Raw key bytes in hexadecimal text.
    Hex(String),
    /// Anything else, as JSON text.
    Other(String),
}

/// The mathematical value of key material, public or secret.
pub ghost enum MaterialView {
    JWK(Seq<char>),
    Multibase(Seq<char>),
    Base58(Seq<char>),
    Hex(Seq<char>),
    Other(Seq<char>),
}

impl View for VerificationMaterial {
    type V = MaterialView;

    open spec fn view(&self) -> MaterialView {
        match self {
            VerificationMaterial::JWK(t) => MaterialView::JWK(t@),
            VerificationMaterial::Multibase(t) => MaterialView::Multibase(t@),
            VerificationMaterial::Base58(t) => MaterialView::Base58(t@),
            VerificationMaterial::Hex(t) => MaterialView::Hex(t@),
            VerificationMaterial::Other(t) => MaterialView::Other(t@),
        }
    }
}

/// A key that a DID document publishes.
#[derive(Debug, Clone, PartialEq, Eq)]
pub struct VerificationMethod {
    pub id: String,
    pub type_: VerificationMethodType,
    pub controller: String,
    pub verification_material: VerificationMaterial,
}

/// The mathematical value of a [`VerificationMethod`].
pub ghost struct VerificationMethodView {
    pub id: Seq<char>,
    pub type_: VerificationMethodType,
    pub controller: Seq<char>,
    pub material: MaterialView,
}

impl View for VerificationMethod {
    type V = VerificationMethodView;

    open spec fn view(&self) -> VerificationMethodView {
        VerificationMethodView {
            id: self.id@,
            type_: self.type_,
            controller: self.controller@,
            material: self.verification_material@,
        }
    }
}

/// A service endpoint that a DID document publishes.
#[derive(Debug, Clone, PartialEq, Eq)]
pub struct Service {
    pub id: String,
    pub service_endpoint: String,
    pub routing_keys: Vec<String>,
    pub accept: Vec<String>,
}

/// The mathematical value of a [`Service`].
pub ghost struct ServiceView {
    pub id: Seq<char>,
    pub service_endpoint: Seq<char>,
    pub routing_keys: Seq<Seq<char>>,
    pub accept: Seq<Seq<char>>,
}

impl View for Service {
    type V = ServiceView;

    open spec fn view(&self) -> ServiceView {
        ServiceView {
            id: self.id@,
            service_endpoint: self.service_endpoint@,
            routing_keys: self.routing_keys.deep_view(),
            accept: self.accept.deep_view(),
        }
    }
}

/// A DID document, as far as messaging reads it.
#[derive(Debug, Clone, PartialEq, Eq)]
pub struct DIDDoc {
    /// The DID that the document is about.
    pub did: String,
    /// Ids of the verification methods that may agree on keys.
    pub key_agreements: Vec<String>,
    /// Ids of the verification methods that may authenticate.
    pub authentications: Vec<String>,
    /// All the verification methods.
    pub verification_methods: Vec<VerificationMethod>,
    /// All the services.
    pub services: Vec<Service>,
}

/// The mathematical value of a [`DIDDoc`].
pub ghost struct DIDDocView {
    pub did: Seq<char>,
    pub key_agreements: Seq<Seq<char>>,
    pub authentications: Seq<Seq<char>>,
    pub verification_methods: Seq<VerificationMethodView>,
    pub services: Seq<ServiceView>,
}

/// The views of a list of verification methods, one for one.
pub open spec fn methods_view(methods: Seq<VerificationMethod>) -> Seq<VerificationMethodView> {
    Seq::new(methods.len(), |i: int| methods[i]@)
}

/// The views of a list of services, one for one.
pub open spec fn services_view(services: Seq<Service>) -> Seq<ServiceView> {
    Seq::new(services.len(), |i: int| services[i]@)
}

impl View for DIDDoc {
    type V = DIDDocView;

    open spec fn view(&self) -> DIDDocView {
        DIDDocView {
            did: self.did@,
            key_agreements: self.key_agreements.deep_view(),
            authentications: self.authentications.deep_view(),
            verification_methods: methods_view(self.verification_methods@),
            services: services_view(self.services@),
        }
    }
}

/// What a document publishes a key for.
#[derive(Debug, Clone, Copy, PartialEq, Eq, Structural)]
pub enum KeyPurpose {
    /// The key shows who signed.
    Authentication,
    /// The key agrees on keys for encryption.
    KeyAgreement,
}

/// What a document publishes the key `kid` for: key agreement where it
/// lists the key id for that, else authentication where it lists it for
/// that, else nothing.
pub open spec fn purpose_of(doc: DIDDocView, kid: Seq<char>) -> Option<KeyPurpose> {
    if doc.key_agreements.contains(kid) {
        Some(KeyPurpose::KeyAgreement)
    } else if doc.authentications.contains(kid) {
        Some(KeyPurpose::Authentication)
    } else {
        None
    }
}

/// The first verification method with the id `kid`.
pub open spec fn method_by_id(methods: Seq<VerificationMethodView>, kid: Seq<char>) -> Option<
    VerificationMethodView,
>
    decreases methods.len(),
{
    if methods.len() == 0 {
        None
    } else if methods[0].id == kid {
        Some(methods[0])
    } else {
        method_by_id(methods.drop_first(), kid)
    }
}

impl VerificationMaterial {
    /// A copy of this material.
    pub fn duplicate(&self) -> (r: VerificationMaterial)
        ensures
            r@ == self@,
    {
        match self {
            VerificationMaterial::JWK(t) => VerificationMaterial::JWK(t.clone()),
            VerificationMaterial::Multibase(t) => VerificationMaterial::Multibase(t.clone()),
            VerificationMaterial::Base58(t) => VerificationMaterial::Base58(t.clone()),
            VerificationMaterial::Hex(t) => VerificationMaterial::Hex(t.clone()),
            VerificationMaterial::Other(t) => VerificationMaterial::Other(t.clone()),
        }
    }
}

impl VerificationMethod {
    /// A copy of this verification method.
    pub fn duplicate(&self) -> (r: VerificationMethod)
        ensures
            r@ == self@,
    {
        VerificationMethod {
            id: self.id.clone(),
            type_: self.type_,
            controller: self.controller.clone(),
            verification_material: self.verification_material.duplicate(),
        }
    }
}

impl Service {
    /// A copy of this service.
    pub fn duplicate(&self) -> (r: Service)
        ensures
            r@ == self@,
    {
        Service {
            id: self.id.clone(),
            service_endpoint: self.service_endpoint.clone(),
            routing_keys: copy_texts(&self.routing_keys),
            accept: copy_texts(&self.accept),
        }
    }
}

impl DIDDoc {
    /// A copy of this document.
    pub fn duplicate(&self) -> (r: DIDDoc)
        ensures
            r@ == self@,
    {
        let mut methods: Vec<VerificationMethod> = Vec::new();
        let mut i: usize = 0;
        while i < self.verification_methods.len()
            invariant
                i <= self.verification_methods.len(),
                methods.len() == i,
                forall|k: int| 0 <= k < i ==> methods[k]@ == self.verification_methods[k]@,
            decreases self.verification_methods.len() - i,
        {
            methods.push(self.verification_methods[i].duplicate());
            i += 1;
        }
        let mut services: Vec<Service> = Vec::new();
        let mut j: usize = 0;
        while j < self.services.len()
            invariant
                j <= self.services.len(),
                services.len() == j,
                forall|k: int| 0 <= k < j ==> services[k]@ == self.services[k]@,
            decreases self.services.len() - j,
        {
            services.push(self.services[j].duplicate());
            j += 1;
        }
        assert(methods_view(methods@) =~= methods_view(self.verification_methods@));
        assert(services_view(services@) =~= services_view(self.services@));
        DIDDoc {
            did: self.did.clone(),
            key_agreements: copy_texts(&self.key_agreements),
            authentications: copy_texts(&self.authentications),
            verification_methods: methods,
            services,
        }
    }

    /// What the document publishes the key `kid` for.
    pub fn classify_purpose(&self, kid: &str) -> (r: Option<KeyPurpose>)
        ensures
            r == purpose_of(self@, kid@),
    {
        if crate::utils::contains_text(&self.key_agreements, kid) {
            Some(KeyPurpose::KeyAgreement)
        } else if crate::utils::contains_text(&self.authentications, kid) {
            Some(KeyPurpose::Authentication)
        } else {
            None
        }
    }

    /// The verification method with the id `kid`.
    #[verifier::loop_isolation(false)]
    pub fn find_method(&self, kid: &str) -> (r: Option<&VerificationMethod>)
        ensures
            match r {
                Some(m) => method_by_id(self@.verification_methods, kid@) == Some(m@),
                None => method_by_id(self@.verification_methods, kid@) is None,
            },
    {
        let wanted = kid.to_owned();
        let ghost all = self@.verification_methods;
        let mut i: usize = 0;
        assert(all.skip(0) =~= all);
        while i < self.verification_methods.len()
            invariant
                i <= self.verification_methods.len(),
                method_by_id(all, kid@) == method_by_id(all.skip(i as int), kid@),
            decreases self.verification_methods.len() - i,
        {
            let ghost rest = all.skip(i as int);
            assert(rest[0] == self.verification_methods[i as int]@);
            assert(rest.drop_first() =~= all.skip(i + 1));
            if self.verification_methods[i].id == wanted {
                return Some(&self.verification_methods[i]);
            }
            i += 1;
        }
        None
    }
}

/// What a resolver knows, as a function from DIDs.
pub open spec fn documents<D: DIDResolver + ?Sized>(resolver: &D) -> spec_fn(Seq<char>) -> Option<
    DIDDocView,
> {
    |did: Seq<char>| resolver.document(did)
}

/// Finds the DID document of a DID. Implement it over whatever knows the
/// documents: a list in memory, a ledger, a network service.
pub trait DIDResolver {
    /// The document that the resolver knows for a DID.
    spec fn document(&self, did: Seq<char>) -> Option<DIDDocView>;

    /// Whether the resolver never fails: it answers every question from
    /// what it knows. A resolver over a list in memory is reliable; one
    /// that asks a ledger or a network is not.
    spec fn reliable(&self) -> bool;

    /// Resolves a DID to its document; `None` where the DID is unknown. A
    /// resolver that could not do its work returns an `IOError`, which a
    /// reliable resolver never does.
    fn resolve(&self, did: &str) -> (r: Result<Option<DIDDoc>>)
        ensures
            match r {
                Ok(Some(doc)) => self.document(did@) == Some(doc@),
                Ok(None) => self.document(did@) is None,
                Err(e) => e.kind == ErrorKind::IOError && !self.reliable(),
            },
    ;
}

} // verus!
