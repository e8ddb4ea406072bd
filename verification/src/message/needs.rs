//! What a call asks the resolvers for.
//!
//! A caller whose resolvers cannot be asked in the middle of a call, such
//! as one that reaches them over a network, fetches beforehand what the
//! call will ask for and hands it over in resolvers that answer from
//! memory. What to fetch is decided here: the documents and secrets that
//! the outermost envelope of a text names, and the key ids whose secrets a
//! sender or a signer can use. With these fetched, [`peel`] takes the
//! envelope off, and what was inside is asked the same.

use crate::did::{documents, DIDDoc, DIDDocView, DIDResolver};
use crate::error::{ErrorView, Result};
use crate::jwe::envelope::{Jwe, KeyManagement};
use crate::jwe::parse::read_jwe;
use crate::jws::envelope::{Jws, SignatureView};
use crate::jws::parse::read_jws;
use crate::message::pack_encrypted::parties::{select_kids, wanted_kids};
use crate::message::pack_signed::signer_kids;
use crate::message::unpack::{UnpackMetadata, UnpackOptions};
use crate::message::unpack::anoncrypt::{anoncrypt_asks, anoncrypt_layer, try_unpack_anoncrypt};
use crate::message::unpack::authcrypt::{
    authcrypt_asks, authcrypt_layer, read_sender_kid, sender_kid, try_unpack_authcrypt,
};
use crate::secrets::{holdings, resolvers_failed, SecretView, SecretsResolver};
use crate::message::pack_encrypted::argument_view;
use crate::utils::{contains_text, copy_texts, did_or_url, did_part, is_did, is_did_text};
use vstd::prelude::*;

verus! {

/// What is to be fetched: the DIDs whose documents, and the key ids whose
/// secrets, will be asked for.
#[derive(Debug, Clone, PartialEq, Eq)]
pub struct Needs {
    /// The DIDs whose documents will be asked for.
    pub documents: Vec<String>,
    /// The key ids whose secrets will be asked for.
    pub secrets: Vec<String>,
}

/// The mathematical value of a [`Needs`].
pub ghost struct NeedsView {
    pub documents: Seq<Seq<char>>,
    pub secrets: Seq<Seq<char>>,
}

impl View for Needs {
    type V = NeedsView;

    open spec fn view(&self) -> NeedsView {
        NeedsView { documents: self.documents.deep_view(), secrets: self.secrets.deep_view() }
    }
}

/// The DIDs of the signers of some signatures, in their order.
pub open spec fn signer_dids(signatures: Seq<SignatureView>) -> Seq<Seq<char>> {
    Seq::new(signatures.len(), |i: int| did_part(signatures[i].kid))
}

/// Nothing to fetch.
pub open spec fn no_needs() -> NeedsView {
    NeedsView { documents: Seq::empty(), secrets: Seq::empty() }
}

/// What unpacking asks for to take the outermost envelope off a text. An
/// encrypted envelope asks for the secrets of its recipients and, where it
/// is authenticated and names its sender, for the document of the sender;
/// a signed envelope asks for the documents of its signers; any other
/// text, and an envelope that is malformed, asks for nothing. Nothing is
/// asked for either where a forward is to be unwrapped, which unpacking
/// refuses.
pub open spec fn unpack_needs_of(text: Seq<char>, unwrap_forward: bool) -> NeedsView {
    if unwrap_forward {
        no_needs()
    } else {
        needs_of(text)
    }
}

/// The DID of a DID or DID URL that may be missing.
pub open spec fn did_of(who: Option<Seq<char>>) -> Seq<Seq<char>> {
    match who {
        Some(text) => seq![did_part(text)],
        None => Seq::empty(),
    }
}

/// The DIDs whose documents packing asks for: those of the recipient, of
/// the sender and of the signer, as far as they are given; none where one
/// of them is no DID or DID URL, which packing refuses.
pub open spec fn pack_documents_of(
    to: Option<Seq<char>>,
    from: Option<Seq<char>>,
    sign_by: Option<Seq<char>>,
) -> Seq<Seq<char>> {
    if (to is Some && !is_did_text(to->Some_0)) || (from is Some && !is_did_text(from->Some_0))
        || (sign_by is Some && !is_did_text(sign_by->Some_0)) {
        Seq::empty()
    } else {
        did_of(to) + did_of(from) + did_of(sign_by)
    }
}

/// What taking off the outermost envelope of a text asks for.
pub open spec fn needs_of(text: Seq<char>) -> NeedsView {
    match read_jwe(text) {
        Ok(Some(jwe)) => NeedsView {
            documents: match sender_kid(jwe) {
                Ok(kid) if jwe.alg == KeyManagement::Ecdh1puA256kw => seq![did_part(kid)],
                _ => Seq::empty(),
            },
            secrets: jwe.kids(),
        },
        Ok(None) => match read_jws(text) {
            Ok(Some(jws)) => NeedsView {
                documents: signer_dids(jws.signatures),
                secrets: Seq::empty(),
            },
            _ => no_needs(),
        },
        Err(_) => no_needs(),
    }
}

/// What is inside the outermost encrypted envelope of a text: the content
/// of the anonymous envelope, or of the authenticated one; nothing where
/// the text is neither.
pub open spec fn peeled(
    text: Seq<char>,
    known: spec_fn(Seq<char>) -> Option<DIDDocView>,
    held: spec_fn(Seq<char>) -> Option<SecretView>,
    all_keys: bool,
) -> core::result::Result<Option<Seq<char>>, ErrorView> {
    match anoncrypt_layer(text, held, all_keys) {
        Err(e) => Err(e),
        Ok(Some(layer)) => Ok(Some(layer.payload)),
        Ok(None) => match authcrypt_layer(text, known, held, all_keys) {
            Err(e) => Err(e),
            Ok(Some(layer)) => Ok(Some(layer.payload)),
            Ok(None) => Ok(None),
        },
    }
}

fn push_did(dids: &mut Vec<String>, who: Option<&str>)
    ensures
        final(dids).deep_view() == old(dids).deep_view() + did_of(argument_view(who)),
{
    let ghost before = dids.deep_view();
    match who {
        Some(text) => {
            let (did, _) = did_or_url(text);
            dids.push(did);
            assert(dids.deep_view() =~= before + seq![did_part(text@)]);
        },
        None => {
            assert(before =~= before + Seq::<Seq<char>>::empty());
        },
    }
}

fn given_and_no_did(who: Option<&str>) -> (r: bool)
    ensures
        r == (argument_view(who) is Some && !is_did_text(argument_view(who)->Some_0)),
{
    match who {
        Some(text) => !is_did(text),
        None => false,
    }
}

/// The DIDs whose documents packing for `to`, from `from`, signed by
/// `sign_by` asks the resolver for.
pub fn pack_documents(to: Option<&str>, from: Option<&str>, sign_by: Option<&str>) -> (r: Vec<
    String,
>)
    ensures
        r.deep_view() == pack_documents_of(
            argument_view(to),
            argument_view(from),
            argument_view(sign_by),
        ),
{
    let mut dids: Vec<String> = Vec::new();
    assert(dids.deep_view() =~= Seq::<Seq<char>>::empty());
    if given_and_no_did(to) || given_and_no_did(from) || given_and_no_did(sign_by) {
        return dids;
    }
    push_did(&mut dids, to);
    push_did(&mut dids, from);
    push_did(&mut dids, sign_by);
    assert(Seq::<Seq<char>>::empty() + did_of(argument_view(to)) =~= did_of(argument_view(to)));
    dids
}

/// What unpacking asks the resolvers for to take the outermost envelope off
/// a text.
#[verifier::loop_isolation(false)]
pub fn unpack_needs(text: &str, options: &UnpackOptions) -> (r: Needs)
    ensures
        r@ == unpack_needs_of(text@, options.unwrap_re_wrapping_forward),
{
    let mut documents: Vec<String> = Vec::new();
    assert(documents.deep_view() =~= Seq::<Seq<char>>::empty());
    if options.unwrap_re_wrapping_forward {
        let secrets: Vec<String> = Vec::new();
        assert(secrets.deep_view() =~= Seq::<Seq<char>>::empty());
        return Needs { documents, secrets };
    }
    match Jwe::parse(text) {
        Ok(Some(jwe)) => {
            match jwe.alg {
                KeyManagement::Ecdh1puA256kw => match read_sender_kid(&jwe) {
                    Ok(kid) => {
                        let (did, _) = did_or_url(kid.as_str());
                        documents.push(did);
                        assert(documents.deep_view() =~= seq![did_part(kid@)]);
                    },
                    Err(_) => {},
                },
                _ => {},
            }
            Needs { documents, secrets: jwe.kids() }
        },
        Ok(None) => {
            let secrets: Vec<String> = Vec::new();
            assert(secrets.deep_view() =~= Seq::<Seq<char>>::empty());
            match Jws::parse(text) {
                Ok(Some(jws)) => {
                    let mut i: usize = 0;
                    while i < jws.signatures.len()
                        invariant
                            i <= jws.signatures.len(),
                            documents.len() == i,
                            forall|k: int|
                                0 <= k < i ==> documents[k]@ == did_part(jws.signatures[k].kid@),
                        decreases jws.signatures.len() - i,
                    {
                        let (did, _) = did_or_url(jws.signatures[i].kid.as_str());
                        documents.push(did);
                        i += 1;
                    }
                    assert(documents.deep_view() =~= signer_dids(jws@.signatures));
                    Needs { documents, secrets }
                },
                _ => Needs { documents, secrets },
            }
        },
        Err(_) => {
            let secrets: Vec<String> = Vec::new();
            assert(secrets.deep_view() =~= Seq::<Seq<char>>::empty());
            Needs { documents, secrets }
        },
    }
}

/// Takes the outermost encrypted envelope off a text, anonymous or
/// authenticated, and hands out what was inside; `None` where the text is
/// no such envelope.
pub fn peel<D: DIDResolver, S: SecretsResolver>(
    text: &str,
    did_resolver: &D,
    secrets_resolver: &S,
    options: &UnpackOptions,
) -> (r: Result<Option<String>>)
    ensures
        match r {
            Ok(inner) => peeled(
                text@,
                documents(did_resolver),
                holdings(secrets_resolver),
                options.expect_decrypt_by_all_keys,
            ) == Ok::<Option<Seq<char>>, ErrorView>(inner.deep_view()),
            Err(e) => (resolvers_failed(e@, did_resolver, secrets_resolver) && (anoncrypt_asks(text@) || authcrypt_asks(text@))) || peeled(
                text@,
                documents(did_resolver),
                holdings(secrets_resolver),
                options.expect_decrypt_by_all_keys,
            ) == Err::<Option<Seq<char>>, ErrorView>(e@),
        },
{
    let mut noted = UnpackMetadata {
        encrypted: false,
        authenticated: false,
        non_repudiation: false,
        anonymous_sender: false,
        re_wrapped_in_forward: false,
        encrypted_from_kid: None,
        encrypted_to_kids: None,
        sign_from: None,
        enc_alg_auth: None,
        enc_alg_anon: None,
        sign_alg: None,
        signed_message: None,
    };
    match try_unpack_anoncrypt(text, secrets_resolver, options, &mut noted)? {
        Some(inner) => return Ok(Some(inner)),
        None => {},
    }
    try_unpack_authcrypt(text, did_resolver, secrets_resolver, options, &mut noted)
}

/// The key ids whose secrets a sender `from` can use: those that `from`
/// asks for among the key-agreement keys of its document.
pub fn sender_needs(from: &str, doc: &DIDDoc) -> (r: Vec<String>)
    ensures
        r.deep_view() == wanted_kids(from@, doc@.key_agreements),
{
    let (_, is_url) = did_or_url(from);
    select_kids(from, is_url, &doc.key_agreements)
}

/// The key ids whose secrets a signer `sign_by` can use: the key id itself
/// where `sign_by` is one that its document lists for authentication, all
/// that the document lists where `sign_by` is a DID, and none else.
pub fn signer_needs(sign_by: &str, doc: &DIDDoc) -> (r: Vec<String>)
    ensures
        r.deep_view() == match signer_kids(sign_by@, doc@) {
            Ok(kids) => kids,
            Err(_) => Seq::empty(),
        },
{
    let (_, is_url) = did_or_url(sign_by);
    if !is_url {
        return copy_texts(&doc.authentications);
    }
    let mut one: Vec<String> = Vec::new();
    assert(one.deep_view() =~= Seq::<Seq<char>>::empty());
    if contains_text(&doc.authentications, sign_by) {
        one.push(sign_by.to_owned());
        assert(one.deep_view() =~= seq![sign_by@]);
    }
    one
}

} // verus!
