//! The anonymous envelope: for the recipient's eyes, from nobody.

use crate::algorithms::AnonCryptAlg;
use crate::crypto::ContentEncryption;
use crate::did::{documents, DIDDocView, DIDResolver};
use crate::error::{err_msg, error_of, resolver_failed, ErrorKind, ErrorView, Result};
use crate::jwe::encrypt::{
    drawn_for_recipients, drawn_on, encrypt, encrypted_envelope, key_length, kids_of_parties,
    nonce_length, parties_view, party_kids, Drawn, Party, PartyView,
};
use crate::jwe::envelope::KeyManagement;
use crate::message::pack_encrypted::parties::{
    all_on, each_once, keep_curve, lemma_on_curve_holds, lemma_on_curve_once, lemma_usable_once,
    lemma_wanted_once, on_curve, select_kids, select_parties, usable_parties, wanted_kids,
};
use crate::utils::{did_or_url, did_part};
use vstd::prelude::*;

verus! {

/// The content encryption of an algorithm of anonymous encryption.
pub open spec fn anon_encryption(alg: AnonCryptAlg) -> ContentEncryption {
    match alg {
        AnonCryptAlg::A256cbcHs512EcdhEsA256kw => ContentEncryption::A256cbcHs512,
        AnonCryptAlg::Xc20pEcdhEsA256kw => ContentEncryption::Xc20P,
        AnonCryptAlg::A256gcmEcdhEsA256kw => ContentEncryption::A256Gcm,
    }
}

/// The complaint about a recipient key id without a verification method.
pub open spec fn no_recipient_material() -> Seq<char> {
    "No verification material found for recipient key agreement"@
}

/// The recipients of an anonymous envelope for `to`: of the key-agreement
/// keys that `to` asks for, those on the curve of the first that can be
/// used.
pub open spec fn anoncrypt_recipients(
    to: Seq<char>,
    known: spec_fn(Seq<char>) -> Option<DIDDocView>,
) -> core::result::Result<Seq<PartyView>, ErrorView> {
    match known(did_part(to)) {
        None => Err(error_of(ErrorKind::DIDNotResolved, "Recipient did not found"@)),
        Some(doc) => {
            let kids = wanted_kids(to, doc.key_agreements);
            if kids.len() == 0 {
                Err(error_of(ErrorKind::DIDUrlNotFound, "No recipient key agreements found"@))
            } else {
                match usable_parties(kids, doc.verification_methods, no_recipient_material()) {
                    Err(e) => Err(e),
                    Ok(parties) => if parties.len() == 0 {
                        Err(
                            error_of(
                                ErrorKind::Unsupported,
                                "No key agreement keys found for recipient"@,
                            ),
                        )
                    } else {
                        Ok(on_curve(parties, parties[0].key.curve))
                    },
                }
            }
        },
    }
}

/// The anonymous envelope of a plaintext for `to`, with what chance gave:
/// the envelope and the key ids of its recipients.
pub open spec fn anoncrypted(
    plaintext: Seq<u8>,
    to: Seq<char>,
    alg: AnonCryptAlg,
    known: spec_fn(Seq<char>) -> Option<DIDDocView>,
    drawn: Drawn,
) -> core::result::Result<(Seq<char>, Seq<Seq<char>>), ErrorView> {
    match anoncrypt_recipients(to, known) {
        Err(e) => Err(e),
        Ok(recipients) => match encrypted_envelope(
            plaintext,
            KeyManagement::EcdhEsA256kw,
            anon_encryption(alg),
            None,
            recipients,
            drawn,
        ) {
            Err(e) => Err(e),
            Ok(text) => Ok((text, party_kids(recipients))),
        },
    }
}

/// The content encryption of an algorithm of anonymous encryption.
pub fn content_encryption_for(alg: AnonCryptAlg) -> (r: ContentEncryption)
    ensures
        r == anon_encryption(alg),
{
    match alg {
        AnonCryptAlg::A256cbcHs512EcdhEsA256kw => ContentEncryption::A256cbcHs512,
        AnonCryptAlg::Xc20pEcdhEsA256kw => ContentEncryption::Xc20P,
        AnonCryptAlg::A256gcmEcdhEsA256kw => ContentEncryption::A256Gcm,
    }
}

/// Finds the recipients of an anonymous envelope for `to`.
pub fn find_recipients<D: DIDResolver>(to: &str, did_resolver: &D) -> (r: Result<Vec<Party>>)
    ensures
        match r {
            Ok(list) => list.len() > 0 && anoncrypt_recipients(to@, documents(did_resolver))
                == Ok::<Seq<PartyView>, ErrorView>(parties_view(list@)),
            Err(e) => resolver_failed(e@, did_resolver.reliable()) || anoncrypt_recipients(
                to@,
                documents(did_resolver),
            ) == Err::<Seq<PartyView>, ErrorView>(e@),
        },
{
    let (to_did, is_url) = did_or_url(to);
    let doc = match did_resolver.resolve(to_did.as_str())? {
        Some(doc) => doc,
        None => return Err(err_msg(ErrorKind::DIDNotResolved, "Recipient did not found")),
    };
    let kids = select_kids(to, is_url, &doc.key_agreements);
    if kids.len() == 0 {
        return Err(err_msg(ErrorKind::DIDUrlNotFound, "No recipient key agreements found"));
    }
    let parties = select_parties(
        &kids,
        &doc,
        "No verification material found for recipient key agreement",
    )?;
    if parties.len() == 0 {
        return Err(err_msg(ErrorKind::Unsupported, "No key agreement keys found for recipient"));
    }
    assert(parties_view(parties@)[0] == parties[0]@);
    let recipients = keep_curve(&parties, parties[0].key.curve);
    proof {
        lemma_on_curve_holds(parties_view(parties@), parties[0].key.curve, 0);
    }
    Ok(recipients)
}

/// What is asked of the draw for an anonymous envelope for `to`: content
/// key and nonce have the lengths of the content encryption, and the
/// ephemeral key is on the curve of the recipients.
pub open spec fn anon_draw_fits(
    drawn: Drawn,
    to: Seq<char>,
    alg: AnonCryptAlg,
    known: spec_fn(Seq<char>) -> Option<DIDDocView>,
) -> bool {
    &&& drawn.cek.len() == key_length(anon_encryption(alg))
    &&& drawn.iv.len() == nonce_length(anon_encryption(alg))
    &&& match anoncrypt_recipients(to, known) {
        Ok(recipients) => drawn_for_recipients(drawn, recipients),
        Err(_) => true,
    }
}

/// The recipients of an anonymous envelope are not none, no key id stands
/// twice among them, and the keys of all are on one curve: that of the
/// first, on which the ephemeral key of a draw that fits is too.
pub proof fn law_anoncrypt_recipients_on_one_curve(
    to: Seq<char>,
    alg: AnonCryptAlg,
    known: spec_fn(Seq<char>) -> Option<DIDDocView>,
    drawn: Drawn,
)
    requires
        anoncrypt_recipients(to, known) is Ok,
        anon_draw_fits(drawn, to, alg, known),
    ensures
        ({
            let recipients = anoncrypt_recipients(to, known)->Ok_0;
            &&& recipients.len() > 0
            &&& each_once(party_kids(recipients))
            &&& all_on(recipients, recipients[0].key.curve)
            &&& drawn_on(drawn, recipients[0].key.curve)
        }),
{
    let doc = known(did_part(to))->Some_0;
    let kids = wanted_kids(to, doc.key_agreements);
    let parties = usable_parties(kids, doc.verification_methods, no_recipient_material())->Ok_0;
    lemma_wanted_once(to, doc.key_agreements);
    lemma_usable_once(kids, doc.verification_methods, no_recipient_material());
    lemma_on_curve_once(parties, parties[0].key.curve);
    lemma_on_curve_holds(parties, parties[0].key.curve, 0);
}

/// Makes the anonymous envelope of a plaintext for `to`. The envelope is
/// the one that some draw of content key, ephemeral key and nonce gives,
/// the ephemeral key on the curve of the recipients.
pub fn anoncrypt<D: DIDResolver>(
    to: &str,
    did_resolver: &D,
    plaintext: &[u8],
    alg: AnonCryptAlg,
) -> (r: Result<(String, Vec<String>)>)
    ensures
        exists|drawn: Drawn|
            {
                &&& anon_draw_fits(drawn, to@, alg, documents(did_resolver))
                &&& match r {
                    Ok((text, kids)) => #[trigger] anoncrypted(
                        plaintext@,
                        to@,
                        alg,
                        documents(did_resolver),
                        drawn,
                    ) == Ok::<(Seq<char>, Seq<Seq<char>>), ErrorView>((text@, kids.deep_view())),
                    Err(e) => resolver_failed(e@, did_resolver.reliable()) || anoncrypted(
                        plaintext@,
                        to@,
                        alg,
                        documents(did_resolver),
                        drawn,
                    ) == Err::<(Seq<char>, Seq<Seq<char>>), ErrorView>(e@),
                }
            },
{
    let enc = content_encryption_for(alg);
    let recipients = match find_recipients(to, did_resolver) {
        Ok(r) => r,
        Err(e) => {
            proof {
                let drawn = Drawn {
                    cek: Seq::new(key_length(enc), |i: int| 0u8),
                    epk: Err(Seq::empty()),
                    iv: Seq::new(nonce_length(enc), |i: int| 0u8),
                };
                assert(resolver_failed(e@, did_resolver.reliable()) || anoncrypted(
                    plaintext@,
                    to@,
                    alg,
                    documents(did_resolver),
                    drawn,
                ) == Err::<(Seq<char>, Seq<Seq<char>>), ErrorView>(e@));
            }
            return Err(e);
        },
    };
    let curve = recipients[0].key.curve;
    assert(parties_view(recipients@)[0] == recipients[0]@);
    let kids = kids_of_parties(&recipients);
    let sealed = encrypt(plaintext, KeyManagement::EcdhEsA256kw, enc, curve, None, &recipients);
    proof {
        let drawn = choose|drawn: Drawn|
            {
                &&& drawn.cek.len() == key_length(enc)
                &&& drawn.iv.len() == nonce_length(enc)
                &&& drawn_on(drawn, curve)
                &&& match sealed {
                    Ok(text) => #[trigger] encrypted_envelope(
                        plaintext@,
                        KeyManagement::EcdhEsA256kw,
                        enc,
                        None,
                        parties_view(recipients@),
                        drawn,
                    ) == Ok::<Seq<char>, ErrorView>(text@),
                    Err(e) => encrypted_envelope(
                        plaintext@,
                        KeyManagement::EcdhEsA256kw,
                        enc,
                        None,
                        parties_view(recipients@),
                        drawn,
                    ) == Err::<Seq<char>, ErrorView>(e@),
                }
            };
        let outcome = anoncrypted(plaintext@, to@, alg, documents(did_resolver), drawn);
        assert(match sealed {
            Ok(text) => outcome == Ok::<(Seq<char>, Seq<Seq<char>>), ErrorView>(
                (text@, kids.deep_view()),
            ),
            Err(e) => outcome == Err::<(Seq<char>, Seq<Seq<char>>), ErrorView>(e@),
        });
    }
    match sealed {
        Ok(text) => Ok((text, kids)),
        Err(e) => Err(e),
    }
}

} // verus!
