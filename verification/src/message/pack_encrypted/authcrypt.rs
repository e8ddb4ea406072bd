//! The authenticated envelope: for the recipient's eyes, from a sender that
//! the recipient can be sure of.

use crate::algorithms::{AnonCryptAlg, AuthCryptAlg};
use crate::crypto::ContentEncryption;
use crate::did::{documents, DIDDocView, DIDResolver};
use crate::error::{err_msg, error_of, ErrorKind, ErrorView, Result};
use crate::jwe::encrypt::{
    drawn_for_recipients, drawn_on, encrypt, encrypted_envelope, key_length, nonce_length,
    parties_view, party_kids, Drawn, Party, PartyView,
};
use crate::jwe::envelope::KeyManagement;
use crate::jwk::key_of_secret;
use crate::message::pack_encrypted::anoncrypt::{
    anon_encryption, content_encryption_for, no_recipient_material,
};
use crate::message::pack_encrypted::parties::{
    all_on, each_once, find_common, first_common, has_curve, keep_curve, lemma_on_curve_holds,
    lemma_on_curve_once, lemma_usable_once, lemma_wanted_once, on_curve, select_kids,
    select_parties, usable_parties, wanted_kids,
};
use crate::secrets::{held_among, holdings, resolvers_failed, SecretView, SecretsResolver};
use crate::utils::{did_or_url, did_part};
use vstd::prelude::*;
use vstd::string::StringSliceAdditionalSpecFns;
use vstd::utf8::encode_utf8;

verus! {

/// The sender and the recipients of an authenticated envelope.
pub ghost struct AuthParties {
    /// The sender, with its private key.
    pub sender: PartyView,
    /// The recipients, with their public keys.
    pub recipients: Seq<PartyView>,
}

/// The complaint about a sender key id without a verification method.
pub open spec fn no_sender_material() -> Seq<char> {
    "No verification material found for sender key agreement"@
}

/// The parties of an authenticated envelope from `from` to `to`: the sender
/// is the first of its key-agreement keys that a secret is held for and
/// whose curve a recipient key shares; the recipients are the recipient
/// keys on that curve.
pub open spec fn authcrypt_parties(
    to: Seq<char>,
    from: Seq<char>,
    known: spec_fn(Seq<char>) -> Option<DIDDocView>,
    held: spec_fn(Seq<char>) -> Option<SecretView>,
) -> core::result::Result<AuthParties, ErrorView> {
    match (known(did_part(to)), known(did_part(from))) {
        (None, _) => Err(error_of(ErrorKind::DIDNotResolved, "Recipient did not found"@)),
        (Some(_), None) => Err(error_of(ErrorKind::DIDNotResolved, "Sender did not found"@)),
        (Some(to_doc), Some(from_doc)) => {
            let from_kids = wanted_kids(from, from_doc.key_agreements);
            let found = held_among(from_kids, held);
            let to_kids = wanted_kids(to, to_doc.key_agreements);
            if from_kids.len() == 0 {
                Err(error_of(ErrorKind::DIDUrlNotFound, "No sender key agreements found"@))
            } else if found.len() == 0 {
                Err(error_of(ErrorKind::SecretNotFound, "No sender secrets found"@))
            } else {
                match usable_parties(found, from_doc.verification_methods, no_sender_material()) {
                    Err(e) => Err(e),
                    Ok(senders) => if to_kids.len() == 0 {
                        Err(
                            error_of(
                                ErrorKind::DIDUrlNotFound,
                                "No recipient key agreements found"@,
                            ),
                        )
                    } else {
                        match usable_parties(
                            to_kids,
                            to_doc.verification_methods,
                            no_recipient_material(),
                        ) {
                            Err(e) => Err(e),
                            Ok(recipients) => match first_common(senders, recipients) {
                                None => Err(
                                    error_of(
                                        ErrorKind::Unsupported,
                                        "No common keys between sender and recipient found"@,
                                    ),
                                ),
                                Some(sender) => match held(sender.kid) {
                                    None => Err(
                                        error_of(
                                            ErrorKind::InvalidState,
                                            "Sender secret not found"@,
                                        ),
                                    ),
                                    Some(secret) => match key_of_secret(secret) {
                                        Err(e) => Err(e),
                                        Ok(key) => Ok(
                                            AuthParties {
                                                sender: PartyView { kid: sender.kid, key },
                                                recipients: on_curve(
                                                    recipients,
                                                    sender.key.curve,
                                                ),
                                            },
                                        ),
                                    },
                                },
                            },
                        }
                    },
                }
            }
        },
    }
}

/// The content encryption of an algorithm of authenticated encryption.
pub open spec fn auth_encryption(alg: AuthCryptAlg) -> ContentEncryption {
    match alg {
        AuthCryptAlg::A256cbcHs512Ecdh1puA256kw => ContentEncryption::A256cbcHs512,
    }
}

/// The authenticated envelope of a plaintext, and around it, where the
/// sender is to be protected, an anonymous one for the same recipients;
/// each with what chance gave it.
pub open spec fn authcrypted(
    plaintext: Seq<u8>,
    parties: AuthParties,
    alg: AuthCryptAlg,
    alg_anon: AnonCryptAlg,
    protect_sender: bool,
    inner: Drawn,
    outer: Drawn,
) -> core::result::Result<Seq<char>, ErrorView> {
    match encrypted_envelope(
        plaintext,
        KeyManagement::Ecdh1puA256kw,
        auth_encryption(alg),
        Some(parties.sender),
        parties.recipients,
        inner,
    ) {
        Err(e) => Err(e),
        Ok(text) => if protect_sender {
            encrypted_envelope(
                encode_utf8(text),
                KeyManagement::EcdhEsA256kw,
                anon_encryption(alg_anon),
                None,
                parties.recipients,
                outer,
            )
        } else {
            Ok(text)
        },
    }
}

/// What is asked of a draw for a content encryption.
pub open spec fn drawn_for(drawn: Drawn, enc: ContentEncryption) -> bool {
    drawn.cek.len() == key_length(enc) && drawn.iv.len() == nonce_length(enc)
}

/// Where one of the parties has a key on a curve, so has one at a place.
proof fn lemma_has_curve(parties: Seq<PartyView>, curve: crate::crypto::Curve) -> (i: int)
    requires
        has_curve(parties, curve),
    ensures
        0 <= i < parties.len(),
        parties[i].key.curve == curve,
{
    choose|i: int| 0 <= i < parties.len() && (#[trigger] parties[i]).key.curve == curve
}

/// The sender that is found first has a curve that a recipient shares.
proof fn lemma_first_common(senders: Seq<PartyView>, recipients: Seq<PartyView>)
    requires
        first_common(senders, recipients) is Some,
    ensures
        has_curve(recipients, first_common(senders, recipients)->Some_0.key.curve),
    decreases senders.len(),
{
    if senders.len() > 0 && !has_curve(recipients, senders[0].key.curve) {
        lemma_first_common(senders.drop_first(), recipients);
    }
}

/// The recipients of an authenticated envelope are not none, no key id
/// stands twice among them, and the keys of all are on one curve: that of
/// the first, on which the ephemeral keys of draws that fit are too.
pub proof fn law_authcrypt_recipients_on_one_curve(
    to: Seq<char>,
    from: Seq<char>,
    known: spec_fn(Seq<char>) -> Option<DIDDocView>,
    held: spec_fn(Seq<char>) -> Option<SecretView>,
    inner: Drawn,
    outer: Drawn,
)
    requires
        authcrypt_parties(to, from, known, held) is Ok,
        drawn_for_recipients(inner, authcrypt_parties(to, from, known, held)->Ok_0.recipients),
        drawn_for_recipients(outer, authcrypt_parties(to, from, known, held)->Ok_0.recipients),
    ensures
        ({
            let recipients = authcrypt_parties(to, from, known, held)->Ok_0.recipients;
            &&& recipients.len() > 0
            &&& each_once(party_kids(recipients))
            &&& all_on(recipients, recipients[0].key.curve)
            &&& drawn_on(inner, recipients[0].key.curve)
            &&& drawn_on(outer, recipients[0].key.curve)
        }),
{
    let to_doc = known(did_part(to))->Some_0;
    let from_doc = known(did_part(from))->Some_0;
    let found = held_among(wanted_kids(from, from_doc.key_agreements), held);
    let senders = usable_parties(found, from_doc.verification_methods, no_sender_material())->Ok_0;
    let kids = wanted_kids(to, to_doc.key_agreements);
    let parties = usable_parties(kids, to_doc.verification_methods, no_recipient_material())->Ok_0;
    let sender = first_common(senders, parties)->Some_0;
    lemma_wanted_once(to, to_doc.key_agreements);
    lemma_usable_once(kids, to_doc.verification_methods, no_recipient_material());
    lemma_on_curve_once(parties, sender.key.curve);
    lemma_first_common(senders, parties);
    let i = lemma_has_curve(parties, sender.key.curve);
    lemma_on_curve_holds(parties, sender.key.curve, i);
}

/// Finds the sender and the recipients of an authenticated envelope.
pub fn find_parties<D: DIDResolver, S: SecretsResolver>(
    to: &str,
    from: &str,
    did_resolver: &D,
    secrets_resolver: &S,
) -> (r: Result<(Party, Vec<Party>)>)
    ensures
        match r {
            Ok((sender, recipients)) => authcrypt_parties(
                to@,
                from@,
                documents(did_resolver),
                holdings(secrets_resolver),
            ) == Ok::<AuthParties, ErrorView>(
                AuthParties { sender: sender@, recipients: parties_view(recipients@) },
            ),
            Err(e) => resolvers_failed(e@, did_resolver, secrets_resolver) || authcrypt_parties(
                to@,
                from@,
                documents(did_resolver),
                holdings(secrets_resolver),
            ) == Err::<AuthParties, ErrorView>(e@),
        },
{
    let (to_did, to_is_url) = did_or_url(to);
    let (from_did, from_is_url) = did_or_url(from);
    let to_doc = match did_resolver.resolve(to_did.as_str())? {
        Some(doc) => doc,
        None => return Err(err_msg(ErrorKind::DIDNotResolved, "Recipient did not found")),
    };
    let from_doc = match did_resolver.resolve(from_did.as_str())? {
        Some(doc) => doc,
        None => return Err(err_msg(ErrorKind::DIDNotResolved, "Sender did not found")),
    };
    let from_kids = select_kids(from, from_is_url, &from_doc.key_agreements);
    if from_kids.len() == 0 {
        return Err(err_msg(ErrorKind::DIDUrlNotFound, "No sender key agreements found"));
    }
    let found = secrets_resolver.find_secrets(&from_kids)?;
    if found.len() == 0 {
        return Err(err_msg(ErrorKind::SecretNotFound, "No sender secrets found"));
    }
    let senders = select_parties(
        &found,
        &from_doc,
        "No verification material found for sender key agreement",
    )?;
    let to_kids = select_kids(to, to_is_url, &to_doc.key_agreements);
    if to_kids.len() == 0 {
        return Err(err_msg(ErrorKind::DIDUrlNotFound, "No recipient key agreements found"));
    }
    let recipients = select_parties(
        &to_kids,
        &to_doc,
        "No verification material found for recipient key agreement",
    )?;
    let place = match find_common(&senders, &recipients) {
        Some(i) => i,
        None => {
            return Err(
                err_msg(
                    ErrorKind::Unsupported,
                    "No common keys between sender and recipient found",
                ),
            );
        },
    };
    let kid = senders[place].kid.clone();
    let secret = match secrets_resolver.get_secret(kid.as_str())? {
        Some(s) => s,
        None => return Err(err_msg(ErrorKind::InvalidState, "Sender secret not found")),
    };
    let key = secret.as_key_pair()?;
    let kept = keep_curve(&recipients, senders[place].key.curve);
    Ok((Party { kid, key }, kept))
}

/// Makes the authenticated envelope of a plaintext, and around it, where
/// the sender is to be protected, an anonymous one. Each envelope is the
/// one that some draw of content key, ephemeral key and nonce gives, the
/// ephemeral key on the curve of the recipients.
pub fn authcrypt(
    plaintext: &[u8],
    sender: &Party,
    recipients: &Vec<Party>,
    alg: AuthCryptAlg,
    alg_anon: AnonCryptAlg,
    protect_sender: bool,
) -> (r: Result<String>)
    ensures
        exists|inner: Drawn, outer: Drawn|
            {
                &&& drawn_for(inner, auth_encryption(alg))
                &&& drawn_for(outer, anon_encryption(alg_anon))
                &&& drawn_for_recipients(inner, parties_view(recipients@))
                &&& drawn_for_recipients(outer, parties_view(recipients@))
                &&& match r {
                    Ok(text) => #[trigger] authcrypted(
                        plaintext@,
                        AuthParties { sender: sender@, recipients: parties_view(recipients@) },
                        alg,
                        alg_anon,
                        protect_sender,
                        inner,
                        outer,
                    ) == Ok::<Seq<char>, ErrorView>(text@),
                    Err(e) => authcrypted(
                        plaintext@,
                        AuthParties { sender: sender@, recipients: parties_view(recipients@) },
                        alg,
                        alg_anon,
                        protect_sender,
                        inner,
                        outer,
                    ) == Err::<Seq<char>, ErrorView>(e@),
                }
            },
{
    let enc = match alg {
        AuthCryptAlg::A256cbcHs512Ecdh1puA256kw => ContentEncryption::A256cbcHs512,
    };
    let enc_anon = content_encryption_for(alg_anon);
    let ghost parties = AuthParties { sender: sender@, recipients: parties_view(recipients@) };
    let ghost blank = Drawn {
        cek: Seq::new(key_length(enc_anon), |i: int| 0u8),
        epk: Err(Seq::empty()),
        iv: Seq::new(nonce_length(enc_anon), |i: int| 0u8),
    };
    let curve = if recipients.len() > 0 {
        assert(parties_view(recipients@)[0] == recipients[0]@);
        recipients[0].key.curve
    } else {
        sender.key.curve
    };
    let first = encrypt(
        plaintext,
        KeyManagement::Ecdh1puA256kw,
        enc,
        curve,
        Some(sender),
        recipients,
    );
    let ghost inner = choose|drawn: Drawn|
        {
            &&& drawn.cek.len() == key_length(enc)
            &&& drawn.iv.len() == nonce_length(enc)
            &&& drawn_on(drawn, curve)
            &&& match first {
                Ok(text) => #[trigger] encrypted_envelope(
                    plaintext@,
                    KeyManagement::Ecdh1puA256kw,
                    enc,
                    Some(sender@),
                    parties_view(recipients@),
                    drawn,
                ) == Ok::<Seq<char>, ErrorView>(text@),
                Err(e) => encrypted_envelope(
                    plaintext@,
                    KeyManagement::Ecdh1puA256kw,
                    enc,
                    Some(sender@),
                    parties_view(recipients@),
                    drawn,
                ) == Err::<Seq<char>, ErrorView>(e@),
            }
        };
    let text = match first {
        Ok(text) => text,
        Err(e) => {
            proof {
                assert(authcrypted(plaintext@, parties, alg, alg_anon, protect_sender, inner, blank)
                    == Err::<Seq<char>, ErrorView>(e@));
            }
            return Err(e);
        },
    };
    if !protect_sender {
        proof {
            assert(authcrypted(plaintext@, parties, alg, alg_anon, protect_sender, inner, blank)
                == Ok::<Seq<char>, ErrorView>(text@));
        }
        return Ok(text);
    }
    let second = encrypt(
        text.as_str().as_bytes(),
        KeyManagement::EcdhEsA256kw,
        enc_anon,
        curve,
        None,
        recipients,
    );
    proof {
        let outer = choose|drawn: Drawn|
            {
                &&& drawn.cek.len() == key_length(enc_anon)
                &&& drawn.iv.len() == nonce_length(enc_anon)
                &&& drawn_on(drawn, curve)
                &&& match second {
                    Ok(t) => #[trigger] encrypted_envelope(
                        encode_utf8(text@),
                        KeyManagement::EcdhEsA256kw,
                        enc_anon,
                        None,
                        parties_view(recipients@),
                        drawn,
                    ) == Ok::<Seq<char>, ErrorView>(t@),
                    Err(e) => encrypted_envelope(
                        encode_utf8(text@),
                        KeyManagement::EcdhEsA256kw,
                        enc_anon,
                        None,
                        parties_view(recipients@),
                        drawn,
                    ) == Err::<Seq<char>, ErrorView>(e@),
                }
            };
        let outcome = authcrypted(plaintext@, parties, alg, alg_anon, protect_sender, inner, outer);
        assert(match second {
            Ok(t) => outcome == Ok::<Seq<char>, ErrorView>(t@),
            Err(e) => outcome == Err::<Seq<char>, ErrorView>(e@),
        });
    }
    second
}

} // verus!
