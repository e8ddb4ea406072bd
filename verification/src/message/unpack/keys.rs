//! Opening an encrypted envelope with the secrets that a resolver holds.

use crate::crypto::ContentEncryption;
use crate::error::{err_msg, error_of, resolver_failed, Error, ErrorKind, ErrorView};
use crate::jwe::decrypt::{opened_for, sender_view, Opened, OpenedView};
use crate::jwe::envelope::{Jwe, JweView};
use crate::jwk::{can_agree, key_of_secret, KeyPair, KeyPairView};
use crate::secrets::{held_among, holdings, SecretView, SecretsResolver};
use crate::utils::{did_or_url, did_part, has_fragment, same_bytes};
use vstd::prelude::*;

verus! {

/// Whether the key ids are DID URLs of one DID.
pub open spec fn of_one_did(kids: Seq<Seq<char>>) -> bool {
    forall|i: int|
        0 <= i < kids.len() ==> has_fragment(#[trigger] kids[i]) && did_part(kids[i]) == did_part(
            kids[0],
        )
}

/// What is asked of the recipients of an envelope: there is one at least,
/// and all are key ids of one DID.
pub open spec fn recipients_checked(kids: Seq<Seq<char>>) -> Result<(), ErrorView> {
    if kids.len() == 0 {
        Err(error_of(ErrorKind::Malformed, "No recipient keys found"@))
    } else if !of_one_did(kids) {
        Err(
            error_of(
                ErrorKind::Malformed,
                "Recipient keys are outside of one did or can't be resolved to key agreement"@,
            ),
        )
    } else {
        Ok(())
    }
}

/// The error for an envelope whose `enc` names no content encryption.
pub open spec fn unknown_encryption() -> ErrorView {
    error_of(ErrorKind::Malformed, "Unknown content encryption algorithm"@)
}

/// The content encryption with which an envelope opens for a recipient's
/// key. An envelope whose `enc` names no content encryption is malformed,
/// whatever the keys. Without a sender the envelope is anonymous: the key
/// must be one that can agree. With a sender it is authenticated: both
/// keys can agree, are on one curve, and the content encryption is
/// A256CBC-HS512.
pub open spec fn fitting_encryption(
    jwe: JweView,
    sender: Option<KeyPairView>,
    recipient: KeyPairView,
) -> Result<ContentEncryption, ErrorView> {
    match (jwe.enc, sender) {
        (None, _) => Err(unknown_encryption()),
        (Some(enc), None) => if can_agree(recipient.curve) {
            Ok(enc)
        } else {
            Err(error_of(ErrorKind::Unsupported, "Unsupported recipient key agreement method"@))
        },
        (Some(enc), Some(sender)) => if !can_agree(sender.curve) || !can_agree(
            recipient.curve,
        ) {
            Err(error_of(ErrorKind::Unsupported, "Unsupported key agreement method"@))
        } else if sender.curve != recipient.curve {
            Err(
                error_of(
                    ErrorKind::Malformed,
                    "Incompatible sender and recipient key agreement curves"@,
                ),
            )
        } else if enc != ContentEncryption::A256cbcHs512 {
            Err(error_of(ErrorKind::Unsupported, "Unsupported key agreement method"@))
        } else {
            Ok(ContentEncryption::A256cbcHs512)
        },
    }
}

/// Opening an envelope with the secret that is held for `kid`.
pub open spec fn opened_with(
    jwe: JweView,
    sender: Option<KeyPairView>,
    kid: Seq<char>,
    held: spec_fn(Seq<char>) -> Option<SecretView>,
) -> Result<OpenedView, ErrorView> {
    match held(kid) {
        None => Err(
            error_of(
                ErrorKind::InvalidState,
                "Recipient secret not found after existence checking"@,
            ),
        ),
        Some(secret) => match key_of_secret(secret) {
            Err(e) => Err(e),
            Ok(key) => match fitting_encryption(jwe, sender, key) {
                Err(e) => Err(e),
                Ok(enc) => opened_for(jwe, enc, sender, kid, key),
            },
        },
    }
}

/// The error for recipients whose keys give different content keys.
pub open spec fn keys_disagree() -> ErrorView {
    error_of(ErrorKind::Malformed, "Recipient keys unwrap to different content keys"@)
}

/// Opening an envelope with each of the further keys, in their order: each
/// must open it, and give the content key that the first one gave.
pub open spec fn opened_with_rest(
    jwe: JweView,
    sender: Option<KeyPairView>,
    kids: Seq<Seq<char>>,
    held: spec_fn(Seq<char>) -> Option<SecretView>,
    first: OpenedView,
) -> Result<OpenedView, ErrorView>
    decreases kids.len(),
{
    if kids.len() == 0 {
        Ok(first)
    } else {
        match opened_with(jwe, sender, kids[0], held) {
            Err(e) => Err(e),
            Ok(next) => if next.cek != first.cek {
                Err(keys_disagree())
            } else {
                opened_with_rest(jwe, sender, kids.drop_first(), held, first)
            },
        }
    }
}

/// Opening an envelope with the secrets held for its recipients: with the
/// first that is held, or, where `all` is asked, with every one that is
/// held. Where none is held, the secret is not found.
pub open spec fn opened_by(
    jwe: JweView,
    sender: Option<KeyPairView>,
    held: spec_fn(Seq<char>) -> Option<SecretView>,
    all: bool,
) -> Result<OpenedView, ErrorView> {
    let found = held_among(jwe.kids(), held);
    if found.len() == 0 {
        Err(error_of(ErrorKind::SecretNotFound, "No recipient secrets found"@))
    } else {
        match opened_with(jwe, sender, found[0], held) {
            Err(e) => Err(e),
            Ok(first) => if all {
                opened_with_rest(jwe, sender, found.drop_first(), held, first)
            } else {
                Ok(first)
            },
        }
    }
}

/// Holds the recipients of an envelope to what is asked of them.
#[verifier::loop_isolation(false)]
pub fn check_recipients(kids: &Vec<String>) -> (r: Result<(), Error>)
    ensures
        match r {
            Ok(()) => recipients_checked(kids.deep_view()) == Ok::<(), ErrorView>(()),
            Err(e) => recipients_checked(kids.deep_view()) == Err::<(), ErrorView>(e@),
        },
{
    if kids.len() == 0 {
        return Err(err_msg(ErrorKind::Malformed, "No recipient keys found"));
    }
    let ghost all = kids.deep_view();
    assert(all[0] == kids[0]@);
    let (did, _) = did_or_url(kids[0].as_str());
    let mut i: usize = 0;
    while i < kids.len()
        invariant
            i <= kids.len(),
            forall|k: int|
                0 <= k < i ==> has_fragment(#[trigger] all[k]) && did_part(all[k]) == did_part(
                    all[0],
                ),
        decreases kids.len() - i,
    {
        assert(all[i as int] == kids[i as int]@);
        let (this_did, is_url) = did_or_url(kids[i].as_str());
        if !is_url || this_did != did {
            return Err(
                err_msg(
                    ErrorKind::Malformed,
                    "Recipient keys are outside of one did or can't be resolved to key agreement",
                ),
            );
        }
        i += 1;
    }
    Ok(())
}

/// The content encryption with which an envelope opens for a recipient's
/// key.
pub fn fit_encryption(jwe: &Jwe, sender: Option<&KeyPair>, recipient: &KeyPair) -> (r: Result<
    ContentEncryption,
    Error,
>)
    ensures
        match r {
            Ok(enc) => fitting_encryption(jwe@, sender_view(sender), recipient@) == Ok::<
                ContentEncryption,
                ErrorView,
            >(enc),
            Err(e) => fitting_encryption(jwe@, sender_view(sender), recipient@) == Err::<
                ContentEncryption,
                ErrorView,
            >(e@),
        },
{
    let enc = match jwe.enc {
        Some(enc) => enc,
        None => return Err(err_msg(ErrorKind::Malformed, "Unknown content encryption algorithm")),
    };
    match sender {
        None => if recipient.can_agree() {
            Ok(enc)
        } else {
            Err(err_msg(ErrorKind::Unsupported, "Unsupported recipient key agreement method"))
        },
        Some(sender) => {
            if !sender.can_agree() || !recipient.can_agree() {
                return Err(err_msg(ErrorKind::Unsupported, "Unsupported key agreement method"));
            }
            if sender.curve != recipient.curve {
                return Err(
                    err_msg(
                        ErrorKind::Malformed,
                        "Incompatible sender and recipient key agreement curves",
                    ),
                );
            }
            match enc {
                ContentEncryption::A256cbcHs512 => Ok(ContentEncryption::A256cbcHs512),
                _ => Err(err_msg(ErrorKind::Unsupported, "Unsupported key agreement method")),
            }
        },
    }
}

/// Opens an envelope with the secret that the resolver holds for `kid`.
pub fn open_with<S: SecretsResolver>(
    jwe: &Jwe,
    sender: Option<&KeyPair>,
    kid: &str,
    secrets_resolver: &S,
) -> (r: Result<Opened, Error>)
    ensures
        match r {
            Ok(o) => opened_with(jwe@, sender_view(sender), kid@, holdings(secrets_resolver))
                == Ok::<OpenedView, ErrorView>(o@),
            Err(e) => resolver_failed(e@, secrets_resolver.reliable()) || opened_with(
                jwe@,
                sender_view(sender),
                kid@,
                holdings(secrets_resolver),
            ) == Err::<OpenedView, ErrorView>(e@),
        },
{
    let secret = match secrets_resolver.get_secret(kid)? {
        Some(s) => s,
        None => {
            return Err(
                err_msg(
                    ErrorKind::InvalidState,
                    "Recipient secret not found after existence checking",
                ),
            );
        },
    };
    let key = secret.as_key_pair()?;
    let enc = fit_encryption(jwe, sender, &key)?;
    jwe.decrypt(enc, sender, kid, &key)
}

/// Opens an envelope with the secrets that the resolver holds for its
/// recipients: with the first that is held, or, where `all` is asked, with
/// every one that is held.
#[verifier::loop_isolation(false)]
pub fn open_envelope<S: SecretsResolver>(
    jwe: &Jwe,
    sender: Option<&KeyPair>,
    secrets_resolver: &S,
    all: bool,
) -> (r: Result<Opened, Error>)
    ensures
        match r {
            Ok(o) => opened_by(jwe@, sender_view(sender), holdings(secrets_resolver), all) == Ok::<
                OpenedView,
                ErrorView,
            >(o@),
            Err(e) => resolver_failed(e@, secrets_resolver.reliable()) || opened_by(
                jwe@,
                sender_view(sender),
                holdings(secrets_resolver),
                all,
            ) == Err::<OpenedView, ErrorView>(e@),
        },
{
    let kids = jwe.kids();
    let found = secrets_resolver.find_secrets(&kids)?;
    let ghost held = holdings(secrets_resolver);
    let ghost seen = found.deep_view();
    assert(seen == held_among(jwe@.kids(), held));
    if found.len() == 0 {
        return Err(err_msg(ErrorKind::SecretNotFound, "No recipient secrets found"));
    }
    assert(seen[0] == found[0]@);
    let first = open_with(jwe, sender, found[0].as_str(), secrets_resolver)?;
    if !all {
        return Ok(first);
    }
    let mut i: usize = 1;
    assert(seen.drop_first() =~= seen.skip(1));
    while i < found.len()
        invariant
            1 <= i <= found.len(),
            opened_with_rest(jwe@, sender_view(sender), seen.drop_first(), held, first@)
                == opened_with_rest(jwe@, sender_view(sender), seen.skip(i as int), held, first@),
        decreases found.len() - i,
    {
        let ghost rest = seen.skip(i as int);
        assert(rest[0] == found[i as int]@);
        assert(rest.drop_first() =~= seen.skip(i + 1));
        let next = open_with(jwe, sender, found[i].as_str(), secrets_resolver)?;
        if !same_bytes(&next.cek, &first.cek) {
            return Err(
                err_msg(ErrorKind::Malformed, "Recipient keys unwrap to different content keys"),
            );
        }
        i += 1;
    }
    Ok(first)
}

} // verus!
