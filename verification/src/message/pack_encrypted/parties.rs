//! Choosing the keys of an encrypted envelope from DID documents.

use crate::crypto::Curve;
use crate::did::{method_by_id, DIDDoc, VerificationMethodView};
use crate::error::{err_msg, error_of, Error, ErrorKind, ErrorView};
use crate::jwe::encrypt::{parties_view, party_kids, Party, PartyView};
use crate::jwk::{can_agree, key_of_method, KeyPair};
use crate::utils::{contains_text, has_fragment, holds};
use vstd::prelude::*;

verus! {

/// The key ids that `who` asks for among those that a document lists for
/// key agreement: the key id itself, where `who` is one, else all of them.
/// Each stands once, at the place where the document lists it first.
pub open spec fn wanted_kids(who: Seq<char>, agreements: Seq<Seq<char>>) -> Seq<Seq<char>>
    decreases agreements.len(),
{
    if agreements.len() == 0 {
        Seq::empty()
    } else {
        let before = wanted_kids(who, agreements.drop_last());
        if (!has_fragment(who) || agreements.last() == who) && !holds(before, agreements.last()) {
            before.push(agreements.last())
        } else {
            before
        }
    }
}

/// Whether no key id stands twice in a list.
pub open spec fn each_once(kids: Seq<Seq<char>>) -> bool {
    forall|i: int, j: int| 0 <= i < j < kids.len() ==> kids[i] != kids[j]
}

/// Whether the keys of all parties are on one curve.
pub open spec fn all_on(parties: Seq<PartyView>, curve: Curve) -> bool {
    forall|i: int| 0 <= i < parties.len() ==> (#[trigger] parties[i]).key.curve == curve
}

/// The party of a key id, where its key can be used: the document has a
/// verification method of that id, else `complaint` is raised as
/// `Malformed`; a key that cannot be read or cannot agree is passed over.
pub open spec fn usable_party(
    kid: Seq<char>,
    methods: Seq<VerificationMethodView>,
    complaint: Seq<char>,
) -> Result<Option<PartyView>, ErrorView> {
    match method_by_id(methods, kid) {
        None => Err(error_of(ErrorKind::Malformed, complaint)),
        Some(method) => match key_of_method(method) {
            Ok(key) => if can_agree(key.curve) {
                Ok(Some(PartyView { kid, key }))
            } else {
                Ok(None)
            },
            Err(_) => Ok(None),
        },
    }
}

/// The parties of the key ids whose keys can be used, in their order.
pub open spec fn usable_parties(
    kids: Seq<Seq<char>>,
    methods: Seq<VerificationMethodView>,
    complaint: Seq<char>,
) -> Result<Seq<PartyView>, ErrorView>
    decreases kids.len(),
{
    if kids.len() == 0 {
        Ok(Seq::empty())
    } else {
        match usable_parties(kids.drop_last(), methods, complaint) {
            Err(e) => Err(e),
            Ok(before) => match usable_party(kids.last(), methods, complaint) {
                Err(e) => Err(e),
                Ok(Some(p)) => Ok(before.push(p)),
                Ok(None) => Ok(before),
            },
        }
    }
}

/// The parties whose keys are on a curve, in their order.
pub open spec fn on_curve(parties: Seq<PartyView>, curve: Curve) -> Seq<PartyView>
    decreases parties.len(),
{
    if parties.len() == 0 {
        Seq::empty()
    } else if parties.last().key.curve == curve {
        on_curve(parties.drop_last(), curve).push(parties.last())
    } else {
        on_curve(parties.drop_last(), curve)
    }
}

/// Whether one of the parties has a key on a curve.
pub open spec fn has_curve(parties: Seq<PartyView>, curve: Curve) -> bool {
    exists|i: int| 0 <= i < parties.len() && (#[trigger] parties[i]).key.curve == curve
}

/// The first sender whose curve one of the recipients shares.
pub open spec fn first_common(senders: Seq<PartyView>, recipients: Seq<PartyView>) -> Option<
    PartyView,
>
    decreases senders.len(),
{
    if senders.len() == 0 {
        None
    } else if has_curve(recipients, senders[0].key.curve) {
        Some(senders[0])
    } else {
        first_common(senders.drop_first(), recipients)
    }
}

/// Where a party has a key on a curve, the parties on that curve are not
/// none.
pub proof fn lemma_on_curve_holds(parties: Seq<PartyView>, curve: Curve, i: int)
    requires
        0 <= i < parties.len(),
        parties[i].key.curve == curve,
    ensures
        on_curve(parties, curve).len() > 0,
    decreases parties.len(),
{
    if i < parties.len() - 1 {
        lemma_on_curve_holds(parties.drop_last(), curve, i);
    }
}

/// The key ids that `who` asks for among those that a document lists for
/// key agreement.
pub fn select_kids(who: &str, is_url: bool, agreements: &Vec<String>) -> (r: Vec<String>)
    requires
        is_url == has_fragment(who@),
    ensures
        r.deep_view() == wanted_kids(who@, agreements.deep_view()),
{
    let wanted = who.to_owned();
    let ghost all = agreements.deep_view();
    let mut out: Vec<String> = Vec::new();
    let mut i: usize = 0;
    assert(all.take(0) =~= Seq::<Seq<char>>::empty());
    assert(out.deep_view() =~= Seq::<Seq<char>>::empty());
    while i < agreements.len()
        invariant
            i <= agreements.len(),
            all == agreements.deep_view(),
            wanted@ == who@,
            is_url == has_fragment(who@),
            out.deep_view() == wanted_kids(who@, all.take(i as int)),
        decreases agreements.len() - i,
    {
        let ghost before = out.deep_view();
        let ghost upto = all.take(i + 1);
        assert(upto.drop_last() =~= all.take(i as int));
        assert(upto.last() == agreements[i as int]@);
        if (!is_url || agreements[i] == wanted) && !contains_text(&out, agreements[i].as_str()) {
            out.push(agreements[i].clone());
            assert(out.deep_view() =~= before.push(agreements[i as int]@));
        }
        i += 1;
    }
    assert(all.take(agreements.len() as int) =~= all);
    out
}

/// Where the parties of the key ids up to some place cannot be found, those
/// of all of them cannot.
proof fn lemma_usable_fails(
    kids: Seq<Seq<char>>,
    methods: Seq<VerificationMethodView>,
    complaint: Seq<char>,
    n: int,
)
    requires
        0 <= n <= kids.len(),
        usable_parties(kids.take(n), methods, complaint) is Err,
    ensures
        usable_parties(kids, methods, complaint) == usable_parties(
            kids.take(n),
            methods,
            complaint,
        ),
    decreases kids.len() - n,
{
    if n < kids.len() {
        assert(kids.take(n + 1).drop_last() =~= kids.take(n));
        lemma_usable_fails(kids, methods, complaint, n + 1);
    } else {
        assert(kids.take(n) =~= kids);
    }
}

/// The parties of the key ids whose keys can be used, in their order.
pub fn select_parties(kids: &Vec<String>, doc: &DIDDoc, complaint: &str) -> (r: Result<
    Vec<Party>,
    Error,
>)
    ensures
        match r {
            Ok(list) => usable_parties(kids.deep_view(), doc@.verification_methods, complaint@)
                == Ok::<Seq<PartyView>, ErrorView>(parties_view(list@)),
            Err(e) => usable_parties(kids.deep_view(), doc@.verification_methods, complaint@)
                == Err::<Seq<PartyView>, ErrorView>(e@),
        },
{
    let ghost all = kids.deep_view();
    let ghost methods = doc@.verification_methods;
    let mut out: Vec<Party> = Vec::new();
    let mut i: usize = 0;
    assert(all.take(0) =~= Seq::<Seq<char>>::empty());
    assert(parties_view(out@) =~= Seq::<PartyView>::empty());
    while i < kids.len()
        invariant
            i <= kids.len(),
            all == kids.deep_view(),
            methods == doc@.verification_methods,
            usable_parties(all.take(i as int), methods, complaint@) == Ok::<
                Seq<PartyView>,
                ErrorView,
            >(parties_view(out@)),
        decreases kids.len() - i,
    {
        let ghost before = parties_view(out@);
        let ghost upto = all.take(i + 1);
        assert(upto.drop_last() =~= all.take(i as int));
        assert(upto.last() == kids[i as int]@);
        let method = match doc.find_method(kids[i].as_str()) {
            Some(m) => m,
            None => {
                proof {
                    lemma_usable_fails(all, methods, complaint@, i + 1);
                }
                return Err(err_msg(ErrorKind::Malformed, complaint));
            },
        };
        match method.as_key_pair() {
            Ok(key) => if key.can_agree() {
                let party = Party { kid: kids[i].clone(), key };
                out.push(party);
                assert(parties_view(out@) =~= before.push(party@));
            },
            Err(_) => {},
        }
        i += 1;
    }
    assert(all.take(kids.len() as int) =~= all);
    Ok(out)
}

/// The parties whose keys are on a curve, in their order.
pub fn keep_curve(parties: &Vec<Party>, curve: Curve) -> (r: Vec<Party>)
    ensures
        parties_view(r@) == on_curve(parties_view(parties@), curve),
{
    let ghost all = parties_view(parties@);
    let mut out: Vec<Party> = Vec::new();
    let mut i: usize = 0;
    assert(all.take(0) =~= Seq::<PartyView>::empty());
    assert(parties_view(out@) =~= Seq::<PartyView>::empty());
    while i < parties.len()
        invariant
            i <= parties.len(),
            all == parties_view(parties@),
            parties_view(out@) == on_curve(all.take(i as int), curve),
        decreases parties.len() - i,
    {
        let ghost before = parties_view(out@);
        let ghost upto = all.take(i + 1);
        assert(upto.drop_last() =~= all.take(i as int));
        assert(upto.last() == parties[i as int]@);
        if parties[i].key.curve == curve {
            let party = Party {
                kid: parties[i].kid.clone(),
                key: KeyPair { curve: parties[i].key.curve, jwk: parties[i].key.jwk.clone() },
            };
            out.push(party);
            assert(parties_view(out@) =~= before.push(party@));
        }
        i += 1;
    }
    assert(all.take(parties.len() as int) =~= all);
    out
}

/// Whether one of the parties has a key on a curve.
pub fn any_on_curve(parties: &Vec<Party>, curve: Curve) -> (r: bool)
    ensures
        r == has_curve(parties_view(parties@), curve),
{
    let ghost all = parties_view(parties@);
    let mut i: usize = 0;
    while i < parties.len()
        invariant
            i <= parties.len(),
            all == parties_view(parties@),
            forall|k: int| 0 <= k < i ==> (#[trigger] all[k]).key.curve != curve,
        decreases parties.len() - i,
    {
        assert(all[i as int] == parties[i as int]@);
        if parties[i].key.curve == curve {
            return true;
        }
        i += 1;
    }
    false
}

/// The place of the first sender whose curve one of the recipients shares.
#[verifier::loop_isolation(false)]
pub fn find_common(senders: &Vec<Party>, recipients: &Vec<Party>) -> (r: Option<usize>)
    ensures
        match r {
            Some(i) => i < senders.len() && first_common(
                parties_view(senders@),
                parties_view(recipients@),
            ) == Some(senders[i as int]@),
            None => first_common(parties_view(senders@), parties_view(recipients@)) is None,
        },
{
    let ghost all = parties_view(senders@);
    let ghost others = parties_view(recipients@);
    let mut i: usize = 0;
    assert(all.skip(0) =~= all);
    while i < senders.len()
        invariant
            i <= senders.len(),
            first_common(all, others) == first_common(all.skip(i as int), others),
        decreases senders.len() - i,
    {
        let ghost rest = all.skip(i as int);
        assert(rest[0] == senders[i as int]@);
        assert(rest.drop_first() =~= all.skip(i + 1));
        if any_on_curve(recipients, senders[i].key.curve) {
            return Some(i);
        }
        i += 1;
    }
    None
}

/// No key id stands twice among the key ids that are asked for.
pub proof fn lemma_wanted_once(who: Seq<char>, agreements: Seq<Seq<char>>)
    ensures
        each_once(wanted_kids(who, agreements)),
    decreases agreements.len(),
{
    if agreements.len() > 0 {
        lemma_wanted_once(who, agreements.drop_last());
    }
}

/// The parties that can be used are named by key ids of the list, each of
/// them once where the list holds each once.
pub proof fn lemma_usable_once(
    kids: Seq<Seq<char>>,
    methods: Seq<VerificationMethodView>,
    complaint: Seq<char>,
)
    requires
        each_once(kids),
        usable_parties(kids, methods, complaint) is Ok,
    ensures
        each_once(party_kids(usable_parties(kids, methods, complaint)->Ok_0)),
        forall|i: int|
            0 <= i < usable_parties(kids, methods, complaint)->Ok_0.len() ==> holds(
                kids,
                (#[trigger] usable_parties(kids, methods, complaint)->Ok_0[i]).kid,
            ),
    decreases kids.len(),
{
    if kids.len() > 0 {
        let before = usable_parties(kids.drop_last(), methods, complaint)->Ok_0;
        lemma_usable_once(kids.drop_last(), methods, complaint);
        let all = usable_parties(kids, methods, complaint)->Ok_0;
        assert forall|i: int| 0 <= i < all.len() implies holds(kids, (#[trigger] all[i]).kid) by {
            if i < before.len() {
                assert(all[i] == before[i]);
                let k = choose|k: int|
                    0 <= k < kids.drop_last().len() && kids.drop_last()[k] == before[i].kid;
                assert(kids[k] == before[i].kid);
            } else {
                assert(kids[kids.len() - 1] == all[i].kid);
            }
        }
        assert forall|i: int, j: int| 0 <= i < j < party_kids(all).len() implies party_kids(
            all,
        )[i] != party_kids(all)[j] by {
            if j < before.len() {
                assert(party_kids(before)[i] == before[i].kid);
                assert(party_kids(before)[j] == before[j].kid);
            } else {
                let k = choose|k: int|
                    0 <= k < kids.drop_last().len() && kids.drop_last()[k] == before[i].kid;
                assert(kids[k] != kids[kids.len() - 1]);
            }
        }
    }
}

/// The parties on a curve are on that curve, and are named by key ids of
/// the parties they were taken from, each of them once where those are.
pub proof fn lemma_on_curve_once(parties: Seq<PartyView>, curve: Curve)
    requires
        each_once(party_kids(parties)),
    ensures
        all_on(on_curve(parties, curve), curve),
        each_once(party_kids(on_curve(parties, curve))),
        forall|i: int|
            0 <= i < on_curve(parties, curve).len() ==> holds(
                party_kids(parties),
                (#[trigger] on_curve(parties, curve)[i]).kid,
            ),
    decreases parties.len(),
{
    if parties.len() > 0 {
        let rest = parties.drop_last();
        let before = on_curve(rest, curve);
        let all = on_curve(parties, curve);
        assert forall|i: int, j: int| 0 <= i < j < party_kids(rest).len() implies party_kids(
            rest,
        )[i] != party_kids(rest)[j] by {
            assert(party_kids(rest)[i] == party_kids(parties)[i]);
            assert(party_kids(rest)[j] == party_kids(parties)[j]);
        }
        lemma_on_curve_once(rest, curve);
        assert forall|i: int| 0 <= i < all.len() implies holds(
            party_kids(parties),
            (#[trigger] all[i]).kid,
        ) by {
            if i < before.len() {
                assert(all[i] == before[i]);
                let k = choose|k: int|
                    0 <= k < party_kids(rest).len() && party_kids(rest)[k] == before[i].kid;
                assert(party_kids(parties)[k] == before[i].kid);
            } else {
                assert(party_kids(parties)[parties.len() - 1] == all[i].kid);
            }
        }
        assert forall|i: int, j: int| 0 <= i < j < party_kids(all).len() implies party_kids(
            all,
        )[i] != party_kids(all)[j] by {
            if j < before.len() {
                assert(party_kids(before)[i] == before[i].kid);
                assert(party_kids(before)[j] == before[j].kid);
            } else {
                let k = choose|k: int|
                    0 <= k < party_kids(rest).len() && party_kids(rest)[k] == before[i].kid;
                assert(party_kids(parties)[k] == before[i].kid);
                assert(party_kids(parties)[parties.len() - 1] == all[j].kid);
            }
        }
    }
}

} // verus!
