//! Members of a JSON object in the order of their names.
//!
//! A reader of JSON that keeps the members of an object by name hands them
//! back in the order of the names, whatever order they were written in. The
//! library writes every object in that order, so that what it writes is
//! read back as it was written.

use crate::json::{member, members_of, Json, JsonValue};
use crate::message::round_trip::{lemma_member_concat, lemma_member_one};
use crate::utils::{lemma_bytes_before_one_way, text_before, text_less};
use vstd::prelude::*;
use vstd::utf8::encode_utf8;

verus! {

/// A list of members in name order with one more member put in its place,
/// behind the members of the same name.
pub open spec fn insert_member(
    sorted: Seq<(Seq<char>, JsonValue)>,
    x: (Seq<char>, JsonValue),
) -> Seq<(Seq<char>, JsonValue)>
    decreases sorted.len(),
{
    if sorted.len() == 0 {
        seq![x]
    } else if text_before(x.0, sorted.last().0) {
        insert_member(sorted.drop_last(), x).push(sorted.last())
    } else {
        sorted.push(x)
    }
}

/// The members of a list in the order of their names; members of one name
/// keep their order.
pub open spec fn sort_members(list: Seq<(Seq<char>, JsonValue)>) -> Seq<(Seq<char>, JsonValue)>
    decreases list.len(),
{
    if list.len() == 0 {
        Seq::empty()
    } else {
        insert_member(sort_members(list.drop_last()), list.last())
    }
}

/// The object of some members, written in the order of their names.
pub open spec fn ordered(members: Seq<(Seq<char>, JsonValue)>) -> JsonValue {
    JsonValue::Object(sort_members(members))
}

/// No text sorts before itself.
pub proof fn lemma_not_before_itself(a: Seq<char>)
    ensures
        !text_before(a, a),
{
    if text_before(a, a) {
        lemma_bytes_before_one_way(encode_utf8(a), encode_utf8(a));
    }
}

/// Looking a name up in a list with one more member at its end.
pub proof fn lemma_member_push(
    list: Seq<(Seq<char>, JsonValue)>,
    x: (Seq<char>, JsonValue),
    key: Seq<char>,
)
    ensures
        member(list.push(x), key) == match member(list, key) {
            Some(v) => Some(v),
            None => if x.0 == key {
                Some(x.1)
            } else {
                None
            },
        },
{
    assert(list.push(x) =~= list + seq![x]);
    lemma_member_concat(list, seq![x], key);
    lemma_member_one(x.0, x.1, key);
}

/// Putting a member in its place finds what putting it at the end finds.
pub proof fn lemma_insert_lookup(
    sorted: Seq<(Seq<char>, JsonValue)>,
    x: (Seq<char>, JsonValue),
    key: Seq<char>,
)
    ensures
        member(insert_member(sorted, x), key) == member(sorted.push(x), key),
    decreases sorted.len(),
{
    if sorted.len() > 0 && text_before(x.0, sorted.last().0) {
        let rest = sorted.drop_last();
        let last = sorted.last();
        lemma_insert_lookup(rest, x, key);
        lemma_member_push(insert_member(rest, x), last, key);
        lemma_member_push(rest, x, key);
        assert(rest.push(last) =~= sorted);
        lemma_member_push(rest, last, key);
        lemma_member_push(sorted, x, key);
        lemma_not_before_itself(x.0);
    } else if sorted.len() == 0 {
        assert(sorted.push(x) =~= seq![x]);
    }
}

/// The order of the members of an object changes nothing that is looked up
/// in it: a name finds in the sorted members what it finds in the list.
pub proof fn lemma_sorted_lookup(list: Seq<(Seq<char>, JsonValue)>, key: Seq<char>)
    ensures
        member(sort_members(list), key) == member(list, key),
    decreases list.len(),
{
    if list.len() > 0 {
        let rest = list.drop_last();
        lemma_sorted_lookup(rest, key);
        lemma_insert_lookup(sort_members(rest), list.last(), key);
        lemma_member_push(sort_members(rest), list.last(), key);
        lemma_member_push(rest, list.last(), key);
        assert(rest.push(list.last()) =~= list);
    }
}

/// The order of the members of an object changes nothing that is looked up
/// in it, whatever the name.
pub proof fn lemma_sorted_lookups(list: Seq<(Seq<char>, JsonValue)>)
    ensures
        forall|key: Seq<char>| #[trigger] member(sort_members(list), key) == member(list, key),
{
    assert forall|key: Seq<char>| #[trigger]
        member(sort_members(list), key) == member(list, key) by {
        lemma_sorted_lookup(list, key);
    }
}

/// Members that stand in the order of their names are left as they are.
pub proof fn lemma_in_order_sorted(list: Seq<(Seq<char>, JsonValue)>)
    requires
        weakly_ordered(list),
    ensures
        sort_members(list) == list,
    decreases list.len(),
{
    if list.len() > 0 {
        let rest = list.drop_last();
        assert forall|i: int, j: int| 0 <= i < j < rest.len() implies !text_before(
            rest[j].0,
            rest[i].0,
        ) by {
            assert(rest[i] == list[i] && rest[j] == list[j]);
        }
        lemma_in_order_sorted(rest);
        if rest.len() > 0 {
            assert(!text_before(list[list.len() - 1].0, list[list.len() - 2].0));
        }
        assert(rest.push(list.last()) =~= list);
    }
}

/// Whether the members of a list stand in the order of their names: none
/// has a name that sorts before the name of one that stands before it.
pub open spec fn weakly_ordered(list: Seq<(Seq<char>, JsonValue)>) -> bool {
    forall|i: int, j: int| 0 <= i < j < list.len() ==> !text_before(list[j].0, list[i].0)
}

/// The place at which a member is put into a list: the names from there on
/// sort behind its name, and the name before that place does not.
pub proof fn lemma_insert_place(
    sorted: Seq<(Seq<char>, JsonValue)>,
    x: (Seq<char>, JsonValue),
) -> (j: int)
    ensures
        0 <= j <= sorted.len(),
        insert_member(sorted, x) == sorted.insert(j, x),
        forall|k: int| j <= k < sorted.len() ==> text_before(x.0, (#[trigger] sorted[k]).0),
        j > 0 ==> !text_before(x.0, sorted[j - 1].0),
    decreases sorted.len(),
{
    if sorted.len() == 0 {
        assert(sorted.insert(0, x) =~= seq![x]);
        0
    } else if text_before(x.0, sorted.last().0) {
        let rest = sorted.drop_last();
        let j = lemma_insert_place(rest, x);
        assert(sorted.insert(j, x) =~= rest.insert(j, x).push(sorted.last()));
        assert forall|k: int| j <= k < sorted.len() implies text_before(
            x.0,
            (#[trigger] sorted[k]).0,
        ) by {
            if k < sorted.len() - 1 {
                assert(rest[k] == sorted[k]);
            }
        }
        if j > 0 {
            assert(rest[j - 1] == sorted[j - 1]);
        }
        j
    } else {
        assert(sorted.insert(sorted.len() as int, x) =~= sorted.push(x));
        sorted.len() as int
    }
}

/// A name that does not sort before the name at one place of an ordered
/// list sorts before none of the names that stand before that place.
pub proof fn lemma_not_before_earlier(
    sorted: Seq<(Seq<char>, JsonValue)>,
    x: (Seq<char>, JsonValue),
    j: int,
    k: int,
)
    requires
        weakly_ordered(sorted),
        0 <= k < j <= sorted.len(),
        !text_before(x.0, sorted[j - 1].0),
    ensures
        !text_before(x.0, sorted[k].0),
{
    if k < j - 1 {
        assert(!text_before(sorted[j - 1].0, sorted[k].0));
        crate::utils::lemma_bytes_not_before_chain(
            encode_utf8(x.0),
            encode_utf8(sorted[j - 1].0),
            encode_utf8(sorted[k].0),
        );
    }
}

/// Sorted members stand in the order of their names, and are as many as
/// the members of the list.
pub proof fn lemma_sorted_is_ordered(list: Seq<(Seq<char>, JsonValue)>)
    ensures
        weakly_ordered(sort_members(list)),
        sort_members(list).len() == list.len(),
    decreases list.len(),
{
    if list.len() > 0 {
        let sorted = sort_members(list.drop_last());
        let x = list.last();
        lemma_sorted_is_ordered(list.drop_last());
        let j = lemma_insert_place(sorted, x);
        let out = sorted.insert(j, x);
        assert forall|a: int, b: int| 0 <= a < b < out.len() implies !text_before(
            out[b].0,
            out[a].0,
        ) by {
            if b == j {
                assert(out[a] == sorted[a]);
                lemma_not_before_earlier(sorted, x, j, a);
            } else if a == j {
                assert(out[b] == sorted[b - 1]);
                assert(text_before(x.0, sorted[b - 1].0));
                lemma_bytes_before_one_way(encode_utf8(x.0), encode_utf8(sorted[b - 1].0));
            } else {
                let a0 = if a < j { a } else { a - 1 };
                let b0 = if b < j { b } else { b - 1 };
                assert(out[a] == sorted[a0] && out[b] == sorted[b0]);
            }
        }
    }
}

/// A member of sorted members is a member of the list, and two members of
/// the sorted members are two of the list.
pub proof fn lemma_sorted_within(list: Seq<(Seq<char>, JsonValue)>, a: int, b: int) -> (at: (
    int,
    int,
))
    requires
        0 <= a < sort_members(list).len(),
        0 <= b < sort_members(list).len(),
    ensures
        0 <= at.0 < list.len(),
        0 <= at.1 < list.len(),
        list[at.0] == sort_members(list)[a],
        list[at.1] == sort_members(list)[b],
        a != b ==> at.0 != at.1,
    decreases list.len(),
{
    let rest = list.drop_last();
    let sorted = sort_members(rest);
    lemma_sorted_is_ordered(rest);
    let j = lemma_insert_place(sorted, list.last());
    let a0 = if a < j { a } else { a - 1 };
    let b0 = if b < j { b } else { b - 1 };
    if a == j && b == j {
        (list.len() - 1, list.len() - 1)
    } else if a == j {
        let at = lemma_sorted_within(rest, b0, b0);
        assert(rest[at.1] == list[at.1]);
        (list.len() - 1, at.1)
    } else if b == j {
        let at = lemma_sorted_within(rest, a0, a0);
        assert(rest[at.0] == list[at.0]);
        (at.0, list.len() - 1)
    } else {
        let at = lemma_sorted_within(rest, a0, b0);
        assert(rest[at.0] == list[at.0] && rest[at.1] == list[at.1]);
        at
    }
}

/// Putting a member in at `j` is putting it in its place, where the names
/// from `j` on sort behind its name and the name before `j` does not.
pub proof fn lemma_member_insert_at(
    sorted: Seq<(Seq<char>, JsonValue)>,
    x: (Seq<char>, JsonValue),
    j: int,
)
    requires
        0 <= j <= sorted.len(),
        forall|k: int| j <= k < sorted.len() ==> text_before(x.0, (#[trigger] sorted[k]).0),
        j > 0 ==> !text_before(x.0, sorted[j - 1].0),
    ensures
        insert_member(sorted, x) == sorted.insert(j, x),
    decreases sorted.len(),
{
    if sorted.len() == 0 {
        assert(sorted.insert(j, x) =~= seq![x]);
    } else if j == sorted.len() {
        assert(sorted.insert(j, x) =~= sorted.push(x));
    } else {
        lemma_member_insert_at(sorted.drop_last(), x, j);
        assert(sorted.insert(j, x) =~= sorted.drop_last().insert(j, x).push(sorted.last()));
    }
}

/// The members of a list in the order of their names.
pub fn sorted_members(list: &Vec<(String, Json)>) -> (r: Vec<(String, Json)>)
    ensures
        members_of(r@) == sort_members(members_of(list@)),
{
    let ghost all = members_of(list@);
    let mut out: Vec<(String, Json)> = Vec::new();
    let mut i: usize = 0;
    assert(all.take(0) =~= Seq::<(Seq<char>, JsonValue)>::empty());
    assert(members_of(out@) =~= Seq::<(Seq<char>, JsonValue)>::empty());
    while i < list.len()
        invariant
            i <= list.len(),
            out.len() == i,
            all == members_of(list@),
            members_of(out@) == sort_members(all.take(i as int)),
        decreases list.len() - i,
    {
        let ghost before = members_of(out@);
        let ghost upto = all.take(i + 1);
        let ghost x = (list[i as int].0@, list[i as int].1@);
        assert(upto.drop_last() =~= all.take(i as int));
        assert(upto.last() == x);
        let mut j: usize = out.len();
        while j > 0 && text_less(list[i].0.as_str(), out[j - 1].0.as_str())
            invariant
                j <= out.len(),
                i < list.len(),
                members_of(out@) == before,
                forall|k: int| j <= k < out.len() ==> text_before(list[i as int].0@, out[k].0@),
            decreases j,
        {
            j -= 1;
        }
        proof {
            assert forall|k: int| j <= k < before.len() implies text_before(
                x.0,
                (#[trigger] before[k]).0,
            ) by {
                assert(before[k].0 == out[k].0@);
            }
            if j > 0 {
                assert(before[j - 1].0 == out[j - 1].0@);
            }
            lemma_member_insert_at(before, x, j as int);
        }
        out.insert(j, (list[i].0.clone(), list[i].1.duplicate()));
        assert(members_of(out@) =~= before.insert(j as int, x));
        i += 1;
    }
    assert(all.take(list.len() as int) =~= all);
    out
}

} // verus!
