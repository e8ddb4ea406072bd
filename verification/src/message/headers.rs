//! The custom headers of a message: each name once, none a name of the
//! message format, in the order of the names.

use crate::json::{member, members_of, Json, JsonValue};
use crate::message::codec::{is_reserved, reserved, unique_names};
use crate::message::round_trip::no_reserved;
use crate::ordered::{
    insert_member, lemma_insert_lookup, lemma_insert_place, lemma_member_insert_at,
    lemma_member_push, lemma_not_before_earlier, weakly_ordered,
};
use crate::utils::{lemma_bytes_before_one_way, same_text, text_before, text_less};
use vstd::prelude::*;
use vstd::utf8::encode_utf8;

verus! {

/// The headers of a list but those of one name, in their order.
pub open spec fn without_name(headers: Seq<(Seq<char>, JsonValue)>, name: Seq<char>) -> Seq<
    (Seq<char>, JsonValue),
>
    decreases headers.len(),
{
    if headers.len() == 0 {
        Seq::empty()
    } else if headers.last().0 == name {
        without_name(headers.drop_last(), name)
    } else {
        without_name(headers.drop_last(), name).push(headers.last())
    }
}

/// The headers of a message with one more set: a header of a name that the
/// message format gives a meaning to is refused, and the headers stay as
/// they are; any other header takes the place of the one of its name, or
/// is put in the place that the order of the names gives it.
pub open spec fn with_header(
    headers: Seq<(Seq<char>, JsonValue)>,
    name: Seq<char>,
    value: JsonValue,
) -> Seq<(Seq<char>, JsonValue)> {
    if reserved(name) {
        headers
    } else {
        insert_member(without_name(headers, name), (name, value))
    }
}

/// What is left of a list without a name stood in the list.
pub proof fn lemma_without_within(
    headers: Seq<(Seq<char>, JsonValue)>,
    name: Seq<char>,
    i: int,
) -> (k: int)
    requires
        0 <= i < without_name(headers, name).len(),
    ensures
        i <= k < headers.len(),
        headers[k] == without_name(headers, name)[i],
        headers[k].0 != name,
    decreases headers.len(),
{
    let rest = headers.drop_last();
    if headers.last().0 == name || i < without_name(rest, name).len() {
        let k = lemma_without_within(rest, name, i);
        assert(rest[k] == headers[k]);
        k
    } else {
        lemma_without_short(rest, name);
        headers.len() - 1
    }
}

/// What is left of a list without a name is no longer than the list.
pub proof fn lemma_without_short(headers: Seq<(Seq<char>, JsonValue)>, name: Seq<char>)
    ensures
        without_name(headers, name).len() <= headers.len(),
    decreases headers.len(),
{
    if headers.len() > 0 {
        lemma_without_short(headers.drop_last(), name);
    }
}

/// Of two headers that are left of a list without a name, the one that
/// stands first stood first in the list.
pub proof fn lemma_without_keeps_order(
    headers: Seq<(Seq<char>, JsonValue)>,
    name: Seq<char>,
    i: int,
    j: int,
) -> (at: (int, int))
    requires
        0 <= i < j < without_name(headers, name).len(),
    ensures
        0 <= at.0 < at.1 < headers.len(),
        headers[at.0] == without_name(headers, name)[i],
        headers[at.1] == without_name(headers, name)[j],
    decreases headers.len(),
{
    let rest = headers.drop_last();
    if headers.last().0 == name || j < without_name(rest, name).len() {
        let at = lemma_without_keeps_order(rest, name, i, j);
        assert(rest[at.0] == headers[at.0] && rest[at.1] == headers[at.1]);
        at
    } else {
        let k = lemma_without_within(rest, name, i);
        assert(rest[k] == headers[k]);
        (k, headers.len() - 1)
    }
}

/// Looking a name up in what is left of a list without another name finds
/// what it finds in the list; the name that was left out finds nothing.
pub proof fn lemma_without_lookup(
    headers: Seq<(Seq<char>, JsonValue)>,
    name: Seq<char>,
    key: Seq<char>,
)
    ensures
        member(without_name(headers, name), key) == if key == name {
            None
        } else {
            member(headers, key)
        },
    decreases headers.len(),
{
    if headers.len() > 0 {
        let rest = headers.drop_last();
        lemma_without_lookup(rest, name, key);
        lemma_member_push(rest, headers.last(), key);
        lemma_member_push(without_name(rest, name), headers.last(), key);
        assert(rest.push(headers.last()) =~= headers);
    }
}

/// Setting a header keeps the rules of the custom headers: where each name
/// stood once, none was a name of the message format, and the headers stood
/// in the order of their names, the same holds with the header set. The
/// name of the header then finds its value, unless the name was refused,
/// and every other name finds what it found.
pub proof fn law_with_header_keeps_rules(
    headers: Seq<(Seq<char>, JsonValue)>,
    name: Seq<char>,
    value: JsonValue,
)
    requires
        unique_names(headers),
        no_reserved(headers),
        weakly_ordered(headers),
    ensures
        unique_names(with_header(headers, name, value)),
        no_reserved(with_header(headers, name, value)),
        weakly_ordered(with_header(headers, name, value)),
        !reserved(name) ==> member(with_header(headers, name, value), name) == Some(value),
        forall|key: Seq<char>|
            key != name ==> #[trigger] member(with_header(headers, name, value), key) == member(
                headers,
                key,
            ),
{
    if !reserved(name) {
        let left = without_name(headers, name);
        let x = (name, value);
        let j = lemma_insert_place(left, x);
        let out = left.insert(j, x);
        assert(weakly_ordered(left)) by {
            assert forall|a: int, b: int| 0 <= a < b < left.len() implies !text_before(
                left[b].0,
                left[a].0,
            ) by {
                let at = lemma_without_keeps_order(headers, name, a, b);
            }
        }
        assert forall|a: int, b: int| 0 <= a < b < out.len() implies !text_before(
            out[b].0,
            out[a].0,
        ) by {
            if b == j {
                assert(out[a] == left[a]);
                lemma_not_before_earlier(left, x, j, a);
            } else if a == j {
                assert(out[b] == left[b - 1]);
                assert(text_before(x.0, left[b - 1].0));
                lemma_bytes_before_one_way(encode_utf8(x.0), encode_utf8(left[b - 1].0));
            } else {
                let a0 = if a < j { a } else { a - 1 };
                let b0 = if b < j { b } else { b - 1 };
                assert(out[a] == left[a0] && out[b] == left[b0]);
            }
        }
        assert forall|a: int, b: int| 0 <= a < b < out.len() implies out[a].0 != out[b].0 by {
            if b == j {
                assert(out[a] == left[a]);
                let k = lemma_without_within(headers, name, a);
            } else if a == j {
                assert(out[b] == left[b - 1]);
                let k = lemma_without_within(headers, name, b - 1);
            } else {
                let a0 = if a < j { a } else { a - 1 };
                let b0 = if b < j { b } else { b - 1 };
                assert(out[a] == left[a0] && out[b] == left[b0]);
                let at = lemma_without_keeps_order(headers, name, a0, b0);
                assert(headers[at.0].0 != headers[at.1].0);
            }
        }
        assert(unique_names(out));
        assert forall|i: int| 0 <= i < out.len() implies !reserved((#[trigger] out[i]).0) by {
            if i != j {
                let i0 = if i < j { i } else { i - 1 };
                assert(out[i] == left[i0]);
                let k = lemma_without_within(headers, name, i0);
                assert(!reserved(headers[k].0));
            }
        }
        assert forall|key: Seq<char>|
            #[trigger] member(out, key) == if key == name {
                Some(value)
            } else {
                member(headers, key)
            } by {
            lemma_insert_lookup(left, x, key);
            lemma_member_push(left, x, key);
            lemma_without_lookup(headers, name, key);
        }
    }
}

/// The headers of a list but those of one name, in their order.
pub fn remove_name(headers: &Vec<(String, Json)>, name: &str) -> (r: Vec<(String, Json)>)
    ensures
        members_of(r@) == without_name(members_of(headers@), name@),
{
    let ghost all = members_of(headers@);
    let mut out: Vec<(String, Json)> = Vec::new();
    let mut i: usize = 0;
    assert(all.take(0) =~= Seq::<(Seq<char>, JsonValue)>::empty());
    assert(members_of(out@) =~= Seq::<(Seq<char>, JsonValue)>::empty());
    while i < headers.len()
        invariant
            i <= headers.len(),
            all == members_of(headers@),
            members_of(out@) == without_name(all.take(i as int), name@),
        decreases headers.len() - i,
    {
        let ghost before = members_of(out@);
        let ghost upto = all.take(i + 1);
        assert(upto.drop_last() =~= all.take(i as int));
        assert(upto.last() == (headers[i as int].0@, headers[i as int].1@));
        if !same_text(headers[i].0.as_str(), name) {
            out.push((headers[i].0.clone(), headers[i].1.duplicate()));
            assert(members_of(out@) =~= before.push((headers[i as int].0@, headers[i as int].1@)));
        }
        i += 1;
    }
    assert(all.take(headers.len() as int) =~= all);
    out
}

/// The headers of a message with one more set.
pub fn set_header(headers: &Vec<(String, Json)>, name: String, value: Json) -> (r: Vec<
    (String, Json),
>)
    ensures
        members_of(r@) == with_header(members_of(headers@), name@, value@),
{
    if is_reserved(name.as_str()) {
        return crate::message::copy_members(headers);
    }
    let mut out = remove_name(headers, name.as_str());
    let ghost before = members_of(out@);
    let ghost x = (name@, value@);
    let mut j: usize = out.len();
    while j > 0 && text_less(name.as_str(), out[j - 1].0.as_str())
        invariant
            j <= out.len(),
            members_of(out@) == before,
            forall|k: int| j <= k < out.len() ==> text_before(name@, out[k].0@),
        decreases j,
    {
        j -= 1;
    }
    proof {
        assert forall|k: int| j <= k < before.len() implies text_before(
            x.0,
            (#[trigger] before[k]).0,
        ) by {
            assert(before[k].0 == out[k].0@);
        }
        if j > 0 {
            assert(before[j - 1].0 == out[j - 1].0@);
        }
        lemma_member_insert_at(before, x, j as int);
    }
    out.insert(j, (name, value));
    assert(members_of(out@) =~= before.insert(j as int, x));
    out
}

} // verus!
