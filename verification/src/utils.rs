//! Helpers on texts and on lists of texts: DIDs, DID URLs and key ids.

use vstd::prelude::*;
use vstd::string::{StrSliceExecFns, StringExecFns, StringSliceAdditionalSpecFns};
use vstd::utf8::encode_utf8;

verus! {

/// Whether `i` is the first place at which `s` holds `c`.
pub open spec fn is_first(s: Seq<char>, c: char, i: int) -> bool {
    &&& 0 <= i < s.len()
    &&& s[i] == c
    &&& forall|k: int| 0 <= k < i ==> s[k] != c
}

/// The first place at which `s` holds `c`, where it holds one.
pub open spec fn position(s: Seq<char>, c: char) -> int {
    choose|i: int| is_first(s, c, i)
}

/// There is one first place only.
pub proof fn lemma_first_is_position(s: Seq<char>, c: char, i: int)
    requires
        is_first(s, c, i),
    ensures
        position(s, c) == i,
        s.contains(c),
{
    let p = position(s, c);
    assert(is_first(s, c, p));
    if p < i {
        assert(s[p] != c);
    }
    if i < p {
        assert(s[i] != c);
    }
}

/// Whether the text is a DID URL: a DID with a fragment behind `#`.
pub open spec fn has_fragment(s: Seq<char>) -> bool {
    s.contains('#')
}

/// The DID of a DID or a DID URL: what stands before the first `#`, or the
/// whole text where there is none.
pub open spec fn did_part(s: Seq<char>) -> Seq<char> {
    if s.contains('#') {
        s.subrange(0, position(s, '#'))
    } else {
        s
    }
}

/// Whether the text has the shape of a DID: it starts with `did:` and holds
/// a further colon, so that `:` parts it into three pieces at least.
pub open spec fn is_did_text(s: Seq<char>) -> bool {
    &&& s.len() >= 4
    &&& s[0] == 'd'
    &&& s[1] == 'i'
    &&& s[2] == 'd'
    &&& s[3] == ':'
    &&& exists|k: int| 4 <= k < s.len() && s[k] == ':'
}

/// Whether a list of texts holds `wanted`.
pub open spec fn holds(list: Seq<Seq<char>>, wanted: Seq<char>) -> bool {
    list.contains(wanted)
}

/// The first place at which `s` holds `c`.
pub fn find_char(s: &str, c: char) -> (r: Option<usize>)
    ensures
        match r {
            Some(i) => is_first(s@, c, i as int),
            None => !s@.contains(c),
        },
{
    let n = s.unicode_len();
    let mut i: usize = 0;
    while i < n
        invariant
            i <= n,
            n == s@.len(),
            forall|k: int| 0 <= k < i ==> s@[k] != c,
        decreases n - i,
    {
        if s.get_char(i) == c {
            return Some(i);
        }
        i += 1;
    }
    None
}

/// Splits a DID or DID URL: its DID, and whether it has a fragment.
pub fn did_or_url(s: &str) -> (r: (String, bool))
    ensures
        r.0@ == did_part(s@),
        r.1 == has_fragment(s@),
{
    match find_char(s, '#') {
        Some(i) => {
            proof {
                lemma_first_is_position(s@, '#', i as int);
            }
            (s.substring_char(0, i).to_owned(), true)
        },
        None => (s.to_owned(), false),
    }
}

/// Whether the text has the shape of a DID.
#[verifier::loop_isolation(false)]
pub fn is_did(s: &str) -> (r: bool)
    ensures
        r == is_did_text(s@),
{
    let n = s.unicode_len();
    if n < 4 {
        return false;
    }
    if !(s.get_char(0) == 'd' && s.get_char(1) == 'i' && s.get_char(2) == 'd' && s.get_char(3)
        == ':') {
        return false;
    }
    let mut i: usize = 4;
    while i < n
        invariant
            4 <= i <= n,
            n == s@.len(),
            forall|k: int| 4 <= k < i ==> s@[k] != ':',
        decreases n - i,
    {
        if s.get_char(i) == ':' {
            return true;
        }
        i += 1;
    }
    false
}

/// Whether two texts are the same.
pub fn same_text(a: &str, b: &str) -> (r: bool)
    ensures
        r == (a@ == b@),
{
    a.to_owned() == b.to_owned()
}

/// The place of `wanted` in a list of texts.
pub fn find_text(list: &Vec<String>, wanted: &str) -> (r: Option<usize>)
    ensures
        match r {
            Some(i) => i < list.len() && list[i as int]@ == wanted@ && forall|k: int|
                0 <= k < i ==> list[k]@ != wanted@,
            None => !holds(list.deep_view(), wanted@),
        },
{
    let needle = wanted.to_owned();
    let mut i: usize = 0;
    while i < list.len()
        invariant
            i <= list.len(),
            needle@ == wanted@,
            forall|k: int| 0 <= k < i ==> list[k]@ != wanted@,
        decreases list.len() - i,
    {
        if list[i] == needle {
            return Some(i);
        }
        i += 1;
    }
    assert forall|k: int| 0 <= k < list.deep_view().len() implies list.deep_view()[k]
        != wanted@ by {
        assert(list.deep_view()[k] == list[k]@);
    }
    None
}

/// Whether a list of texts holds `wanted`.
pub fn contains_text(list: &Vec<String>, wanted: &str) -> (r: bool)
    ensures
        r == holds(list.deep_view(), wanted@),
{
    match find_text(list, wanted) {
        Some(i) => {
            assert(list.deep_view()[i as int] == list[i as int]@);
            true
        },
        None => false,
    }
}

/// A copy of a list of texts.
pub fn copy_texts(list: &Vec<String>) -> (r: Vec<String>)
    ensures
        r.deep_view() == list.deep_view(),
{
    let mut out: Vec<String> = Vec::new();
    let mut i: usize = 0;
    while i < list.len()
        invariant
            i <= list.len(),
            out.len() == i,
            forall|k: int| 0 <= k < i ==> out[k]@ == list[k]@,
        decreases list.len() - i,
    {
        out.push(list[i].clone());
        i += 1;
    }
    assert(out.deep_view() =~= list.deep_view());
    out
}

/// A copy of bytes.
pub fn copy_bytes(bytes: &Vec<u8>) -> (r: Vec<u8>)
    ensures
        r@ == bytes@,
{
    let mut out: Vec<u8> = Vec::new();
    let mut i: usize = 0;
    while i < bytes.len()
        invariant
            i <= bytes.len(),
            out.len() == i,
            forall|k: int| 0 <= k < i ==> out[k] == bytes[k],
        decreases bytes.len() - i,
    {
        out.push(bytes[i]);
        i += 1;
    }
    assert(out@ =~= bytes@);
    out
}

/// Whether two byte strings are the same.
pub fn same_bytes(a: &Vec<u8>, b: &Vec<u8>) -> (r: bool)
    ensures
        r == (a@ == b@),
{
    if a.len() != b.len() {
        return false;
    }
    let mut i: usize = 0;
    while i < a.len()
        invariant
            i <= a.len(),
            a.len() == b.len(),
            forall|k: int| 0 <= k < i ==> a[k] == b[k],
        decreases a.len() - i,
    {
        if a[i] != b[i] {
            return false;
        }
        i += 1;
    }
    assert(a@ =~= b@);
    true
}

/// Whether `a` comes before `b` in the order of byte strings: at the first
/// place where they differ `a` has the smaller byte, or `a` ends first.
pub open spec fn bytes_before(a: Seq<u8>, b: Seq<u8>) -> bool
    decreases a.len(),
{
    if b.len() == 0 {
        false
    } else if a.len() == 0 {
        true
    } else if a[0] != b[0] {
        a[0] < b[0]
    } else {
        bytes_before(a.drop_first(), b.drop_first())
    }
}

/// Whether text `a` sorts before text `b`: the order of their UTF-8 bytes.
pub open spec fn text_before(a: Seq<char>, b: Seq<char>) -> bool {
    bytes_before(encode_utf8(a), encode_utf8(b))
}

/// A sorted list with one more text put in its place, behind the texts that
/// are equal to it.
pub open spec fn insert_text(sorted: Seq<Seq<char>>, x: Seq<char>) -> Seq<Seq<char>>
    decreases sorted.len(),
{
    if sorted.len() == 0 {
        seq![x]
    } else if text_before(x, sorted.last()) {
        insert_text(sorted.drop_last(), x).push(sorted.last())
    } else {
        sorted.push(x)
    }
}

/// The texts of a list in sorted order; equal texts keep their order.
pub open spec fn sort_texts(list: Seq<Seq<char>>) -> Seq<Seq<char>>
    decreases list.len(),
{
    if list.len() == 0 {
        Seq::empty()
    } else {
        insert_text(sort_texts(list.drop_last()), list.last())
    }
}

/// The texts of a list, one after the other, with `sep` between them.
pub open spec fn join_texts(list: Seq<Seq<char>>, sep: Seq<char>) -> Seq<char>
    decreases list.len(),
{
    if list.len() == 0 {
        Seq::empty()
    } else if list.len() == 1 {
        list[0]
    } else {
        join_texts(list.drop_last(), sep) + sep + list.last()
    }
}

/// Of two byte strings at most one comes before the other.
pub proof fn lemma_bytes_before_one_way(a: Seq<u8>, b: Seq<u8>)
    requires
        bytes_before(a, b),
    ensures
        !bytes_before(b, a),
    decreases a.len(),
{
    if a.len() > 0 && b.len() > 0 && a[0] == b[0] {
        lemma_bytes_before_one_way(a.drop_first(), b.drop_first());
    }
}

/// Where `a` does not come before `b` and `b` does not come before `c`,
/// `a` does not come before `c`.
pub proof fn lemma_bytes_not_before_chain(a: Seq<u8>, b: Seq<u8>, c: Seq<u8>)
    requires
        !bytes_before(a, b),
        !bytes_before(b, c),
    ensures
        !bytes_before(a, c),
    decreases a.len(),
{
    if c.len() > 0 && a.len() > 0 && b.len() > 0 {
        if a[0] == b[0] && b[0] == c[0] {
            lemma_bytes_not_before_chain(a.drop_first(), b.drop_first(), c.drop_first());
        }
    }
}

/// Whether the texts of a list stand in sorted order: none sorts before one
/// that stands before it.
pub open spec fn in_order(list: Seq<Seq<char>>) -> bool {
    forall|i: int, j: int| 0 <= i < j < list.len() ==> !text_before(list[j], list[i])
}

/// A sorted list with one more text put in its place is sorted, and holds
/// what the list held and the text.
pub proof fn lemma_insert_keeps_order(sorted: Seq<Seq<char>>, x: Seq<char>)
    requires
        in_order(sorted),
    ensures
        in_order(insert_text(sorted, x)),
        insert_text(sorted, x).to_multiset() == sorted.to_multiset().insert(x),
        insert_text(sorted, x).len() == sorted.len() + 1,
    decreases sorted.len(),
{
    broadcast use vstd::seq_lib::group_to_multiset_ensures;

    let out = insert_text(sorted, x);
    if sorted.len() == 0 {
        assert(sorted =~= Seq::empty());
        assert(out =~= Seq::<Seq<char>>::empty().push(x));
    } else if text_before(x, sorted.last()) {
        let before = sorted.drop_last();
        let last = sorted.last();
        assert(in_order(before)) by {
            assert forall|i: int, j: int| 0 <= i < j < before.len() implies !text_before(
                before[j],
                before[i],
            ) by {
                assert(before[i] == sorted[i] && before[j] == sorted[j]);
            }
        }
        lemma_insert_keeps_order(before, x);
        let inner = insert_text(before, x);
        assert(out == inner.push(last));
        assert(before.push(last) =~= sorted);
        assert forall|i: int, j: int| 0 <= i < j < out.len() implies !text_before(
            out[j],
            out[i],
        ) by {
            if j < inner.len() {
                assert(out[i] == inner[i] && out[j] == inner[j]);
            } else {
                assert(out[j] == last);
                assert(out[i] == inner[i]);
                assert(inner.to_multiset().count(inner[i]) > 0);
                if inner[i] == x {
                    lemma_bytes_before_one_way(encode_utf8(x), encode_utf8(last));
                } else {
                    assert(before.to_multiset().count(inner[i]) > 0);
                    assert(before.contains(inner[i]));
                    let k = choose|k: int| 0 <= k < before.len() && before[k] == inner[i];
                    assert(sorted[k] == inner[i]);
                    assert(!text_before(sorted[sorted.len() - 1], sorted[k]));
                }
            }
        }
    } else {
        assert(out == sorted.push(x));
        assert forall|i: int, j: int| 0 <= i < j < out.len() implies !text_before(
            out[j],
            out[i],
        ) by {
            if j < sorted.len() {
                assert(out[i] == sorted[i] && out[j] == sorted[j]);
            } else {
                assert(out[j] == x && out[i] == sorted[i]);
                if i < sorted.len() - 1 {
                    assert(!text_before(sorted[sorted.len() - 1], sorted[i]));
                    lemma_bytes_not_before_chain(
                        encode_utf8(x),
                        encode_utf8(sorted.last()),
                        encode_utf8(sorted[i]),
                    );
                }
            }
        }
    }
}

/// Sorting gives the texts of the list in sorted order: what comes out is
/// sorted and holds each text as often as the list holds it.
pub proof fn law_sort_texts_sorts(list: Seq<Seq<char>>)
    ensures
        in_order(sort_texts(list)),
        sort_texts(list).to_multiset() == list.to_multiset(),
        sort_texts(list).len() == list.len(),
    decreases list.len(),
{
    broadcast use vstd::seq_lib::group_to_multiset_ensures;

    if list.len() == 0 {
        assert(list =~= Seq::empty());
    } else {
        law_sort_texts_sorts(list.drop_last());
        lemma_insert_keeps_order(sort_texts(list.drop_last()), list.last());
        assert(list.drop_last().push(list.last()) =~= list);
    }
}

/// Two byte strings of which neither comes before the other are one.
pub proof fn lemma_bytes_same(a: Seq<u8>, b: Seq<u8>)
    requires
        !bytes_before(a, b),
        !bytes_before(b, a),
    ensures
        a == b,
    decreases a.len(),
{
    if a.len() == 0 || b.len() == 0 {
        assert(a =~= b);
    } else {
        lemma_bytes_same(a.drop_first(), b.drop_first());
        assert(a =~= seq![a[0]] + a.drop_first());
        assert(b =~= seq![b[0]] + b.drop_first());
    }
}

/// Whether text `a` does not sort behind text `b`.
pub open spec fn not_behind(a: Seq<char>, b: Seq<char>) -> bool {
    !text_before(b, a)
}

/// Sorting does not depend on the order in which the texts are given: two
/// lists that hold the same texts, each as often as the other, sort to the
/// same list.
pub proof fn law_sorting_ignores_order(a: Seq<Seq<char>>, b: Seq<Seq<char>>)
    requires
        a.to_multiset() == b.to_multiset(),
    ensures
        sort_texts(a) == sort_texts(b),
{
    law_sort_texts_sorts(a);
    law_sort_texts_sorts(b);
    let leq = |x: Seq<char>, y: Seq<char>| not_behind(x, y);
    assert forall|x: Seq<char>| #[trigger] leq(x, x) by {
        if text_before(x, x) {
            lemma_bytes_before_one_way(encode_utf8(x), encode_utf8(x));
        }
    }
    assert forall|x: Seq<char>, y: Seq<char>| #[trigger] leq(x, y) && #[trigger] leq(y, x) implies x
        == y by {
        lemma_bytes_same(encode_utf8(x), encode_utf8(y));
        vstd::utf8::encode_utf8_decode_utf8(x);
        vstd::utf8::encode_utf8_decode_utf8(y);
    }
    assert forall|x: Seq<char>, y: Seq<char>, z: Seq<char>| #[trigger]
        leq(x, y) && #[trigger] leq(y, z) implies leq(x, z) by {
        lemma_bytes_not_before_chain(encode_utf8(z), encode_utf8(y), encode_utf8(x));
    }
    assert forall|x: Seq<char>, y: Seq<char>| #[trigger] leq(x, y) || #[trigger] leq(y, x) by {
        if text_before(y, x) {
            lemma_bytes_before_one_way(encode_utf8(y), encode_utf8(x));
        }
    }
    assert(vstd::relations::total_ordering(leq));
    let x = sort_texts(a);
    let y = sort_texts(b);
    assert(vstd::relations::sorted_by(x, leq)) by {
        assert forall|i: int, j: int| 0 <= i < j < x.len() implies #[trigger] leq(x[i], x[j]) by {
            assert(!text_before(x[j], x[i]));
        }
    }
    assert(vstd::relations::sorted_by(y, leq)) by {
        assert forall|i: int, j: int| 0 <= i < j < y.len() implies #[trigger] leq(y[i], y[j]) by {
            assert(!text_before(y[j], y[i]));
        }
    }
    vstd::seq_lib::lemma_sorted_unique(x, y, leq);
}

/// Putting a text in at `j` is putting it in its place, where all that
/// stands from `j` on sorts behind it and what stands before `j` does not.
pub proof fn lemma_insert_at(sorted: Seq<Seq<char>>, x: Seq<char>, j: int)
    requires
        0 <= j <= sorted.len(),
        forall|k: int| j <= k < sorted.len() ==> text_before(x, sorted[k]),
        j > 0 ==> !text_before(x, sorted[j - 1]),
    ensures
        insert_text(sorted, x) == sorted.insert(j, x),
    decreases sorted.len(),
{
    if sorted.len() == 0 {
        assert(sorted.insert(j, x) =~= seq![x]);
    } else if j == sorted.len() {
        assert(sorted.insert(j, x) =~= sorted.push(x));
    } else {
        lemma_insert_at(sorted.drop_last(), x, j);
        assert(sorted.insert(j, x) =~= sorted.drop_last().insert(j, x).push(sorted.last()));
    }
}

/// Whether `a` comes before `b` in the order of byte strings.
pub fn bytes_less(a: &[u8], b: &[u8]) -> (r: bool)
    ensures
        r == bytes_before(a@, b@),
{
    let mut i: usize = 0;
    assert(a@.skip(0) =~= a@ && b@.skip(0) =~= b@);
    while i < a.len() && i < b.len()
        invariant
            i <= a.len(),
            i <= b.len(),
            bytes_before(a@, b@) == bytes_before(a@.skip(i as int), b@.skip(i as int)),
        decreases a.len() - i,
    {
        let ghost ra = a@.skip(i as int);
        let ghost rb = b@.skip(i as int);
        assert(ra[0] == a@[i as int] && rb[0] == b@[i as int]);
        assert(ra.drop_first() =~= a@.skip(i + 1));
        assert(rb.drop_first() =~= b@.skip(i + 1));
        if a[i] != b[i] {
            return a[i] < b[i];
        }
        i += 1;
    }
    assert(a@.skip(i as int).len() == a.len() - i);
    assert(b@.skip(i as int).len() == b.len() - i);
    i < b.len()
}

/// Whether text `a` sorts before text `b`.
pub fn text_less(a: &str, b: &str) -> (r: bool)
    ensures
        r == text_before(a@, b@),
{
    bytes_less(a.as_bytes(), b.as_bytes())
}

/// The texts of a list in sorted order.
pub fn sorted_texts(list: &Vec<String>) -> (r: Vec<String>)
    ensures
        r.deep_view() == sort_texts(list.deep_view()),
{
    let mut out: Vec<String> = Vec::new();
    let mut i: usize = 0;
    assert(list.deep_view().take(0) =~= Seq::<Seq<char>>::empty());
    assert(out.deep_view() =~= Seq::<Seq<char>>::empty());
    while i < list.len()
        invariant
            i <= list.len(),
            out.len() == i,
            out.deep_view() == sort_texts(list.deep_view().take(i as int)),
        decreases list.len() - i,
    {
        let ghost before = out.deep_view();
        let ghost upto = list.deep_view().take(i + 1);
        assert(upto.drop_last() =~= list.deep_view().take(i as int));
        assert(upto.last() == list[i as int]@);
        let mut j: usize = out.len();
        while j > 0 && text_less(list[i].as_str(), out[j - 1].as_str())
            invariant
                j <= out.len(),
                i < list.len(),
                out.deep_view() == before,
                forall|k: int| j <= k < out.len() ==> text_before(list[i as int]@, out[k]@),
            decreases j,
        {
            j -= 1;
        }
        proof {
            assert forall|k: int| j <= k < before.len() implies text_before(
                list[i as int]@,
                before[k],
            ) by {
                assert(before[k] == out[k]@);
            }
            if j > 0 {
                assert(before[j - 1] == out[j - 1]@);
            }
            lemma_insert_at(before, list[i as int]@, j as int);
        }
        out.insert(j, list[i].clone());
        assert(out.deep_view() =~= before.insert(j as int, list[i as int]@));
        i += 1;
    }
    assert(list.deep_view().take(list.len() as int) =~= list.deep_view());
    out
}

/// The texts of a list, one after the other, with `sep` between them.
pub fn joined_texts(list: &Vec<String>, sep: &str) -> (r: String)
    ensures
        r@ == join_texts(list.deep_view(), sep@),
{
    let mut out = String::new();
    let mut i: usize = 0;
    assert(list.deep_view().take(0) =~= Seq::<Seq<char>>::empty());
    while i < list.len()
        invariant
            i <= list.len(),
            out@ == join_texts(list.deep_view().take(i as int), sep@),
        decreases list.len() - i,
    {
        let ghost upto = list.deep_view().take(i + 1);
        assert(upto.drop_last() =~= list.deep_view().take(i as int));
        assert(upto.last() == list[i as int]@);
        if i > 0 {
            out.append(sep);
        } else {
            assert(upto[0] == list[0]@);
            assert(out@ + list[0]@ =~= list[0]@);
        }
        out.append(list[i].as_str());
        i += 1;
    }
    assert(list.deep_view().take(list.len() as int) =~= list.deep_view());
    out
}

} // verus!
