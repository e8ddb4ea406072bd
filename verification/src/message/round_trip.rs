//! What is written as a plaintext reads back as the same message.

use crate::json::{member, JsonValue};
use crate::message::attachment::{AttachmentDataView, AttachmentView};
use crate::message::codec::{
    attachment_json, attachment_of, attachments_json, attachments_member, attachments_of,
    attachment_members, collapse, custom_members, data_json, data_members, data_of, message_json, message_members, message_of,
    number_json, optional_member, optional_number, optional_text, recipients_member, reserved,
    text_json, texts_json, texts_of, unique_names,
};
use crate::message::MessageView;
use crate::ordered::{
    insert_member, lemma_in_order_sorted, lemma_insert_place, lemma_member_insert_at,
    lemma_not_before_earlier, lemma_sorted_is_ordered, lemma_sorted_lookup,
    lemma_sorted_within, sort_members,
    weakly_ordered,
};
use crate::utils::text_before;
use vstd::prelude::*;

verus! {

/// Whether none of the members has a reserved name.
pub open spec fn no_reserved(members: Seq<(Seq<char>, JsonValue)>) -> bool {
    forall|i: int| 0 <= i < members.len() ==> !reserved(#[trigger] members[i].0)
}

/// Whether an attachment keeps the rules of its data: data by reference
/// names one place at least.
pub open spec fn attachment_well_formed(a: AttachmentView) -> bool {
    match a.data {
        AttachmentDataView::Links { links, .. } => links.len() > 0,
        _ => true,
    }
}

impl MessageView {
    /// Whether the message keeps the rules of a message: each recipient
    /// stands once, the custom headers have names of their own and stand in
    /// the order of their names, each name once, and every attachment keeps
    /// the rules of its data.
    pub open spec fn well_formed(self) -> bool {
        &&& unique_names(self.extra_headers)
        &&& weakly_ordered(self.extra_headers)
        &&& no_reserved(self.extra_headers)
        &&& match self.to {
            Some(list) => list.no_duplicates(),
            None => true,
        }
        &&& match self.attachments {
            Some(list) => forall|i: int|
                0 <= i < list.len() ==> attachment_well_formed(#[trigger] list[i]),
            None => true,
        }
    }
}

/// Looking a name up in two lists of members, one after the other, is
/// looking it up in the first and, where it is not there, in the second.
pub proof fn lemma_member_concat(
    a: Seq<(Seq<char>, JsonValue)>,
    b: Seq<(Seq<char>, JsonValue)>,
    key: Seq<char>,
)
    ensures
        member(a + b, key) == match member(a, key) {
            Some(v) => Some(v),
            None => member(b, key),
        },
    decreases a.len(),
{
    if a.len() == 0 {
        assert(a + b =~= b);
    } else {
        assert((a + b)[0] == a[0]);
        assert((a + b).drop_first() =~= a.drop_first() + b);
        lemma_member_concat(a.drop_first(), b, key);
    }
}

/// Looking a name up in one member.
pub proof fn lemma_member_one(name: Seq<char>, value: JsonValue, key: Seq<char>)
    ensures
        member(seq![(name, value)], key) == if name == key {
            Some(value)
        } else {
            None
        },
{
    let s = seq![(name, value)];
    assert(s[0] == (name, value));
    assert(s.drop_first() =~= Seq::empty());
    assert(member(s.drop_first(), key) is None);
}

/// Looking a name up in a member that may be missing.
pub proof fn lemma_member_optional(name: Seq<char>, value: Option<JsonValue>, key: Seq<char>)
    ensures
        member(optional_member(name, value), key) == if name == key {
            value
        } else {
            None
        },
{
    match value {
        Some(v) => lemma_member_one(name, v, key),
        None => {},
    }
}

/// A name that none of the members has is not found.
pub proof fn lemma_member_absent(members: Seq<(Seq<char>, JsonValue)>, key: Seq<char>)
    requires
        forall|i: int| 0 <= i < members.len() ==> (#[trigger] members[i]).0 != key,
    ensures
        member(members, key) is None,
    decreases members.len(),
{
    if members.len() > 0 {
        assert(members[0].0 != key);
        assert forall|i: int| 0 <= i < members.drop_first().len() implies (
        #[trigger] members.drop_first()[i]).0 != key by {
            assert(members.drop_first()[i] == members[i + 1]);
        }
        lemma_member_absent(members.drop_first(), key);
    }
}

/// The custom members of two lists, one after the other, are those of the
/// first and then those of the second.
pub proof fn lemma_custom_concat(a: Seq<(Seq<char>, JsonValue)>, b: Seq<(Seq<char>, JsonValue)>)
    ensures
        custom_members(a + b) == custom_members(a) + custom_members(b),
    decreases b.len(),
{
    if b.len() == 0 {
        assert(a + b =~= a);
        assert(custom_members(a) + custom_members(b) =~= custom_members(a));
    } else {
        assert((a + b).last() == b.last());
        assert((a + b).drop_last() =~= a + b.drop_last());
        lemma_custom_concat(a, b.drop_last());
        if reserved(b.last().0) {
        } else {
            assert((custom_members(a) + custom_members(b.drop_last())).push(b.last())
                =~= custom_members(a) + custom_members(b.drop_last()).push(b.last()));
        }
    }
}

/// Members without a reserved name are all custom.
pub proof fn lemma_custom_all(members: Seq<(Seq<char>, JsonValue)>)
    requires
        no_reserved(members),
    ensures
        custom_members(members) == members,
    decreases members.len(),
{
    if members.len() > 0 {
        assert(!reserved(members[members.len() - 1].0));
        assert forall|i: int| 0 <= i < members.drop_last().len() implies !reserved(
            #[trigger] members.drop_last()[i].0,
        ) by {
            assert(members.drop_last()[i] == members[i]);
        }
        lemma_custom_all(members.drop_last());
        assert(members.drop_last().push(members.last()) =~= members);
    }
}

/// A member with a reserved name, where it is there, is not custom.
pub proof fn lemma_custom_optional(name: Seq<char>, value: Option<JsonValue>)
    requires
        reserved(name),
    ensures
        custom_members(optional_member(name, value)) == Seq::<(Seq<char>, JsonValue)>::empty(),
{
    match value {
        Some(v) => {
            let s = seq![(name, v)];
            assert(s.len() == 1);
            assert(s.last() == (name, v));
            assert(s.drop_last() =~= Seq::empty());
            assert(custom_members(s.drop_last()) =~= Seq::empty());
            assert(custom_members(s) == custom_members(s.drop_last()));
        },
        None => {},
    }
}

/// A list of texts, written as JSON, reads back as the same list.
pub proof fn lemma_texts_round_trip(list: Seq<Seq<char>>)
    ensures
        texts_of(texts_json(list)->Array_0) == Some(list),
    decreases list.len(),
{
    let items = texts_json(list)->Array_0;
    if list.len() == 0 {
        assert(list =~= Seq::empty());
    } else {
        lemma_texts_round_trip(list.drop_last());
        assert(items.drop_last() =~= texts_json(list.drop_last())->Array_0);
        assert(items.last() == JsonValue::Str(list.last()));
        assert(list.drop_last().push(list.last()) =~= list);
    }
}

/// Collapsing makes a set of a list: each text of the list stands in what
/// comes out, once, and nothing else does.
pub proof fn law_collapse_is_a_set(list: Seq<Seq<char>>)
    ensures
        collapse(list).no_duplicates(),
        forall|text: Seq<char>| collapse(list).contains(text) <==> list.contains(text),
    decreases list.len(),
{
    if list.len() > 0 {
        let before = list.drop_last();
        let last = list.last();
        law_collapse_is_a_set(before);
        let inner = collapse(before);
        let out = collapse(list);
        assert forall|text: Seq<char>| out.contains(text) <==> list.contains(text) by {
            if list.contains(text) {
                let i = choose|i: int| 0 <= i < list.len() && list[i] == text;
                if i < before.len() {
                    assert(before[i] == text);
                    assert(before.contains(text));
                    assert(inner.contains(text));
                    let k = choose|k: int| 0 <= k < inner.len() && inner[k] == text;
                    assert(out[k] == text);
                } else {
                    assert(text == last);
                    if !inner.contains(last) {
                        assert(out[out.len() - 1] == last);
                    }
                }
            }
            if out.contains(text) {
                let k = choose|k: int| 0 <= k < out.len() && out[k] == text;
                if k < inner.len() {
                    assert(inner[k] == text);
                    assert(inner.contains(text));
                    assert(before.contains(text));
                    let i = choose|i: int| 0 <= i < before.len() && before[i] == text;
                    assert(list[i] == text);
                } else {
                    assert(text == last);
                    assert(list[list.len() - 1] == last);
                }
            }
        }
        if !inner.contains(last) {
            assert forall|i: int, j: int|
                0 <= i < out.len() && 0 <= j < out.len() && i != j implies out[i] != out[j] by {
                if i < inner.len() && j < inner.len() {
                    assert(out[i] == inner[i] && out[j] == inner[j]);
                } else if i < inner.len() {
                    assert(inner[i] == out[i]);
                } else {
                    assert(inner[j] == out[j]);
                }
            }
        }
    }
}

/// Collapsing a list in which each text stands once changes nothing.
pub proof fn lemma_collapse_distinct(list: Seq<Seq<char>>)
    requires
        list.no_duplicates(),
    ensures
        collapse(list) == list,
    decreases list.len(),
{
    if list.len() > 0 {
        let before = list.drop_last();
        assert(before.no_duplicates()) by {
            assert forall|i: int, j: int|
                0 <= i < before.len() && 0 <= j < before.len() && i != j implies before[i]
                != before[j] by {
                assert(before[i] == list[i] && before[j] == list[j]);
            }
        }
        lemma_collapse_distinct(before);
        assert(!before.contains(list.last())) by {
            if before.contains(list.last()) {
                let i = choose|i: int| 0 <= i < before.len() && before[i] == list.last();
                assert(list[i] == list[list.len() - 1]);
            }
        }
        assert(before.push(list.last()) =~= list);
    }
}

/// An optional text, written as a member, reads back as the same.
pub proof fn lemma_optional_text(
    members: Seq<(Seq<char>, JsonValue)>,
    key: Seq<char>,
    text: Option<Seq<char>>,
)
    requires
        member(members, key) == text_json(text),
    ensures
        optional_text(JsonValue::Object(members), key) == Some(text),
{
}

/// An optional number, written as a member, reads back as the same.
pub proof fn lemma_optional_number(
    members: Seq<(Seq<char>, JsonValue)>,
    key: Seq<char>,
    number: Option<u64>,
)
    requires
        member(members, key) == number_json(number),
    ensures
        optional_number(JsonValue::Object(members), key) == Some(number),
{
}

/// Attachment data, written as JSON, reads back as the same data.
pub proof fn lemma_data_round_trip(d: AttachmentDataView)
    requires
        d is Links ==> d->links.len() > 0,
    ensures
        data_of(data_json(d)) == Some(d),
{
    reveal_strlit("base64");
    reveal_strlit("json");
    reveal_strlit("links");
    reveal_strlit("hash");
    reveal_strlit("jws");
    assert("base64"@.len() == 6 && "links"@.len() == 5 && "jws"@.len() == 3);
    assert("json"@[0] == 'j' && "hash"@[0] == 'h');
    let members = data_json(d)->Object_0;
    let written = data_members(d);
    lemma_sorted_lookup(written, "base64"@);
    lemma_sorted_lookup(written, "json"@);
    lemma_sorted_lookup(written, "links"@);
    lemma_sorted_lookup(written, "hash"@);
    lemma_sorted_lookup(written, "jws"@);
    match d {
        AttachmentDataView::Base64 { base64, jws } => {
            let first = seq![("base64"@, JsonValue::Str(base64))];
            let rest = optional_member("jws"@, text_json(jws));
            assert(written == first + rest);
            lemma_member_concat(first, rest, "jws"@);
            lemma_member_concat(first, rest, "base64"@);
            lemma_member_concat(first, rest, "json"@);
            lemma_member_concat(first, rest, "links"@);
            lemma_member_one("base64"@, JsonValue::Str(base64), "jws"@);
            lemma_member_one("base64"@, JsonValue::Str(base64), "base64"@);
            lemma_member_one("base64"@, JsonValue::Str(base64), "json"@);
            lemma_member_one("base64"@, JsonValue::Str(base64), "links"@);
            lemma_member_optional("jws"@, text_json(jws), "jws"@);
            lemma_member_optional("jws"@, text_json(jws), "json"@);
            lemma_member_optional("jws"@, text_json(jws), "links"@);
            lemma_optional_text(members, "jws"@, jws);
        },
        AttachmentDataView::Json { json, jws } => {
            let first = seq![("json"@, json)];
            let rest = optional_member("jws"@, text_json(jws));
            assert(written == first + rest);
            lemma_member_concat(first, rest, "jws"@);
            lemma_member_concat(first, rest, "base64"@);
            lemma_member_concat(first, rest, "json"@);
            lemma_member_concat(first, rest, "links"@);
            lemma_member_one("json"@, json, "jws"@);
            lemma_member_one("json"@, json, "base64"@);
            lemma_member_one("json"@, json, "json"@);
            lemma_member_one("json"@, json, "links"@);
            lemma_member_optional("jws"@, text_json(jws), "jws"@);
            lemma_member_optional("jws"@, text_json(jws), "base64"@);
            lemma_member_optional("jws"@, text_json(jws), "links"@);
            lemma_optional_text(members, "jws"@, jws);
        },
        AttachmentDataView::Links { links, hash, jws } => {
            let one = seq![("links"@, texts_json(links))];
            let two = seq![("hash"@, JsonValue::Str(hash))];
            let rest = optional_member("jws"@, text_json(jws));
            assert(written =~= (one + two) + rest);
            lemma_member_concat(one + two, rest, "jws"@);
            lemma_member_concat(one + two, rest, "base64"@);
            lemma_member_concat(one + two, rest, "json"@);
            lemma_member_concat(one + two, rest, "links"@);
            lemma_member_concat(one + two, rest, "hash"@);
            lemma_member_concat(one, two, "jws"@);
            lemma_member_concat(one, two, "base64"@);
            lemma_member_concat(one, two, "json"@);
            lemma_member_concat(one, two, "links"@);
            lemma_member_concat(one, two, "hash"@);
            lemma_member_one("links"@, texts_json(links), "jws"@);
            lemma_member_one("links"@, texts_json(links), "base64"@);
            lemma_member_one("links"@, texts_json(links), "json"@);
            lemma_member_one("links"@, texts_json(links), "links"@);
            lemma_member_one("links"@, texts_json(links), "hash"@);
            lemma_member_one("hash"@, JsonValue::Str(hash), "jws"@);
            lemma_member_one("hash"@, JsonValue::Str(hash), "base64"@);
            lemma_member_one("hash"@, JsonValue::Str(hash), "json"@);
            lemma_member_one("hash"@, JsonValue::Str(hash), "hash"@);
            lemma_member_optional("jws"@, text_json(jws), "jws"@);
            lemma_member_optional("jws"@, text_json(jws), "base64"@);
            lemma_member_optional("jws"@, text_json(jws), "json"@);
            lemma_optional_text(members, "jws"@, jws);
            lemma_texts_round_trip(links);
        },
    }
}

/// The first of two optional values that is there.
pub open spec fn or_else(first: Option<JsonValue>, second: Option<JsonValue>) -> Option<JsonValue> {
    match first {
        Some(v) => Some(v),
        None => second,
    }
}

/// The value of a member that may be missing, where `key` is its name.
pub open spec fn named(name: Seq<char>, value: Option<JsonValue>, key: Seq<char>) -> Option<
    JsonValue,
> {
    if name == key {
        value
    } else {
        None
    }
}

/// Looking a name up in an attachment that was written as JSON: the first
/// member of that name, in the order in which the members are written.
pub proof fn lemma_attachment_lookup(a: AttachmentView, key: Seq<char>)
    ensures
        member(attachment_json(a)->Object_0, key) == or_else(
            named("data"@, Some(data_json(a.data)), key),
            or_else(
                named("id"@, Some(JsonValue::Str(a.id)), key),
                or_else(
                    named("description"@, text_json(a.description), key),
                    or_else(
                        named("filename"@, text_json(a.filename), key),
                        or_else(
                            named("media_type"@, text_json(a.media_type), key),
                            or_else(
                                named("format"@, text_json(a.format), key),
                                or_else(
                                    named("lastmod_time"@, number_json(a.lastmod_time), key),
                                    named("byte_count"@, number_json(a.byte_count), key),
                                ),
                            ),
                        ),
                    ),
                ),
            ),
        ),
{
    let part0 = seq![("data"@, data_json(a.data))];
    let part1 = seq![("id"@, JsonValue::Str(a.id))];
    let part2 = optional_member("description"@, text_json(a.description));
    let part3 = optional_member("filename"@, text_json(a.filename));
    let part4 = optional_member("media_type"@, text_json(a.media_type));
    let part5 = optional_member("format"@, text_json(a.format));
    let part6 = optional_member("lastmod_time"@, number_json(a.lastmod_time));
    let part7 = optional_member("byte_count"@, number_json(a.byte_count));
    assert(seq![("data"@, data_json(a.data)), ("id"@, JsonValue::Str(a.id))] =~= part0 + part1);
    assert(attachment_members(a) == part0 + part1 + part2 + part3 + part4 + part5 + part6 + part7);
    lemma_sorted_lookup(attachment_members(a), key);
    lemma_member_concat(part0 + part1 + part2 + part3 + part4 + part5 + part6, part7, key);
    lemma_member_concat(part0 + part1 + part2 + part3 + part4 + part5, part6, key);
    lemma_member_concat(part0 + part1 + part2 + part3 + part4, part5, key);
    lemma_member_concat(part0 + part1 + part2 + part3, part4, key);
    lemma_member_concat(part0 + part1 + part2, part3, key);
    lemma_member_concat(part0 + part1, part2, key);
    lemma_member_concat(part0, part1, key);
    lemma_member_one("data"@, data_json(a.data), key);
    lemma_member_one("id"@, JsonValue::Str(a.id), key);
    lemma_member_optional("description"@, text_json(a.description), key);
    lemma_member_optional("filename"@, text_json(a.filename), key);
    lemma_member_optional("media_type"@, text_json(a.media_type), key);
    lemma_member_optional("format"@, text_json(a.format), key);
    lemma_member_optional("lastmod_time"@, number_json(a.lastmod_time), key);
    lemma_member_optional("byte_count"@, number_json(a.byte_count), key);
}

/// An attachment, written as JSON, reads back as the same attachment.
pub proof fn lemma_attachment_round_trip(a: AttachmentView)
    requires
        attachment_well_formed(a),
    ensures
        attachment_of(attachment_json(a)) == Some(a),
{
    reveal_strlit("data");
    reveal_strlit("id");
    reveal_strlit("description");
    reveal_strlit("filename");
    reveal_strlit("media_type");
    reveal_strlit("format");
    reveal_strlit("lastmod_time");
    reveal_strlit("byte_count");
    assert("data"@.len() == 4 && "id"@.len() == 2 && "description"@.len() == 11);
    assert("filename"@.len() == 8 && "media_type"@.len() == 10 && "format"@.len() == 6);
    assert("lastmod_time"@.len() == 12 && "byte_count"@.len() == 10);
    assert("media_type"@[0] == 'm' && "byte_count"@[0] == 'b');
    let members = attachment_json(a)->Object_0;
    lemma_attachment_lookup(a, "data"@);
    lemma_attachment_lookup(a, "id"@);
    lemma_attachment_lookup(a, "description"@);
    lemma_attachment_lookup(a, "filename"@);
    lemma_attachment_lookup(a, "media_type"@);
    lemma_attachment_lookup(a, "format"@);
    lemma_attachment_lookup(a, "lastmod_time"@);
    lemma_attachment_lookup(a, "byte_count"@);
    lemma_optional_text(members, "description"@, a.description);
    lemma_optional_text(members, "filename"@, a.filename);
    lemma_optional_text(members, "media_type"@, a.media_type);
    lemma_optional_text(members, "format"@, a.format);
    lemma_optional_number(members, "lastmod_time"@, a.lastmod_time);
    lemma_optional_number(members, "byte_count"@, a.byte_count);
    lemma_data_round_trip(a.data);
}

/// A list of attachments, written as JSON, reads back as the same list.
pub proof fn lemma_attachments_round_trip(list: Seq<AttachmentView>)
    requires
        forall|i: int| 0 <= i < list.len() ==> attachment_well_formed(#[trigger] list[i]),
    ensures
        attachments_of(attachments_json(list)->Array_0) == Some(list),
    decreases list.len(),
{
    let items = attachments_json(list)->Array_0;
    if list.len() == 0 {
        assert(list =~= Seq::empty());
    } else {
        assert forall|i: int| 0 <= i < list.drop_last().len() implies attachment_well_formed(
            #[trigger] list.drop_last()[i],
        ) by {
            assert(list.drop_last()[i] == list[i]);
        }
        lemma_attachments_round_trip(list.drop_last());
        assert(items.drop_last() =~= attachments_json(list.drop_last())->Array_0);
        assert(items.last() == attachment_json(list.last()));
        assert(attachment_well_formed(list[list.len() - 1]));
        lemma_attachment_round_trip(list.last());
        assert(list.drop_last().push(list.last()) =~= list);
    }
}

/// The recipients of a message as a member.
pub open spec fn recipients_json(to: Option<Seq<Seq<char>>>) -> Option<JsonValue> {
    match to {
        Some(list) => Some(texts_json(list)),
        None => None,
    }
}

/// The attachments of a message as a member.
pub open spec fn attachments_as_member(attachments: Option<Seq<AttachmentView>>) -> Option<
    JsonValue,
> {
    match attachments {
        Some(list) => Some(attachments_json(list)),
        None => None,
    }
}

/// Looking a name up in a message that was written as JSON: the first
/// member of that name, in the order in which the members are written.
pub proof fn lemma_message_lookup(m: MessageView, key: Seq<char>)
    ensures
        member(message_json(m)->Object_0, key) == or_else(
            named("id"@, Some(JsonValue::Str(m.id)), key),
            or_else(
                named("typ"@, Some(JsonValue::Str(m.typ)), key),
                or_else(
                    named("type"@, Some(JsonValue::Str(m.type_)), key),
                    or_else(
                        named("body"@, Some(m.body), key),
                        or_else(
                            named("from"@, text_json(m.from), key),
                            or_else(
                                named("to"@, recipients_json(m.to), key),
                                or_else(
                                    named("thid"@, text_json(m.thid), key),
                                    or_else(
                                        named("pthid"@, text_json(m.pthid), key),
                                        or_else(
                                            named(
                                                "created_time"@,
                                                number_json(m.created_time),
                                                key,
                                            ),
                                            or_else(
                                                named(
                                                    "expires_time"@,
                                                    number_json(m.expires_time),
                                                    key,
                                                ),
                                                or_else(
                                                    named(
                                                        "from_prior"@,
                                                        text_json(m.from_prior),
                                                        key,
                                                    ),
                                                    or_else(
                                                        named(
                                                            "attachments"@,
                                                            attachments_as_member(m.attachments),
                                                            key,
                                                        ),
                                                        member(m.extra_headers, key),
                                                    ),
                                                ),
                                            ),
                                        ),
                                    ),
                                ),
                            ),
                        ),
                    ),
                ),
            ),
        ),
{
    let part0 = seq![("id"@, JsonValue::Str(m.id))];
    let part1 = seq![("typ"@, JsonValue::Str(m.typ))];
    let part2 = seq![("type"@, JsonValue::Str(m.type_))];
    let part3 = seq![("body"@, m.body)];
    let part4 = optional_member("from"@, text_json(m.from));
    let part5 = optional_member("to"@, recipients_json(m.to));
    let part6 = optional_member("thid"@, text_json(m.thid));
    let part7 = optional_member("pthid"@, text_json(m.pthid));
    let part8 = optional_member("created_time"@, number_json(m.created_time));
    let part9 = optional_member("expires_time"@, number_json(m.expires_time));
    let part10 = optional_member("from_prior"@, text_json(m.from_prior));
    let part11 = optional_member("attachments"@, attachments_as_member(m.attachments));
    let part12 = m.extra_headers;
    assert(seq![
        ("id"@, JsonValue::Str(m.id)),
        ("typ"@, JsonValue::Str(m.typ)),
        ("type"@, JsonValue::Str(m.type_)),
        ("body"@, m.body),
    ] =~= part0 + part1 + part2 + part3);
    assert(message_members(m) == part0 + part1 + part2 + part3 + part4 + part5 + part6 + part7 + part8 + part9 + part10 + part11
        + part12);
    lemma_sorted_lookup(message_members(m), key);
    lemma_member_concat(part0 + part1 + part2 + part3 + part4 + part5 + part6 + part7 + part8 + part9 + part10 + part11, part12, key);
    lemma_member_concat(part0 + part1 + part2 + part3 + part4 + part5 + part6 + part7 + part8 + part9 + part10, part11, key);
    lemma_member_concat(part0 + part1 + part2 + part3 + part4 + part5 + part6 + part7 + part8 + part9, part10, key);
    lemma_member_concat(part0 + part1 + part2 + part3 + part4 + part5 + part6 + part7 + part8, part9, key);
    lemma_member_concat(part0 + part1 + part2 + part3 + part4 + part5 + part6 + part7, part8, key);
    lemma_member_concat(part0 + part1 + part2 + part3 + part4 + part5 + part6, part7, key);
    lemma_member_concat(part0 + part1 + part2 + part3 + part4 + part5, part6, key);
    lemma_member_concat(part0 + part1 + part2 + part3 + part4, part5, key);
    lemma_member_concat(part0 + part1 + part2 + part3, part4, key);
    lemma_member_concat(part0 + part1 + part2, part3, key);
    lemma_member_concat(part0 + part1, part2, key);
    lemma_member_concat(part0, part1, key);
    lemma_member_one("id"@, JsonValue::Str(m.id), key);
    lemma_member_one("typ"@, JsonValue::Str(m.typ), key);
    lemma_member_one("type"@, JsonValue::Str(m.type_), key);
    lemma_member_one("body"@, m.body, key);
    lemma_member_optional("from"@, text_json(m.from), key);
    lemma_member_optional("to"@, recipients_json(m.to), key);
    lemma_member_optional("thid"@, text_json(m.thid), key);
    lemma_member_optional("pthid"@, text_json(m.pthid), key);
    lemma_member_optional("created_time"@, number_json(m.created_time), key);
    lemma_member_optional("expires_time"@, number_json(m.expires_time), key);
    lemma_member_optional("from_prior"@, text_json(m.from_prior), key);
    lemma_member_optional("attachments"@, attachments_as_member(m.attachments), key);
}

/// The custom members of a message that was written as JSON are its custom
/// headers.
pub proof fn lemma_message_custom(m: MessageView)
    requires
        no_reserved(m.extra_headers),
        weakly_ordered(m.extra_headers),
    ensures
        custom_members(message_json(m)->Object_0) == m.extra_headers,
{
    lemma_sorted_custom(message_members(m));
    lemma_in_order_sorted(m.extra_headers);
    let part0 = seq![("id"@, JsonValue::Str(m.id))];
    let part1 = seq![("typ"@, JsonValue::Str(m.typ))];
    let part2 = seq![("type"@, JsonValue::Str(m.type_))];
    let part3 = seq![("body"@, m.body)];
    let part4 = optional_member("from"@, text_json(m.from));
    let part5 = optional_member("to"@, recipients_json(m.to));
    let part6 = optional_member("thid"@, text_json(m.thid));
    let part7 = optional_member("pthid"@, text_json(m.pthid));
    let part8 = optional_member("created_time"@, number_json(m.created_time));
    let part9 = optional_member("expires_time"@, number_json(m.expires_time));
    let part10 = optional_member("from_prior"@, text_json(m.from_prior));
    let part11 = optional_member("attachments"@, attachments_as_member(m.attachments));
    let part12 = m.extra_headers;
    assert(seq![
        ("id"@, JsonValue::Str(m.id)),
        ("typ"@, JsonValue::Str(m.typ)),
        ("type"@, JsonValue::Str(m.type_)),
        ("body"@, m.body),
    ] =~= part0 + part1 + part2 + part3);
    assert(message_members(m) == part0 + part1 + part2 + part3 + part4 + part5 + part6 + part7 + part8 + part9 + part10 + part11
        + part12);
    lemma_custom_concat(part0 + part1 + part2 + part3 + part4 + part5 + part6 + part7 + part8 + part9 + part10 + part11, part12);
    lemma_custom_concat(part0 + part1 + part2 + part3 + part4 + part5 + part6 + part7 + part8 + part9 + part10, part11);
    lemma_custom_concat(part0 + part1 + part2 + part3 + part4 + part5 + part6 + part7 + part8 + part9, part10);
    lemma_custom_concat(part0 + part1 + part2 + part3 + part4 + part5 + part6 + part7 + part8, part9);
    lemma_custom_concat(part0 + part1 + part2 + part3 + part4 + part5 + part6 + part7, part8);
    lemma_custom_concat(part0 + part1 + part2 + part3 + part4 + part5 + part6, part7);
    lemma_custom_concat(part0 + part1 + part2 + part3 + part4 + part5, part6);
    lemma_custom_concat(part0 + part1 + part2 + part3 + part4, part5);
    lemma_custom_concat(part0 + part1 + part2 + part3, part4);
    lemma_custom_concat(part0 + part1 + part2, part3);
    lemma_custom_concat(part0 + part1, part2);
    lemma_custom_concat(part0, part1);
    lemma_custom_optional("id"@, Some(JsonValue::Str(m.id)));
    lemma_custom_optional("typ"@, Some(JsonValue::Str(m.typ)));
    lemma_custom_optional("type"@, Some(JsonValue::Str(m.type_)));
    lemma_custom_optional("body"@, Some(m.body));
    lemma_custom_optional("from"@, text_json(m.from));
    lemma_custom_optional("to"@, recipients_json(m.to));
    lemma_custom_optional("thid"@, text_json(m.thid));
    lemma_custom_optional("pthid"@, text_json(m.pthid));
    lemma_custom_optional("created_time"@, number_json(m.created_time));
    lemma_custom_optional("expires_time"@, number_json(m.expires_time));
    lemma_custom_optional("from_prior"@, text_json(m.from_prior));
    lemma_custom_optional("attachments"@, attachments_as_member(m.attachments));
    lemma_custom_all(part12);
    let e = Seq::<(Seq<char>, JsonValue)>::empty();
    assert(e + e =~= e);
    assert(e + part12 =~= part12);
}

/// A custom member of a list is a member of the list.
pub proof fn lemma_custom_within(members: Seq<(Seq<char>, JsonValue)>, i: int) -> (k: int)
    requires
        0 <= i < custom_members(members).len(),
    ensures
        0 <= k < members.len(),
        members[k] == custom_members(members)[i],
    decreases members.len(),
{
    let rest = members.drop_last();
    if reserved(members.last().0) || i < custom_members(rest).len() {
        let k = lemma_custom_within(rest, i);
        assert(rest[k] == members[k]);
        k
    } else {
        members.len() - 1
    }
}

/// The custom members of an ordered list with one more member put in its
/// place are those of the list, with the member put in its place where it
/// is a custom one.
pub proof fn lemma_insert_custom(sorted: Seq<(Seq<char>, JsonValue)>, x: (Seq<char>, JsonValue))
    requires
        weakly_ordered(sorted),
    ensures
        custom_members(insert_member(sorted, x)) == if reserved(x.0) {
            custom_members(sorted)
        } else {
            insert_member(custom_members(sorted), x)
        },
{
    let j = lemma_insert_place(sorted, x);
    let a = sorted.take(j);
    let b = sorted.skip(j);
    let one = seq![x];
    assert(sorted =~= a + b);
    assert(sorted.insert(j, x) =~= (a + one) + b);
    lemma_custom_concat(a + one, b);
    lemma_custom_concat(a, one);
    lemma_custom_concat(a, b);
    assert(one.drop_last() =~= Seq::empty());
    assert(custom_members(one.drop_last()) =~= Seq::empty());
    assert(one.last() == x);
    let ca = custom_members(a);
    let cb = custom_members(b);
    if reserved(x.0) {
        assert(custom_members(one) =~= Seq::empty());
        assert(ca + custom_members(one) =~= ca);
    } else {
        assert(custom_members(one) =~= one);
        let c = ca + cb;
        let at = ca.len() as int;
        assert forall|k: int| at <= k < c.len() implies text_before(x.0, (#[trigger] c[k]).0) by {
            let n = lemma_custom_within(b, k - at);
            assert(c[k] == cb[k - at]);
            assert(b[n] == sorted[j + n]);
        }
        if at > 0 {
            let n = lemma_custom_within(a, at - 1);
            assert(c[at - 1] == ca[at - 1]);
            assert(a[n] == sorted[n]);
            lemma_not_before_earlier(sorted, x, j, n);
        }
        lemma_member_insert_at(c, x, at);
        assert(c.insert(at, x) =~= (ca + one) + cb);
    }
}

/// The custom members of sorted members are the custom members, sorted.
pub proof fn lemma_sorted_custom(list: Seq<(Seq<char>, JsonValue)>)
    ensures
        custom_members(sort_members(list)) == sort_members(custom_members(list)),
    decreases list.len(),
{
    if list.len() > 0 {
        let rest = list.drop_last();
        let x = list.last();
        lemma_sorted_custom(rest);
        lemma_sorted_is_ordered(rest);
        lemma_insert_custom(sort_members(rest), x);
        if !reserved(x.0) {
            let kept = custom_members(rest).push(x);
            assert(kept.drop_last() =~= custom_members(rest));
            assert(kept.last() == x);
        }
    }
}

/// None of the custom members of a list has a reserved name.
pub proof fn lemma_custom_unreserved(members: Seq<(Seq<char>, JsonValue)>)
    ensures
        no_reserved(custom_members(members)),
    decreases members.len(),
{
    if members.len() > 0 {
        lemma_custom_unreserved(members.drop_last());
    }
}

/// The attachments that are read keep the rules of their data.
pub proof fn lemma_attachments_read(items: Seq<JsonValue>)
    requires
        attachments_of(items) is Some,
    ensures
        forall|i: int|
            0 <= i < attachments_of(items)->Some_0.len() ==> attachment_well_formed(
                #[trigger] attachments_of(items)->Some_0[i],
            ),
    decreases items.len(),
{
    if items.len() > 0 {
        lemma_attachments_read(items.drop_last());
    }
}

/// Every message that is read keeps the rules of a message: each recipient
/// stands once, the custom headers have names of their own and stand in
/// the order of their names, each name once, and every attachment keeps
/// the rules of its data.
pub proof fn law_read_message_keeps_rules(v: JsonValue)
    requires
        message_of(v) is Some,
    ensures
        message_of(v)->Some_0.well_formed(),
{
    let m = message_of(v)->Some_0;
    let custom = custom_members(v->Object_0);
    lemma_custom_unreserved(v->Object_0);
    lemma_sorted_is_ordered(custom);
    assert forall|i: int, j: int| 0 <= i < j < m.extra_headers.len() implies m.extra_headers[i].0
        != m.extra_headers[j].0 by {
        let at = lemma_sorted_within(custom, i, j);
        if at.0 < at.1 {
            assert(custom[at.0].0 != custom[at.1].0);
        } else {
            assert(custom[at.1].0 != custom[at.0].0);
        }
    }
    assert forall|i: int| 0 <= i < m.extra_headers.len() implies !reserved(
        (#[trigger] m.extra_headers[i]).0,
    ) by {
        let at = lemma_sorted_within(custom, i, i);
        assert(!reserved(custom[at.0].0));
    }
    match v.field("to"@) {
        Some(JsonValue::Array(items)) => {
            law_collapse_is_a_set(texts_of(items)->Some_0);
        },
        _ => {},
    }
    match v.field("attachments"@) {
        Some(JsonValue::Array(items)) => {
            lemma_attachments_read(items);
        },
        _ => {},
    }
}

/// A reserved name is the name of no custom header.
pub proof fn lemma_reserved_absent(m: MessageView, key: Seq<char>)
    requires
        no_reserved(m.extra_headers),
        reserved(key),
    ensures
        member(m.extra_headers, key) is None,
{
    assert forall|i: int| 0 <= i < m.extra_headers.len() implies (
    #[trigger] m.extra_headers[i]).0 != key by {
        assert(!reserved(m.extra_headers[i].0));
    }
    lemma_member_absent(m.extra_headers, key);
}

/// A message that keeps the rules of a message, written as JSON, reads
/// back as the same message: every member, the recipients, the custom
/// headers, and each attachment with its data.
pub proof fn law_message_json_round_trip(m: MessageView)
    requires
        m.well_formed(),
    ensures
        message_of(message_json(m)) == Some(m),
{
    reveal_strlit("id");
    reveal_strlit("typ");
    reveal_strlit("type");
    reveal_strlit("body");
    reveal_strlit("from");
    reveal_strlit("to");
    reveal_strlit("thid");
    reveal_strlit("pthid");
    reveal_strlit("created_time");
    reveal_strlit("expires_time");
    reveal_strlit("from_prior");
    reveal_strlit("attachments");
    assert("id"@.len() == 2 && "to"@.len() == 2 && "id"@[0] == 'i' && "to"@[0] == 't');
    assert("typ"@.len() == 3 && "pthid"@.len() == 5);
    assert("type"@.len() == 4 && "body"@.len() == 4 && "from"@.len() == 4 && "thid"@.len() == 4);
    assert("type"@[1] == 'y' && "body"@[1] == 'o' && "from"@[1] == 'r' && "thid"@[1] == 'h');
    assert("created_time"@.len() == 12 && "expires_time"@.len() == 12);
    assert("created_time"@[0] == 'c' && "expires_time"@[0] == 'e');
    assert("from_prior"@.len() == 10 && "attachments"@.len() == 11);
    let members = message_json(m)->Object_0;
    let v = message_json(m);
    lemma_message_lookup(m, "id"@);
    lemma_message_lookup(m, "typ"@);
    lemma_message_lookup(m, "type"@);
    lemma_message_lookup(m, "body"@);
    lemma_message_lookup(m, "from"@);
    lemma_message_lookup(m, "to"@);
    lemma_message_lookup(m, "thid"@);
    lemma_message_lookup(m, "pthid"@);
    lemma_message_lookup(m, "created_time"@);
    lemma_message_lookup(m, "expires_time"@);
    lemma_message_lookup(m, "from_prior"@);
    lemma_message_lookup(m, "attachments"@);
    lemma_reserved_absent(m, "from"@);
    lemma_reserved_absent(m, "to"@);
    lemma_reserved_absent(m, "thid"@);
    lemma_reserved_absent(m, "pthid"@);
    lemma_reserved_absent(m, "created_time"@);
    lemma_reserved_absent(m, "expires_time"@);
    lemma_reserved_absent(m, "from_prior"@);
    lemma_reserved_absent(m, "attachments"@);
    lemma_optional_text(members, "from"@, m.from);
    lemma_optional_text(members, "thid"@, m.thid);
    lemma_optional_text(members, "pthid"@, m.pthid);
    lemma_optional_text(members, "from_prior"@, m.from_prior);
    lemma_optional_number(members, "created_time"@, m.created_time);
    lemma_optional_number(members, "expires_time"@, m.expires_time);
    match m.to {
        Some(list) => {
            lemma_texts_round_trip(list);
            lemma_collapse_distinct(list);
        },
        None => {},
    }
    assert(recipients_member(v) == Some(m.to));
    match m.attachments {
        Some(list) => {
            lemma_attachments_round_trip(list);
        },
        None => {},
    }
    assert(attachments_member(v) == Some(m.attachments));
    lemma_message_custom(m);
    lemma_in_order_sorted(m.extra_headers);
}

} // verus!
