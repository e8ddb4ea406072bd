//! A plaintext message as JSON: reading it and writing it.

use crate::error::{err_msg, error_of, Error, ErrorKind, ErrorView};
use crate::json::{
    json_read, lemma_array_view, lemma_object_view, member, members_of, parse, values_of, Json,
    JsonValue,
};
use crate::message::attachment::{
    attachments_view, Attachment, AttachmentData, AttachmentDataView, AttachmentView,
    Base64AttachmentData, JsonAttachmentData, LinksAttachmentData,
};
use crate::message::{optional_attachments, plaintext_typ, with_text, Message, MessageView};
use crate::utils::{contains_text, same_text};
use crate::ordered::{ordered, sort_members, sorted_members};
use vstd::prelude::*;

verus! {

/// A member that may be missing and is a text where it is there. `None`
/// says that the member is there and is neither a text nor `null`.
pub open spec fn optional_text(v: JsonValue, key: Seq<char>) -> Option<Option<Seq<char>>> {
    match v.field(key) {
        None => Some(None),
        Some(JsonValue::Null) => Some(None),
        Some(JsonValue::Str(s)) => Some(Some(s)),
        Some(_) => None,
    }
}

/// A member that may be missing and is an unsigned number where it is
/// there. `None` says that the member is there and is something else.
pub open spec fn optional_number(v: JsonValue, key: Seq<char>) -> Option<Option<u64>> {
    match v.field(key) {
        None => Some(None),
        Some(JsonValue::Null) => Some(None),
        Some(JsonValue::UInt(n)) => Some(Some(n)),
        Some(_) => None,
    }
}

/// The texts of a list of JSON values, if each is a text.
pub open spec fn texts_of(items: Seq<JsonValue>) -> Option<Seq<Seq<char>>>
    decreases items.len(),
{
    if items.len() == 0 {
        Some(Seq::empty())
    } else {
        match (texts_of(items.drop_last()), items.last()) {
            (Some(before), JsonValue::Str(s)) => Some(before.push(s)),
            _ => None,
        }
    }
}

/// A list of texts with each text once, at the place where it first stood.
pub open spec fn collapse(list: Seq<Seq<char>>) -> Seq<Seq<char>>
    decreases list.len(),
{
    if list.len() == 0 {
        Seq::empty()
    } else {
        with_text(collapse(list.drop_last()), list.last())
    }
}

/// The data of an attachment: an object with exactly one of `base64`,
/// `json` and `links`. `base64` is a text; `links` is a list of texts, one
/// at least, and comes with a `hash`.
pub open spec fn data_of(d: JsonValue) -> Option<AttachmentDataView> {
    let forms = (if d.has("base64"@) {
        1int
    } else {
        0int
    }) + (if d.has("json"@) {
        1int
    } else {
        0int
    }) + (if d.has("links"@) {
        1int
    } else {
        0int
    });
    match optional_text(d, "jws"@) {
        None => None,
        Some(jws) => if forms != 1 {
            None
        } else if d.has("base64"@) {
            match d.text_field("base64"@) {
                Some(base64) => Some(AttachmentDataView::Base64 { base64, jws }),
                None => None,
            }
        } else if d.has("json"@) {
            Some(AttachmentDataView::Json { json: d.field("json"@)->Some_0, jws })
        } else {
            match (d.field("links"@), d.text_field("hash"@)) {
                (Some(JsonValue::Array(items)), Some(hash)) => match texts_of(items) {
                    Some(links) => if links.len() > 0 {
                        Some(AttachmentDataView::Links { links, hash, jws })
                    } else {
                        None
                    },
                    None => None,
                },
                _ => None,
            }
        },
    }
}

/// The attachment that a JSON value describes: it has an `id` and `data`.
pub open spec fn attachment_of(a: JsonValue) -> Option<AttachmentView> {
    match (
        a.field("data"@),
        a.text_field("id"@),
        optional_text(a, "description"@),
        optional_text(a, "filename"@),
        optional_text(a, "media_type"@),
        optional_text(a, "format"@),
        optional_number(a, "lastmod_time"@),
        optional_number(a, "byte_count"@),
    ) {
        (
            Some(d),
            Some(id),
            Some(description),
            Some(filename),
            Some(media_type),
            Some(format),
            Some(lastmod_time),
            Some(byte_count),
        ) => match data_of(d) {
            Some(data) => Some(
                AttachmentView {
                    data,
                    id,
                    description,
                    filename,
                    media_type,
                    format,
                    lastmod_time,
                    byte_count,
                },
            ),
            None => None,
        },
        _ => None,
    }
}

/// The attachments that a list of JSON values describes, if each describes
/// one.
pub open spec fn attachments_of(items: Seq<JsonValue>) -> Option<Seq<AttachmentView>>
    decreases items.len(),
{
    if items.len() == 0 {
        Some(Seq::empty())
    } else {
        match (attachments_of(items.drop_last()), attachment_of(items.last())) {
            (Some(before), Some(last)) => Some(before.push(last)),
            _ => None,
        }
    }
}

/// The recipients of a message: a list of texts, where the member is there.
pub open spec fn recipients_member(v: JsonValue) -> Option<Option<Seq<Seq<char>>>> {
    match v.field("to"@) {
        None => Some(None),
        Some(JsonValue::Null) => Some(None),
        Some(JsonValue::Array(items)) => match texts_of(items) {
            Some(list) => Some(Some(collapse(list))),
            None => None,
        },
        Some(_) => None,
    }
}

/// The attachments of a message: a list of attachments, where the member is
/// there.
pub open spec fn attachments_member(v: JsonValue) -> Option<Option<Seq<AttachmentView>>> {
    match v.field("attachments"@) {
        None => Some(None),
        Some(JsonValue::Null) => Some(None),
        Some(JsonValue::Array(items)) => match attachments_of(items) {
            Some(list) => Some(Some(list)),
            None => None,
        },
        Some(_) => None,
    }
}

/// Whether a member name is one that the message format gives a meaning to.
pub open spec fn reserved(name: Seq<char>) -> bool {
    ||| name == "id"@
    ||| name == "typ"@
    ||| name == "type"@
    ||| name == "body"@
    ||| name == "from"@
    ||| name == "to"@
    ||| name == "thid"@
    ||| name == "pthid"@
    ||| name == "created_time"@
    ||| name == "expires_time"@
    ||| name == "from_prior"@
    ||| name == "attachments"@
}

/// The members whose names are not reserved, in their order.
pub open spec fn custom_members(members: Seq<(Seq<char>, JsonValue)>) -> Seq<
    (Seq<char>, JsonValue),
>
    decreases members.len(),
{
    if members.len() == 0 {
        Seq::empty()
    } else if reserved(members.last().0) {
        custom_members(members.drop_last())
    } else {
        custom_members(members.drop_last()).push(members.last())
    }
}

/// Whether no two members have one name.
pub open spec fn unique_names(members: Seq<(Seq<char>, JsonValue)>) -> bool {
    forall|i: int, j: int| 0 <= i < j < members.len() ==> members[i].0 != members[j].0
}

/// The message that a JSON value describes: an object with the texts `id`,
/// `typ` and `type`, and a `body`; every other member of the format has its
/// type where it is there; the members outside the format are the custom
/// headers, each name once, in the order of the names.
pub open spec fn message_of(v: JsonValue) -> Option<MessageView> {
    match v {
        JsonValue::Object(members) => match (
            v.text_field("id"@),
            v.text_field("typ"@),
            v.text_field("type"@),
            v.field("body"@),
            optional_text(v, "from"@),
            recipients_member(v),
            optional_text(v, "thid"@),
            optional_text(v, "pthid"@),
            optional_number(v, "created_time"@),
            optional_number(v, "expires_time"@),
            optional_text(v, "from_prior"@),
            attachments_member(v),
        ) {
            (
                Some(id),
                Some(typ),
                Some(type_),
                Some(body),
                Some(from),
                Some(to),
                Some(thid),
                Some(pthid),
                Some(created_time),
                Some(expires_time),
                Some(from_prior),
                Some(attachments),
            ) => if unique_names(custom_members(members)) {
                Some(
                    MessageView {
                        id,
                        typ,
                        type_,
                        body,
                        from,
                        to,
                        thid,
                        pthid,
                        extra_headers: sort_members(custom_members(members)),
                        created_time,
                        expires_time,
                        from_prior,
                        attachments,
                    },
                )
            } else {
                None
            },
            _ => None,
        },
        _ => None,
    }
}

/// The error for a text that is no message.
pub open spec fn not_a_message() -> ErrorView {
    error_of(ErrorKind::Malformed, "Unable deserialize jwm"@)
}

/// The message that a text holds.
pub open spec fn message_read(text: Seq<char>) -> Result<MessageView, ErrorView> {
    match json_read(text) {
        Err(_) => Err(not_a_message()),
        Ok(v) => match message_of(v) {
            Some(m) => Ok(m),
            None => Err(not_a_message()),
        },
    }
}

/// The error for a message with a wrong `typ`.
pub open spec fn wrong_typ() -> ErrorView {
    error_of(ErrorKind::Malformed, "'typ' must be \"application/didcomm-plain+json\""@)
}

/// A member, where there is a value for it.
pub open spec fn optional_member(name: Seq<char>, value: Option<JsonValue>) -> Seq<
    (Seq<char>, JsonValue),
> {
    match value {
        Some(v) => seq![(name, v)],
        None => Seq::empty(),
    }
}

/// An optional text as JSON.
pub open spec fn text_json(text: Option<Seq<char>>) -> Option<JsonValue> {
    match text {
        Some(t) => Some(JsonValue::Str(t)),
        None => None,
    }
}

/// An optional number as JSON.
pub open spec fn number_json(number: Option<u64>) -> Option<JsonValue> {
    match number {
        Some(n) => Some(JsonValue::UInt(n)),
        None => None,
    }
}

/// A list of texts as JSON.
pub open spec fn texts_json(list: Seq<Seq<char>>) -> JsonValue {
    JsonValue::Array(Seq::new(list.len(), |i: int| JsonValue::Str(list[i])))
}

/// The members of attachment data.
pub open spec fn data_members(d: AttachmentDataView) -> Seq<(Seq<char>, JsonValue)> {
    match d {
        AttachmentDataView::Base64 { base64, jws } => seq![("base64"@, JsonValue::Str(base64))]
            + optional_member("jws"@, text_json(jws)),
        AttachmentDataView::Json { json, jws } => seq![("json"@, json)] + optional_member(
            "jws"@,
            text_json(jws),
        ),
        AttachmentDataView::Links { links, hash, jws } => seq![
            ("links"@, texts_json(links)),
            ("hash"@, JsonValue::Str(hash)),
        ] + optional_member("jws"@, text_json(jws)),
    }
}

/// Attachment data as JSON: its members, in the order of their names.
pub open spec fn data_json(d: AttachmentDataView) -> JsonValue {
    ordered(data_members(d))
}

/// The members of an attachment.
pub open spec fn attachment_members(a: AttachmentView) -> Seq<(Seq<char>, JsonValue)> {
    seq![("data"@, data_json(a.data)), ("id"@, JsonValue::Str(a.id))] + optional_member(
        "description"@,
        text_json(a.description),
    ) + optional_member("filename"@, text_json(a.filename)) + optional_member(
        "media_type"@,
        text_json(a.media_type),
    ) + optional_member("format"@, text_json(a.format)) + optional_member(
        "lastmod_time"@,
        number_json(a.lastmod_time),
    ) + optional_member("byte_count"@, number_json(a.byte_count))
}

/// An attachment as JSON: its members, in the order of their names.
pub open spec fn attachment_json(a: AttachmentView) -> JsonValue {
    ordered(attachment_members(a))
}

/// A list of attachments as JSON.
pub open spec fn attachments_json(list: Seq<AttachmentView>) -> JsonValue {
    JsonValue::Array(Seq::new(list.len(), |i: int| attachment_json(list[i])))
}

/// The members of a message: the members of the format that the message
/// has, and its custom headers.
pub open spec fn message_members(m: MessageView) -> Seq<(Seq<char>, JsonValue)> {
    seq![
        ("id"@, JsonValue::Str(m.id)),
        ("typ"@, JsonValue::Str(m.typ)),
        ("type"@, JsonValue::Str(m.type_)),
        ("body"@, m.body),
    ] + optional_member("from"@, text_json(m.from)) + optional_member(
        "to"@,
        match m.to {
            Some(list) => Some(texts_json(list)),
            None => None,
        },
    ) + optional_member("thid"@, text_json(m.thid)) + optional_member(
        "pthid"@,
        text_json(m.pthid),
    ) + optional_member("created_time"@, number_json(m.created_time)) + optional_member(
        "expires_time"@,
        number_json(m.expires_time),
    ) + optional_member("from_prior"@, text_json(m.from_prior)) + optional_member(
        "attachments"@,
        match m.attachments {
            Some(list) => Some(attachments_json(list)),
            None => None,
        },
    ) + m.extra_headers
}

/// A message as JSON: its members, in the order of their names.
pub open spec fn message_json(m: MessageView) -> JsonValue {
    ordered(message_members(m))
}

/// A member that may be missing and is a text where it is there.
pub fn read_optional_text(v: &Json, key: &str) -> (r: Option<Option<String>>)
    ensures
        r.deep_view() == optional_text(v@, key@),
{
    match v.get(key) {
        None => Some(None),
        Some(Json::Null) => Some(None),
        Some(Json::Str(s)) => Some(Some(s.clone())),
        Some(_) => None,
    }
}

/// A member that may be missing and is an unsigned number where it is
/// there.
pub fn read_optional_number(v: &Json, key: &str) -> (r: Option<Option<u64>>)
    ensures
        r == optional_number(v@, key@),
{
    match v.get(key) {
        None => Some(None),
        Some(Json::Null) => Some(None),
        Some(Json::UInt(n)) => Some(Some(*n)),
        Some(_) => None,
    }
}

/// Where a list up to some place holds something that is no text, the whole
/// list is no list of texts.
proof fn lemma_texts_fail(items: Seq<JsonValue>, n: int)
    requires
        0 <= n <= items.len(),
        texts_of(items.take(n)) is None,
    ensures
        texts_of(items) is None,
    decreases items.len() - n,
{
    if n < items.len() {
        assert(items.take(n + 1).drop_last() =~= items.take(n));
        lemma_texts_fail(items, n + 1);
    } else {
        assert(items.take(n) =~= items);
    }
}

/// Where a list up to some place holds something that is no attachment, the
/// whole list is no list of attachments.
proof fn lemma_attachments_fail(items: Seq<JsonValue>, n: int)
    requires
        0 <= n <= items.len(),
        attachments_of(items.take(n)) is None,
    ensures
        attachments_of(items) is None,
    decreases items.len() - n,
{
    if n < items.len() {
        assert(items.take(n + 1).drop_last() =~= items.take(n));
        lemma_attachments_fail(items, n + 1);
    } else {
        assert(items.take(n) =~= items);
    }
}

fn read_texts(items: &Vec<Json>) -> (r: Option<Vec<String>>)
    ensures
        r.deep_view() == texts_of(values_of(items@)),
{
    let ghost all = values_of(items@);
    let mut out: Vec<String> = Vec::new();
    let mut i: usize = 0;
    assert(all.take(0) =~= Seq::<JsonValue>::empty());
    assert(out.deep_view() =~= Seq::<Seq<char>>::empty());
    while i < items.len()
        invariant
            i <= items.len(),
            all == values_of(items@),
            texts_of(all.take(i as int)) == Some(out.deep_view()),
        decreases items.len() - i,
    {
        let ghost before = out.deep_view();
        let ghost upto = all.take(i + 1);
        assert(upto.drop_last() =~= all.take(i as int));
        assert(upto.last() == items[i as int]@);
        match &items[i] {
            Json::Str(s) => {
                out.push(s.clone());
                assert(out.deep_view() =~= before.push(s@));
            },
            _ => {
                proof {
                    lemma_texts_fail(all, i + 1);
                }
                return None;
            },
        }
        i += 1;
    }
    assert(all.take(items.len() as int) =~= all);
    Some(out)
}

fn collapsed(list: Vec<String>) -> (r: Vec<String>)
    ensures
        r.deep_view() == collapse(list.deep_view()),
{
    let mut out: Vec<String> = Vec::new();
    let mut i: usize = 0;
    assert(list.deep_view().take(0) =~= Seq::<Seq<char>>::empty());
    assert(out.deep_view() =~= Seq::<Seq<char>>::empty());
    while i < list.len()
        invariant
            i <= list.len(),
            out.deep_view() == collapse(list.deep_view().take(i as int)),
        decreases list.len() - i,
    {
        let ghost before = out.deep_view();
        let ghost upto = list.deep_view().take(i + 1);
        assert(upto.drop_last() =~= list.deep_view().take(i as int));
        assert(upto.last() == list[i as int]@);
        if !contains_text(&out, list[i].as_str()) {
            out.push(list[i].clone());
            assert(out.deep_view() =~= before.push(list[i as int]@));
        }
        i += 1;
    }
    assert(list.deep_view().take(list.len() as int) =~= list.deep_view());
    out
}

fn read_data(d: &Json) -> (r: Option<AttachmentData>)
    ensures
        match r {
            Some(data) => data_of(d@) == Some(data@),
            None => data_of(d@) is None,
        },
{
    let jws = match read_optional_text(d, "jws") {
        Some(j) => j,
        None => return None,
    };
    let base64 = d.get("base64");
    let json = d.get("json");
    let links = d.get("links");
    match (base64, json, links) {
        (Some(b), None, None) => match b.as_str() {
            Some(text) => Some(
                AttachmentData::Base64 {
                    value: Base64AttachmentData { base64: text.clone(), jws },
                },
            ),
            None => None,
        },
        (None, Some(j), None) => Some(
            AttachmentData::Json { value: JsonAttachmentData { json: j.clone(), jws } },
        ),
        (None, None, Some(l)) => {
            let hash = match d.get_text("hash") {
                Some(h) => h,
                None => return None,
            };
            let items = match l.as_array() {
                Some(items) => items,
                None => return None,
            };
            match read_texts(items) {
                Some(links) => if links.len() > 0 {
                    Some(AttachmentData::Links { value: LinksAttachmentData { links, hash, jws } })
                } else {
                    None
                },
                None => None,
            }
        },
        _ => None,
    }
}

fn read_attachment(a: &Json) -> (r: Option<Attachment>)
    ensures
        match r {
            Some(att) => attachment_of(a@) == Some(att@),
            None => attachment_of(a@) is None,
        },
{
    let d = match a.get("data") {
        Some(d) => d,
        None => return None,
    };
    let id = match a.get_text("id") {
        Some(t) => t,
        None => return None,
    };
    let description = match read_optional_text(a, "description") {
        Some(t) => t,
        None => return None,
    };
    let filename = match read_optional_text(a, "filename") {
        Some(t) => t,
        None => return None,
    };
    let media_type = match read_optional_text(a, "media_type") {
        Some(t) => t,
        None => return None,
    };
    let format = match read_optional_text(a, "format") {
        Some(t) => t,
        None => return None,
    };
    let lastmod_time = match read_optional_number(a, "lastmod_time") {
        Some(t) => t,
        None => return None,
    };
    let byte_count = match read_optional_number(a, "byte_count") {
        Some(t) => t,
        None => return None,
    };
    match read_data(d) {
        Some(data) => Some(
            Attachment {
                data,
                id,
                description,
                filename,
                media_type,
                format,
                lastmod_time,
                byte_count,
            },
        ),
        None => None,
    }
}

fn read_attachments(items: &Vec<Json>) -> (r: Option<Vec<Attachment>>)
    ensures
        match r {
            Some(list) => attachments_of(values_of(items@)) == Some(attachments_view(list@)),
            None => attachments_of(values_of(items@)) is None,
        },
{
    let ghost all = values_of(items@);
    let mut out: Vec<Attachment> = Vec::new();
    let mut i: usize = 0;
    assert(all.take(0) =~= Seq::<JsonValue>::empty());
    assert(attachments_view(out@) =~= Seq::<AttachmentView>::empty());
    while i < items.len()
        invariant
            i <= items.len(),
            all == values_of(items@),
            attachments_of(all.take(i as int)) == Some(attachments_view(out@)),
        decreases items.len() - i,
    {
        let ghost before = attachments_view(out@);
        let ghost upto = all.take(i + 1);
        assert(upto.drop_last() =~= all.take(i as int));
        assert(upto.last() == items[i as int]@);
        match read_attachment(&items[i]) {
            Some(att) => {
                out.push(att);
                assert(attachments_view(out@) =~= before.push(att@));
            },
            None => {
                proof {
                    lemma_attachments_fail(all, i + 1);
                }
                return None;
            },
        }
        i += 1;
    }
    assert(all.take(items.len() as int) =~= all);
    Some(out)
}

fn read_recipients_member(v: &Json) -> (r: Option<Option<Vec<String>>>)
    ensures
        r.deep_view() == recipients_member(v@),
{
    match v.get("to") {
        None => Some(None),
        Some(Json::Null) => Some(None),
        Some(j) => match j.as_array() {
            Some(items) => match read_texts(items) {
                Some(list) => Some(Some(collapsed(list))),
                None => None,
            },
            None => None,
        },
    }
}

fn read_attachments_member(v: &Json) -> (r: Option<Option<Vec<Attachment>>>)
    ensures
        match r {
            Some(list) => attachments_member(v@) == Some(optional_attachments(list)),
            None => attachments_member(v@) is None,
        },
{
    match v.get("attachments") {
        None => Some(None),
        Some(Json::Null) => Some(None),
        Some(j) => match j.as_array() {
            Some(items) => match read_attachments(items) {
                Some(list) => Some(Some(list)),
                None => None,
            },
            None => None,
        },
    }
}

/// Whether a member name is one that the message format gives a meaning to.
pub fn is_reserved(name: &str) -> (r: bool)
    ensures
        r == reserved(name@),
{
    same_text(name, "id") || same_text(name, "typ") || same_text(name, "type") || same_text(
        name,
        "body",
    ) || same_text(name, "from") || same_text(name, "to") || same_text(name, "thid")
        || same_text(name, "pthid") || same_text(name, "created_time") || same_text(
        name,
        "expires_time",
    ) || same_text(name, "from_prior") || same_text(name, "attachments")
}

fn read_custom_members(members: &Vec<(String, Json)>) -> (r: Vec<(String, Json)>)
    ensures
        members_of(r@) == custom_members(members_of(members@)),
{
    let ghost all = members_of(members@);
    let mut out: Vec<(String, Json)> = Vec::new();
    let mut i: usize = 0;
    assert(all.take(0) =~= Seq::<(Seq<char>, JsonValue)>::empty());
    assert(members_of(out@) =~= Seq::<(Seq<char>, JsonValue)>::empty());
    while i < members.len()
        invariant
            i <= members.len(),
            all == members_of(members@),
            members_of(out@) == custom_members(all.take(i as int)),
        decreases members.len() - i,
    {
        let ghost before = members_of(out@);
        let ghost upto = all.take(i + 1);
        assert(upto.drop_last() =~= all.take(i as int));
        assert(upto.last() == (members[i as int].0@, members[i as int].1@));
        if !is_reserved(members[i].0.as_str()) {
            let name = members[i].0.clone();
            let value = members[i].1.clone();
            out.push((name, value));
            assert(members_of(out@) =~= before.push((members[i as int].0@, members[i as int].1@)));
        }
        i += 1;
    }
    assert(all.take(members.len() as int) =~= all);
    out
}

fn has_unique_names(members: &Vec<(String, Json)>) -> (r: bool)
    ensures
        r == unique_names(members_of(members@)),
{
    let ghost all = members_of(members@);
    let mut j: usize = 0;
    while j < members.len()
        invariant
            j <= members.len(),
            all == members_of(members@),
            forall|a: int, b: int| 0 <= a < b < j ==> all[a].0 != all[b].0,
        decreases members.len() - j,
    {
        let mut i: usize = 0;
        while i < j
            invariant
                i <= j,
                j < members.len(),
                all == members_of(members@),
                forall|a: int| 0 <= a < i ==> all[a].0 != all[j as int].0,
            decreases j - i,
        {
            if members[i].0 == members[j].0 {
                assert(all[i as int].0 == all[j as int].0);
                return false;
            }
            i += 1;
        }
        j += 1;
    }
    true
}

impl Message {
    /// Reads a message from a JSON value.
    pub fn from_json(v: &Json) -> (r: Option<Message>)
        ensures
            match r {
                Some(m) => message_of(v@) == Some(m@),
                None => message_of(v@) is None,
            },
    {
        let members = match v.as_object() {
            Some(m) => m,
            None => return None,
        };
        let id = match v.get_text("id") {
            Some(t) => t,
            None => return None,
        };
        let typ = match v.get_text("typ") {
            Some(t) => t,
            None => return None,
        };
        let type_ = match v.get_text("type") {
            Some(t) => t,
            None => return None,
        };
        let body = match v.get("body") {
            Some(b) => b.clone(),
            None => return None,
        };
        let from = match read_optional_text(v, "from") {
            Some(t) => t,
            None => return None,
        };
        let to = match read_recipients_member(v) {
            Some(t) => t,
            None => return None,
        };
        let thid = match read_optional_text(v, "thid") {
            Some(t) => t,
            None => return None,
        };
        let pthid = match read_optional_text(v, "pthid") {
            Some(t) => t,
            None => return None,
        };
        let created_time = match read_optional_number(v, "created_time") {
            Some(t) => t,
            None => return None,
        };
        let expires_time = match read_optional_number(v, "expires_time") {
            Some(t) => t,
            None => return None,
        };
        let from_prior = match read_optional_text(v, "from_prior") {
            Some(t) => t,
            None => return None,
        };
        let attachments = match read_attachments_member(v) {
            Some(t) => t,
            None => return None,
        };
        let extra_headers = read_custom_members(members);
        if !has_unique_names(&extra_headers) {
            return None;
        }
        let extra_headers = sorted_members(&extra_headers);
        Some(
            Message {
                id,
                typ,
                type_,
                body,
                from,
                to,
                thid,
                pthid,
                extra_headers,
                created_time,
                expires_time,
                from_prior,
                attachments,
            },
        )
    }

    /// Reads a message from JSON text.
    pub fn from_str(text: &str) -> (r: Result<Message, Error>)
        ensures
            match r {
                Ok(m) => message_read(text@) == Ok::<MessageView, ErrorView>(m@),
                Err(e) => message_read(text@) == Err::<MessageView, ErrorView>(e@),
            },
    {
        match parse(text) {
            Ok(v) => match Message::from_json(&v) {
                Some(m) => Ok(m),
                None => Err(err_msg(ErrorKind::Malformed, "Unable deserialize jwm")),
            },
            Err(_) => Err(err_msg(ErrorKind::Malformed, "Unable deserialize jwm")),
        }
    }

    /// Holds the message to the rules of a plaintext: its `typ` is that of
    /// a plaintext.
    pub fn validate(self) -> (r: Result<Message, Error>)
        ensures
            match r {
                Ok(m) => self@.typ == plaintext_typ() && m == self,
                Err(e) => self@.typ != plaintext_typ() && e@ == wrong_typ(),
            },
    {
        if !same_text(self.typ.as_str(), "application/didcomm-plain+json") {
            return Err(
                err_msg(ErrorKind::Malformed, "'typ' must be \"application/didcomm-plain+json\""),
            );
        }
        Ok(self)
    }
}

/// The view of an optional JSON value.
pub open spec fn optional_value(value: Option<Json>) -> Option<JsonValue> {
    match value {
        Some(v) => Some(v@),
        None => None,
    }
}

/// Adds a member to the members of an object.
pub fn push_member(members: &mut Vec<(String, Json)>, name: &str, value: Json)
    ensures
        members_of(final(members)@) == members_of(old(members)@).push((name@, value@)),
{
    let ghost before = members_of(members@);
    members.push((name.to_owned(), value));
    assert(members_of(members@) =~= before.push((name@, value@)));
}

/// Adds a member to the members of an object, where there is a value for
/// it.
pub fn push_optional(members: &mut Vec<(String, Json)>, name: &str, value: Option<Json>)
    ensures
        members_of(final(members)@) == members_of(old(members)@) + optional_member(
            name@,
            optional_value(value),
        ),
{
    let ghost before = members_of(members@);
    match value {
        Some(v) => {
            push_member(members, name, v);
            assert(before.push((name@, v@)) =~= before + seq![(name@, v@)]);
        },
        None => {
            assert(before =~= before + Seq::<(Seq<char>, JsonValue)>::empty());
        },
    }
}

/// An object with the given members, in the order of their names.
pub fn object(members: Vec<(String, Json)>) -> (r: Json)
    ensures
        r@ == ordered(members_of(members@)),
{
    let sorted = sorted_members(&members);
    proof {
        lemma_object_view(sorted);
    }
    Json::Object(sorted)
}

/// An optional text as JSON.
pub fn json_of_text(text: &Option<String>) -> (r: Option<Json>)
    ensures
        optional_value(r) == text_json(text.deep_view()),
{
    match text {
        Some(t) => Some(Json::Str(t.clone())),
        None => None,
    }
}

/// An optional number as JSON.
pub fn json_of_number(number: Option<u64>) -> (r: Option<Json>)
    ensures
        optional_value(r) == number_json(number),
{
    match number {
        Some(n) => Some(Json::UInt(n)),
        None => None,
    }
}

/// A list of texts as JSON.
pub fn json_of_texts(list: &Vec<String>) -> (r: Json)
    ensures
        r@ == texts_json(list.deep_view()),
{
    let mut items: Vec<Json> = Vec::new();
    let mut i: usize = 0;
    while i < list.len()
        invariant
            i <= list.len(),
            items.len() == i,
            forall|k: int| 0 <= k < i ==> items[k]@ == JsonValue::Str(list[k]@),
        decreases list.len() - i,
    {
        items.push(Json::Str(list[i].clone()));
        i += 1;
    }
    proof {
        lemma_array_view(items);
        assert(values_of(items@) =~= texts_json(list.deep_view())->Array_0);
    }
    Json::Array(items)
}

impl AttachmentData {
    /// This data as JSON.
    pub fn to_json(&self) -> (r: Json)
        ensures
            r@ == data_json(self@),
    {
        let mut members: Vec<(String, Json)> = Vec::new();
        assert(members_of(members@) =~= Seq::empty());
        match self {
            AttachmentData::Base64 { value } => {
                push_member(&mut members, "base64", Json::Str(value.base64.clone()));
                push_optional(&mut members, "jws", json_of_text(&value.jws));
                assert(members_of(members@) =~= data_members(self@));
            },
            AttachmentData::Json { value } => {
                push_member(&mut members, "json", value.json.clone());
                push_optional(&mut members, "jws", json_of_text(&value.jws));
                assert(members_of(members@) =~= data_members(self@));
            },
            AttachmentData::Links { value } => {
                push_member(&mut members, "links", json_of_texts(&value.links));
                push_member(&mut members, "hash", Json::Str(value.hash.clone()));
                push_optional(&mut members, "jws", json_of_text(&value.jws));
                assert(members_of(members@) =~= data_members(self@));
            },
        }
        object(members)
    }
}

impl Attachment {
    /// This attachment as JSON.
    pub fn to_json(&self) -> (r: Json)
        ensures
            r@ == attachment_json(self@),
    {
        let mut members: Vec<(String, Json)> = Vec::new();
        assert(members_of(members@) =~= Seq::empty());
        push_member(&mut members, "data", self.data.to_json());
        push_member(&mut members, "id", Json::Str(self.id.clone()));
        push_optional(&mut members, "description", json_of_text(&self.description));
        push_optional(&mut members, "filename", json_of_text(&self.filename));
        push_optional(&mut members, "media_type", json_of_text(&self.media_type));
        push_optional(&mut members, "format", json_of_text(&self.format));
        push_optional(&mut members, "lastmod_time", json_of_number(self.lastmod_time));
        push_optional(&mut members, "byte_count", json_of_number(self.byte_count));
        assert(members_of(members@) =~= attachment_members(self@));
        object(members)
    }
}

/// A list of attachments as JSON.
pub fn json_of_attachments(list: &Vec<Attachment>) -> (r: Json)
    ensures
        r@ == attachments_json(attachments_view(list@)),
{
    let mut items: Vec<Json> = Vec::new();
    let mut i: usize = 0;
    while i < list.len()
        invariant
            i <= list.len(),
            items.len() == i,
            forall|k: int| 0 <= k < i ==> items[k]@ == attachment_json(list[k]@),
        decreases list.len() - i,
    {
        items.push(list[i].to_json());
        i += 1;
    }
    proof {
        lemma_array_view(items);
        assert(values_of(items@) =~= attachments_json(attachments_view(list@))->Array_0);
    }
    Json::Array(items)
}

/// Adds all the given members to the members of an object.
pub fn push_all(members: &mut Vec<(String, Json)>, more: &Vec<(String, Json)>)
    ensures
        members_of(final(members)@) == members_of(old(members)@) + members_of(more@),
{
    let ghost before = members_of(members@);
    let mut i: usize = 0;
    assert(before + members_of(more@).take(0) =~= before);
    while i < more.len()
        invariant
            i <= more.len(),
            members_of(members@) == before + members_of(more@).take(i as int),
        decreases more.len() - i,
    {
        let ghost sofar = members_of(members@);
        let name = more[i].0.clone();
        let value = more[i].1.clone();
        members.push((name, value));
        assert(members_of(members@) =~= sofar.push((more[i as int].0@, more[i as int].1@)));
        assert(members_of(more@).take(i + 1) =~= members_of(more@).take(i as int).push(
            (more[i as int].0@, more[i as int].1@),
        ));
        assert(before + members_of(more@).take(i + 1) =~= (before + members_of(more@).take(
            i as int,
        )).push((more[i as int].0@, more[i as int].1@)));
        i += 1;
    }
    assert(members_of(more@).take(more.len() as int) =~= members_of(more@));
}

impl Message {
    /// This message as JSON.
    pub fn to_json(&self) -> (r: Json)
        ensures
            r@ == message_json(self@),
    {
        let mut members: Vec<(String, Json)> = Vec::new();
        assert(members_of(members@) =~= Seq::empty());
        push_member(&mut members, "id", Json::Str(self.id.clone()));
        push_member(&mut members, "typ", Json::Str(self.typ.clone()));
        push_member(&mut members, "type", Json::Str(self.type_.clone()));
        push_member(&mut members, "body", self.body.clone());
        assert(members_of(members@) =~= seq![
            ("id"@, JsonValue::Str(self@.id)),
            ("typ"@, JsonValue::Str(self@.typ)),
            ("type"@, JsonValue::Str(self@.type_)),
            ("body"@, self@.body),
        ]);
        push_optional(&mut members, "from", json_of_text(&self.from));
        let to = match &self.to {
            Some(list) => Some(json_of_texts(list)),
            None => None,
        };
        push_optional(&mut members, "to", to);
        push_optional(&mut members, "thid", json_of_text(&self.thid));
        push_optional(&mut members, "pthid", json_of_text(&self.pthid));
        push_optional(&mut members, "created_time", json_of_number(self.created_time));
        push_optional(&mut members, "expires_time", json_of_number(self.expires_time));
        push_optional(&mut members, "from_prior", json_of_text(&self.from_prior));
        let attachments = match &self.attachments {
            Some(list) => Some(json_of_attachments(list)),
            None => None,
        };
        push_optional(&mut members, "attachments", attachments);
        push_all(&mut members, &self.extra_headers);
        object(members)
    }
}

} // verus!
