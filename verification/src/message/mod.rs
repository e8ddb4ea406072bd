//! The plaintext message and what can be done with it.

pub mod attachment;
pub mod codec;
pub mod from_prior;
pub mod headers;
pub mod needs;
pub mod pack_encrypted;
pub mod pack_plaintext;
pub mod pack_signed;
pub mod round_trip;
pub mod unpack;

pub use from_prior::FromPrior;
pub use attachment::{
    Attachment, AttachmentBuilder, AttachmentData, Base64AttachmentData, JsonAttachmentData,
    LinksAttachmentData,
};

use crate::json::{members_of, Json, JsonValue};
use crate::message::attachment::{attachments_view, AttachmentView};
use crate::message::headers::{set_header, with_header};
use crate::utils::contains_text;
use vstd::prelude::*;

verus! {

/// The `typ` of a plaintext message.
pub const PLAINTEXT_TYP: &'static str = "application/didcomm-plain+json";

/// The `typ` of a plaintext message.
pub open spec fn plaintext_typ() -> Seq<char> {
    "application/didcomm-plain+json"@
}

/// A plaintext message: what the application sends, before any envelope.
#[derive(Debug, PartialEq, Eq)]
pub struct Message {
    /// The id of the message, unique to the sender.
    pub id: String,
    /// The media type of the message: `application/didcomm-plain+json`.
    pub typ: String,
    /// The type of the message: a URI of the protocol it belongs to.
    pub type_: String,
    /// What the message says.
    pub body: Json,
    /// The DID of the sender.
    pub from: Option<String>,
    /// The DIDs of the recipients, each once.
    pub to: Option<Vec<String>>,
    /// The id of the thread that the message belongs to.
    pub thid: Option<String>,
    /// The id of the thread's parent thread.
    pub pthid: Option<String>,
    /// Headers of the application's own: each name once, none a name of
    /// the message format, in the order of the names. The builder and the
    /// reading of JSON keep them so.
    pub extra_headers: Vec<(String, Json)>,
    /// When the message was made, in seconds since the epoch.
    pub created_time: Option<u64>,
    /// When the message stops to matter, in seconds since the epoch.
    pub expires_time: Option<u64>,
    /// A JWT by which the sender shows that it rotated its DID.
    pub from_prior: Option<String>,
    /// What is attached to the message.
    pub attachments: Option<Vec<Attachment>>,
}

/// The mathematical value of a [`Message`].
pub ghost struct MessageView {
    pub id: Seq<char>,
    pub typ: Seq<char>,
    pub type_: Seq<char>,
    pub body: JsonValue,
    pub from: Option<Seq<char>>,
    pub to: Option<Seq<Seq<char>>>,
    pub thid: Option<Seq<char>>,
    pub pthid: Option<Seq<char>>,
    pub extra_headers: Seq<(Seq<char>, JsonValue)>,
    pub created_time: Option<u64>,
    pub expires_time: Option<u64>,
    pub from_prior: Option<Seq<char>>,
    pub attachments: Option<Seq<AttachmentView>>,
}

/// The view of an optional list of attachments.
pub open spec fn optional_attachments(list: Option<Vec<Attachment>>) -> Option<
    Seq<AttachmentView>,
> {
    match list {
        Some(l) => Some(attachments_view(l@)),
        None => None,
    }
}

impl View for Message {
    type V = MessageView;

    open spec fn view(&self) -> MessageView {
        MessageView {
            id: self.id@,
            typ: self.typ@,
            type_: self.type_@,
            body: self.body@,
            from: self.from.deep_view(),
            to: self.to.deep_view(),
            thid: self.thid.deep_view(),
            pthid: self.pthid.deep_view(),
            extra_headers: members_of(self.extra_headers@),
            created_time: self.created_time,
            expires_time: self.expires_time,
            from_prior: self.from_prior.deep_view(),
            attachments: optional_attachments(self.attachments),
        }
    }
}

/// A message with id, type and body, the plaintext `typ`, and nothing else.
pub open spec fn bare_message(id: Seq<char>, type_: Seq<char>, body: JsonValue) -> MessageView {
    MessageView {
        id,
        typ: plaintext_typ(),
        type_,
        body,
        from: None,
        to: None,
        thid: None,
        pthid: None,
        extra_headers: Seq::empty(),
        created_time: None,
        expires_time: None,
        from_prior: None,
        attachments: None,
    }
}

/// A list with one more text, unless the list holds it already.
pub open spec fn with_text(list: Seq<Seq<char>>, text: Seq<char>) -> Seq<Seq<char>> {
    if list.contains(text) {
        list
    } else {
        list.push(text)
    }
}

/// Recipients with one more: recipients are a set, so a DID that is among
/// them already changes nothing.
pub open spec fn with_recipient(to: Option<Seq<Seq<char>>>, did: Seq<char>) -> Option<
    Seq<Seq<char>>,
> {
    match to {
        Some(list) => Some(with_text(list, did)),
        None => Some(seq![did]),
    }
}

/// Recipients with the DIDs of a list added, one after the other.
pub open spec fn with_recipients(to: Option<Seq<Seq<char>>>, list: Seq<Seq<char>>) -> Option<
    Seq<Seq<char>>,
>
    decreases list.len(),
{
    if list.len() == 0 {
        to
    } else {
        with_recipient(with_recipients(to, list.drop_last()), list.last())
    }
}

/// Attachments with one more.
pub open spec fn with_attachment(
    attachments: Option<Seq<AttachmentView>>,
    attachment: AttachmentView,
) -> Option<Seq<AttachmentView>> {
    match attachments {
        Some(list) => Some(list.push(attachment)),
        None => Some(seq![attachment]),
    }
}

impl Message {
    /// Starts a message with the members that every message has.
    pub fn build(id: String, type_: String, body: Json) -> (r: MessageBuilder)
        ensures
            r.message@ == bare_message(id@, type_@, body@),
    {
        let message = Message {
            id,
            typ: PLAINTEXT_TYP.to_owned(),
            type_,
            body,
            from: None,
            to: None,
            thid: None,
            pthid: None,
            extra_headers: Vec::new(),
            created_time: None,
            expires_time: None,
            from_prior: None,
            attachments: None,
        };
        assert(message@.extra_headers =~= Seq::empty());
        MessageBuilder { message }
    }
}

/// Builds a message member by member.
pub struct MessageBuilder {
    pub message: Message,
}

impl MessageBuilder {
    /// Adds a recipient.
    pub fn to(self, to: String) -> (r: Self)
        ensures
            r.message@ == (MessageView {
                to: with_recipient(self.message@.to, to@),
                ..self.message@
            }),
    {
        let mut message = self.message;
        let list = match message.to {
            Some(mut list) => {
                let ghost before = list.deep_view();
                if !contains_text(&list, to.as_str()) {
                    list.push(to);
                    assert(list.deep_view() =~= before.push(to@));
                }
                list
            },
            None => {
                let mut list: Vec<String> = Vec::new();
                list.push(to);
                assert(list.deep_view() =~= seq![to@]);
                list
            },
        };
        message.to = Some(list);
        MessageBuilder { message }
    }

    /// Adds recipients, in their order.
    pub fn to_many(self, to: Vec<String>) -> (r: Self)
        ensures
            r.message@ == (MessageView {
                to: with_recipients(self.message@.to, to.deep_view()),
                ..self.message@
            }),
    {
        let ghost start = self.message@;
        let ghost all = to.deep_view();
        let mut builder = self;
        let mut i: usize = 0;
        assert(all.take(0) =~= Seq::<Seq<char>>::empty());
        while i < to.len()
            invariant
                i <= to.len(),
                all == to.deep_view(),
                builder.message@ == (MessageView {
                    to: with_recipients(start.to, all.take(i as int)),
                    ..start
                }),
            decreases to.len() - i,
        {
            assert(all.take(i + 1).drop_last() =~= all.take(i as int));
            assert(all.take(i + 1).last() == to[i as int]@);
            builder = builder.to(to[i].clone());
            i += 1;
        }
        assert(all.take(to.len() as int) =~= all);
        builder
    }

    /// Sets the sender.
    pub fn from(self, from: String) -> (r: Self)
        ensures
            r.message@ == (MessageView { from: Some(from@), ..self.message@ }),
    {
        let mut message = self.message;
        message.from = Some(from);
        MessageBuilder { message }
    }

    /// Sets the thread id.
    pub fn thid(self, thid: String) -> (r: Self)
        ensures
            r.message@ == (MessageView { thid: Some(thid@), ..self.message@ }),
    {
        let mut message = self.message;
        message.thid = Some(thid);
        MessageBuilder { message }
    }

    /// Sets the parent thread id.
    pub fn pthid(self, pthid: String) -> (r: Self)
        ensures
            r.message@ == (MessageView { pthid: Some(pthid@), ..self.message@ }),
    {
        let mut message = self.message;
        message.pthid = Some(pthid);
        MessageBuilder { message }
    }

    /// Sets a header of the application's own. It takes the place of a
    /// header of the same name; a name that the message format gives a
    /// meaning to is refused, and the message stays as it is.
    pub fn header(self, name: String, value: Json) -> (r: Self)
        ensures
            r.message@ == (MessageView {
                extra_headers: with_header(self.message@.extra_headers, name@, value@),
                ..self.message@
            }),
    {
        let mut message = self.message;
        message.extra_headers = set_header(&message.extra_headers, name, value);
        MessageBuilder { message }
    }

    /// Sets the time at which the message was made.
    pub fn created_time(self, created_time: u64) -> (r: Self)
        ensures
            r.message@ == (MessageView { created_time: Some(created_time), ..self.message@ }),
    {
        let mut message = self.message;
        message.created_time = Some(created_time);
        MessageBuilder { message }
    }

    /// Sets the time at which the message stops to matter.
    pub fn expires_time(self, expires_time: u64) -> (r: Self)
        ensures
            r.message@ == (MessageView { expires_time: Some(expires_time), ..self.message@ }),
    {
        let mut message = self.message;
        message.expires_time = Some(expires_time);
        MessageBuilder { message }
    }

    /// Sets the proof of a rotated DID.
    pub fn from_prior(self, from_prior: String) -> (r: Self)
        ensures
            r.message@ == (MessageView { from_prior: Some(from_prior@), ..self.message@ }),
    {
        let mut message = self.message;
        message.from_prior = Some(from_prior);
        MessageBuilder { message }
    }

    /// Adds an attachment.
    pub fn attachment(self, attachment: Attachment) -> (r: Self)
        ensures
            r.message@ == (MessageView {
                attachments: with_attachment(self.message@.attachments, attachment@),
                ..self.message@
            }),
    {
        let mut message = self.message;
        let list = match message.attachments {
            Some(mut list) => {
                let ghost before = attachments_view(list@);
                list.push(attachment);
                assert(attachments_view(list@) =~= before.push(attachment@));
                list
            },
            None => {
                let mut list: Vec<Attachment> = Vec::new();
                list.push(attachment);
                assert(attachments_view(list@) =~= seq![attachment@]);
                list
            },
        };
        message.attachments = Some(list);
        MessageBuilder { message }
    }

    /// The message that was built.
    pub fn finalize(self) -> (r: Message)
        ensures
            r == self.message,
    {
        self.message
    }
}

/// A copy of the members of an object.
pub fn copy_members(members: &Vec<(String, Json)>) -> (r: Vec<(String, Json)>)
    ensures
        members_of(r@) == members_of(members@),
{
    let mut out: Vec<(String, Json)> = Vec::new();
    let mut i: usize = 0;
    while i < members.len()
        invariant
            i <= members.len(),
            out.len() == i,
            forall|k: int|
                0 <= k < i ==> out[k].0@ == members[k].0@ && out[k].1@ == members[k].1@,
        decreases members.len() - i,
    {
        let name = members[i].0.clone();
        let value = members[i].1.clone();
        out.push((name, value));
        i += 1;
    }
    assert(members_of(out@) =~= members_of(members@));
    out
}

/// A copy of a list of attachments.
pub fn copy_attachments(list: &Vec<Attachment>) -> (r: Vec<Attachment>)
    ensures
        attachments_view(r@) == attachments_view(list@),
{
    let mut out: Vec<Attachment> = Vec::new();
    let mut i: usize = 0;
    while i < list.len()
        invariant
            i <= list.len(),
            out.len() == i,
            forall|k: int| 0 <= k < i ==> out[k]@ == list[k]@,
        decreases list.len() - i,
    {
        out.push(list[i].duplicate());
        i += 1;
    }
    assert(attachments_view(out@) =~= attachments_view(list@));
    out
}

impl Message {
    /// A copy of this message.
    pub fn duplicate(&self) -> (r: Message)
        ensures
            r@ == self@,
    {
        Message {
            id: self.id.clone(),
            typ: self.typ.clone(),
            type_: self.type_.clone(),
            body: self.body.clone(),
            from: crate::message::attachment::copy_text(&self.from),
            to: match &self.to {
                Some(list) => Some(crate::utils::copy_texts(list)),
                None => None,
            },
            thid: crate::message::attachment::copy_text(&self.thid),
            pthid: crate::message::attachment::copy_text(&self.pthid),
            extra_headers: copy_members(&self.extra_headers),
            created_time: self.created_time,
            expires_time: self.expires_time,
            from_prior: crate::message::attachment::copy_text(&self.from_prior),
            attachments: match &self.attachments {
                Some(list) => Some(copy_attachments(list)),
                None => None,
            },
        }
    }
}

impl Clone for Message {
    fn clone(&self) -> (r: Message)
        ensures
            r@ == self@,
    {
        self.duplicate()
    }
}

} // verus!
