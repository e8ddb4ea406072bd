//! Attachments of a plaintext message.

use crate::json::{Json, JsonValue};
use crate::utils::copy_texts;
use vstd::prelude::*;

verus! {

/// Attached data given inline, in base64.
#[derive(Debug, PartialEq, Eq)]
pub struct Base64AttachmentData {
    /// The data, in base64.
    pub base64: String,
    /// A signature over the data, as a JWS.
    pub jws: Option<String>,
}

/// Attached data given inline, as JSON.
#[derive(Debug, PartialEq, Eq)]
pub struct JsonAttachmentData {
    /// The data.
    pub json: Json,
    /// A signature over the data, as a JWS.
    pub jws: Option<String>,
}

/// Attached data given by reference.
#[derive(Debug, PartialEq, Eq)]
pub struct LinksAttachmentData {
    /// Where the data can be fetched: one place at least.
    pub links: Vec<String>,
    /// The hash of the data, as a multi-hash.
    pub hash: String,
    /// A signature over the data, as a JWS.
    pub jws: Option<String>,
}

/// The data of an attachment: exactly one of three forms.
#[derive(Debug, PartialEq, Eq)]
pub enum AttachmentData {
    Base64 { value: Base64AttachmentData },
    Json { value: JsonAttachmentData },
    Links { value: LinksAttachmentData },
}

/// The mathematical value of an [`AttachmentData`].
pub ghost enum AttachmentDataView {
    Base64 { base64: Seq<char>, jws: Option<Seq<char>> },
    Json { json: JsonValue, jws: Option<Seq<char>> },
    Links { links: Seq<Seq<char>>, hash: Seq<char>, jws: Option<Seq<char>> },
}

impl View for AttachmentData {
    type V = AttachmentDataView;

    open spec fn view(&self) -> AttachmentDataView {
        match self {
            AttachmentData::Base64 { value } => AttachmentDataView::Base64 {
                base64: value.base64@,
                jws: value.jws.deep_view(),
            },
            AttachmentData::Json { value } => AttachmentDataView::Json {
                json: value.json@,
                jws: value.jws.deep_view(),
            },
            AttachmentData::Links { value } => AttachmentDataView::Links {
                links: value.links.deep_view(),
                hash: value.hash@,
                jws: value.jws.deep_view(),
            },
        }
    }
}

/// Something attached to a message.
#[derive(Debug, PartialEq, Eq)]
pub struct Attachment {
    /// The data.
    pub data: AttachmentData,
    /// The id by which the message refers to the attachment.
    pub id: String,
    /// What the attachment is, for people.
    pub description: Option<String>,
    /// A name for the data when it is stored as a file.
    pub filename: Option<String>,
    /// The media type of the data.
    pub media_type: Option<String>,
    /// The format of the data, where the media type leaves it open.
    pub format: Option<String>,
    /// When the data was last changed, in seconds since the epoch.
    pub lastmod_time: Option<u64>,
    /// The size of the data in bytes.
    pub byte_count: Option<u64>,
}

/// The mathematical value of an [`Attachment`].
pub ghost struct AttachmentView {
    pub data: AttachmentDataView,
    pub id: Seq<char>,
    pub description: Option<Seq<char>>,
    pub filename: Option<Seq<char>>,
    pub media_type: Option<Seq<char>>,
    pub format: Option<Seq<char>>,
    pub lastmod_time: Option<u64>,
    pub byte_count: Option<u64>,
}

impl View for Attachment {
    type V = AttachmentView;

    open spec fn view(&self) -> AttachmentView {
        AttachmentView {
            data: self.data@,
            id: self.id@,
            description: self.description.deep_view(),
            filename: self.filename.deep_view(),
            media_type: self.media_type.deep_view(),
            format: self.format.deep_view(),
            lastmod_time: self.lastmod_time,
            byte_count: self.byte_count,
        }
    }
}

/// The views of a list of attachments, one for one.
pub open spec fn attachments_view(list: Seq<Attachment>) -> Seq<AttachmentView> {
    Seq::new(list.len(), |i: int| list[i]@)
}

/// A copy of an optional text.
pub fn copy_text(text: &Option<String>) -> (r: Option<String>)
    ensures
        r.deep_view() == text.deep_view(),
{
    match text {
        Some(t) => Some(t.clone()),
        None => None,
    }
}

impl AttachmentData {
    /// A copy of this data.
    pub fn duplicate(&self) -> (r: AttachmentData)
        ensures
            r@ == self@,
    {
        match self {
            AttachmentData::Base64 { value } => AttachmentData::Base64 {
                value: Base64AttachmentData {
                    base64: value.base64.clone(),
                    jws: copy_text(&value.jws),
                },
            },
            AttachmentData::Json { value } => AttachmentData::Json {
                value: JsonAttachmentData { json: value.json.clone(), jws: copy_text(&value.jws) },
            },
            AttachmentData::Links { value } => AttachmentData::Links {
                value: LinksAttachmentData {
                    links: copy_texts(&value.links),
                    hash: value.hash.clone(),
                    jws: copy_text(&value.jws),
                },
            },
        }
    }
}

impl Clone for AttachmentData {
    fn clone(&self) -> (r: AttachmentData)
        ensures
            r@ == self@,
    {
        self.duplicate()
    }
}

impl Attachment {
    /// An attachment with inline data in base64.
    pub fn base64(id: String, base64: String) -> (r: AttachmentBuilder)
        ensures
            r.attachment@ == bare(
                id@,
                AttachmentDataView::Base64 { base64: base64@, jws: None },
            ),
    {
        AttachmentBuilder::new(
            id,
            AttachmentData::Base64 { value: Base64AttachmentData { base64, jws: None } },
        )
    }

    /// An attachment with inline data as JSON.
    pub fn json(id: String, json: Json) -> (r: AttachmentBuilder)
        ensures
            r.attachment@ == bare(id@, AttachmentDataView::Json { json: json@, jws: None }),
    {
        AttachmentBuilder::new(
            id,
            AttachmentData::Json { value: JsonAttachmentData { json, jws: None } },
        )
    }

    /// An attachment whose data is given by reference.
    pub fn links(id: String, links: Vec<String>, hash: String) -> (r: AttachmentBuilder)
        ensures
            r.attachment@ == bare(
                id@,
                AttachmentDataView::Links { links: links.deep_view(), hash: hash@, jws: None },
            ),
    {
        AttachmentBuilder::new(
            id,
            AttachmentData::Links { value: LinksAttachmentData { links, hash, jws: None } },
        )
    }

    /// A copy of this attachment.
    pub fn duplicate(&self) -> (r: Attachment)
        ensures
            r@ == self@,
    {
        Attachment {
            data: self.data.duplicate(),
            id: self.id.clone(),
            description: copy_text(&self.description),
            filename: copy_text(&self.filename),
            media_type: copy_text(&self.media_type),
            format: copy_text(&self.format),
            lastmod_time: self.lastmod_time,
            byte_count: self.byte_count,
        }
    }
}

impl Clone for Attachment {
    fn clone(&self) -> (r: Attachment)
        ensures
            r@ == self@,
    {
        self.duplicate()
    }
}

/// An attachment with an id and data and nothing else.
pub open spec fn bare(id: Seq<char>, data: AttachmentDataView) -> AttachmentView {
    AttachmentView {
        data,
        id,
        description: None,
        filename: None,
        media_type: None,
        format: None,
        lastmod_time: None,
        byte_count: None,
    }
}

/// Builds an attachment member by member.
pub struct AttachmentBuilder {
    pub attachment: Attachment,
}

impl AttachmentBuilder {
    fn new(id: String, data: AttachmentData) -> (r: Self)
        ensures
            r.attachment@ == bare(id@, data@),
    {
        AttachmentBuilder {
            attachment: Attachment {
                data,
                id,
                description: None,
                filename: None,
                media_type: None,
                format: None,
                lastmod_time: None,
                byte_count: None,
            },
        }
    }

    pub fn description(self, description: String) -> (r: Self)
        ensures
            r.attachment@ == (AttachmentView {
                description: Some(description@),
                ..self.attachment@
            }),
    {
        let mut attachment = self.attachment;
        attachment.description = Some(description);
        AttachmentBuilder { attachment }
    }

    pub fn filename(self, filename: String) -> (r: Self)
        ensures
            r.attachment@ == (AttachmentView { filename: Some(filename@), ..self.attachment@ }),
    {
        let mut attachment = self.attachment;
        attachment.filename = Some(filename);
        AttachmentBuilder { attachment }
    }

    pub fn media_type(self, media_type: String) -> (r: Self)
        ensures
            r.attachment@ == (AttachmentView {
                media_type: Some(media_type@),
                ..self.attachment@
            }),
    {
        let mut attachment = self.attachment;
        attachment.media_type = Some(media_type);
        AttachmentBuilder { attachment }
    }

    pub fn format(self, format: String) -> (r: Self)
        ensures
            r.attachment@ == (AttachmentView { format: Some(format@), ..self.attachment@ }),
    {
        let mut attachment = self.attachment;
        attachment.format = Some(format);
        AttachmentBuilder { attachment }
    }

    pub fn lastmod_time(self, lastmod_time: u64) -> (r: Self)
        ensures
            r.attachment@ == (AttachmentView {
                lastmod_time: Some(lastmod_time),
                ..self.attachment@
            }),
    {
        let mut attachment = self.attachment;
        attachment.lastmod_time = Some(lastmod_time);
        AttachmentBuilder { attachment }
    }

    pub fn byte_count(self, byte_count: u64) -> (r: Self)
        ensures
            r.attachment@ == (AttachmentView { byte_count: Some(byte_count), ..self.attachment@ }),
    {
        let mut attachment = self.attachment;
        attachment.byte_count = Some(byte_count);
        AttachmentBuilder { attachment }
    }

    /// Sets the signature over the data.
    pub fn jws(self, jws: String) -> (r: Self)
        ensures
            r.attachment@ == (AttachmentView {
                data: with_jws(self.attachment@.data, jws@),
                ..self.attachment@
            }),
    {
        let mut attachment = self.attachment;
        let data = match attachment.data {
            AttachmentData::Base64 { value } => AttachmentData::Base64 {
                value: Base64AttachmentData { base64: value.base64, jws: Some(jws) },
            },
            AttachmentData::Json { value } => AttachmentData::Json {
                value: JsonAttachmentData { json: value.json, jws: Some(jws) },
            },
            AttachmentData::Links { value } => AttachmentData::Links {
                value: LinksAttachmentData {
                    links: value.links,
                    hash: value.hash,
                    jws: Some(jws),
                },
            },
        };
        attachment.data = data;
        AttachmentBuilder { attachment }
    }

    /// The attachment that was built.
    pub fn finalize(self) -> (r: Attachment)
        ensures
            r == self.attachment,
    {
        self.attachment
    }
}

/// Attachment data with the signature `jws`.
pub open spec fn with_jws(data: AttachmentDataView, jws: Seq<char>) -> AttachmentDataView {
    match data {
        AttachmentDataView::Base64 { base64, .. } => AttachmentDataView::Base64 {
            base64,
            jws: Some(jws),
        },
        AttachmentDataView::Json { json, .. } => AttachmentDataView::Json { json, jws: Some(jws) },
        AttachmentDataView::Links { links, hash, .. } => AttachmentDataView::Links {
            links,
            hash,
            jws: Some(jws),
        },
    }
}

} // verus!
