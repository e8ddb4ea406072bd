//! Routing: messages that ask a mediator to pass another message on.

pub mod forward;

pub use forward::ParsedForward;

use crate::json::{Json, JsonValue};
use crate::message::attachment::{AttachmentData, AttachmentDataView};
use crate::message::{Message, MessageView};
use crate::utils::same_text;
use vstd::prelude::*;

verus! {

/// The type of a forward message.
pub const FORWARD_MSG_TYPE: &'static str = "https://didcomm.org/routing/2.0/forward";

/// The type of a forward message.
pub open spec fn forward_type() -> Seq<char> {
    "https://didcomm.org/routing/2.0/forward"@
}

/// What a forward message asks to pass on, and to whom: the message has
/// the type of a forward, its body names the next hop in `next`, and its
/// first attachment holds the message to pass on as JSON.
pub open spec fn forward_of(m: MessageView) -> Option<(Seq<char>, JsonValue)> {
    if m.type_ != forward_type() {
        None
    } else {
        match (m.body.text_field("next"@), m.attachments) {
            (Some(next), Some(list)) => if list.len() == 0 {
                None
            } else {
                match list[0].data {
                    AttachmentDataView::Json { json, .. } => Some((next, json)),
                    _ => None,
                }
            },
            _ => None,
        }
    }
}

/// Tells whether a plaintext is a forward message, and reads it if so. The
/// message that it asks to pass on is handed out as it stands: it is not
/// unpacked.
pub fn try_parse_forward<'a>(msg: &'a Message) -> (r: Option<ParsedForward<'a>>)
    ensures
        match r {
            Some(parsed) => parsed.msg == msg && forward_of(msg@) == Some(
                (parsed.next@, parsed.forwarded_msg@),
            ),
            None => forward_of(msg@) is None,
        },
{
    if !same_text(msg.type_.as_str(), FORWARD_MSG_TYPE) {
        return None;
    }
    let next = match msg.body.get_text("next") {
        Some(next) => next,
        None => return None,
    };
    let attachments = match &msg.attachments {
        Some(list) => list,
        None => return None,
    };
    if attachments.len() == 0 {
        return None;
    }
    assert(msg@.attachments->Some_0[0] == attachments[0]@);
    match &attachments[0].data {
        AttachmentData::Json { value } => Some(
            ParsedForward { msg, next, forwarded_msg: value.json.clone() },
        ),
        _ => None,
    }
}

} // verus!
