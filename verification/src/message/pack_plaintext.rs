//! Packing a message as plaintext.

use crate::did::DIDResolver;
use crate::error::{ErrorView, Result};
use crate::json::{json_written, to_text};
use crate::message::codec::{message_json, wrong_typ};
use crate::message::{plaintext_typ, Message, MessageView};
use crate::utils::same_text;
use vstd::prelude::*;

verus! {

/// The plaintext of a message: its JSON, written out. The message must have
/// the `typ` of a plaintext.
pub open spec fn plaintext_packed(m: MessageView) -> core::result::Result<Seq<char>, ErrorView> {
    if m.typ != plaintext_typ() {
        Err(wrong_typ())
    } else {
        Ok(json_written(message_json(m)))
    }
}

impl Message {
    /// Produces the plaintext of the message: JSON text, with no
    /// protection.
    ///
    /// # Params
    /// - `did_resolver` instance of `DIDResolver`. A plaintext names no key:
    ///   the resolver is not asked, and the result does not depend on it.
    ///
    /// # Errors
    /// - `Malformed` the message has not the `typ` of a plaintext.
    pub fn pack_plaintext<D: DIDResolver>(&self, did_resolver: &D) -> (r: Result<String>)
        ensures
            match r {
                Ok(text) => plaintext_packed(self@) == Ok::<Seq<char>, ErrorView>(text@),
                Err(e) => plaintext_packed(self@) == Err::<Seq<char>, ErrorView>(e@),
            },
    {
        if !same_text(self.typ.as_str(), "application/didcomm-plain+json") {
            return Err(
                crate::error::err_msg(
                    crate::error::ErrorKind::Malformed,
                    "'typ' must be \"application/didcomm-plain+json\"",
                ),
            );
        }
        Ok(to_text(&self.to_json()))
    }
}

} // verus!
