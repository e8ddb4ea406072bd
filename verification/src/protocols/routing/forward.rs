//! A forward message that was read.

use crate::json::Json;
use crate::message::Message;
use vstd::prelude::*;

verus! {

/// A forward message: the plaintext it was read from, the next hop, and the
/// message to pass on.
#[derive(Debug, PartialEq, Eq)]
pub struct ParsedForward<'a> {
    pub msg: &'a Message,
    pub next: String,
    pub forwarded_msg: Json,
}

} // verus!
