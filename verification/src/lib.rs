//! DIDComm v2 secure messaging between decentralized identifiers.
//!
//! A sender packs a plaintext [`Message`] into one of three envelopes: a
//! signed one, an anonymously encrypted one, or an authenticated and
//! encrypted one, which may be wrapped in an anonymous one to hide the
//! sender. The receiver unpacks what it got and learns, beside the
//! plaintext, which protections the message had.
//!
//! The logic of packing and unpacking is verified: every function states in
//! its contract what it returns, as a function of the message, of what the
//! resolvers know and hold, and of the results of the primitives. The
//! primitives themselves (JSON, base64url, base58, SHA-256, key agreement,
//! key wrapping, content encryption, signatures) are computed by other
//! crates; the modules `json`, `encoding` and `crypto` say what is assumed
//! of them.
//!
//! The resolvers of DID documents and of secrets are the caller's. A
//! contract is exact where the resolvers are reliable, as those that answer
//! from memory are, and where a call asks them for nothing; a resolver that
//! can fail may add its `IOError` where it is asked, and nowhere else.
//! Every JSON object that the library writes has its members in the order
//! of their names, which is the order in which they are read back.

pub mod algorithms;
pub mod crypto;
pub mod did;
pub mod encoding;
pub mod error;
pub mod json;
pub mod jwe;
pub mod jwk;
pub mod jws;
pub mod message;
pub mod ordered;
pub mod protocols;
pub mod secrets;
pub mod utils;

pub use message::pack_encrypted::{
    MessagingServiceMetadata, PackEncryptedMetadata, PackEncryptedOptions,
};
pub use message::pack_signed::PackSignedMetadata;
pub use message::unpack::{UnpackMetadata, UnpackOptions};
pub use message::{
    Attachment, AttachmentBuilder, AttachmentData, Base64AttachmentData, FromPrior,
    JsonAttachmentData, LinksAttachmentData, Message, MessageBuilder,
};
