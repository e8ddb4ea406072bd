//! JSON Web Signature in its general serialisation, as DIDComm uses it.

pub mod envelope;
pub mod parse;
pub mod sign;
pub mod verify;
