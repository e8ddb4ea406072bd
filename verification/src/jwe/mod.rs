//! JSON Web Encryption in its general serialisation, as DIDComm uses it.

pub mod decrypt;
pub mod encrypt;
pub mod envelope;
pub mod parse;
pub mod round_trip;
