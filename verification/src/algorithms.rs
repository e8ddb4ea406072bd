//! The algorithms an envelope can be protected with.

use vstd::prelude::*;

verus! {

/// Algorithms for anonymous encryption.
#[derive(Debug, Clone, Copy, PartialEq, Eq, Structural)]
pub enum AnonCryptAlg {
    /// AES256-CBC + HMAC-SHA512 with a 512 bit key content encryption,
    /// ECDH-ES key agreement with A256KW key wrapping
    A256cbcHs512EcdhEsA256kw,
    /// XChaCha20Poly1305 with a 256 bit key content encryption,
    /// ECDH-ES key agreement with A256KW key wrapping
    Xc20pEcdhEsA256kw,
    /// A256GCM content encryption,
    /// ECDH-ES key agreement with A256KW key wrapping
    A256gcmEcdhEsA256kw,
}

/// Algorithms for authenticated encryption.
#[derive(Debug, Clone, Copy, PartialEq, Eq, Structural)]
pub enum AuthCryptAlg {
    /// AES256-CBC + HMAC-SHA512 with a 512 bit key content encryption,
    /// ECDH-1PU key agreement with A256KW key wrapping
    A256cbcHs512Ecdh1puA256kw,
}

/// Algorithms for signing.
#[derive(Debug, Clone, Copy, PartialEq, Eq, Structural)]
pub enum SignAlg {
    EdDSA,
    ES256,
    ES256K,
}

impl Default for AnonCryptAlg {
    fn default() -> (r: Self)
        ensures
            r == AnonCryptAlg::Xc20pEcdhEsA256kw,
    {
        AnonCryptAlg::Xc20pEcdhEsA256kw
    }
}

impl Default for AuthCryptAlg {
    fn default() -> (r: Self)
        ensures
            r == AuthCryptAlg::A256cbcHs512Ecdh1puA256kw,
    {
        AuthCryptAlg::A256cbcHs512Ecdh1puA256kw
    }
}

} // verus!
