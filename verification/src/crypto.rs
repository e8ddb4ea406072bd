//! The cryptographic primitives, which the `askar-crypto` crate computes.
//!
//! Keys cross this boundary as JSON Web Keys in JSON text or as raw bytes.
//! Nothing here is proved: each function states what the outside call is
//! given and gives its result a name that the rest of the library speaks of.

use crate::algorithms::SignAlg;
use askar_crypto::alg::{AesTypes, AnyKey, AnyKeyCreate, Chacha20Types, EcCurves, KeyAlg};
use askar_crypto::buffer::SecretBytes;
use askar_crypto::encrypt::KeyAeadInPlace;
use askar_crypto::jwk::{FromJwk, ToJwk};
use askar_crypto::kdf::ecdh_1pu::Ecdh1PU;
use askar_crypto::kdf::ecdh_es::EcdhEs;
use askar_crypto::repr::ToSecretBytes;
use askar_crypto::sign::{KeySigVerify, KeySign, SignatureType};
use vstd::prelude::*;

verus! {

/// The content encryption of an envelope.
#[derive(Debug, Clone, Copy, PartialEq, Eq, Structural)]
pub enum ContentEncryption {
    /// AES-256 in CBC mode with HMAC-SHA-512, a 512 bit key.
    A256cbcHs512,
    /// XChaCha20 with Poly1305, a 256 bit key.
    Xc20P,
    /// AES-256 in Galois/counter mode.
    A256Gcm,
}

/// The curves that a key pair can be made on.
#[derive(Debug, Clone, Copy, PartialEq, Eq, Structural)]
pub enum Curve {
    Ed25519,
    X25519,
    P256,
    P384,
    K256,
}

#[verifier::external_type_specification]
#[verifier::external_body]
pub struct ExKeyAlg(KeyAlg);

#[verifier::external_type_specification]
#[verifier::external_body]
pub struct ExSignatureType(SignatureType);

/// Whether `askar-crypto` takes a text for a JSON Web Key: nothing to
/// report, or its complaint.
pub uninterp spec fn jwk_import(jwk: Seq<char>) -> core::result::Result<(), Seq<char>>;

/// The public part of a JSON Web Key, as `askar-crypto` writes it.
pub uninterp spec fn jwk_public(jwk: Seq<char>) -> core::result::Result<Seq<char>, Seq<char>>;

/// The key-wrapping key that ECDH-ES with Concat KDF derives.
pub uninterp spec fn ecdh_es_key(
    ephemeral: Seq<char>,
    recipient: Seq<char>,
    alg: Seq<u8>,
    apu: Seq<u8>,
    apv: Seq<u8>,
    receive: bool,
) -> core::result::Result<Seq<u8>, Seq<char>>;

/// The key-wrapping key that ECDH-1PU with Concat KDF derives.
pub uninterp spec fn ecdh_1pu_key(
    ephemeral: Seq<char>,
    sender: Seq<char>,
    recipient: Seq<char>,
    alg: Seq<u8>,
    apu: Seq<u8>,
    apv: Seq<u8>,
    tag: Seq<u8>,
    receive: bool,
) -> core::result::Result<Seq<u8>, Seq<char>>;

/// What AES-256 key unwrapping gives for a wrapped key.
pub uninterp spec fn a256kw_unwrapped(kek: Seq<u8>, wrapped: Seq<u8>) -> core::result::Result<
    Seq<u8>,
    Seq<char>,
>;

/// What AES-256 key wrapping gives for a key.
pub uninterp spec fn a256kw_wrapped(kek: Seq<u8>, key: Seq<u8>) -> core::result::Result<
    Seq<u8>,
    Seq<char>,
>;

/// What decrypting sealed content (ciphertext, then tag) gives.
pub uninterp spec fn content_opened(
    enc: ContentEncryption,
    key: Seq<u8>,
    sealed: Seq<u8>,
    nonce: Seq<u8>,
    aad: Seq<u8>,
) -> core::result::Result<Seq<u8>, Seq<char>>;

/// What encrypting content gives: ciphertext, then tag, and the length of
/// the ciphertext.
pub uninterp spec fn content_sealed(
    enc: ContentEncryption,
    key: Seq<u8>,
    plaintext: Seq<u8>,
    nonce: Seq<u8>,
    aad: Seq<u8>,
) -> core::result::Result<(Seq<u8>, usize), Seq<char>>;

/// The signature of a message under a key.
pub uninterp spec fn signature_made(jwk: Seq<char>, alg: SignAlg, message: Seq<u8>) -> core::result::Result<
    Seq<u8>,
    Seq<char>,
>;

/// Whether a signature of a message holds under a key.
pub uninterp spec fn signature_checked(
    jwk: Seq<char>,
    alg: SignAlg,
    message: Seq<u8>,
    signature: Seq<u8>,
) -> core::result::Result<bool, Seq<char>>;

/// The `KeyAlg` of `askar-crypto` for a content encryption.
#[verifier::external_body]
fn content_key_alg(enc: ContentEncryption) -> KeyAlg {
    match enc {
        ContentEncryption::A256cbcHs512 => KeyAlg::Aes(AesTypes::A256CbcHs512),
        ContentEncryption::Xc20P => KeyAlg::Chacha20(Chacha20Types::XC20P),
        ContentEncryption::A256Gcm => KeyAlg::Aes(AesTypes::A256Gcm),
    }
}

/// The `KeyAlg` of `askar-crypto` for a curve.
#[verifier::external_body]
fn curve_key_alg(curve: Curve) -> KeyAlg {
    match curve {
        Curve::Ed25519 => KeyAlg::Ed25519,
        Curve::X25519 => KeyAlg::X25519,
        Curve::P256 => KeyAlg::EcCurve(EcCurves::Secp256r1),
        Curve::P384 => KeyAlg::EcCurve(EcCurves::Secp384r1),
        Curve::K256 => KeyAlg::EcCurve(EcCurves::Secp256k1),
    }
}

/// The `SignatureType` of `askar-crypto` for a signing algorithm.
#[verifier::external_body]
fn signature_type(alg: SignAlg) -> SignatureType {
    match alg {
        SignAlg::EdDSA => SignatureType::EdDSA,
        SignAlg::ES256 => SignatureType::ES256,
        SignAlg::ES256K => SignatureType::ES256K,
    }
}

/// `Box::<AnyKey>::from_jwk`: whether the text is a JSON Web Key that the
/// crate can use, or the printed form of its error.
#[verifier::external_body]
pub(crate) fn import_jwk(jwk: &str) -> (r: core::result::Result<(), String>)
    ensures
        match r {
            Ok(()) => jwk_import(jwk@) == Ok::<(), Seq<char>>(()),
            Err(e) => jwk_import(jwk@) == Err::<(), Seq<char>>(e@),
        },
{
    match Box::<AnyKey>::from_jwk(jwk) {
        Ok(_) => Ok(()),
        Err(e) => Err(e.to_string()),
    }
}

/// `ToJwk::to_jwk_public` of the key that `from_jwk` reads: the key without
/// its private part, as JSON text.
#[verifier::external_body]
pub(crate) fn public_jwk(jwk: &str) -> (r: core::result::Result<String, String>)
    ensures
        match r {
            Ok(p) => jwk_public(jwk@) == Ok::<Seq<char>, Seq<char>>(p@),
            Err(e) => jwk_public(jwk@) == Err::<Seq<char>, Seq<char>>(e@),
        },
{
    let key = Box::<AnyKey>::from_jwk(jwk).map_err(|e| e.to_string())?;
    key.to_jwk_public(None).map_err(|e| e.to_string())
}

/// `Box::<AnyKey>::random` on a curve, written with `to_jwk_secret`: a fresh
/// key pair as JSON text. The key is random: nothing is promised of it.
#[verifier::external_body]
pub(crate) fn generate_jwk(curve: Curve) -> core::result::Result<String, String> {
    let key = Box::<AnyKey>::random(curve_key_alg(curve)).map_err(|e| e.to_string())?;
    let jwk = key.to_jwk_secret(None).map_err(|e| e.to_string())?;
    String::from_utf8(jwk.to_vec()).map_err(|e| e.to_string())
}

/// `askar_crypto::random::fill_random` on a buffer of `len` bytes. The bytes
/// are random: only their number is known.
#[verifier::external_body]
pub(crate) fn random_bytes(len: usize) -> (r: Vec<u8>)
    ensures
        r@.len() == len,
{
    let mut out = vec![0u8; len];
    askar_crypto::random::fill_random(&mut out);
    out
}

/// `EcdhEs` of `askar-crypto`, run for an A256KW key: the key's bytes. The
/// two keys are read with `from_jwk`; `receive` says which of them holds the
/// private part.
#[verifier::external_body]
pub(crate) fn derive_ecdh_es(
    ephemeral: &str,
    recipient: &str,
    alg: &[u8],
    apu: &[u8],
    apv: &[u8],
    receive: bool,
) -> (r: core::result::Result<Vec<u8>, String>)
    ensures
        match r {
            Ok(k) => ecdh_es_key(ephemeral@, recipient@, alg@, apu@, apv@, receive) == Ok::<
                Seq<u8>,
                Seq<char>,
            >(k@),
            Err(e) => ecdh_es_key(ephemeral@, recipient@, alg@, apu@, apv@, receive) == Err::<
                Seq<u8>,
                Seq<char>,
            >(e@),
        },
{
    let e = Box::<AnyKey>::from_jwk(ephemeral).map_err(|e| e.to_string())?;
    let r = Box::<AnyKey>::from_jwk(recipient).map_err(|e| e.to_string())?;
    let kdf = EcdhEs::new(&*e, &*r, alg, apu, apv, receive);
    let key = Box::<AnyKey>::from_key_derivation(KeyAlg::Aes(AesTypes::A256Kw), kdf);
    let bytes = key.and_then(|k| k.to_secret_bytes()).map_err(|e| e.to_string())?;
    Ok(bytes.to_vec())
}

/// `Ecdh1PU` of `askar-crypto`, run for an A256KW key: the key's bytes. The
/// three keys are read with `from_jwk`; `receive` says whether the recipient
/// or the two others hold the private part.
#[verifier::external_body]
pub(crate) fn derive_ecdh_1pu(
    ephemeral: &str,
    sender: &str,
    recipient: &str,
    alg: &[u8],
    apu: &[u8],
    apv: &[u8],
    tag: &[u8],
    receive: bool,
) -> (r: core::result::Result<Vec<u8>, String>)
    ensures
        match r {
            Ok(k) => ecdh_1pu_key(ephemeral@, sender@, recipient@, alg@, apu@, apv@, tag@, receive)
                == Ok::<Seq<u8>, Seq<char>>(k@),
            Err(e) => ecdh_1pu_key(
                ephemeral@,
                sender@,
                recipient@,
                alg@,
                apu@,
                apv@,
                tag@,
                receive,
            ) == Err::<Seq<u8>, Seq<char>>(e@),
        },
{
    let e = Box::<AnyKey>::from_jwk(ephemeral).map_err(|e| e.to_string())?;
    let s = Box::<AnyKey>::from_jwk(sender).map_err(|e| e.to_string())?;
    let r = Box::<AnyKey>::from_jwk(recipient).map_err(|e| e.to_string())?;
    let kdf = Ecdh1PU::new(&*e, &*s, &*r, alg, apu, apv, tag, receive);
    let key = Box::<AnyKey>::from_key_derivation(KeyAlg::Aes(AesTypes::A256Kw), kdf);
    let bytes = key.and_then(|k| k.to_secret_bytes()).map_err(|e| e.to_string())?;
    Ok(bytes.to_vec())
}

/// `decrypt_in_place` of an A256KW key made from `kek`: the unwrapped key.
#[verifier::external_body]
pub(crate) fn unwrap_a256kw(kek: &[u8], wrapped: &[u8]) -> (r: core::result::Result<
    Vec<u8>,
    String,
>)
    ensures
        match r {
            Ok(k) => a256kw_unwrapped(kek@, wrapped@) == Ok::<Seq<u8>, Seq<char>>(k@),
            Err(e) => a256kw_unwrapped(kek@, wrapped@) == Err::<Seq<u8>, Seq<char>>(e@),
        },
{
    let key = Box::<AnyKey>::from_secret_bytes(KeyAlg::Aes(AesTypes::A256Kw), kek);
    let key = key.map_err(|e| e.to_string())?;
    let mut buf = SecretBytes::from_slice(wrapped);
    key.decrypt_in_place(&mut buf, &[], &[]).map_err(|e| e.to_string())?;
    Ok(buf.to_vec())
}

/// `encrypt_in_place` of an A256KW key made from `kek`: the wrapped key.
#[verifier::external_body]
pub(crate) fn wrap_a256kw(kek: &[u8], key: &[u8]) -> (r: core::result::Result<Vec<u8>, String>)
    ensures
        match r {
            Ok(w) => a256kw_wrapped(kek@, key@) == Ok::<Seq<u8>, Seq<char>>(w@),
            Err(e) => a256kw_wrapped(kek@, key@) == Err::<Seq<u8>, Seq<char>>(e@),
        },
{
    let kw = Box::<AnyKey>::from_secret_bytes(KeyAlg::Aes(AesTypes::A256Kw), kek);
    let kw = kw.map_err(|e| e.to_string())?;
    let mut buf = SecretBytes::from_slice(key);
    kw.encrypt_in_place(&mut buf, &[], &[]).map_err(|e| e.to_string())?;
    Ok(buf.to_vec())
}

/// `decrypt_in_place` of a content key made from `key`, on the ciphertext
/// followed by the tag: the plaintext, where the tag holds.
#[verifier::external_body]
pub(crate) fn open_content(
    enc: ContentEncryption,
    key: &[u8],
    sealed: &[u8],
    nonce: &[u8],
    aad: &[u8],
) -> (r: core::result::Result<Vec<u8>, String>)
    ensures
        match r {
            Ok(p) => content_opened(enc, key@, sealed@, nonce@, aad@) == Ok::<Seq<u8>, Seq<char>>(
                p@,
            ),
            Err(e) => content_opened(enc, key@, sealed@, nonce@, aad@) == Err::<
                Seq<u8>,
                Seq<char>,
            >(e@),
        },
{
    let cek = Box::<AnyKey>::from_secret_bytes(content_key_alg(enc), key);
    let cek = cek.map_err(|e| e.to_string())?;
    let mut buf = SecretBytes::from_slice(sealed);
    cek.decrypt_in_place(&mut buf, nonce, aad).map_err(|e| e.to_string())?;
    Ok(buf.to_vec())
}

/// `encrypt_in_place` of a content key made from `key`: the ciphertext
/// followed by the tag, and the number that the call returns, which is the
/// length of the ciphertext.
#[verifier::external_body]
pub(crate) fn seal_content(
    enc: ContentEncryption,
    key: &[u8],
    plaintext: &[u8],
    nonce: &[u8],
    aad: &[u8],
) -> (r: core::result::Result<(Vec<u8>, usize), String>)
    ensures
        match r {
            Ok(s) => content_sealed(enc, key@, plaintext@, nonce@, aad@) == Ok::<
                (Seq<u8>, usize),
                Seq<char>,
            >((s.0@, s.1)),
            Err(e) => content_sealed(enc, key@, plaintext@, nonce@, aad@) == Err::<
                (Seq<u8>, usize),
                Seq<char>,
            >(e@),
        },
{
    let cek = Box::<AnyKey>::from_secret_bytes(content_key_alg(enc), key);
    let cek = cek.map_err(|e| e.to_string())?;
    let mut buf = SecretBytes::from_slice(plaintext);
    let len = cek.encrypt_in_place(&mut buf, nonce, aad).map_err(|e| e.to_string())?;
    Ok((buf.to_vec(), len))
}

/// `create_signature` of the key that `from_jwk` reads. The signature
/// schemes used are deterministic: the result depends on key and message.
#[verifier::external_body]
pub(crate) fn make_signature(jwk: &str, alg: SignAlg, message: &[u8]) -> (r: core::result::Result<
    Vec<u8>,
    String,
>)
    ensures
        match r {
            Ok(s) => signature_made(jwk@, alg, message@) == Ok::<Seq<u8>, Seq<char>>(s@),
            Err(e) => signature_made(jwk@, alg, message@) == Err::<Seq<u8>, Seq<char>>(e@),
        },
{
    let key = Box::<AnyKey>::from_jwk(jwk).map_err(|e| e.to_string())?;
    let sig = key.create_signature(message, Some(signature_type(alg)));
    Ok(sig.map_err(|e| e.to_string())?.to_vec())
}

/// `verify_signature` of the key that `from_jwk` reads: whether the
/// signature holds, or the printed form of the error.
#[verifier::external_body]
pub(crate) fn check_signature(jwk: &str, alg: SignAlg, message: &[u8], signature: &[u8]) -> (r:
    core::result::Result<bool, String>)
    ensures
        match r {
            Ok(v) => signature_checked(jwk@, alg, message@, signature@) == Ok::<bool, Seq<char>>(
                v,
            ),
            Err(e) => signature_checked(jwk@, alg, message@, signature@) == Err::<
                bool,
                Seq<char>,
            >(e@),
        },
{
    let key = Box::<AnyKey>::from_jwk(jwk).map_err(|e| e.to_string())?;
    key.verify_signature(message, signature, Some(signature_type(alg))).map_err(|e| e.to_string())
}

} // verus!
