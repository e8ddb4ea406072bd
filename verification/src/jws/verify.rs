//! Checking one signature of a signed envelope.

use crate::algorithms::SignAlg;
use crate::crypto::{check_signature, signature_checked};
use crate::encoding::decode_field;
use crate::error::{err_caused, err_msg, error_caused, error_of, Error, ErrorKind, ErrorView};
use crate::jwe::parse::decoded;
use crate::jwk::{sign_alg_of, KeyPair, KeyPairView};
use crate::jws::envelope::{Jws, Signature, SignatureView};
use vstd::prelude::*;
use vstd::string::{StringExecFns, StringSliceAdditionalSpecFns};
use vstd::utf8::encode_utf8;

verus! {

/// What a signature is made over: the protected header, a full stop and the
/// payload, both as they stand in the envelope, in UTF-8.
pub open spec fn signing_input(protected: Seq<char>, payload: Seq<char>) -> Seq<u8> {
    encode_utf8(protected + "."@ + payload)
}

/// Checking a signature with the signer's key: the algorithm of the header
/// is known and is the one of the key's curve, the signature decodes, and
/// it holds over the signing input. The result is the algorithm.
pub open spec fn signature_verified(
    payload: Seq<char>,
    signature: SignatureView,
    key: KeyPairView,
) -> Result<SignAlg, ErrorView> {
    match signature.alg {
        None => Err(error_of(ErrorKind::Unsupported, "Unsupported signature algorithm"@)),
        Some(alg) => if sign_alg_of(key.curve) != Some(alg) {
            Err(
                error_of(
                    ErrorKind::Malformed,
                    "Signer key does not fit the signature algorithm"@,
                ),
            )
        } else {
            match decoded(signature.signature, "Unable decode signature"@) {
                Err(e) => Err(e),
                Ok(bytes) => match signature_checked(
                    key.jwk,
                    alg,
                    signing_input(signature.protected, payload),
                    bytes,
                ) {
                    Err(cause) => Err(
                        error_caused(ErrorKind::Malformed, "Unable verify signature"@, cause),
                    ),
                    Ok(false) => Err(error_of(ErrorKind::Malformed, "Wrong signature"@)),
                    Ok(true) => Ok(alg),
                },
            }
        },
    }
}

/// The text that a signature is made over.
pub fn signing_text(protected: &str, payload: &str) -> (r: String)
    ensures
        r@ == protected@ + "."@ + payload@,
{
    let mut input = String::from_str(protected);
    input.append(".");
    input.append(payload);
    input
}

/// Checks a signature over a payload with the signer's key.
pub fn verify_signature(payload: &str, signature: &Signature, key: &KeyPair) -> (r: Result<
    SignAlg,
    Error,
>)
    ensures
        match r {
            Ok(alg) => signature_verified(payload@, signature@, key@) == Ok::<SignAlg, ErrorView>(
                alg,
            ),
            Err(e) => signature_verified(payload@, signature@, key@) == Err::<SignAlg, ErrorView>(
                e@,
            ),
        },
{
    let alg = match signature.alg {
        Some(alg) => alg,
        None => {
            return Err(err_msg(ErrorKind::Unsupported, "Unsupported signature algorithm"));
        },
    };
    match key.sign_alg() {
        Some(fit) if fit == alg => {},
        _ => {
            return Err(
                err_msg(ErrorKind::Malformed, "Signer key does not fit the signature algorithm"),
            );
        },
    }
    let bytes = decode_field(signature.signature.as_str(), "Unable decode signature")?;
    let input = signing_text(signature.protected.as_str(), payload);
    match check_signature(key.jwk.as_str(), alg, input.as_str().as_bytes(), bytes.as_slice()) {
        Ok(true) => Ok(alg),
        Ok(false) => Err(err_msg(ErrorKind::Malformed, "Wrong signature")),
        Err(cause) => Err(
            err_caused(ErrorKind::Malformed, "Unable verify signature", cause.as_str()),
        ),
    }
}

impl Jws {
    /// Checks the signature at place `index` with the signer's key.
    pub fn verify(&self, index: usize, key: &KeyPair) -> (r: Result<SignAlg, Error>)
        requires
            index < self.signatures.len(),
        ensures
            match r {
                Ok(alg) => signature_verified(
                    self@.payload,
                    self@.signatures[index as int],
                    key@,
                ) == Ok::<SignAlg, ErrorView>(alg),
                Err(e) => signature_verified(self@.payload, self@.signatures[index as int], key@)
                    == Err::<SignAlg, ErrorView>(e@),
            },
    {
        assert(self@.signatures[index as int] == self.signatures[index as int]@);
        verify_signature(self.payload.as_str(), &self.signatures[index], key)
    }
}

/// A signature that the primitives do not accept makes the envelope
/// `Malformed`: where the signature does not decode, or does not hold over
/// the signing input under the signer's key, it is refused, and the error
/// says that the envelope is malformed.
pub proof fn law_refused_signature_is_malformed(
    payload: Seq<char>,
    signature: SignatureView,
    key: KeyPairView,
)
    requires
        signature.alg is Some,
        sign_alg_of(key.curve) == signature.alg,
        ({
            let bytes = decoded(signature.signature, "Unable decode signature"@);
            bytes is Err || signature_checked(
                key.jwk,
                signature.alg->Some_0,
                signing_input(signature.protected, payload),
                bytes->Ok_0,
            ) != Ok::<bool, Seq<char>>(true)
        }),
    ensures
        signature_verified(payload, signature, key) is Err,
        signature_verified(payload, signature, key)->Err_0.kind == ErrorKind::Malformed,
{
}

} // verus!
