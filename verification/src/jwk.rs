//! Key material: from what DID documents and secrets hold to keys that the
//! primitives can use.

use crate::algorithms::SignAlg;
use crate::crypto::{generate_jwk, import_jwk, jwk_import, jwk_public, public_jwk, Curve};
use crate::did::{
    MaterialView, VerificationMaterial, VerificationMethod, VerificationMethodType,
    VerificationMethodView,
};
use crate::encoding::{base58_decoded, base64url_encoded, decode_base58, encode};
use crate::error::{err_caused, err_msg, error_caused, error_of, Error, ErrorKind, ErrorView};
use crate::json::{json_read, json_written, members_of, parse, to_text, Json, JsonValue};
use crate::message::codec::{object, optional_member, push_member, push_optional};
use crate::secrets::{Secret, SecretMaterial, SecretType, SecretView};
use crate::utils::same_text;
use crate::ordered::ordered;
use vstd::prelude::*;
use vstd::string::StrSliceExecFns;

verus! {

/// A key that the library can compute with: its curve and its JSON Web Key
/// as JSON text.
#[derive(Debug, Clone, PartialEq, Eq)]
pub struct KeyPair {
    pub curve: Curve,
    pub jwk: String,
}

/// The mathematical value of a [`KeyPair`].
pub ghost struct KeyPairView {
    pub curve: Curve,
    pub jwk: Seq<char>,
}

impl View for KeyPair {
    type V = KeyPairView;

    open spec fn view(&self) -> KeyPairView {
        KeyPairView { curve: self.curve, jwk: self.jwk@ }
    }
}

/// The curve that a JSON Web Key names by its `kty` and `crv`, where the
/// library knows it.
pub open spec fn curve_of(jwk: JsonValue) -> Option<Curve> {
    match (jwk.text_field("kty"@), jwk.text_field("crv"@)) {
        (Some(kty), Some(crv)) => {
            if kty == "OKP"@ && crv == "Ed25519"@ {
                Some(Curve::Ed25519)
            } else if kty == "OKP"@ && crv == "X25519"@ {
                Some(Curve::X25519)
            } else if kty == "EC"@ && crv == "P-256"@ {
                Some(Curve::P256)
            } else if kty == "EC"@ && crv == "P-384"@ {
                Some(Curve::P384)
            } else if kty == "EC"@ && crv == "secp256k1"@ {
                Some(Curve::K256)
            } else {
                None
            }
        },
        _ => None,
    }
}

/// The key that a JSON Web Key in JSON text stands for. A text that is no
/// JSON, or whose key data the primitives refuse, is `Malformed`; a key
/// type or curve that the library does not know is `Unsupported`.
pub open spec fn key_of_jwk(jwk: Seq<char>) -> Result<KeyPairView, ErrorView> {
    match json_read(jwk) {
        Err(cause) => Err(error_caused(ErrorKind::Malformed, "Unable parse jwk"@, cause)),
        Ok(value) => match curve_of(value) {
            None => Err(error_of(ErrorKind::Unsupported, "Unsupported key type or curve"@)),
            Some(curve) => match jwk_import(jwk) {
                Err(cause) => Err(
                    error_caused(ErrorKind::Malformed, "Unable produce jwk"@, cause),
                ),
                Ok(_) => Ok(KeyPairView { curve, jwk }),
            },
        },
    }
}

/// What a multicodec prefix says the bytes behind it are.
#[derive(Debug, Clone, Copy, PartialEq, Eq, Structural)]
pub enum Codec {
    X25519Pub,
    Ed25519Pub,
    X25519Priv,
    Ed25519Priv,
}

/// The bytes of a multicodec value and what its prefix says they are. The
/// prefix is the code of the key type as a varint: `ec 01` and `ed 01` for
/// the public keys, `82 26` and `80 26` for the private ones.
pub open spec fn multicodec_of(bytes: Seq<u8>) -> Option<(Codec, Seq<u8>)> {
    if bytes.len() < 2 {
        None
    } else if bytes[0] == 0xec && bytes[1] == 0x01 {
        Some((Codec::X25519Pub, bytes.skip(2)))
    } else if bytes[0] == 0xed && bytes[1] == 0x01 {
        Some((Codec::Ed25519Pub, bytes.skip(2)))
    } else if bytes[0] == 0x82 && bytes[1] == 0x26 {
        Some((Codec::X25519Priv, bytes.skip(2)))
    } else if bytes[0] == 0x80 && bytes[1] == 0x26 {
        Some((Codec::Ed25519Priv, bytes.skip(2)))
    } else {
        None
    }
}

/// The JSON Web Key of a key on a Montgomery or Edwards curve, as JSON:
/// its members, in the order of their names.
pub open spec fn okp_jwk(crv: Seq<char>, x: Seq<u8>, d: Option<Seq<u8>>) -> JsonValue {
    ordered(
        seq![
            ("kty"@, JsonValue::Str("OKP"@)),
            ("crv"@, JsonValue::Str(crv)),
            ("x"@, JsonValue::Str(base64url_encoded(x))),
        ] + optional_member(
            "d"@,
            match d {
                Some(d) => Some(JsonValue::Str(base64url_encoded(d))),
                None => None,
            },
        ),
    )
}

/// The bytes that base58 key material holds.
pub open spec fn base58_bytes(text: Seq<char>) -> Result<Seq<u8>, ErrorView> {
    match base58_decoded(text) {
        Ok(bytes) => Ok(bytes),
        Err(cause) => Err(
            error_caused(ErrorKind::Malformed, "Wrong base58 value in key material"@, cause),
        ),
    }
}

/// The multicodec value that multibase key material holds: the text starts
/// with `z`, the sign of base58, and holds base58 behind it.
pub open spec fn multibase_value(text: Seq<char>) -> Result<(Codec, Seq<u8>), ErrorView> {
    if text.len() == 0 || text[0] != 'z' {
        Err(error_of(ErrorKind::IllegalArgument, "Multibase must start with 'z'"@))
    } else {
        match base58_decoded(text.subrange(1, text.len() as int)) {
            Err(cause) => Err(
                error_caused(
                    ErrorKind::Malformed,
                    "Wrong multibase value in key material"@,
                    cause,
                ),
            ),
            Ok(bytes) => match multicodec_of(bytes) {
                None => Err(
                    error_of(ErrorKind::IllegalArgument, "Unknown codec in multibase key material"@),
                ),
                Some(value) => Ok(value),
            },
        }
    }
}

/// The public key that raw bytes are on a curve.
pub open spec fn public_okp(crv: Seq<char>, x: Seq<u8>) -> Result<KeyPairView, ErrorView> {
    key_of_jwk(json_written(okp_jwk(crv, x, None)))
}

/// The key pair that raw bytes are on a curve: 32 bytes of the private key,
/// then 32 bytes of the public key.
pub open spec fn secret_okp(crv: Seq<char>, raw: Seq<u8>) -> Result<KeyPairView, ErrorView> {
    if raw.len() != 64 {
        Err(error_of(ErrorKind::Malformed, "Wrong length of key material"@))
    } else {
        key_of_jwk(json_written(okp_jwk(crv, raw.subrange(32, 64), Some(raw.subrange(0, 32)))))
    }
}

/// The error for a key of another codec than its type asks for.
pub open spec fn wrong_codec() -> ErrorView {
    error_of(ErrorKind::IllegalArgument, "Wrong codec in multibase key material"@)
}

/// The public key that a verification method publishes: a JSON Web Key, or
/// the raw bytes of a key on Curve25519 in base58 or as multicodec in
/// multibase, as the type of the method says.
pub open spec fn key_of_method(method: VerificationMethodView) -> Result<
    KeyPairView,
    ErrorView,
> {
    match (method.type_, method.material) {
        (VerificationMethodType::JsonWebKey2020, MaterialView::JWK(jwk)) => key_of_jwk(jwk),
        (VerificationMethodType::X25519KeyAgreementKey2019, MaterialView::Base58(text)) => match base58_bytes(
            text,
        ) {
            Err(e) => Err(e),
            Ok(x) => public_okp("X25519"@, x),
        },
        (VerificationMethodType::Ed25519VerificationKey2018, MaterialView::Base58(text)) => match base58_bytes(
            text,
        ) {
            Err(e) => Err(e),
            Ok(x) => public_okp("Ed25519"@, x),
        },
        (VerificationMethodType::X25519KeyAgreementKey2020, MaterialView::Multibase(text)) => match multibase_value(
            text,
        ) {
            Err(e) => Err(e),
            Ok((codec, x)) => if codec == Codec::X25519Pub {
                public_okp("X25519"@, x)
            } else {
                Err(wrong_codec())
            },
        },
        (VerificationMethodType::Ed25519VerificationKey2020, MaterialView::Multibase(text)) => match multibase_value(
            text,
        ) {
            Err(e) => Err(e),
            Ok((codec, x)) => if codec == Codec::Ed25519Pub {
                public_okp("Ed25519"@, x)
            } else {
                Err(wrong_codec())
            },
        },
        _ => Err(
            error_of(ErrorKind::Unsupported, "Unsupported verification method type and material"@),
        ),
    }
}

/// The key pair that a secret holds: a JSON Web Key, or the raw bytes of a
/// key pair on Curve25519 in base58 or as multicodec in multibase, as the
/// type of the secret says.
pub open spec fn key_of_secret(secret: SecretView) -> Result<KeyPairView, ErrorView> {
    match (secret.type_, secret.material) {
        (SecretType::JsonWebKey2020, MaterialView::JWK(jwk)) => key_of_jwk(jwk),
        (SecretType::X25519KeyAgreementKey2019, MaterialView::Base58(text)) => match base58_bytes(
            text,
        ) {
            Err(e) => Err(e),
            Ok(raw) => secret_okp("X25519"@, raw),
        },
        (SecretType::Ed25519VerificationKey2018, MaterialView::Base58(text)) => match base58_bytes(
            text,
        ) {
            Err(e) => Err(e),
            Ok(raw) => secret_okp("Ed25519"@, raw),
        },
        (SecretType::X25519KeyAgreementKey2020, MaterialView::Multibase(text)) => match multibase_value(
            text,
        ) {
            Err(e) => Err(e),
            Ok((codec, raw)) => if codec == Codec::X25519Priv {
                secret_okp("X25519"@, raw)
            } else {
                Err(wrong_codec())
            },
        },
        (SecretType::Ed25519VerificationKey2020, MaterialView::Multibase(text)) => match multibase_value(
            text,
        ) {
            Err(e) => Err(e),
            Ok((codec, raw)) => if codec == Codec::Ed25519Priv {
                secret_okp("Ed25519"@, raw)
            } else {
                Err(wrong_codec())
            },
        },
        _ => Err(error_of(ErrorKind::Unsupported, "Unsupported secret type and material"@)),
    }
}

/// The signing algorithm that goes with a curve.
pub open spec fn sign_alg_of(curve: Curve) -> Option<SignAlg> {
    match curve {
        Curve::Ed25519 => Some(SignAlg::EdDSA),
        Curve::P256 => Some(SignAlg::ES256),
        Curve::K256 => Some(SignAlg::ES256K),
        _ => None,
    }
}

/// Whether keys on the curve can agree on a shared secret.
pub open spec fn can_agree(curve: Curve) -> bool {
    curve == Curve::X25519 || curve == Curve::P256 || curve == Curve::P384
}

/// The curve that a JSON Web Key names.
pub fn classify(jwk: &Json) -> (r: Option<Curve>)
    ensures
        r == curve_of(jwk@),
{
    let kty = match jwk.get_text("kty") {
        Some(t) => t,
        None => return None,
    };
    let crv = match jwk.get_text("crv") {
        Some(t) => t,
        None => return None,
    };
    let okp = same_text(kty.as_str(), "OKP");
    let ec = same_text(kty.as_str(), "EC");
    if okp && same_text(crv.as_str(), "Ed25519") {
        Some(Curve::Ed25519)
    } else if okp && same_text(crv.as_str(), "X25519") {
        Some(Curve::X25519)
    } else if ec && same_text(crv.as_str(), "P-256") {
        Some(Curve::P256)
    } else if ec && same_text(crv.as_str(), "P-384") {
        Some(Curve::P384)
    } else if ec && same_text(crv.as_str(), "secp256k1") {
        Some(Curve::K256)
    } else {
        None
    }
}

impl KeyPair {
    /// Reads a JSON Web Key from JSON text.
    pub fn from_jwk(jwk: &str) -> (r: Result<KeyPair, Error>)
        ensures
            match r {
                Ok(k) => key_of_jwk(jwk@) == Ok::<KeyPairView, ErrorView>(k@),
                Err(e) => key_of_jwk(jwk@) == Err::<KeyPairView, ErrorView>(e@),
            },
    {
        let value = match parse(jwk) {
            Ok(v) => v,
            Err(cause) => {
                return Err(err_caused(ErrorKind::Malformed, "Unable parse jwk", cause.as_str()));
            },
        };
        let curve = match classify(&value) {
            Some(c) => c,
            None => {
                return Err(err_msg(ErrorKind::Unsupported, "Unsupported key type or curve"));
            },
        };
        match import_jwk(jwk) {
            Ok(()) => Ok(KeyPair { curve, jwk: jwk.to_owned() }),
            Err(cause) => Err(
                err_caused(ErrorKind::Malformed, "Unable produce jwk", cause.as_str()),
            ),
        }
    }

    /// Makes a fresh key pair on a curve. The key is random; what is known
    /// of it is that it reads back as a key on the curve.
    pub fn generate(curve: Curve) -> (r: Result<KeyPair, Error>)
        ensures
            match r {
                Ok(k) => k.curve == curve && key_of_jwk(k.jwk@) == Ok::<KeyPairView, ErrorView>(
                    k@,
                ),
                Err(e) => e.kind == ErrorKind::InvalidState,
            },
    {
        let jwk = match generate_jwk(curve) {
            Ok(jwk) => jwk,
            Err(cause) => {
                return Err(
                    err_caused(ErrorKind::InvalidState, "Unable generate key", cause.as_str()),
                );
            },
        };
        match KeyPair::from_jwk(jwk.as_str()) {
            Ok(key) => if key.curve == curve {
                Ok(key)
            } else {
                Err(err_msg(ErrorKind::InvalidState, "Generated key is on another curve"))
            },
            Err(e) => Err(
                err_caused(ErrorKind::InvalidState, "Unable read generated key", e.message.as_str()),
            ),
        }
    }

    /// The JSON Web Key of the public part of this key, as JSON text.
    pub fn public_jwk(&self) -> (r: Result<String, Error>)
        ensures
            match r {
                Ok(p) => jwk_public(self.jwk@) == Ok::<Seq<char>, Seq<char>>(p@),
                Err(e) => jwk_public(self.jwk@) is Err && e@ == error_caused(
                    ErrorKind::InvalidState,
                    "Unable produce public jwk"@,
                    jwk_public(self.jwk@)->Err_0,
                ),
            },
    {
        match public_jwk(self.jwk.as_str()) {
            Ok(p) => Ok(p),
            Err(cause) => Err(
                err_caused(ErrorKind::InvalidState, "Unable produce public jwk", cause.as_str()),
            ),
        }
    }

    /// The signing algorithm that goes with this key.
    pub fn sign_alg(&self) -> (r: Option<SignAlg>)
        ensures
            r == sign_alg_of(self.curve),
    {
        match self.curve {
            Curve::Ed25519 => Some(SignAlg::EdDSA),
            Curve::P256 => Some(SignAlg::ES256),
            Curve::K256 => Some(SignAlg::ES256K),
            _ => None,
        }
    }

    /// Whether this key can sign with an algorithm: the algorithm is the one
    /// that goes with the key's curve.
    pub fn can_sign(&self, alg: SignAlg) -> (r: bool)
        ensures
            r == (sign_alg_of(self.curve) == Some(alg)),
    {
        match self.sign_alg() {
            Some(fit) => fit == alg,
            None => false,
        }
    }

    /// Whether this key can agree on a shared secret.
    pub fn can_agree(&self) -> (r: bool)
        ensures
            r == can_agree(self.curve),
    {
        match self.curve {
            Curve::X25519 => true,
            Curve::P256 => true,
            Curve::P384 => true,
            _ => false,
        }
    }

    /// Whether this key can agree on a shared secret with `other`: both
    /// are agreement keys on one curve.
    pub fn can_agree_with(&self, other: &KeyPair) -> (r: bool)
        ensures
            r == (can_agree(self.curve) && self.curve == other.curve),
    {
        self.can_agree() && self.curve == other.curve
    }
}

/// The bytes of a multicodec value and what its prefix says they are.
pub fn read_multicodec(bytes: &Vec<u8>) -> (r: Option<(Codec, Vec<u8>)>)
    ensures
        match r {
            Some((codec, value)) => multicodec_of(bytes@) == Some((codec, value@)),
            None => multicodec_of(bytes@) is None,
        },
{
    if bytes.len() < 2 {
        return None;
    }
    let codec = if bytes[0] == 0xec && bytes[1] == 0x01 {
        Codec::X25519Pub
    } else if bytes[0] == 0xed && bytes[1] == 0x01 {
        Codec::Ed25519Pub
    } else if bytes[0] == 0x82 && bytes[1] == 0x26 {
        Codec::X25519Priv
    } else if bytes[0] == 0x80 && bytes[1] == 0x26 {
        Codec::Ed25519Priv
    } else {
        return None;
    };
    let mut value: Vec<u8> = Vec::new();
    let mut i: usize = 2;
    while i < bytes.len()
        invariant
            2 <= i <= bytes.len(),
            value@ == bytes@.subrange(2, i as int),
        decreases bytes.len() - i,
    {
        value.push(bytes[i]);
        assert(value@ =~= bytes@.subrange(2, i + 1));
        i += 1;
    }
    assert(value@ =~= bytes@.skip(2));
    Some((codec, value))
}

/// The JSON Web Key of a key on a Montgomery or Edwards curve, as JSON
/// text.
pub fn write_okp_jwk(crv: &str, x: &[u8], d: Option<&[u8]>) -> (r: String)
    ensures
        r@ == json_written(
            okp_jwk(
                crv@,
                x@,
                match d {
                    Some(d) => Some(d@),
                    None => None,
                },
            ),
        ),
{
    let mut members: Vec<(String, Json)> = Vec::new();
    assert(members_of(members@) =~= Seq::empty());
    push_member(&mut members, "kty", Json::text("OKP"));
    push_member(&mut members, "crv", Json::text(crv));
    push_member(&mut members, "x", Json::Str(encode(x)));
    assert(members_of(members@) =~= seq![
        ("kty"@, JsonValue::Str("OKP"@)),
        ("crv"@, JsonValue::Str(crv@)),
        ("x"@, JsonValue::Str(base64url_encoded(x@))),
    ]);
    let private = match d {
        Some(d) => Some(Json::Str(encode(d))),
        None => None,
    };
    push_optional(&mut members, "d", private);
    to_text(&object(members))
}

fn read_base58(text: &str) -> (r: Result<Vec<u8>, Error>)
    ensures
        match r {
            Ok(b) => base58_bytes(text@) == Ok::<Seq<u8>, ErrorView>(b@),
            Err(e) => base58_bytes(text@) == Err::<Seq<u8>, ErrorView>(e@),
        },
{
    match decode_base58(text) {
        Ok(bytes) => Ok(bytes),
        Err(cause) => Err(
            err_caused(ErrorKind::Malformed, "Wrong base58 value in key material", cause.as_str()),
        ),
    }
}

fn read_multibase(text: &str) -> (r: Result<(Codec, Vec<u8>), Error>)
    ensures
        match r {
            Ok((codec, value)) => multibase_value(text@) == Ok::<(Codec, Seq<u8>), ErrorView>(
                (codec, value@),
            ),
            Err(e) => multibase_value(text@) == Err::<(Codec, Seq<u8>), ErrorView>(e@),
        },
{
    let n = text.unicode_len();
    if n == 0 || text.get_char(0) != 'z' {
        return Err(err_msg(ErrorKind::IllegalArgument, "Multibase must start with 'z'"));
    }
    let bytes = match decode_base58(text.substring_char(1, n)) {
        Ok(bytes) => bytes,
        Err(cause) => {
            return Err(
                err_caused(
                    ErrorKind::Malformed,
                    "Wrong multibase value in key material",
                    cause.as_str(),
                ),
            );
        },
    };
    match read_multicodec(&bytes) {
        Some(value) => Ok(value),
        None => Err(
            err_msg(ErrorKind::IllegalArgument, "Unknown codec in multibase key material"),
        ),
    }
}

fn public_from_raw(crv: &str, x: &Vec<u8>) -> (r: Result<KeyPair, Error>)
    ensures
        match r {
            Ok(k) => public_okp(crv@, x@) == Ok::<KeyPairView, ErrorView>(k@),
            Err(e) => public_okp(crv@, x@) == Err::<KeyPairView, ErrorView>(e@),
        },
{
    let jwk = write_okp_jwk(crv, x.as_slice(), None);
    KeyPair::from_jwk(jwk.as_str())
}

fn secret_from_raw(crv: &str, raw: Vec<u8>) -> (r: Result<KeyPair, Error>)
    ensures
        match r {
            Ok(k) => secret_okp(crv@, raw@) == Ok::<KeyPairView, ErrorView>(k@),
            Err(e) => secret_okp(crv@, raw@) == Err::<KeyPairView, ErrorView>(e@),
        },
{
    if raw.len() != 64 {
        return Err(err_msg(ErrorKind::Malformed, "Wrong length of key material"));
    }
    let mut d = raw;
    let x = d.split_off(32);
    assert(x@ =~= raw@.subrange(32, 64));
    assert(d@ =~= raw@.subrange(0, 32));
    let jwk = write_okp_jwk(crv, x.as_slice(), Some(d.as_slice()));
    KeyPair::from_jwk(jwk.as_str())
}

impl VerificationMethod {
    /// The public key of this verification method.
    pub fn as_key_pair(&self) -> (r: Result<KeyPair, Error>)
        ensures
            match r {
                Ok(k) => key_of_method(self@) == Ok::<KeyPairView, ErrorView>(k@),
                Err(e) => key_of_method(self@) == Err::<KeyPairView, ErrorView>(e@),
            },
    {
        match (&self.type_, &self.verification_material) {
            (VerificationMethodType::JsonWebKey2020, VerificationMaterial::JWK(jwk)) => {
                KeyPair::from_jwk(jwk.as_str())
            },
            (
                VerificationMethodType::X25519KeyAgreementKey2019,
                VerificationMaterial::Base58(text),
            ) => {
                let x = read_base58(text.as_str())?;
                public_from_raw("X25519", &x)
            },
            (
                VerificationMethodType::Ed25519VerificationKey2018,
                VerificationMaterial::Base58(text),
            ) => {
                let x = read_base58(text.as_str())?;
                public_from_raw("Ed25519", &x)
            },
            (
                VerificationMethodType::X25519KeyAgreementKey2020,
                VerificationMaterial::Multibase(text),
            ) => {
                let (codec, x) = read_multibase(text.as_str())?;
                if codec == Codec::X25519Pub {
                    public_from_raw("X25519", &x)
                } else {
                    Err(err_msg(ErrorKind::IllegalArgument, "Wrong codec in multibase key material"))
                }
            },
            (
                VerificationMethodType::Ed25519VerificationKey2020,
                VerificationMaterial::Multibase(text),
            ) => {
                let (codec, x) = read_multibase(text.as_str())?;
                if codec == Codec::Ed25519Pub {
                    public_from_raw("Ed25519", &x)
                } else {
                    Err(err_msg(ErrorKind::IllegalArgument, "Wrong codec in multibase key material"))
                }
            },
            _ => Err(
                err_msg(
                    ErrorKind::Unsupported,
                    "Unsupported verification method type and material",
                ),
            ),
        }
    }
}

impl Secret {
    /// The key pair of this secret.
    pub fn as_key_pair(&self) -> (r: Result<KeyPair, Error>)
        ensures
            match r {
                Ok(k) => key_of_secret(self@) == Ok::<KeyPairView, ErrorView>(k@),
                Err(e) => key_of_secret(self@) == Err::<KeyPairView, ErrorView>(e@),
            },
    {
        match (&self.type_, &self.secret_material) {
            (SecretType::JsonWebKey2020, SecretMaterial::JWK(jwk)) => KeyPair::from_jwk(
                jwk.as_str(),
            ),
            (SecretType::X25519KeyAgreementKey2019, SecretMaterial::Base58(text)) => {
                let raw = read_base58(text.as_str())?;
                secret_from_raw("X25519", raw)
            },
            (SecretType::Ed25519VerificationKey2018, SecretMaterial::Base58(text)) => {
                let raw = read_base58(text.as_str())?;
                secret_from_raw("Ed25519", raw)
            },
            (SecretType::X25519KeyAgreementKey2020, SecretMaterial::Multibase(text)) => {
                let (codec, raw) = read_multibase(text.as_str())?;
                if codec == Codec::X25519Priv {
                    secret_from_raw("X25519", raw)
                } else {
                    Err(err_msg(ErrorKind::IllegalArgument, "Wrong codec in multibase key material"))
                }
            },
            (SecretType::Ed25519VerificationKey2020, SecretMaterial::Multibase(text)) => {
                let (codec, raw) = read_multibase(text.as_str())?;
                if codec == Codec::Ed25519Priv {
                    secret_from_raw("Ed25519", raw)
                } else {
                    Err(err_msg(ErrorKind::IllegalArgument, "Wrong codec in multibase key material"))
                }
            },
            _ => Err(err_msg(ErrorKind::Unsupported, "Unsupported secret type and material")),
        }
    }
}

} // verus!
