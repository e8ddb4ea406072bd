use didcomm::crypto::Curve;
use didcomm::did::resolvers::ExampleDIDResolver;
use didcomm::did::{
    DIDDoc, KeyPurpose, VerificationMaterial, VerificationMethod, VerificationMethodType,
};
use didcomm::algorithms::SignAlg;
use didcomm::encoding::{decode, decode_base58};
use didcomm::error::ErrorKind;
use didcomm::json::{parse, Json};
use didcomm::jwk::{read_multicodec, write_okp_jwk, Codec, KeyPair};
use didcomm::message::pack_encrypted::PackEncryptedOptions;
use didcomm::message::unpack::UnpackOptions;
use didcomm::message::Message;
use didcomm::secrets::resolvers::ExampleSecretsResolver;
use didcomm::secrets::{Secret, SecretMaterial, SecretType};

fn raw(key: &KeyPair) -> (Vec<u8>, Vec<u8>) {
    let jwk = parse(&key.jwk).unwrap();
    (
        decode(&jwk.get_text("x").unwrap()).unwrap(),
        decode(&jwk.get_text("d").unwrap()).unwrap(),
    )
}

fn multibase(prefix: [u8; 2], bytes: &[u8]) -> String {
    let mut all = prefix.to_vec();
    all.extend_from_slice(bytes);
    format!("z{}", bs58::encode(all).into_string())
}

fn method(kid: &str, type_: VerificationMethodType, material: VerificationMaterial) -> VerificationMethod {
    VerificationMethod {
        id: kid.to_string(),
        type_,
        controller: kid.split('#').next().unwrap().to_string(),
        verification_material: material,
    }
}

fn secret(kid: &str, type_: SecretType, material: SecretMaterial) -> Secret {
    Secret { id: kid.to_string(), type_, secret_material: material }
}

#[test]
fn base58_is_decoded() {
    assert_eq!(
        decode_base58("he11owor1d"),
        Ok(vec![0x04, 0x30, 0x5e, 0x2b, 0x24, 0x73, 0xf0, 0x58])
    );
    assert!(decode_base58("0").is_err());
}

#[test]
fn multicodec_prefixes_are_told_apart() {
    assert_eq!(read_multicodec(&vec![0xec, 0x01, 7, 8]), Some((Codec::X25519Pub, vec![7, 8])));
    assert_eq!(read_multicodec(&vec![0xed, 0x01]), Some((Codec::Ed25519Pub, vec![])));
    assert_eq!(read_multicodec(&vec![0x82, 0x26, 1]), Some((Codec::X25519Priv, vec![1])));
    assert_eq!(read_multicodec(&vec![0x80, 0x26, 1]), Some((Codec::Ed25519Priv, vec![1])));
    assert_eq!(read_multicodec(&vec![0xec]), None);
    assert_eq!(read_multicodec(&vec![0xec, 0x02, 1]), None);
    assert_eq!(read_multicodec(&vec![]), None);
}

#[test]
fn okp_keys_are_written_as_json_web_keys() {
    assert_eq!(
        write_okp_jwk("X25519", &[1, 2], None),
        "{\"crv\":\"X25519\",\"kty\":\"OKP\",\"x\":\"AQI\"}"
    );
    assert_eq!(
        write_okp_jwk("Ed25519", &[1, 2], Some(&[3])),
        "{\"crv\":\"Ed25519\",\"d\":\"Aw\",\"kty\":\"OKP\",\"x\":\"AQI\"}"
    );
}

#[test]
fn keys_in_base58_and_multibase_are_the_keys_in_jwk() {
    for (curve, t2019, t2020, public, private) in [
        (
            Curve::X25519,
            VerificationMethodType::X25519KeyAgreementKey2019,
            VerificationMethodType::X25519KeyAgreementKey2020,
            [0xec, 0x01],
            [0x82, 0x26],
        ),
        (
            Curve::Ed25519,
            VerificationMethodType::Ed25519VerificationKey2018,
            VerificationMethodType::Ed25519VerificationKey2020,
            [0xed, 0x01],
            [0x80, 0x26],
        ),
    ] {
        let key = KeyPair::generate(curve).unwrap();
        let (x, d) = raw(&key);
        let pair: Vec<u8> = d.iter().chain(x.iter()).cloned().collect();
        let expected_public = parse(&key.public_jwk().unwrap()).unwrap();
        let expected_secret = parse(&key.jwk).unwrap();

        let m = method("did:example:a#1", t2019, VerificationMaterial::Base58(bs58::encode(&x).into_string()));
        let got = m.as_key_pair().unwrap();
        assert_eq!(got.curve, curve);
        assert_eq!(parse(&got.jwk).unwrap(), expected_public);

        let m = method("did:example:a#1", t2020, VerificationMaterial::Multibase(multibase(public, &x)));
        let got = m.as_key_pair().unwrap();
        assert_eq!(parse(&got.jwk).unwrap(), expected_public);

        let (s2019, s2020) = match curve {
            Curve::X25519 => (SecretType::X25519KeyAgreementKey2019, SecretType::X25519KeyAgreementKey2020),
            _ => (SecretType::Ed25519VerificationKey2018, SecretType::Ed25519VerificationKey2020),
        };
        let s = secret("did:example:a#1", s2019, SecretMaterial::Base58(bs58::encode(&pair).into_string()));
        assert_eq!(parse(&s.as_key_pair().unwrap().jwk).unwrap(), expected_secret);
        let s = secret("did:example:a#1", s2020, SecretMaterial::Multibase(multibase(private, &pair)));
        assert_eq!(parse(&s.as_key_pair().unwrap().jwk).unwrap(), expected_secret);

        let wrong = method("did:example:a#1", t2020, VerificationMaterial::Multibase(multibase(private, &x)));
        let err = wrong.as_key_pair().unwrap_err();
        assert_eq!(err.kind(), ErrorKind::IllegalArgument);
        assert_eq!(err.to_string(), "Illegal argument: Wrong codec in multibase key material");
        let short = secret("did:example:a#1", s2019, SecretMaterial::Base58(bs58::encode(&x).into_string()));
        assert_eq!(
            short.as_key_pair().unwrap_err().to_string(),
            "Malformed: Wrong length of key material"
        );
    }
}

#[test]
fn key_material_that_cannot_be_read_is_refused() {
    let m = method(
        "did:example:a#1",
        VerificationMethodType::X25519KeyAgreementKey2020,
        VerificationMaterial::Multibase("Qabc".to_string()),
    );
    assert_eq!(
        m.as_key_pair().unwrap_err().to_string(),
        "Illegal argument: Multibase must start with 'z'"
    );
    let m = method(
        "did:example:a#1",
        VerificationMethodType::X25519KeyAgreementKey2020,
        VerificationMaterial::Multibase("z0".to_string()),
    );
    assert_eq!(m.as_key_pair().unwrap_err().kind(), ErrorKind::Malformed);
    let m = method(
        "did:example:a#1",
        VerificationMethodType::X25519KeyAgreementKey2020,
        VerificationMaterial::Multibase("z1111".to_string()),
    );
    assert_eq!(
        m.as_key_pair().unwrap_err().to_string(),
        "Illegal argument: Unknown codec in multibase key material"
    );
    let m = method(
        "did:example:a#1",
        VerificationMethodType::X25519KeyAgreementKey2019,
        VerificationMaterial::Base58("0".to_string()),
    );
    assert_eq!(m.as_key_pair().unwrap_err().kind(), ErrorKind::Malformed);
    let m = method(
        "did:example:a#1",
        VerificationMethodType::Other,
        VerificationMaterial::Hex("00".to_string()),
    );
    let err = m.as_key_pair().unwrap_err();
    assert_eq!(err.kind(), ErrorKind::Unsupported);
    let m = method(
        "did:example:a#1",
        VerificationMethodType::X25519KeyAgreementKey2019,
        VerificationMaterial::JWK("{}".to_string()),
    );
    assert_eq!(m.as_key_pair().unwrap_err().kind(), ErrorKind::Unsupported);
    let s = secret("did:example:a#1", SecretType::Other, SecretMaterial::Other("{}".to_string()));
    assert_eq!(
        s.as_key_pair().unwrap_err().to_string(),
        "Unsupported: Unsupported secret type and material"
    );
}

#[test]
fn messages_go_between_parties_with_keys_in_multibase() {
    let alice_key = KeyPair::generate(Curve::X25519).unwrap();
    let bob_key = KeyPair::generate(Curve::X25519).unwrap();
    let (ax, ad) = raw(&alice_key);
    let (bx, bd) = raw(&bob_key);
    let a_pair: Vec<u8> = ad.iter().chain(ax.iter()).cloned().collect();
    let b_pair: Vec<u8> = bd.iter().chain(bx.iter()).cloned().collect();
    let doc = |did: &str, x: &[u8]| DIDDoc {
        did: did.to_string(),
        key_agreements: vec![format!("{}#k", did)],
        authentications: vec![],
        verification_methods: vec![method(
            &format!("{}#k", did),
            VerificationMethodType::X25519KeyAgreementKey2020,
            VerificationMaterial::Multibase(multibase([0xec, 0x01], x)),
        )],
        services: vec![],
    };
    let did_resolver =
        ExampleDIDResolver::new(vec![doc("did:example:alice", &ax), doc("did:example:bob", &bx)]);
    let alice = ExampleSecretsResolver::new(vec![secret(
        "did:example:alice#k",
        SecretType::X25519KeyAgreementKey2020,
        SecretMaterial::Multibase(multibase([0x82, 0x26], &a_pair)),
    )]);
    let bob = ExampleSecretsResolver::new(vec![secret(
        "did:example:bob#k",
        SecretType::X25519KeyAgreementKey2019,
        SecretMaterial::Base58(bs58::encode(&b_pair).into_string()),
    )]);
    let msg = Message::build("1".to_owned(), "t".to_owned(), Json::Null).finalize();
    let (packed, _) = msg
        .pack_encrypted(
            "did:example:bob",
            Some("did:example:alice"),
            None,
            &did_resolver,
            &alice,
            &PackEncryptedOptions::default(),
        )
        .unwrap();
    let (unpacked, metadata) =
        Message::unpack(&packed, &did_resolver, &bob, &UnpackOptions::default()).unwrap();
    assert_eq!(unpacked, msg);
    assert_eq!(metadata.encrypted_from_kid, Some("did:example:alice#k".to_string()));
}

#[test]
fn keys_tell_what_they_can_do() {
    let ed = KeyPair::generate(Curve::Ed25519).unwrap();
    assert!(ed.can_sign(SignAlg::EdDSA));
    assert!(!ed.can_sign(SignAlg::ES256));
    assert!(!ed.can_agree());
    let p = KeyPair::generate(Curve::P256).unwrap();
    assert!(p.can_sign(SignAlg::ES256));
    assert!(p.can_agree());
    assert!(p.can_agree_with(&KeyPair::generate(Curve::P256).unwrap()));
    assert!(!p.can_agree_with(&KeyPair::generate(Curve::X25519).unwrap()));
    let k = KeyPair::generate(Curve::K256).unwrap();
    assert!(k.can_sign(SignAlg::ES256K));
    assert!(!k.can_agree());
    assert_eq!(KeyPair::generate(Curve::P384).unwrap().sign_alg(), None);
}

#[test]
fn documents_tell_what_a_key_is_for() {
    let doc = DIDDoc {
        did: "did:example:a".to_string(),
        key_agreements: vec!["did:example:a#x".to_string(), "did:example:a#both".to_string()],
        authentications: vec!["did:example:a#e".to_string(), "did:example:a#both".to_string()],
        verification_methods: vec![],
        services: vec![],
    };
    assert_eq!(doc.classify_purpose("did:example:a#x"), Some(KeyPurpose::KeyAgreement));
    assert_eq!(doc.classify_purpose("did:example:a#e"), Some(KeyPurpose::Authentication));
    assert_eq!(doc.classify_purpose("did:example:a#both"), Some(KeyPurpose::KeyAgreement));
    assert_eq!(doc.classify_purpose("did:example:a#none"), None);
    assert!(doc.find_method("did:example:a#x").is_none());
    assert_eq!(doc.duplicate(), doc);
}
