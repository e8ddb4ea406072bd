use didcomm::crypto::Curve;
use didcomm::did::resolvers::ExampleDIDResolver;
use didcomm::did::{DIDDoc, VerificationMaterial, VerificationMethod, VerificationMethodType};
use didcomm::error::ErrorKind;
use didcomm::json::Json;
use didcomm::jwk::KeyPair;
use didcomm::message::from_prior::split_compact;
use didcomm::message::{Attachment, FromPrior, Message};
use didcomm::protocols::routing::{try_parse_forward, FORWARD_MSG_TYPE};
use didcomm::secrets::resolvers::ExampleSecretsResolver;
use didcomm::secrets::{Secret, SecretMaterial, SecretType};

const CHARLIE: &str = "did:example:charlie";
const ALICE: &str = "did:example:alice";
const CHARLIE_KEY: &str = "did:example:charlie#key-1";

fn resolvers(curve: Curve) -> (ExampleDIDResolver, ExampleSecretsResolver) {
    let key = KeyPair::generate(curve).unwrap();
    let doc = DIDDoc {
        did: CHARLIE.to_string(),
        key_agreements: vec![],
        authentications: vec![CHARLIE_KEY.to_string()],
        verification_methods: vec![VerificationMethod {
            id: CHARLIE_KEY.to_string(),
            type_: VerificationMethodType::JsonWebKey2020,
            controller: CHARLIE.to_string(),
            verification_material: VerificationMaterial::JWK(key.public_jwk().unwrap()),
        }],
        services: vec![],
    };
    let secret = Secret {
        id: CHARLIE_KEY.to_string(),
        type_: SecretType::JsonWebKey2020,
        secret_material: SecretMaterial::JWK(key.jwk.clone()),
    };
    (ExampleDIDResolver::new(vec![doc]), ExampleSecretsResolver::new(vec![secret]))
}

fn assertion() -> FromPrior {
    FromPrior {
        iss: CHARLIE.to_string(),
        sub: ALICE.to_string(),
        aud: Some("123".to_string()),
        exp: Some(1234),
        nbf: Some(12345),
        iat: Some(123456),
        jti: Some("dfg".to_string()),
    }
}

#[test]
fn from_prior_unpack_works() {
    for curve in [Curve::Ed25519, Curve::P256, Curve::K256] {
        let (did_resolver, secrets_resolver) = resolvers(curve);
        for issuer_kid in [None, Some(CHARLIE_KEY)] {
            let (token, kid) = assertion()
                .pack(issuer_kid, &did_resolver, &secrets_resolver)
                .expect("Unable to pack FromPrior");
            assert_eq!(kid, CHARLIE_KEY);
            assert_eq!(token.matches('.').count(), 2);
            let (unpacked, kid) =
                FromPrior::unpack(&token, &did_resolver).expect("Unable to unpack FromPrior");
            assert_eq!(unpacked, assertion());
            assert_eq!(kid, CHARLIE_KEY);
        }
    }
}

#[test]
fn from_prior_with_the_least_members_survives() {
    let (did_resolver, secrets_resolver) = resolvers(Curve::Ed25519);
    let least = FromPrior {
        iss: CHARLIE.to_string(),
        sub: ALICE.to_string(),
        aud: None,
        exp: None,
        nbf: None,
        iat: None,
        jti: None,
    };
    let (token, _) = least.pack(None, &did_resolver, &secrets_resolver).unwrap();
    assert_eq!(FromPrior::unpack(&token, &did_resolver).unwrap().0, least);
}

#[test]
fn from_prior_unpack_works_wrong_signature() {
    let (did_resolver, secrets_resolver) = resolvers(Curve::Ed25519);
    let (token, _) = assertion().pack(None, &did_resolver, &secrets_resolver).unwrap();
    let (_, others) = resolvers(Curve::Ed25519);
    let (forged, _) = assertion().pack(None, &did_resolver, &others).unwrap();
    assert_ne!(token, forged);
    let err = FromPrior::unpack(&forged, &did_resolver).unwrap_err();
    assert_eq!(err.kind(), ErrorKind::Malformed);
    assert_eq!(err.to_string(), "Malformed: Wrong signature");
}

#[test]
fn from_prior_unpack_refuses_what_is_no_token() {
    let (did_resolver, secrets_resolver) = resolvers(Curve::Ed25519);
    let err = FromPrior::unpack("invalid", &did_resolver).unwrap_err();
    assert_eq!(err.to_string(), "Malformed: Unable to parse compactly serialized JWS");
    let err = FromPrior::unpack("a.b.c.d", &did_resolver).unwrap_err();
    assert_eq!(err.to_string(), "Malformed: Unable to parse compactly serialized JWS");
    let err = FromPrior::unpack("invalid.e30.e30", &did_resolver).unwrap_err();
    assert_eq!(
        err.to_string(),
        "Malformed: Unable decode header: Invalid last symbol 100, offset 6."
    );
    let err = FromPrior::unpack("e30.e30.e30", &did_resolver).unwrap_err();
    assert_eq!(err.to_string(), "Malformed: Unable parse header: missing field 'typ'");

    let (token, _) = assertion().pack(None, &did_resolver, &secrets_resolver).unwrap();
    let nobody = ExampleDIDResolver::new(vec![]);
    let err = FromPrior::unpack(&token, &nobody).unwrap_err();
    assert_eq!(err.kind(), ErrorKind::DIDNotResolved);
}

#[test]
fn from_prior_pack_checks_the_assertion() {
    let (did_resolver, secrets_resolver) = resolvers(Curve::Ed25519);
    let pack = |fp: FromPrior, kid: Option<&str>| {
        fp.pack(kid, &did_resolver, &secrets_resolver).unwrap_err()
    };
    let err = pack(FromPrior { iss: "invalid".into(), ..assertion() }, None);
    assert_eq!(err.to_string(), "Malformed: from_prior iss is not a valid DID");
    let err = pack(FromPrior { iss: CHARLIE_KEY.into(), ..assertion() }, None);
    assert_eq!(err.to_string(), "Malformed: from_prior iss is not a valid DID");
    let err = pack(FromPrior { sub: "invalid".into(), ..assertion() }, None);
    assert_eq!(err.to_string(), "Malformed: from_prior sub is not a valid DID");
    let err = pack(FromPrior { sub: CHARLIE.into(), ..assertion() }, None);
    assert_eq!(err.to_string(), "Malformed: from_prior iss and sub values must not be equal");
    let err = pack(assertion(), Some(CHARLIE));
    assert_eq!(err.kind(), ErrorKind::IllegalArgument);
    let err = pack(assertion(), Some("did:example:alice#key-1"));
    assert_eq!(
        err.to_string(),
        "Illegal argument: from_prior issuer kid does not belong to from_prior iss"
    );
    let err = pack(assertion(), Some("did:example:charlie#unknown"));
    assert_eq!(err.kind(), ErrorKind::DIDUrlNotFound);
}

#[test]
fn compact_tokens_have_three_parts() {
    assert_eq!(
        split_compact("a.b.c"),
        Some(("a".to_string(), "b".to_string(), "c".to_string()))
    );
    assert_eq!(split_compact(".."), Some((String::new(), String::new(), String::new())));
    assert_eq!(split_compact("a.b"), None);
    assert_eq!(split_compact("a.b.c.d"), None);
    assert_eq!(split_compact(""), None);
}

fn forward(type_: &str, body: Json, attachment: Option<Attachment>) -> Message {
    let builder = Message::build("1".to_owned(), type_.to_owned(), body);
    match attachment {
        Some(a) => builder.attachment(a).finalize(),
        None => builder.finalize(),
    }
}

#[test]
fn forward_messages_are_told_from_others() {
    let next = Json::Object(vec![("next".to_string(), Json::Str("did:example:mediator".into()))]);
    let inner = Json::Object(vec![("ciphertext".to_string(), Json::Str("abc".into()))]);
    let attached = || Attachment::json("a".to_owned(), inner.clone()).finalize();

    let msg = forward(FORWARD_MSG_TYPE, next.clone(), Some(attached()));
    let parsed = try_parse_forward(&msg).expect("a forward");
    assert_eq!(parsed.msg, &msg);
    assert_eq!(parsed.next, "did:example:mediator");
    assert_eq!(parsed.forwarded_msg, inner);

    assert_eq!(try_parse_forward(&forward("example/v1", next.clone(), Some(attached()))), None);
    assert_eq!(try_parse_forward(&forward(FORWARD_MSG_TYPE, Json::Null, Some(attached()))), None);
    assert_eq!(try_parse_forward(&forward(FORWARD_MSG_TYPE, next.clone(), None)), None);
    let base64 = Attachment::base64("a".to_owned(), "abc".to_owned()).finalize();
    assert_eq!(try_parse_forward(&forward(FORWARD_MSG_TYPE, next, Some(base64))), None);
}

#[test]
fn unpacking_a_token_asks_for_the_document_of_its_issuer() {
    let (did_resolver, secrets_resolver) = resolvers(Curve::Ed25519);
    let (token, _) = assertion().pack(None, &did_resolver, &secrets_resolver).unwrap();
    assert_eq!(FromPrior::unpack_documents(&token), vec![CHARLIE.to_string()]);
    let nothing: Vec<String> = vec![];
    assert_eq!(FromPrior::unpack_documents("no token"), nothing);
    assert_eq!(FromPrior::unpack_documents("a.b.c"), nothing);
}
