use didcomm::algorithms::{AnonCryptAlg, AuthCryptAlg, SignAlg};
use didcomm::crypto::Curve;
use didcomm::did::resolvers::{ExampleDIDResolver, UnreachableDIDResolver};
use didcomm::did::{
    DIDDoc, DIDResolver, VerificationMaterial, VerificationMethod, VerificationMethodType,
};
use didcomm::encoding::{decode, encode_text, text_from_utf8};
use didcomm::error::{Error, ErrorKind};
use didcomm::json::{parse, to_text, DecimalText, Json};
use didcomm::jwk::KeyPair;
use didcomm::message::needs::{
    pack_documents, peel, sender_needs, signer_needs, unpack_needs,
};
use didcomm::message::pack_encrypted::PackEncryptedOptions;
use didcomm::message::unpack::{UnpackMetadata, UnpackOptions};
use didcomm::message::{Attachment, Message};
use didcomm::secrets::resolvers::{ExampleSecretsResolver, UnreachableSecretsResolver};
use didcomm::secrets::{Secret, SecretMaterial, SecretType, SecretsResolver};

const ALICE_DID: &str = "did:example:alice";
const BOB_DID: &str = "did:example:bob";
const ALICE_X: &str = "did:example:alice#key-x25519-1";
const ALICE_P: &str = "did:example:alice#key-p256-1";
const ALICE_KEY_1: &str = "did:example:alice#key-1";
const ALICE_KEY_2: &str = "did:example:alice#key-2";
const ALICE_KEY_3: &str = "did:example:alice#key-3";
const X: [&str; 3] = ["key-x25519-1", "key-x25519-2", "key-x25519-3"];
const P: [&str; 2] = ["key-p256-1", "key-p256-2"];
const ALL_ANON: [AnonCryptAlg; 3] = [
    AnonCryptAlg::A256cbcHs512EcdhEsA256kw,
    AnonCryptAlg::A256gcmEcdhEsA256kw,
    AnonCryptAlg::Xc20pEcdhEsA256kw,
];

struct World {
    did_resolver: ExampleDIDResolver,
    alice_secrets: ExampleSecretsResolver,
    bob_secrets: ExampleSecretsResolver,
}

fn vm(kid: &str, did: &str, key: &KeyPair) -> VerificationMethod {
    VerificationMethod {
        id: kid.to_string(),
        type_: VerificationMethodType::JsonWebKey2020,
        controller: did.to_string(),
        verification_material: VerificationMaterial::JWK(key.public_jwk().unwrap()),
    }
}

fn sk(kid: &str, key: &KeyPair) -> Secret {
    Secret {
        id: kid.to_string(),
        type_: SecretType::JsonWebKey2020,
        secret_material: SecretMaterial::JWK(key.jwk.clone()),
    }
}

fn person(
    did: &str,
    agreements: &[(&str, Curve)],
    auths: &[(&str, Curve)],
) -> (DIDDoc, Vec<Secret>) {
    let mut doc = DIDDoc {
        did: did.to_string(),
        key_agreements: vec![],
        authentications: vec![],
        verification_methods: vec![],
        services: vec![],
    };
    let mut secrets = vec![];
    for (name, curve) in agreements {
        let key = KeyPair::generate(*curve).unwrap();
        let kid = format!("{}#{}", did, name);
        doc.key_agreements.push(kid.clone());
        doc.verification_methods.push(vm(&kid, did, &key));
        secrets.push(sk(&kid, &key));
    }
    for (name, curve) in auths {
        let key = KeyPair::generate(*curve).unwrap();
        let kid = format!("{}#{}", did, name);
        doc.authentications.push(kid.clone());
        doc.verification_methods.push(vm(&kid, did, &key));
        secrets.push(sk(&kid, &key));
    }
    (doc, secrets)
}

fn world() -> World {
    let (mut alice_doc, mut alice_secrets) = person(
        ALICE_DID,
        &[("key-x25519-1", Curve::X25519), ("key-p256-1", Curve::P256)],
        &[
            ("key-1", Curve::Ed25519),
            ("key-2", Curve::P256),
            ("key-3", Curve::K256),
            ("key-p256", Curve::P256),
        ],
    );
    alice_doc.key_agreements.push(format!("{}#key-x25519-not-in-secrets-1", ALICE_DID));
    alice_doc.authentications.push(format!("{}#key-not-in-secrets-1", ALICE_DID));
    let spare = KeyPair::generate(Curve::Ed25519).unwrap();
    alice_doc.verification_methods.push(vm(
        &format!("{}#key-not-in-secrets-1", ALICE_DID),
        ALICE_DID,
        &spare,
    ));
    alice_secrets.truncate(6);
    let (bob_doc, bob_secrets) = person(
        BOB_DID,
        &[
            ("key-x25519-1", Curve::X25519),
            ("key-x25519-2", Curve::X25519),
            ("key-x25519-3", Curve::X25519),
            ("key-p256-1", Curve::P256),
            ("key-p256-2", Curve::P256),
        ],
        &[],
    );
    World {
        did_resolver: ExampleDIDResolver::new(vec![alice_doc, bob_doc]),
        alice_secrets: ExampleSecretsResolver::new(alice_secrets),
        bob_secrets: ExampleSecretsResolver::new(bob_secrets),
    }
}

fn no_dids() -> ExampleDIDResolver {
    ExampleDIDResolver::new(vec![])
}

fn simple_message() -> Message {
    Message::build(
        "example-1".to_owned(),
        "example/v1".to_owned(),
        Json::Str("example-body".to_owned()),
    )
    .to(BOB_DID.to_owned())
    .from(ALICE_DID.to_owned())
    .finalize()
}

fn bob_kids(names: &[&str]) -> Vec<String> {
    names.iter().map(|n| format!("{}#{}", BOB_DID, n)).collect()
}

fn no_forward(options: PackEncryptedOptions) -> PackEncryptedOptions {
    PackEncryptedOptions { forward: false, ..options }
}

fn plaintext_metadata() -> UnpackMetadata {
    UnpackMetadata {
        anonymous_sender: false,
        authenticated: false,
        non_repudiation: false,
        encrypted: false,
        enc_alg_auth: None,
        enc_alg_anon: None,
        sign_alg: None,
        encrypted_from_kid: None,
        encrypted_to_kids: None,
        sign_from: None,
        signed_message: None,
        re_wrapped_in_forward: false,
    }
}

fn verify_unpack(w: &World, msg: &str, exp_msg: &Message, exp_metadata: &UnpackMetadata) {
    let (msg, metadata) =
        Message::unpack(msg, &w.did_resolver, &w.bob_secrets, &UnpackOptions::default())
            .expect("unpack is ok.");
    assert_eq!(&msg, exp_msg);
    assert_eq!(&metadata, exp_metadata);
}

fn verify_unpack_undeterministic(
    w: &World,
    msg: &str,
    exp_msg: &Message,
    exp_metadata: &UnpackMetadata,
) {
    let (msg, mut metadata) =
        Message::unpack(msg, &w.did_resolver, &w.bob_secrets, &UnpackOptions::default())
            .expect("unpack is ok.");
    assert_eq!(&msg, exp_msg);
    metadata.signed_message = exp_metadata.signed_message.clone();
    assert_eq!(&metadata, exp_metadata);
}

fn unpack_error(w: &World, msg: &str) -> Error {
    Message::unpack(msg, &w.did_resolver, &w.bob_secrets, &UnpackOptions::default())
        .expect_err("res is ok")
}

fn verify_unpack_malformed(w: &World, msg: &str, exp_error_str: &str) {
    let err = unpack_error(w, msg);
    assert_eq!(err.kind(), ErrorKind::Malformed);
    assert_eq!(err.to_string(), exp_error_str);
}

fn members(text: &str) -> Vec<(String, Json)> {
    match parse(text).unwrap() {
        Json::Object(members) => members,
        _ => panic!("no object"),
    }
}

fn set_member(members: &mut Vec<(String, Json)>, field: &str, value: Json) {
    members.retain(|(name, _)| name != field);
    members.push((field.to_string(), value));
}

fn update_field(msg: &str, field: &str, value: &str) -> String {
    let mut m = members(msg);
    set_member(&mut m, field, Json::Str(value.to_string()));
    to_text(&Json::Object(m))
}

fn remove_field(msg: &str, field: &str) -> String {
    let mut m = members(msg);
    m.retain(|(name, _)| name != field);
    to_text(&Json::Object(m))
}

fn protected_members(msg: &str) -> Vec<(String, Json)> {
    let protected = parse(msg).unwrap().get_text("protected").unwrap();
    members(&text_from_utf8(decode(&protected).unwrap()).unwrap())
}

fn with_protected(msg: &str, protected: Vec<(String, Json)>) -> String {
    update_field(msg, "protected", &encode_text(&to_text(&Json::Object(protected))))
}

fn update_protected_field(msg: &str, field: &str, value: &str) -> String {
    let mut m = protected_members(msg);
    set_member(&mut m, field, Json::Str(value.to_string()));
    with_protected(msg, m)
}

fn remove_protected_field(msg: &str, field: &str) -> String {
    let mut m = protected_members(msg);
    m.retain(|(name, _)| name != field);
    with_protected(msg, m)
}

fn corrupt(text: &str) -> String {
    let first = text.chars().next().unwrap();
    let other = if first == 'A' { 'B' } else { 'A' };
    format!("{}{}", other, &text[1..])
}

fn corrupt_field(msg: &str, field: &str) -> String {
    let value = parse(msg).unwrap().get_text(field).unwrap();
    update_field(msg, field, &corrupt(&value))
}

fn pack_anon(w: &World, to: &str, alg: AnonCryptAlg) -> String {
    simple_message()
        .pack_encrypted(
            to,
            None,
            None,
            &w.did_resolver,
            &w.alice_secrets,
            &no_forward(PackEncryptedOptions { enc_alg_anon: alg, ..PackEncryptedOptions::default() }),
        )
        .expect("Unable pack_encrypted")
        .0
}

fn pack_auth(w: &World, to: &str, from: &str) -> String {
    simple_message()
        .pack_encrypted(
            to,
            Some(from),
            None,
            &w.did_resolver,
            &w.alice_secrets,
            &no_forward(PackEncryptedOptions::default()),
        )
        .expect("Unable pack_encrypted")
        .0
}

fn pack_signed(w: &World, sign_by: &str) -> String {
    simple_message()
        .pack_signed(sign_by, &w.did_resolver, &w.alice_secrets)
        .expect("Unable pack_signed")
        .0
}

const PLAINTEXT_MSG_SIMPLE: &str = r#"
{
    "id": "1234567890",
    "typ": "application/didcomm-plain+json",
    "type": "http://example.com/protocols/lets_do_lunch/1.0/proposal",
    "from": "did:example:alice",
    "to": ["did:example:bob"],
    "created_time": 1516269022,
    "expires_time": 1516385931,
    "body": {"messagespecificattribute": "and its value"}
}
"#;

const PLAINTEXT_MSG_MINIMAL: &str = r#"
{
    "id": "1234567890",
    "typ": "application/didcomm-plain+json",
    "type": "http://example.com/protocols/lets_do_lunch/1.0/proposal",
    "body": {}
}
"#;

const PLAINTEXT_MSG_ATTACHMENTS: &str = r#"
{
    "id": "1234567890",
    "typ": "application/didcomm-plain+json",
    "type": "http://example.com/protocols/lets_do_lunch/1.0/proposal",
    "from": "did:example:alice",
    "to": ["did:example:bob", "did:example:bob"],
    "body": {"messagespecificattribute": "and its value"},
    "my_header": [1, 2],
    "attachments": [
        {"id": "23", "data": {"base64": "qwerty"}},
        {"id": "24", "data": {"json": {"foo": "bar", "links": [2, 3]}}, "format": "json"},
        {"id": "25", "data": {"links": ["1", "2", "3"], "hash": "qwerty"}, "byte_count": 7}
    ]
}
"#;

fn body() -> Json {
    Json::Object(vec![(
        "messagespecificattribute".to_string(),
        Json::Str("and its value".to_string()),
    )])
}

fn message_simple() -> Message {
    Message::build(
        "1234567890".to_owned(),
        "http://example.com/protocols/lets_do_lunch/1.0/proposal".to_owned(),
        body(),
    )
    .from(ALICE_DID.to_owned())
    .to(BOB_DID.to_owned())
    .created_time(1516269022)
    .expires_time(1516385931)
    .finalize()
}

fn message_minimal() -> Message {
    Message::build(
        "1234567890".to_owned(),
        "http://example.com/protocols/lets_do_lunch/1.0/proposal".to_owned(),
        Json::Object(vec![]),
    )
    .finalize()
}

fn message_attachments() -> Message {
    Message::build(
        "1234567890".to_owned(),
        "http://example.com/protocols/lets_do_lunch/1.0/proposal".to_owned(),
        body(),
    )
    .from(ALICE_DID.to_owned())
    .to(BOB_DID.to_owned())
    .to(BOB_DID.to_owned())
    .header("my_header".to_owned(), Json::Array(vec![Json::UInt(1), Json::UInt(2)]))
    .attachment(Attachment::base64("23".to_owned(), "qwerty".to_owned()).finalize())
    .attachment(
        Attachment::json(
            "24".to_owned(),
            Json::Object(vec![
                ("foo".to_string(), Json::Str("bar".to_string())),
                ("links".to_string(), Json::Array(vec![Json::UInt(2), Json::UInt(3)])),
            ]),
        )
        .format("json".to_owned())
        .finalize(),
    )
    .attachment(
        Attachment::links(
            "25".to_owned(),
            vec!["1".to_owned(), "2".to_owned(), "3".to_owned()],
            "qwerty".to_owned(),
        )
        .byte_count(7)
        .finalize(),
    )
    .finalize()
}

#[test]
fn unpack_works_plaintext() {
    let w = world();
    verify_unpack(&w, PLAINTEXT_MSG_SIMPLE, &message_simple(), &plaintext_metadata());
    verify_unpack(&w, PLAINTEXT_MSG_MINIMAL, &message_minimal(), &plaintext_metadata());
    verify_unpack(&w, PLAINTEXT_MSG_ATTACHMENTS, &message_attachments(), &plaintext_metadata());
}

#[test]
fn unpack_works_plaintext_2way() {
    let w = world();
    for msg in [simple_message(), message_simple(), message_minimal(), message_attachments()] {
        let packed = msg.pack_plaintext(&no_dids()).expect("Unable pack_plaintext");
        verify_unpack(&w, &packed, &msg, &plaintext_metadata());
    }
}

#[test]
fn attachments_survive_the_round_trip() {
    let w = world();
    let msg = Message::build("a".to_owned(), "t".to_owned(), Json::Null)
        .attachment(
            Attachment::base64("1".to_owned(), "SGVsbG8gd29ybGQ=".to_owned())
                .description("d".to_owned())
                .filename("f.txt".to_owned())
                .media_type("text/plain".to_owned())
                .lastmod_time(1)
                .jws("e30.e30.c2ln".to_owned())
                .finalize(),
        )
        .attachment(
            Attachment::json(
                "2".to_owned(),
                Json::Array(vec![Json::Bool(false), Json::Decimal(DecimalText::new("1.5").unwrap()), Json::Int(-3)]),
            )
            .finalize(),
        )
        .attachment(
            Attachment::links("3".to_owned(), vec!["https://a/b".to_owned()], "hash".to_owned())
                .finalize(),
        )
        .finalize();
    let packed = pack_anon_of(&w, &msg);
    let (unpacked, _) =
        Message::unpack(&packed, &w.did_resolver, &w.bob_secrets, &UnpackOptions::default())
            .unwrap();
    assert_eq!(unpacked.attachments, msg.attachments);
    assert_eq!(unpacked, msg);
}

fn pack_anon_of(w: &World, msg: &Message) -> String {
    msg.pack_encrypted(
        BOB_DID,
        None,
        None,
        &w.did_resolver,
        &w.alice_secrets,
        &no_forward(PackEncryptedOptions::default()),
    )
    .unwrap()
    .0
}

fn signed_2way(w: &World, sign_by: &str, sign_by_kid: &str, sign_alg: SignAlg) {
    let msg = pack_signed(w, sign_by);
    verify_unpack(
        w,
        &msg,
        &simple_message(),
        &UnpackMetadata {
            sign_from: Some(sign_by_kid.into()),
            sign_alg: Some(sign_alg),
            signed_message: Some(msg.clone()),
            authenticated: true,
            non_repudiation: true,
            ..plaintext_metadata()
        },
    );
}

#[test]
fn unpack_works_signed_2way() {
    let w = world();
    signed_2way(&w, ALICE_DID, ALICE_KEY_1, SignAlg::EdDSA);
    signed_2way(&w, ALICE_KEY_1, ALICE_KEY_1, SignAlg::EdDSA);
    signed_2way(&w, ALICE_KEY_2, ALICE_KEY_2, SignAlg::ES256);
    signed_2way(&w, ALICE_KEY_3, ALICE_KEY_3, SignAlg::ES256K);
}

#[test]
fn signed_with_ed25519_key_names_signer_and_algorithm() {
    let w = world();
    let (packed, pack_metadata) = simple_message()
        .pack_signed(ALICE_KEY_1, &w.did_resolver, &w.alice_secrets)
        .unwrap();
    assert_eq!(pack_metadata.sign_by_kid, ALICE_KEY_1);
    let (_, metadata) =
        Message::unpack(&packed, &w.did_resolver, &w.bob_secrets, &UnpackOptions::default())
            .unwrap();
    assert_eq!(metadata.sign_alg, Some(SignAlg::EdDSA));
    assert_eq!(metadata.sign_from, Some(ALICE_KEY_1.to_string()));
}

#[test]
fn signing_is_a_function_of_key_and_message() {
    let w = world();
    assert_eq!(pack_signed(&w, ALICE_KEY_1), pack_signed(&w, ALICE_KEY_1));
    assert_eq!(pack_signed(&w, ALICE_KEY_2), pack_signed(&w, ALICE_KEY_2));
    assert_ne!(pack_signed(&w, ALICE_KEY_1), pack_signed(&w, ALICE_KEY_2));
}

fn anoncrypted_2way(to: &str, to_kids: &[&str], enc_alg: AnonCryptAlg) {
    let w = world();
    let packed = pack_anon(&w, to, enc_alg);
    assert!(packed.contains("ciphertext"));
    verify_unpack(
        &w,
        &packed,
        &simple_message(),
        &UnpackMetadata {
            anonymous_sender: true,
            encrypted: true,
            enc_alg_anon: Some(enc_alg),
            encrypted_to_kids: Some(bob_kids(to_kids)),
            ..plaintext_metadata()
        },
    );
}

#[test]
fn unpack_works_anoncrypted_2way() {
    for alg in ALL_ANON {
        anoncrypted_2way(BOB_DID, &X, alg);
        anoncrypted_2way("did:example:bob#key-x25519-2", &["key-x25519-2"], alg);
        anoncrypted_2way("did:example:bob#key-p256-1", &["key-p256-1"], alg);
        anoncrypted_2way("did:example:bob#key-p256-2", &["key-p256-2"], alg);
    }
}

#[test]
fn pack_encrypted_works_anoncrypted_signed() {
    let w = world();
    let cases = [
        (BOB_DID, &X[..], ALICE_DID, ALICE_KEY_1, SignAlg::EdDSA),
        ("did:example:bob#key-x25519-2", &["key-x25519-2"][..], ALICE_KEY_1, ALICE_KEY_1, SignAlg::EdDSA),
        ("did:example:bob#key-p256-1", &["key-p256-1"][..], ALICE_KEY_2, ALICE_KEY_2, SignAlg::ES256),
        ("did:example:bob#key-p256-1", &["key-p256-1"][..], ALICE_KEY_3, ALICE_KEY_3, SignAlg::ES256K),
    ];
    for (to, to_kids, sign_by, sign_by_kid, sign_alg) in cases {
        for enc_alg in ALL_ANON {
            let (packed, _) = simple_message()
                .pack_encrypted(
                    to,
                    None,
                    Some(sign_by),
                    &w.did_resolver,
                    &w.alice_secrets,
                    &no_forward(PackEncryptedOptions {
                        enc_alg_anon: enc_alg,
                        ..PackEncryptedOptions::default()
                    }),
                )
                .expect("Unable pack_encrypted");
            verify_unpack_undeterministic(
                &w,
                &packed,
                &simple_message(),
                &UnpackMetadata {
                    sign_from: Some(sign_by_kid.into()),
                    sign_alg: Some(sign_alg),
                    signed_message: None,
                    anonymous_sender: true,
                    authenticated: true,
                    non_repudiation: true,
                    encrypted: true,
                    enc_alg_anon: Some(enc_alg),
                    encrypted_to_kids: Some(bob_kids(to_kids)),
                    ..plaintext_metadata()
                },
            );
        }
    }
}

fn authcrypted_2way(
    to: &str,
    to_kids: &[&str],
    from: &str,
    from_kid: &str,
    protect_sender: bool,
    enc_alg_anon: AnonCryptAlg,
    sign_by: Option<(&str, &str, SignAlg)>,
) {
    let w = world();
    let msg = simple_message();
    let (packed, pack_metadata) = msg
        .pack_encrypted(
            to,
            Some(from),
            sign_by.map(|s| s.0),
            &w.did_resolver,
            &w.alice_secrets,
            &no_forward(PackEncryptedOptions {
                protect_sender,
                enc_alg_anon,
                ..PackEncryptedOptions::default()
            }),
        )
        .expect("Unable pack_encrypted");
    assert_eq!(pack_metadata.to_kids, bob_kids(to_kids));
    assert_eq!(pack_metadata.from_kid, Some(from_kid.to_string()));
    assert_eq!(pack_metadata.sign_by_kid, sign_by.map(|s| s.1.to_string()));
    assert_eq!(pack_metadata.messaging_service, None);

    let (unpacked, mut metadata) =
        Message::unpack(&packed, &w.did_resolver, &w.bob_secrets, &UnpackOptions::default())
            .expect("unpack is ok.");
    assert_eq!(unpacked, msg);
    if sign_by.is_some() {
        let signed = metadata.signed_message.clone().unwrap();
        assert!(signed.contains("signatures"));
        let (inner, _) =
            Message::unpack(&signed, &w.did_resolver, &w.bob_secrets, &UnpackOptions::default())
                .unwrap();
        assert_eq!(inner, msg);
        metadata.signed_message = Some("nondeterministic".into());
    }
    assert_eq!(
        metadata,
        UnpackMetadata {
            sign_from: sign_by.map(|s| s.1.to_string()),
            sign_alg: sign_by.map(|s| s.2),
            signed_message: sign_by.map(|_| "nondeterministic".to_string()),
            anonymous_sender: protect_sender,
            authenticated: true,
            non_repudiation: sign_by.is_some(),
            encrypted: true,
            enc_alg_auth: Some(AuthCryptAlg::A256cbcHs512Ecdh1puA256kw),
            enc_alg_anon: if protect_sender { Some(enc_alg_anon) } else { None },
            encrypted_from_kid: Some(from_kid.into()),
            encrypted_to_kids: Some(bob_kids(to_kids)),
            re_wrapped_in_forward: false,
        }
    );
}

#[test]
fn unpack_works_authcrypted_2way() {
    let alg = AnonCryptAlg::Xc20pEcdhEsA256kw;
    authcrypted_2way(BOB_DID, &X, ALICE_DID, ALICE_X, false, alg, None);
    authcrypted_2way("did:example:bob#key-x25519-2", &["key-x25519-2"], ALICE_DID, ALICE_X, false, alg, None);
    authcrypted_2way("did:example:bob#key-x25519-2", &["key-x25519-2"], ALICE_X, ALICE_X, false, alg, None);
    authcrypted_2way(BOB_DID, &P, ALICE_P, ALICE_P, false, alg, None);
    authcrypted_2way("did:example:bob#key-p256-1", &["key-p256-1"], ALICE_P, ALICE_P, false, alg, None);
    authcrypted_2way("did:example:bob#key-p256-2", &["key-p256-2"], ALICE_P, ALICE_P, false, alg, None);
    authcrypted_2way("did:example:bob#key-p256-2", &["key-p256-2"], ALICE_DID, ALICE_P, false, alg, None);
}

#[test]
fn unpack_works_authcrypted_protected_sender_2way() {
    for alg in ALL_ANON {
        authcrypted_2way(BOB_DID, &X, ALICE_DID, ALICE_X, true, alg, None);
        authcrypted_2way(BOB_DID, &P, ALICE_P, ALICE_P, true, alg, None);
    }
    authcrypted_2way(
        "did:example:bob#key-x25519-2",
        &["key-x25519-2"],
        ALICE_DID,
        ALICE_X,
        true,
        AnonCryptAlg::A256cbcHs512EcdhEsA256kw,
        None,
    );
    authcrypted_2way(
        "did:example:bob#key-p256-1",
        &["key-p256-1"],
        ALICE_DID,
        ALICE_P,
        true,
        AnonCryptAlg::Xc20pEcdhEsA256kw,
        None,
    );
    authcrypted_2way(
        "did:example:bob#key-p256-2",
        &["key-p256-2"],
        ALICE_DID,
        ALICE_P,
        true,
        AnonCryptAlg::A256cbcHs512EcdhEsA256kw,
        None,
    );
}

#[test]
fn unpack_works_authcrypted_protected_sender_signed_2way() {
    let alg = AnonCryptAlg::A256cbcHs512EcdhEsA256kw;
    authcrypted_2way(BOB_DID, &X, ALICE_DID, ALICE_X, true, alg, Some((ALICE_KEY_2, ALICE_KEY_2, SignAlg::ES256)));
    authcrypted_2way(BOB_DID, &P, ALICE_P, ALICE_P, true, alg, Some((ALICE_KEY_1, ALICE_KEY_1, SignAlg::EdDSA)));
    authcrypted_2way(BOB_DID, &P, ALICE_P, ALICE_P, true, alg, Some((ALICE_KEY_3, ALICE_KEY_3, SignAlg::ES256K)));
}

#[test]
fn unpack_works_authcrypted_signed_2way() {
    let alg = AnonCryptAlg::Xc20pEcdhEsA256kw;
    authcrypted_2way(BOB_DID, &X, ALICE_DID, ALICE_X, false, alg, Some((ALICE_DID, ALICE_KEY_1, SignAlg::EdDSA)));
    authcrypted_2way("did:example:bob#key-x25519-2", &["key-x25519-2"], ALICE_DID, ALICE_X, false, alg, Some((ALICE_KEY_1, ALICE_KEY_1, SignAlg::EdDSA)));
    authcrypted_2way("did:example:bob#key-x25519-2", &["key-x25519-2"], ALICE_DID, ALICE_X, false, alg, Some((ALICE_KEY_2, ALICE_KEY_2, SignAlg::ES256)));
    authcrypted_2way(BOB_DID, &P, ALICE_P, ALICE_P, false, alg, Some((ALICE_KEY_3, ALICE_KEY_3, SignAlg::ES256K)));
}

#[test]
fn authcrypt_with_protected_sender_signed_by_p256_key() {
    authcrypted_2way(
        BOB_DID,
        &X,
        ALICE_DID,
        ALICE_X,
        true,
        AnonCryptAlg::Xc20pEcdhEsA256kw,
        Some(("did:example:alice#key-p256", "did:example:alice#key-p256", SignAlg::ES256)),
    );
}

#[test]
fn unpack_works_invalid_epk_point() {
    let w = world();
    let packed = pack_anon(&w, "did:example:bob#key-p256-1", AnonCryptAlg::Xc20pEcdhEsA256kw);
    let mut protected = protected_members(&packed);
    let epk = protected.iter().find(|(n, _)| n == "epk").unwrap().1.clone();
    let mut epk = match epk {
        Json::Object(m) => m,
        _ => panic!("no epk"),
    };
    let x = epk.iter().find(|(n, _)| n == "x").unwrap().1.clone();
    set_member(&mut epk, "y", x);
    set_member(&mut protected, "epk", Json::Object(epk));
    verify_unpack_malformed(
        &w,
        &with_protected(&packed, protected),
        "Malformed: Unable instantiate epk: Unable produce jwk: Invalid key data",
    );
}

#[test]
fn unpack_works_malformed_anoncrypt_msg() {
    let w = world();
    let msg = pack_anon(&w, BOB_DID, AnonCryptAlg::Xc20pEcdhEsA256kw);
    let not_valid = "Malformed: Message is not a valid JWE, JWS or JWM";
    verify_unpack_malformed(
        &w,
        &update_field(&msg, "protected", "invalid"),
        "Malformed: Unable decode protected header: Invalid last symbol 100, offset 6.",
    );
    verify_unpack_malformed(&w, &remove_field(&msg, "protected"), not_valid);
    verify_unpack_malformed(
        &w,
        &update_field(&msg, "iv", "invalid"),
        "Malformed: Unable decode iv: Invalid last symbol 100, offset 6.",
    );
    verify_unpack_malformed(&w, &remove_field(&msg, "iv"), not_valid);
    verify_unpack_malformed(
        &w,
        &update_field(&msg, "ciphertext", "invalid"),
        "Malformed: Unable decode ciphertext: Invalid last symbol 100, offset 6.",
    );
    verify_unpack_malformed(&w, &remove_field(&msg, "ciphertext"), not_valid);
    verify_unpack_malformed(
        &w,
        &update_field(&msg, "tag", "invalid"),
        "Malformed: Unable decode tag: Invalid last symbol 100, offset 6.",
    );
    verify_unpack_malformed(&w, &remove_field(&msg, "tag"), not_valid);
    verify_unpack_malformed(&w, &remove_field(&msg, "recipients"), not_valid);
    verify_unpack_malformed(
        &w,
        &update_protected_field(&msg, "apv", "invalid"),
        "Malformed: Unable decode apv: Invalid last symbol 100, offset 6.",
    );
    verify_unpack_malformed(
        &w,
        &remove_protected_field(&msg, "apv"),
        "Malformed: Unable parse protected header: missing field 'apv'",
    );
    verify_unpack_malformed(
        &w,
        &update_protected_field(&msg, "apv", "AAAA"),
        "Malformed: APV mismatch",
    );
}

#[test]
fn unpack_works_malformed_authcrypt_msg() {
    let w = world();
    let msg = pack_auth(&w, BOB_DID, ALICE_DID);
    let not_valid = "Malformed: Message is not a valid JWE, JWS or JWM";
    verify_unpack_malformed(
        &w,
        &update_field(&msg, "protected", "invalid"),
        "Malformed: Unable decode protected header: Invalid last symbol 100, offset 6.",
    );
    verify_unpack_malformed(&w, &remove_field(&msg, "protected"), not_valid);
    verify_unpack_malformed(
        &w,
        &update_field(&msg, "iv", "invalid"),
        "Malformed: Unable decode iv: Invalid last symbol 100, offset 6.",
    );
    verify_unpack_malformed(&w, &remove_field(&msg, "iv"), not_valid);
    verify_unpack_malformed(
        &w,
        &update_field(&msg, "ciphertext", "invalid"),
        "Malformed: Unable decode ciphertext: Invalid last symbol 100, offset 6.",
    );
    verify_unpack_malformed(&w, &remove_field(&msg, "ciphertext"), not_valid);
    verify_unpack_malformed(
        &w,
        &update_field(&msg, "tag", "invalid"),
        "Malformed: Unable decode tag: Invalid last symbol 100, offset 6.",
    );
    verify_unpack_malformed(&w, &remove_field(&msg, "tag"), not_valid);
    verify_unpack_malformed(
        &w,
        &update_protected_field(&msg, "apv", "invalid"),
        "Malformed: Unable decode apv: Invalid last symbol 100, offset 6.",
    );
    verify_unpack_malformed(
        &w,
        &remove_protected_field(&msg, "apv"),
        "Malformed: Unable parse protected header: missing field 'apv'",
    );
    verify_unpack_malformed(
        &w,
        &update_protected_field(&msg, "apu", "invalid"),
        "Malformed: Unable decode apu: Invalid last symbol 100, offset 6.",
    );
    verify_unpack_malformed(
        &w,
        &remove_protected_field(&msg, "apu"),
        "Malformed: SKID present, but no apu",
    );
    verify_unpack_malformed(
        &w,
        &update_protected_field(&msg, "apu", &encode_text("did:example:alice#other")),
        "Malformed: SKID present, but no apu",
    );
}

#[test]
fn unpack_works_malformed_signed_msg() {
    let w = world();
    let msg = pack_signed(&w, ALICE_KEY_1);
    let not_valid = "Malformed: Message is not a valid JWE, JWS or JWM";
    verify_unpack_malformed(
        &w,
        &update_field(&msg, "payload", "invalid"),
        "Malformed: Wrong signature",
    );
    verify_unpack_malformed(&w, &remove_field(&msg, "payload"), not_valid);
    verify_unpack_malformed(&w, &update_field(&msg, "signatures", "invalid"), not_valid);
    verify_unpack_malformed(&w, &remove_field(&msg, "signatures"), not_valid);
}

#[test]
fn unpack_works_malformed_plaintext_msg() {
    let w = world();
    let not_valid = "Malformed: Message is not a valid JWE, JWS or JWM";
    let head = r#""id":"1","typ":"application/didcomm-plain+json","type":"t","body":{}"#;
    let with_attachments = |a: &str| format!("{{{},\"attachments\":{}}}", head, a);
    let cases: Vec<String> = vec![
        "{}".into(),
        "aaa".into(),
        "".into(),
        r#"{"typ":"application/didcomm-plain+json","type":"t","body":{}}"#.into(),
        r#"{"id":"1","type":"t","body":{}}"#.into(),
        r#"{"id":"1","typ":"application/didcomm-plain+json","body":{}}"#.into(),
        r#"{"id":"1","typ":"application/didcomm-plain+json","type":"t"}"#.into(),
        r#"{"id":1,"typ":"application/didcomm-plain+json","type":"t","body":{}}"#.into(),
        with_attachments("[{}]"),
        with_attachments(r#"[{"id":"23"}]"#),
        with_attachments(r#"[{"id":"23","data":{}}]"#),
        with_attachments(r#"[{"id":"23","data":{"links":["231","212"]}}]"#),
        with_attachments(r#"[{"id":"23","data":{"links":[],"hash":"h"}}]"#),
        with_attachments(r#""131""#),
        with_attachments("[2131]"),
        with_attachments(r#"[{"id":"1","data":"invalid"}]"#),
        with_attachments(r#"[{"id":2,"data":{"base64":"q"}}]"#),
        with_attachments(r#"[{"data":{"base64":"q"}}]"#),
        with_attachments(r#"[{"id":"1","data":null}]"#),
        with_attachments(r#"[{"id":"1","data":{"base64":"q","json":{}}}]"#),
        with_attachments(r#"[{"id":"1","data":{"base64":1}}]"#),
        format!("{{{},\"to\":\"did:example:bob\"}}", head),
        format!("{{{},\"created_time\":\"now\"}}", head),
        format!("{{{},\"created_time\":-1}}", head),
    ];
    for case in cases {
        verify_unpack_malformed(&w, &case, not_valid);
    }
    verify_unpack_malformed(
        &w,
        r#"{"id":"1","typ":"application/didcomm-plain+json-wrong","type":"t","body":{}}"#,
        "Malformed: 'typ' must be \"application/didcomm-plain+json\"",
    );
}

#[test]
fn any_corruption_of_an_anoncrypt_envelope_is_malformed() {
    let w = world();
    for alg in ALL_ANON {
        let msg = pack_anon(&w, BOB_DID, alg);
        for field in ["ciphertext", "tag", "iv", "protected"] {
            let err = unpack_error(&w, &corrupt_field(&msg, field));
            assert_eq!(err.kind(), ErrorKind::Malformed, "{} {}", field, err.to_string());
        }
    }
}

#[test]
fn any_corruption_of_an_authcrypt_envelope_is_malformed() {
    let w = world();
    for (to, from) in [(BOB_DID, ALICE_DID), ("did:example:bob#key-p256-1", ALICE_P)] {
        let msg = pack_auth(&w, to, from);
        for field in ["ciphertext", "tag", "iv", "protected"] {
            let err = unpack_error(&w, &corrupt_field(&msg, field));
            assert_eq!(err.kind(), ErrorKind::Malformed, "{} {}", field, err.to_string());
        }
    }
}

#[test]
fn any_corruption_of_a_signature_is_malformed() {
    let w = world();
    for kid in [ALICE_KEY_1, ALICE_KEY_2, ALICE_KEY_3] {
        let msg = pack_signed(&w, kid);
        let mut m = members(&msg);
        let signatures = m.iter().find(|(n, _)| n == "signatures").unwrap().1.clone();
        let mut one = match &signatures {
            Json::Array(items) => match &items[0] {
                Json::Object(o) => o.clone(),
                _ => panic!("no signature"),
            },
            _ => panic!("no signatures"),
        };
        let signature = one.iter().find(|(n, _)| n == "signature").unwrap().1.clone();
        let text = signature.as_str().unwrap().clone();
        set_member(&mut one, "signature", Json::Str(corrupt(&text)));
        set_member(&mut m, "signatures", Json::Array(vec![Json::Object(one)]));
        let err = unpack_error(&w, &to_text(&Json::Object(m)));
        assert_eq!(err.kind(), ErrorKind::Malformed);
    }
}

#[test]
fn unpack_refuses_to_unwrap_a_forward() {
    let w = world();
    let options = UnpackOptions { expect_decrypt_by_all_keys: false, unwrap_re_wrapping_forward: true };
    let err = Message::unpack(PLAINTEXT_MSG_SIMPLE, &w.did_resolver, &w.bob_secrets, &options)
        .unwrap_err();
    assert_eq!(err.kind(), ErrorKind::Unsupported);
    assert_eq!(
        err.to_string(),
        "Unsupported: Forward unwrapping is unsupported by this version"
    );
}

#[test]
fn unpack_with_all_keys_expected_opens_with_each_held_key() {
    let w = world();
    let options = UnpackOptions { expect_decrypt_by_all_keys: true, unwrap_re_wrapping_forward: false };
    for packed in [pack_auth(&w, BOB_DID, ALICE_DID), pack_anon(&w, BOB_DID, AnonCryptAlg::A256gcmEcdhEsA256kw)] {
        let (unpacked, metadata) =
            Message::unpack(&packed, &w.did_resolver, &w.bob_secrets, &options).unwrap();
        assert_eq!(unpacked, simple_message());
        assert!(metadata.encrypted);
        assert_eq!(metadata.encrypted_to_kids, Some(bob_kids(&X)));
    }
}

#[test]
fn unpack_with_all_keys_expected_fails_where_one_key_does_not_open() {
    let w = world();
    let packed = pack_anon(&w, BOB_DID, AnonCryptAlg::Xc20pEcdhEsA256kw);
    let mut m = members(&packed);
    let recipients = m.iter().find(|(n, _)| n == "recipients").unwrap().1.clone();
    let mut items = recipients.as_array().unwrap().clone();
    let first = items[0].clone();
    let mut third = match &items[2] {
        Json::Object(o) => o.clone(),
        _ => panic!("no recipient"),
    };
    set_member(&mut third, "encrypted_key", first.get("encrypted_key").unwrap().clone());
    items[2] = Json::Object(third);
    set_member(&mut m, "recipients", Json::Array(items));
    let tampered = to_text(&Json::Object(m));

    let (unpacked, _) =
        Message::unpack(&tampered, &w.did_resolver, &w.bob_secrets, &UnpackOptions::default())
            .unwrap();
    assert_eq!(unpacked, simple_message());
    let options = UnpackOptions { expect_decrypt_by_all_keys: true, unwrap_re_wrapping_forward: false };
    let err = Message::unpack(&tampered, &w.did_resolver, &w.bob_secrets, &options).unwrap_err();
    assert_eq!(err.kind(), ErrorKind::Malformed);
}

#[test]
fn unpack_without_the_recipients_secrets_finds_no_secret() {
    let w = world();
    let packed = pack_anon(&w, BOB_DID, AnonCryptAlg::Xc20pEcdhEsA256kw);
    let err = Message::unpack(&packed, &w.did_resolver, &w.alice_secrets, &UnpackOptions::default())
        .unwrap_err();
    assert_eq!(err.kind(), ErrorKind::SecretNotFound);
    assert_eq!(err.to_string(), "Secret not found: No recipient secrets found");
}

#[test]
fn unpack_of_a_message_from_an_unknown_sender_does_not_resolve() {
    let w = world();
    let packed = pack_auth(&w, BOB_DID, ALICE_DID);
    let only_bob = ExampleDIDResolver::new(vec![w.did_resolver.known_dids[1].clone()]);
    let err = Message::unpack(&packed, &only_bob, &w.bob_secrets, &UnpackOptions::default())
        .unwrap_err();
    assert_eq!(err.kind(), ErrorKind::DIDNotResolved);
    assert_eq!(err.to_string(), "DID not resolved: Sender did not found");

    let signed = pack_signed(&w, ALICE_KEY_1);
    let err = Message::unpack(&signed, &only_bob, &w.bob_secrets, &UnpackOptions::default())
        .unwrap_err();
    assert_eq!(err.kind(), ErrorKind::DIDNotResolved);
}

#[test]
fn test_pack_encrypted_works() {
    let w = world();
    let (res, _) = simple_message()
        .pack_encrypted(
            BOB_DID,
            Some(ALICE_DID),
            Some(ALICE_DID),
            &w.did_resolver,
            &w.alice_secrets,
            &no_forward(PackEncryptedOptions::default()),
        )
        .unwrap();
    assert!(res.contains("ciphertext"));
}

#[test]
fn test_pack_plaintext_works() {
    let res = simple_message().pack_plaintext(&no_dids()).unwrap();
    assert!(res.contains("body"));
}

#[test]
fn pack_plaintext_works() {
    let res = simple_message().pack_plaintext(&no_dids()).unwrap();
    assert!(res.contains("body"));
    assert_eq!(
        res,
        "{\"body\":\"example-body\",\"from\":\"did:example:alice\",\"id\":\"example-1\",\"to\":[\"did:example:bob\"],\"typ\":\"application/didcomm-plain+json\",\"type\":\"example/v1\"}"
    );
}

#[test]
fn pack_plaintext_refuses_a_wrong_typ() {
    let mut msg = simple_message();
    msg.typ = "application/json".to_string();
    let err = msg.pack_plaintext(&no_dids()).unwrap_err();
    assert_eq!(err.to_string(), "Malformed: 'typ' must be \"application/didcomm-plain+json\"");
}

#[test]
fn test_pack_signed_works() {
    let w = world();
    assert!(pack_signed(&w, ALICE_DID).contains("payload"));
}

#[test]
fn pack_signed_works() {
    let w = world();
    assert!(pack_signed(&w, ALICE_DID).contains("payload"));
}

#[test]
fn pack_signed_works_did_not_found() {
    let w = world();
    let msg = Message::build(
        "example-1".to_owned(),
        "example/v1".to_owned(),
        Json::Str("example-body".to_owned()),
    )
    .to(String::from("did:unknown:bob"))
    .from(ALICE_DID.to_owned())
    .finalize();
    let res = msg
        .pack_signed("did:unknown:alice", &w.did_resolver, &w.alice_secrets)
        .unwrap_err();
    assert_eq!(res.kind(), ErrorKind::DIDNotResolved);
}

#[test]
fn pack_signed_works_did_url_not_found() {
    let w = world();
    let res = simple_message()
        .pack_signed(
            &format!("{}#unknown-fragment", ALICE_DID),
            &w.did_resolver,
            &w.alice_secrets,
        )
        .unwrap_err();
    assert_eq!(res.kind(), ErrorKind::DIDUrlNotFound);
}

#[test]
fn pack_signed_works_secret_not_found() {
    let w = world();
    let res = simple_message()
        .pack_signed(
            &format!("{}#key-not-in-secrets-1", ALICE_DID),
            &w.did_resolver,
            &w.alice_secrets,
        )
        .unwrap_err();
    assert_eq!(res.kind(), ErrorKind::SecretNotFound);
}

#[test]
fn pack_signed_works_illegal_argument() {
    let w = world();
    let res = simple_message()
        .pack_signed("not-a-did", &w.did_resolver, &w.alice_secrets)
        .unwrap_err();
    assert_eq!(res.kind(), ErrorKind::IllegalArgument);
}

#[test]
fn pack_signed_with_a_key_that_cannot_sign_is_unsupported() {
    let (mut doc, secrets) = person(ALICE_DID, &[], &[("key-x", Curve::X25519)]);
    doc.authentications = vec![format!("{}#key-x", ALICE_DID)];
    let err = simple_message()
        .pack_signed(
            ALICE_DID,
            &ExampleDIDResolver::new(vec![doc]),
            &ExampleSecretsResolver::new(secrets),
        )
        .unwrap_err();
    assert_eq!(err.kind(), ErrorKind::Unsupported);
}

#[test]
fn pack_encrypted_checks_its_arguments() {
    let w = world();
    let options = no_forward(PackEncryptedOptions::default());
    let pack = |to: &str, from: Option<&str>, sign_by: Option<&str>| {
        simple_message()
            .pack_encrypted(to, from, sign_by, &w.did_resolver, &w.alice_secrets, &options)
            .unwrap_err()
    };
    let err = pack("not-a-did", None, None);
    assert_eq!(err.kind(), ErrorKind::IllegalArgument);
    assert_eq!(err.to_string(), "Illegal argument: 'to' value is not a valid DID or DID URL");
    let err = pack(BOB_DID, Some("not-a-did"), None);
    assert_eq!(err.to_string(), "Illegal argument: 'from' value is not a valid DID or DID URL");
    let err = pack(BOB_DID, None, Some("not-a-did"));
    assert_eq!(err.to_string(), "Illegal argument: 'sign_by' value is not a valid DID or DID URL");
    assert_eq!(pack("did:example:carol", None, None).kind(), ErrorKind::DIDNotResolved);
    assert_eq!(pack(BOB_DID, Some("did:example:carol"), None).kind(), ErrorKind::DIDNotResolved);
    assert_eq!(pack("did:example:bob#nothing", None, None).kind(), ErrorKind::DIDUrlNotFound);
    assert_eq!(
        pack(BOB_DID, Some("did:example:alice#nothing"), None).kind(),
        ErrorKind::DIDUrlNotFound
    );
    assert_eq!(
        pack(BOB_DID, Some("did:example:alice#key-x25519-not-in-secrets-1"), None).kind(),
        ErrorKind::SecretNotFound
    );
}

#[test]
fn authcrypt_between_keys_of_different_curves_is_unsupported() {
    let (alice_doc, alice_secrets) = person(ALICE_DID, &[("key-x", Curve::X25519)], &[]);
    let (bob_doc, _) = person(BOB_DID, &[("key-p", Curve::P256)], &[]);
    let err = simple_message()
        .pack_encrypted(
            BOB_DID,
            Some(ALICE_DID),
            None,
            &ExampleDIDResolver::new(vec![alice_doc, bob_doc]),
            &ExampleSecretsResolver::new(alice_secrets),
            &no_forward(PackEncryptedOptions::default()),
        )
        .unwrap_err();
    assert_eq!(err.kind(), ErrorKind::Unsupported);
    assert_eq!(
        err.to_string(),
        "Unsupported: No common keys between sender and recipient found"
    );
}

#[test]
fn anoncrypt_takes_the_keys_of_the_first_curve_only() {
    let (bob_doc, bob_secrets) = person(
        BOB_DID,
        &[("p-1", Curve::P256), ("x-1", Curve::X25519), ("p-2", Curve::P256), ("e-1", Curve::Ed25519)],
        &[],
    );
    let did_resolver = ExampleDIDResolver::new(vec![bob_doc]);
    let (packed, metadata) = simple_message()
        .pack_encrypted(
            BOB_DID,
            None,
            None,
            &did_resolver,
            &ExampleSecretsResolver::new(vec![]),
            &no_forward(PackEncryptedOptions::default()),
        )
        .unwrap();
    assert_eq!(metadata.to_kids, bob_kids(&["p-1", "p-2"]));
    let (unpacked, unpack_metadata) = Message::unpack(
        &packed,
        &did_resolver,
        &ExampleSecretsResolver::new(bob_secrets),
        &UnpackOptions::default(),
    )
    .unwrap();
    assert_eq!(unpacked, simple_message());
    assert_eq!(unpack_metadata.encrypted_to_kids, Some(bob_kids(&["p-1", "p-2"])));
}

#[test]
fn resolvers_answer_from_what_they_hold() {
    let w = world();
    assert_eq!(w.did_resolver.resolve(ALICE_DID).unwrap().unwrap().did, ALICE_DID);
    assert_eq!(w.did_resolver.resolve("did:example:carol"), Ok(None));
    assert_eq!(w.bob_secrets.get_secret("did:example:bob#key-p256-1").unwrap().unwrap().id, "did:example:bob#key-p256-1");
    assert_eq!(w.bob_secrets.get_secret(ALICE_X), Ok(None));
    let asked = vec![ALICE_X.to_string(), "did:example:bob#key-p256-2".to_string(), "x".to_string(), "did:example:bob#key-x25519-1".to_string()];
    assert_eq!(
        w.bob_secrets.find_secrets(&asked),
        Ok(vec!["did:example:bob#key-p256-2".to_string(), "did:example:bob#key-x25519-1".to_string()])
    );
}

#[test]
fn unpack_works_signed_in_flattened_form() {
    let w = world();
    let general = pack_signed(&w, ALICE_KEY_1);
    let parsed = parse(&general).unwrap();
    let one = parsed.get("signatures").unwrap().as_array().unwrap()[0].clone();
    let flattened = to_text(&Json::Object(vec![
        ("payload".to_string(), parsed.get("payload").unwrap().clone()),
        ("protected".to_string(), one.get("protected").unwrap().clone()),
        ("signature".to_string(), one.get("signature").unwrap().clone()),
        ("header".to_string(), one.get("header").unwrap().clone()),
    ]));
    assert!(!flattened.contains("signatures"));
    verify_unpack(
        &w,
        &flattened,
        &simple_message(),
        &UnpackMetadata {
            sign_from: Some(ALICE_KEY_1.into()),
            sign_alg: Some(SignAlg::EdDSA),
            signed_message: Some(flattened.clone()),
            authenticated: true,
            non_repudiation: true,
            ..plaintext_metadata()
        },
    );
    verify_unpack_malformed(
        &w,
        &update_field(&flattened, "payload", "invalid"),
        "Malformed: Wrong signature",
    );
}

#[test]
fn unpack_checks_every_signature() {
    let w = world();
    let first = parse(&pack_signed(&w, ALICE_KEY_1)).unwrap();
    let second = parse(&pack_signed(&w, ALICE_KEY_2)).unwrap();
    let signature = |j: &Json| j.get("signatures").unwrap().as_array().unwrap()[0].clone();
    let both = |a: Json, b: Json| {
        to_text(&Json::Object(vec![
            ("payload".to_string(), first.get("payload").unwrap().clone()),
            ("signatures".to_string(), Json::Array(vec![a, b])),
        ]))
    };
    let (_, metadata) = Message::unpack(
        &both(signature(&first), signature(&second)),
        &w.did_resolver,
        &w.bob_secrets,
        &UnpackOptions::default(),
    )
    .unwrap();
    assert_eq!(metadata.sign_from, Some(ALICE_KEY_1.to_string()));
    assert_eq!(metadata.sign_alg, Some(SignAlg::EdDSA));

    let mut forged = match signature(&second) {
        Json::Object(m) => m,
        _ => panic!("no signature"),
    };
    let text = forged.iter().find(|(n, _)| n == "signature").unwrap().1.as_str().unwrap().clone();
    set_member(&mut forged, "signature", Json::Str(corrupt(&text)));
    let err = unpack_error(&w, &both(signature(&first), Json::Object(forged)));
    assert_eq!(err.kind(), ErrorKind::Malformed);

    let none = to_text(&Json::Object(vec![
        ("payload".to_string(), first.get("payload").unwrap().clone()),
        ("signatures".to_string(), Json::Array(vec![])),
    ]));
    verify_unpack_malformed(&w, &none, "Malformed: Wrong amount of signatures for jws");
}

#[test]
fn recipients_are_a_set() {
    let msg = Message::build("1".to_owned(), "t".to_owned(), Json::Null)
        .to("did:example:a".to_owned())
        .to_many(vec![
            "did:example:b".to_owned(),
            "did:example:a".to_owned(),
            "did:example:c".to_owned(),
            "did:example:b".to_owned(),
        ])
        .to("did:example:c".to_owned())
        .finalize();
    assert_eq!(
        msg.to,
        Some(vec![
            "did:example:a".to_string(),
            "did:example:b".to_string(),
            "did:example:c".to_string()
        ])
    );
    assert_eq!(msg.clone(), msg);
    let none = Message::build("1".to_owned(), "t".to_owned(), Json::Null)
        .to_many(vec![])
        .thid("th".to_owned())
        .pthid("pth".to_owned())
        .from_prior("a.b.c".to_owned())
        .finalize();
    assert_eq!(none.to, None);
    let w = world();
    let packed = none.pack_plaintext(&no_dids()).unwrap();
    verify_unpack(&w, &packed, &none, &plaintext_metadata());
}

#[test]
fn a_message_with_a_header_of_the_same_name_twice_is_refused() {
    let w = world();
    let msg = Message::build("1".to_owned(), "t".to_owned(), Json::Null)
        .header("mine".to_owned(), Json::UInt(1))
        .finalize();
    let packed = msg.pack_plaintext(&no_dids()).unwrap();
    verify_unpack(&w, &packed, &msg, &plaintext_metadata());
    assert_eq!(
        Message::from_json(&Json::Object(vec![
            ("id".to_string(), Json::Str("1".into())),
            ("typ".to_string(), Json::Str("application/didcomm-plain+json".into())),
            ("type".to_string(), Json::Str("t".into())),
            ("body".to_string(), Json::Null),
            ("mine".to_string(), Json::UInt(1)),
            ("mine".to_string(), Json::UInt(2)),
        ])),
        None
    );
}

#[test]
fn a_plaintext_that_looks_like_an_envelope_is_taken_for_one() {
    let w = world();
    let msg = Message::build("1".to_owned(), "t".to_owned(), Json::Null)
        .header("protected".to_owned(), Json::Str("invalid".into()))
        .header("recipients".to_owned(), Json::Array(vec![]))
        .header("iv".to_owned(), Json::Str("".into()))
        .header("ciphertext".to_owned(), Json::Str("".into()))
        .header("tag".to_owned(), Json::Str("".into()))
        .finalize();
    let packed = msg.pack_plaintext(&no_dids()).unwrap();
    verify_unpack_malformed(
        &w,
        &packed,
        "Malformed: Unable decode protected header: Invalid last symbol 100, offset 6.",
    );
}

#[test]
fn unpack_works_signed() {
    let w = world();
    let sign_metadata = UnpackMetadata {
        authenticated: true,
        non_repudiation: true,
        ..plaintext_metadata()
    };
    for (kid, alg) in [
        (ALICE_KEY_1, SignAlg::EdDSA),
        (ALICE_KEY_2, SignAlg::ES256),
        (ALICE_KEY_3, SignAlg::ES256K),
    ] {
        let signed = pack_signed(&w, kid);
        verify_unpack(
            &w,
            &signed,
            &simple_message(),
            &UnpackMetadata {
                sign_from: Some(kid.into()),
                sign_alg: Some(alg),
                signed_message: Some(signed.clone()),
                ..sign_metadata.clone()
            },
        );
    }
}

#[test]
fn unpack_works_anoncrypt() {
    let w = world();
    let metadata = UnpackMetadata {
        anonymous_sender: true,
        encrypted: true,
        ..plaintext_metadata()
    };
    verify_unpack(
        &w,
        &pack_anon(&w, BOB_DID, AnonCryptAlg::Xc20pEcdhEsA256kw),
        &simple_message(),
        &UnpackMetadata {
            enc_alg_anon: Some(AnonCryptAlg::Xc20pEcdhEsA256kw),
            encrypted_to_kids: Some(vec![
                "did:example:bob#key-x25519-1".into(),
                "did:example:bob#key-x25519-2".into(),
                "did:example:bob#key-x25519-3".into(),
            ]),
            ..metadata.clone()
        },
    );
    let (to_p256, _) = person(
        BOB_DID,
        &[("key-p256-1", Curve::P256), ("key-p256-2", Curve::P256)],
        &[],
    );
    let bob_p256 = to_p256.verification_methods.clone();
    let mut docs = w.did_resolver.known_dids.clone();
    docs[1].key_agreements = vec![
        "did:example:bob#key-p256-1".to_string(),
        "did:example:bob#key-p256-2".to_string(),
    ];
    let only_p256 = World {
        did_resolver: ExampleDIDResolver::new(docs),
        alice_secrets: ExampleSecretsResolver::new(w.alice_secrets.known_secrets.clone()),
        bob_secrets: ExampleSecretsResolver::new(w.bob_secrets.known_secrets.clone()),
    };
    assert_eq!(bob_p256.len(), 2);
    assert_eq!(only_p256.did_resolver.known_dids[1].did, BOB_DID);
    assert_eq!(
        only_p256.did_resolver.known_dids[1].verification_methods.len(),
        w.did_resolver.known_dids[1].verification_methods.len()
    );
    assert!(only_p256.did_resolver.known_dids[1]
        .find_method("did:example:bob#key-p256-1")
        .is_some());
    verify_unpack(
        &only_p256,
        &pack_anon(&only_p256, BOB_DID, AnonCryptAlg::Xc20pEcdhEsA256kw),
        &simple_message(),
        &UnpackMetadata {
            enc_alg_anon: Some(AnonCryptAlg::Xc20pEcdhEsA256kw),
            encrypted_to_kids: Some(vec![
                "did:example:bob#key-p256-1".into(),
                "did:example:bob#key-p256-2".into(),
            ]),
            ..metadata.clone()
        },
    );
}

#[test]
fn unpack_works_authcrypt() {
    let w = world();
    let metadata = UnpackMetadata {
        authenticated: true,
        encrypted: true,
        ..plaintext_metadata()
    };
    verify_unpack(
        &w,
        &pack_auth(&w, BOB_DID, ALICE_DID),
        &simple_message(),
        &UnpackMetadata {
            enc_alg_auth: Some(AuthCryptAlg::A256cbcHs512Ecdh1puA256kw),
            encrypted_from_kid: Some("did:example:alice#key-x25519-1".into()),
            encrypted_to_kids: Some(vec![
                "did:example:bob#key-x25519-1".into(),
                "did:example:bob#key-x25519-2".into(),
                "did:example:bob#key-x25519-3".into(),
            ]),
            ..metadata.clone()
        },
    );
    let (packed, _) = simple_message()
        .pack_encrypted(
            BOB_DID,
            Some(ALICE_P),
            Some(ALICE_KEY_1),
            &w.did_resolver,
            &w.alice_secrets,
            &no_forward(PackEncryptedOptions::default()),
        )
        .unwrap();
    let (msg, unpacked) =
        Message::unpack(&packed, &w.did_resolver, &w.bob_secrets, &UnpackOptions::default())
            .unwrap();
    assert_eq!(msg, simple_message());
    assert_eq!(
        unpacked,
        UnpackMetadata {
            enc_alg_auth: Some(AuthCryptAlg::A256cbcHs512Ecdh1puA256kw),
            encrypted_from_kid: Some("did:example:alice#key-p256-1".into()),
            encrypted_to_kids: Some(vec![
                "did:example:bob#key-p256-1".into(),
                "did:example:bob#key-p256-2".into(),
            ]),
            non_repudiation: true,
            sign_from: Some("did:example:alice#key-1".into()),
            sign_alg: Some(SignAlg::EdDSA),
            signed_message: Some(pack_signed(&w, ALICE_KEY_1)),
            ..metadata.clone()
        }
    );
}

#[test]
fn an_ephemeral_key_on_another_curve_than_the_recipients_is_refused() {
    let w = world();
    let for_x = pack_anon(&w, "did:example:bob#key-x25519-1", AnonCryptAlg::Xc20pEcdhEsA256kw);
    let for_p = pack_anon(&w, "did:example:bob#key-p256-1", AnonCryptAlg::Xc20pEcdhEsA256kw);
    let mut protected = protected_members(&for_x);
    let other = protected_members(&for_p);
    let epk = other.iter().find(|(n, _)| n == "epk").unwrap().1.clone();
    set_member(&mut protected, "epk", epk);
    verify_unpack_malformed(
        &w,
        &with_protected(&for_x, protected),
        "Malformed: Ephemeral key and recipient key are on different curves",
    );
}

#[test]
fn a_secret_without_its_private_part_is_an_invalid_state() {
    let w = world();
    let packed = pack_anon(&w, "did:example:bob#key-x25519-1", AnonCryptAlg::Xc20pEcdhEsA256kw);
    let public_only: Vec<Secret> = w
        .did_resolver
        .known_dids[1]
        .verification_methods
        .iter()
        .map(|m| Secret {
            id: m.id.clone(),
            type_: SecretType::JsonWebKey2020,
            secret_material: match &m.verification_material {
                VerificationMaterial::JWK(jwk) => SecretMaterial::JWK(jwk.clone()),
                _ => panic!("no jwk"),
            },
        })
        .collect();
    let err = Message::unpack(
        &packed,
        &w.did_resolver,
        &ExampleSecretsResolver::new(public_only),
        &UnpackOptions::default(),
    )
    .unwrap_err();
    assert_eq!(err.kind(), ErrorKind::InvalidState);
    assert!(err.to_string().starts_with("Invalid state: Unable derive kw"));
}

#[test]
fn a_failure_of_a_resolver_is_handed_on_as_it_is() {
    let w = world();
    let no_dids = UnreachableDIDResolver { message: "ledger is down".to_string() };
    let no_secrets = UnreachableSecretsResolver { message: "wallet is locked".to_string() };

    let err = simple_message()
        .pack_signed(ALICE_DID, &no_dids, &w.alice_secrets)
        .unwrap_err();
    assert_eq!(err.kind(), ErrorKind::IOError);
    assert_eq!(err.to_string(), "IO error: ledger is down");
    let err = simple_message()
        .pack_signed(ALICE_DID, &w.did_resolver, &no_secrets)
        .unwrap_err();
    assert_eq!(err.to_string(), "IO error: wallet is locked");
    let err = simple_message()
        .pack_encrypted(
            BOB_DID,
            None,
            None,
            &no_dids,
            &w.alice_secrets,
            &no_forward(PackEncryptedOptions::default()),
        )
        .unwrap_err();
    assert_eq!(err.to_string(), "IO error: ledger is down");

    let anon = pack_anon(&w, BOB_DID, AnonCryptAlg::Xc20pEcdhEsA256kw);
    let err = Message::unpack(&anon, &w.did_resolver, &no_secrets, &UnpackOptions::default())
        .unwrap_err();
    assert_eq!(err.to_string(), "IO error: wallet is locked");
    let auth = pack_auth(&w, BOB_DID, ALICE_DID);
    let err = Message::unpack(&auth, &no_dids, &w.bob_secrets, &UnpackOptions::default())
        .unwrap_err();
    assert_eq!(err.to_string(), "IO error: ledger is down");
    let signed = pack_signed(&w, ALICE_KEY_1);
    let err = Message::unpack(&signed, &no_dids, &w.bob_secrets, &UnpackOptions::default())
        .unwrap_err();
    assert_eq!(err.kind(), ErrorKind::IOError);

    let (msg, metadata) = Message::unpack(
        PLAINTEXT_MSG_SIMPLE,
        &no_dids,
        &no_secrets,
        &UnpackOptions::default(),
    )
    .unwrap();
    assert_eq!(msg, message_simple());
    assert_eq!(metadata, plaintext_metadata());
}

#[test]
fn an_unknown_content_encryption_is_malformed() {
    let w = world();
    let anon = pack_anon(&w, BOB_DID, AnonCryptAlg::Xc20pEcdhEsA256kw);
    verify_unpack_malformed(
        &w,
        &update_protected_field(&anon, "enc", "XC20Q"),
        "Malformed: Unknown content encryption algorithm",
    );
    let auth = pack_auth(&w, BOB_DID, ALICE_DID);
    verify_unpack_malformed(
        &w,
        &update_protected_field(&auth, "enc", "A256CBC-HS513"),
        "Malformed: Unknown content encryption algorithm",
    );
}

#[test]
fn a_key_that_is_listed_twice_is_a_recipient_once() {
    let w = world();
    let (mut doc, _) = person(
        "did:example:carol",
        &[("key-x25519-1", Curve::X25519), ("key-x25519-2", Curve::X25519)],
        &[],
    );
    let first = doc.key_agreements[0].clone();
    let second = doc.key_agreements[1].clone();
    doc.key_agreements.push(first.clone());
    doc.key_agreements.insert(0, second.clone());
    let dids = ExampleDIDResolver::new(vec![doc]);
    let (packed, metadata) = simple_message()
        .pack_encrypted(
            "did:example:carol",
            None,
            None,
            &dids,
            &w.alice_secrets,
            &no_forward(PackEncryptedOptions::default()),
        )
        .unwrap();
    assert_eq!(metadata.to_kids, vec![second.clone(), first.clone()]);
    assert_eq!(metadata.messaging_service, None);
    let recipients = match parse(&packed).unwrap().get("recipients") {
        Some(Json::Array(items)) => items.len(),
        _ => panic!("no recipients"),
    };
    assert_eq!(recipients, 2);
}

#[test]
fn the_ephemeral_key_is_on_the_curve_of_the_recipients() {
    let w = world();
    let curve_of = |msg: &str| {
        let protected = protected_members(msg);
        let epk = protected.iter().find(|(name, _)| name == "epk").unwrap().1.clone();
        epk.get_text("crv").unwrap()
    };
    assert_eq!(curve_of(&pack_anon(&w, BOB_DID, AnonCryptAlg::Xc20pEcdhEsA256kw)), "X25519");
    let to_p256 = format!("{}#{}", BOB_DID, P[0]);
    assert_eq!(curve_of(&pack_anon(&w, &to_p256, AnonCryptAlg::A256gcmEcdhEsA256kw)), "P-256");
    assert_eq!(curve_of(&pack_auth(&w, BOB_DID, ALICE_DID)), "X25519");
    assert_eq!(curve_of(&pack_auth(&w, &to_p256, ALICE_P)), "P-256");
    let hidden = simple_message()
        .pack_encrypted(
            &to_p256,
            Some(ALICE_P),
            None,
            &w.did_resolver,
            &w.alice_secrets,
            &no_forward(PackEncryptedOptions { protect_sender: true, ..PackEncryptedOptions::default() }),
        )
        .unwrap()
        .0;
    assert_eq!(curve_of(&hidden), "P-256");
}

#[test]
fn a_header_takes_the_place_of_one_of_its_name() {
    let msg = Message::build("1".to_owned(), "t".to_owned(), Json::Null)
        .header("b".to_owned(), Json::UInt(1))
        .header("a".to_owned(), Json::UInt(2))
        .header("c".to_owned(), Json::UInt(4))
        .header("b".to_owned(), Json::UInt(3))
        .finalize();
    assert_eq!(
        msg.extra_headers,
        vec![
            ("a".to_string(), Json::UInt(2)),
            ("b".to_string(), Json::UInt(3)),
            ("c".to_string(), Json::UInt(4)),
        ]
    );
    let w = world();
    let packed = msg.pack_plaintext(&no_dids()).unwrap();
    verify_unpack(&w, &packed, &msg, &plaintext_metadata());
}

#[test]
fn a_header_with_a_name_of_the_format_is_refused() {
    let plain = Message::build("1".to_owned(), "t".to_owned(), Json::Null).finalize();
    for name in [
        "id", "typ", "type", "body", "from", "to", "thid", "pthid", "created_time",
        "expires_time", "from_prior", "attachments",
    ] {
        let msg = Message::build("1".to_owned(), "t".to_owned(), Json::Null)
            .header(name.to_owned(), Json::Str("other".to_owned()))
            .finalize();
        assert_eq!(msg, plain);
    }
}

#[test]
fn objects_are_written_in_the_order_of_their_names() {
    let msg = Message::build("1".to_owned(), "t".to_owned(), Json::Null)
        .header("zebra".to_owned(), Json::UInt(1))
        .header("alpha".to_owned(), Json::UInt(2))
        .from(ALICE_DID.to_owned())
        .attachment(Attachment::base64("23".to_owned(), "qwerty".to_owned()).finalize())
        .finalize();
    let written = msg.to_json();
    let names: Vec<String> = match &written {
        Json::Object(members) => members.iter().map(|(name, _)| name.clone()).collect(),
        _ => panic!("no object"),
    };
    assert_eq!(
        names,
        vec!["alpha", "attachments", "body", "from", "id", "typ", "type", "zebra"]
    );
    assert_eq!(parse(&to_text(&written)).unwrap(), written);

    let w = world();
    for packed in [
        pack_anon(&w, BOB_DID, AnonCryptAlg::Xc20pEcdhEsA256kw),
        pack_auth(&w, BOB_DID, ALICE_DID),
        pack_signed(&w, ALICE_KEY_1),
    ] {
        let value = parse(&packed).unwrap();
        assert_eq!(to_text(&value), packed);
    }
}

#[test]
fn a_decimal_is_a_number_that_reads_as_it_is_written() {
    let d = DecimalText::new("1.5").unwrap();
    assert_eq!(d.as_str(), "1.5");
    assert_eq!(to_text(&Json::Decimal(d)), "1.5");
    assert_eq!(parse("1.5").unwrap(), Json::Decimal(DecimalText::new("1.5").unwrap()));
    assert!(DecimalText::new("abc").is_none());
    assert!(DecimalText::new("").is_none());
    assert!(DecimalText::new("1.50").is_none());
    assert!(DecimalText::new("7").is_none());
    assert!(DecimalText::new("-7").is_none());
    assert!(DecimalText::new("\"1.5\"").is_none());
}

#[test]
fn what_an_envelope_asks_for_is_what_it_names() {
    let w = world();
    let nothing: Vec<String> = vec![];

    let anon = pack_anon(&w, BOB_DID, AnonCryptAlg::Xc20pEcdhEsA256kw);
    let needs = unpack_needs(&anon, &UnpackOptions::default());
    assert_eq!(needs.documents, nothing);
    assert_eq!(needs.secrets, bob_kids(&X));

    let auth = pack_auth(&w, BOB_DID, ALICE_DID);
    let needs = unpack_needs(&auth, &UnpackOptions::default());
    assert_eq!(needs.documents, vec![ALICE_DID.to_string()]);
    assert_eq!(needs.secrets, bob_kids(&X));

    let signed = pack_signed(&w, ALICE_KEY_1);
    let needs = unpack_needs(&signed, &UnpackOptions::default());
    assert_eq!(needs.documents, vec![ALICE_DID.to_string()]);
    assert_eq!(needs.secrets, nothing);

    let plain = simple_message().pack_plaintext(&no_dids()).unwrap();
    let needs = unpack_needs(&plain, &UnpackOptions::default());
    assert_eq!(needs.documents, nothing);
    assert_eq!(needs.secrets, nothing);
    let needs = unpack_needs("no json", &UnpackOptions::default());
    assert_eq!(needs.documents, nothing);
    assert_eq!(needs.secrets, nothing);
    let needs = unpack_needs(&remove_protected_field(&anon, "apv"), &UnpackOptions::default());
    assert_eq!(needs.documents, nothing);
    assert_eq!(needs.secrets, nothing);
    let forward = UnpackOptions { unwrap_re_wrapping_forward: true, ..UnpackOptions::default() };
    let needs = unpack_needs(&auth, &forward);
    assert_eq!(needs.documents, nothing);
    assert_eq!(needs.secrets, nothing);
}

#[test]
fn peeling_takes_the_encrypted_envelope_off() {
    let w = world();
    let options = UnpackOptions::default();
    let plain = simple_message().pack_plaintext(&no_dids()).unwrap();

    let anon = pack_anon(&w, BOB_DID, AnonCryptAlg::Xc20pEcdhEsA256kw);
    assert_eq!(peel(&anon, &w.did_resolver, &w.bob_secrets, &options).unwrap(), Some(plain.clone()));
    let auth = pack_auth(&w, BOB_DID, ALICE_DID);
    assert_eq!(peel(&auth, &w.did_resolver, &w.bob_secrets, &options).unwrap(), Some(plain.clone()));
    let signed = pack_signed(&w, ALICE_KEY_1);
    assert_eq!(peel(&signed, &w.did_resolver, &w.bob_secrets, &options).unwrap(), None);
    assert_eq!(peel(&plain, &w.did_resolver, &w.bob_secrets, &options).unwrap(), None);
    let err = peel(&corrupt_field(&anon, "tag"), &w.did_resolver, &w.bob_secrets, &options)
        .unwrap_err();
    assert_eq!(err.kind(), ErrorKind::Malformed);
    let err = peel(&anon, &w.did_resolver, &w.alice_secrets, &options).unwrap_err();
    assert_eq!(err.kind(), ErrorKind::SecretNotFound);
}

#[test]
fn a_sender_and_a_signer_need_the_secrets_of_their_keys() {
    let w = world();
    let doc = w.did_resolver.resolve(ALICE_DID).unwrap().unwrap();
    let nothing: Vec<String> = vec![];
    assert_eq!(sender_needs(ALICE_DID, &doc), doc.key_agreements);
    assert_eq!(sender_needs(ALICE_X, &doc), vec![ALICE_X.to_string()]);
    assert_eq!(sender_needs("did:example:alice#unknown", &doc), nothing);
    assert_eq!(signer_needs(ALICE_DID, &doc), doc.authentications);
    assert_eq!(signer_needs(ALICE_KEY_2, &doc), vec![ALICE_KEY_2.to_string()]);
    assert_eq!(signer_needs(ALICE_X, &doc), nothing);
}

#[test]
fn a_resolver_that_fails_matters_only_where_it_is_asked() {
    let w = world();
    let no_dids = UnreachableDIDResolver { message: "ledger is down".to_string() };
    let no_secrets = UnreachableSecretsResolver { message: "wallet is locked".to_string() };
    let options = UnpackOptions::default();

    let plain = simple_message().pack_plaintext(&no_dids).unwrap();
    let (msg, metadata) = Message::unpack(&plain, &no_dids, &no_secrets, &options).unwrap();
    assert_eq!(msg, simple_message());
    assert_eq!(metadata, plaintext_metadata());

    let err = Message::unpack("no json", &no_dids, &no_secrets, &options).unwrap_err();
    assert_eq!(err.to_string(), "Malformed: Message is not a valid JWE, JWS or JWM");
    let forward = UnpackOptions { unwrap_re_wrapping_forward: true, ..UnpackOptions::default() };
    let err = Message::unpack(&plain, &no_dids, &no_secrets, &forward).unwrap_err();
    assert_eq!(err.kind(), ErrorKind::Unsupported);
    let anon = pack_anon(&w, BOB_DID, AnonCryptAlg::Xc20pEcdhEsA256kw);
    let err = Message::unpack(&remove_protected_field(&anon, "apv"), &no_dids, &no_secrets, &options)
        .unwrap_err();
    assert_eq!(err.kind(), ErrorKind::Malformed);

    let err = simple_message().pack_signed("not-a-did", &no_dids, &no_secrets).unwrap_err();
    assert_eq!(err.kind(), ErrorKind::IllegalArgument);
    let err = simple_message()
        .pack_encrypted("not-a-did", None, None, &no_dids, &no_secrets, &PackEncryptedOptions::default())
        .unwrap_err();
    assert_eq!(err.kind(), ErrorKind::IllegalArgument);
    let err = simple_message()
        .pack_encrypted(BOB_DID, Some("x"), None, &no_dids, &no_secrets, &PackEncryptedOptions::default())
        .unwrap_err();
    assert_eq!(err.kind(), ErrorKind::IllegalArgument);
}

#[test]
fn packing_asks_for_the_documents_of_those_it_is_for() {
    let nothing: Vec<String> = vec![];
    assert_eq!(
        pack_documents(Some(BOB_DID), Some(ALICE_X), Some(ALICE_KEY_1)),
        vec![BOB_DID.to_string(), ALICE_DID.to_string(), ALICE_DID.to_string()]
    );
    assert_eq!(pack_documents(Some(BOB_DID), None, None), vec![BOB_DID.to_string()]);
    assert_eq!(pack_documents(None, None, Some(ALICE_DID)), vec![ALICE_DID.to_string()]);
    assert_eq!(pack_documents(None, None, None), nothing);
    assert_eq!(pack_documents(Some("bob"), Some(ALICE_DID), None), nothing);
    assert_eq!(pack_documents(Some(BOB_DID), Some("alice"), None), nothing);
    assert_eq!(pack_documents(Some(BOB_DID), None, Some("alice")), nothing);
}
