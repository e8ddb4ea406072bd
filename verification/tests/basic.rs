use didcomm::algorithms::{AnonCryptAlg, AuthCryptAlg};
use didcomm::crypto::Curve;
use didcomm::encoding::{decode, decode_field, encode, encode_text, sha256, text_from_utf8, utf8_bytes};
use didcomm::error::{err_caused, err_msg, ErrorKind};
use didcomm::json::{parse, parse_or_malformed, to_text, DecimalText, Json};
use didcomm::jwe::parse::compute_apv;
use didcomm::jwk::KeyPair;
use didcomm::message::pack_encrypted::PackEncryptedOptions;
use didcomm::message::unpack::UnpackOptions;
use didcomm::utils::{
    bytes_less, contains_text, did_or_url, find_char, is_did, joined_texts, same_text,
    sorted_texts, text_less,
};

#[test]
fn it_works() {
    assert_eq!(2 + 2, 4);
}

#[test]
fn json_text_is_read_into_a_tree() {
    let j = parse("{\"b\": [1, -2, 1.5, null, true], \"a\": \"x\"}").unwrap();
    assert_eq!(j.get("a"), Some(&Json::Str("x".to_string())));
    assert_eq!(
        j.get("b"),
        Some(&Json::Array(vec![
            Json::UInt(1),
            Json::Int(-2),
            Json::Decimal(DecimalText::new("1.5").unwrap()),
            Json::Null,
            Json::Bool(true),
        ]))
    );
    assert_eq!(j.get("c"), None);
    assert_eq!(j.get_text("a"), Some("x".to_string()));
    assert_eq!(j.get_text("b"), None);
    assert_eq!(to_text(&j), "{\"a\":\"x\",\"b\":[1,-2,1.5,null,true]}");
    assert!(parse("{").is_err());
}

#[test]
fn json_written_is_read_back() {
    let j = Json::Object(vec![
        ("n".to_string(), Json::UInt(18446744073709551615)),
        ("m".to_string(), Json::Int(-9223372036854775808)),
        ("s".to_string(), Json::Str("quote \" and \\ and \n".to_string())),
        ("o".to_string(), Json::Object(vec![])),
        ("l".to_string(), Json::Array(vec![])),
    ]);
    let text = to_text(&j);
    let back = parse(&text).unwrap();
    assert_eq!(back.get("n"), Some(&Json::UInt(18446744073709551615)));
    assert_eq!(back.get("m"), Some(&Json::Int(-9223372036854775808)));
    assert_eq!(back.get("s"), j.get("s"));
    assert_eq!(back.get("o"), Some(&Json::Object(vec![])));
    assert_eq!(back.get("l"), Some(&Json::Array(vec![])));
    assert_eq!(j.clone(), j);
}

#[test]
fn json_accessors_tell_the_variants_apart() {
    assert_eq!(Json::Str("a".into()).as_str(), Some(&"a".to_string()));
    assert_eq!(Json::UInt(1).as_str(), None);
    assert_eq!(Json::UInt(7).as_u64(), Some(7));
    assert_eq!(Json::Int(-7).as_u64(), None);
    assert_eq!(Json::Array(vec![Json::Null]).as_array(), Some(&vec![Json::Null]));
    assert_eq!(Json::Null.as_array(), None);
    assert!(Json::Object(vec![]).as_object().is_some());
    assert_eq!(Json::Null.as_object(), None);
    assert_eq!(Json::text("t"), Json::Str("t".into()));
}

#[test]
fn parse_failure_names_what_was_read() {
    let err = parse_or_malformed("nonsense", "Unable parse thing").unwrap_err();
    assert_eq!(err.kind(), ErrorKind::Malformed);
    assert_eq!(
        err.to_string(),
        "Malformed: Unable parse thing: expected ident at line 1 column 2"
    );
}

#[test]
fn base64url_encodes_and_decodes() {
    assert_eq!(encode(b"hello"), "aGVsbG8");
    assert_eq!(encode(&[0xfb, 0xff]), "-_8");
    assert_eq!(encode_text("hello"), "aGVsbG8");
    assert_eq!(decode("aGVsbG8"), Ok(b"hello".to_vec()));
    assert_eq!(decode("-_8"), Ok(vec![0xfb, 0xff]));
    assert_eq!(decode(""), Ok(vec![]));
}

#[test]
fn base64url_decoding_is_strict() {
    assert_eq!(decode("invalid"), Err("Invalid last symbol 100, offset 6.".to_string()));
    assert_eq!(decode("aGVsbG8="), Err("Padding is not allowed".to_string()));
    assert_eq!(decode("+/8"), Err("Invalid byte 43, offset 0.".to_string()));
    let err = decode_field("invalid", "Unable decode iv").unwrap_err();
    assert_eq!(err.kind(), ErrorKind::Malformed);
    assert_eq!(
        err.to_string(),
        "Malformed: Unable decode iv: Invalid last symbol 100, offset 6."
    );
}

#[test]
fn utf8_is_read_and_written() {
    assert_eq!(text_from_utf8(vec![0x68, 0x69]), Some("hi".to_string()));
    assert_eq!(text_from_utf8(vec![0xc3, 0xa9]), Some("é".to_string()));
    assert_eq!(text_from_utf8(vec![0xff]), None);
    assert_eq!(utf8_bytes("é"), vec![0xc3, 0xa9]);
}

#[test]
fn sha256_of_abc() {
    assert_eq!(
        encode(&sha256(b"abc")),
        "ungWv48Bz-pBQUDeXa4iI7ADYaOWF3qctBD_YfIAFa0"
    );
    assert_eq!(sha256(b"").len(), 32);
}

#[test]
fn apv_is_the_digest_of_the_sorted_kids() {
    let kids = vec!["did:example:bob#key-2".to_string(), "did:example:bob#key-1".to_string()];
    assert_eq!(
        compute_apv(&kids),
        sha256(b"did:example:bob#key-1.did:example:bob#key-2")
    );
    let sorted = vec!["did:example:bob#key-1".to_string(), "did:example:bob#key-2".to_string()];
    assert_eq!(compute_apv(&kids), compute_apv(&sorted));
}

#[test]
fn texts_are_sorted_by_their_bytes() {
    let list = vec!["b".to_string(), "a".to_string(), "ab".to_string(), "".to_string(), "B".to_string()];
    assert_eq!(sorted_texts(&list), vec!["", "B", "a", "ab", "b"]);
    assert_eq!(joined_texts(&sorted_texts(&list), "."), ".B.a.ab.b");
    assert_eq!(joined_texts(&vec![], "."), "");
    assert_eq!(joined_texts(&vec!["x".to_string()], "."), "x");
    assert!(text_less("a", "b"));
    assert!(text_less("a", "ab"));
    assert!(!text_less("a", "a"));
    assert!(!text_less("b", "a"));
    assert!(bytes_less(&[1, 2], &[1, 3]));
    assert!(!bytes_less(&[], &[]));
}

#[test]
fn dids_and_did_urls_are_told_apart() {
    assert_eq!(did_or_url("did:example:alice#key-1"), ("did:example:alice".to_string(), true));
    assert_eq!(did_or_url("did:example:alice"), ("did:example:alice".to_string(), false));
    assert_eq!(did_or_url("did:example:alice#a#b"), ("did:example:alice".to_string(), true));
    assert_eq!(did_or_url("#"), ("".to_string(), true));
    assert!(is_did("did:example:alice"));
    assert!(is_did("did:example:alice#key-1"));
    assert!(is_did("did::"));
    assert!(!is_did("not-a-did"));
    assert!(!is_did("did:example"));
    assert!(!is_did("dad:example:alice"));
    assert!(!is_did(""));
    assert_eq!(find_char("a#b", '#'), Some(1));
    assert_eq!(find_char("ab", '#'), None);
    assert!(same_text("a", "a"));
    assert!(!same_text("a", "b"));
    assert!(contains_text(&vec!["a".to_string()], "a"));
    assert!(!contains_text(&vec!["a".to_string()], "b"));
}

#[test]
fn errors_print_kind_and_message() {
    let e = err_msg(ErrorKind::Malformed, "Wrong signature");
    assert_eq!(e.kind(), ErrorKind::Malformed);
    assert_eq!(e.to_string(), "Malformed: Wrong signature");
    let e = err_caused(ErrorKind::InvalidState, "Unable derive kw", "Unsupported");
    assert_eq!(e.to_string(), "Invalid state: Unable derive kw: Unsupported");
    assert_eq!(err_msg(ErrorKind::DIDNotResolved, "x").to_string(), "DID not resolved: x");
    assert_eq!(err_msg(ErrorKind::DIDUrlNotFound, "x").to_string(), "DID URL not found: x");
    assert_eq!(err_msg(ErrorKind::SecretNotFound, "x").to_string(), "Secret not found: x");
    assert_eq!(err_msg(ErrorKind::IOError, "x").to_string(), "IO error: x");
    assert_eq!(err_msg(ErrorKind::Unsupported, "x").to_string(), "Unsupported: x");
    assert_eq!(err_msg(ErrorKind::IllegalArgument, "x").to_string(), "Illegal argument: x");
}

#[test]
fn options_have_their_defaults() {
    let unpack = UnpackOptions::default();
    assert!(!unpack.expect_decrypt_by_all_keys);
    assert!(!unpack.unwrap_re_wrapping_forward);
    let pack = PackEncryptedOptions::default();
    assert!(!pack.protect_sender);
    assert!(pack.forward);
    assert_eq!(pack.forward_headers, None);
    assert_eq!(pack.messaging_service, None);
    assert_eq!(pack.enc_alg_auth, AuthCryptAlg::A256cbcHs512Ecdh1puA256kw);
    assert_eq!(pack.enc_alg_anon, AnonCryptAlg::Xc20pEcdhEsA256kw);
    assert_eq!(AnonCryptAlg::default(), AnonCryptAlg::Xc20pEcdhEsA256kw);
    assert_eq!(AuthCryptAlg::default(), AuthCryptAlg::A256cbcHs512Ecdh1puA256kw);
}

#[test]
fn keys_are_read_from_json_web_keys() {
    let key = KeyPair::from_jwk(
        "{\"kty\":\"OKP\",\"crv\":\"X25519\",\"x\":\"hSDwCYkwp1R0i33ctD73Wg2_Og0mOBr066SpjqqbTmo\"}",
    )
    .unwrap();
    assert_eq!(key.curve, Curve::X25519);
    assert!(key.can_agree());
    assert_eq!(key.sign_alg(), None);

    let err = KeyPair::from_jwk("{\"kty\":\"EC\",\"crv\":\"P-521\",\"x\":\"AA\",\"y\":\"AA\"}")
        .unwrap_err();
    assert_eq!(err.kind(), ErrorKind::Unsupported);
    assert_eq!(err.to_string(), "Unsupported: Unsupported key type or curve");

    let err = KeyPair::from_jwk("{\"kty\":\"OKP\",\"crv\":\"X25519\",\"x\":\"AA\"}").unwrap_err();
    assert_eq!(err.kind(), ErrorKind::Malformed);
    assert_eq!(err.to_string(), "Malformed: Unable produce jwk: Invalid key data");

    let err = KeyPair::from_jwk("no json").unwrap_err();
    assert_eq!(err.kind(), ErrorKind::Malformed);
}

#[test]
fn generated_keys_are_on_the_curve_asked_for() {
    for curve in [Curve::Ed25519, Curve::X25519, Curve::P256, Curve::P384, Curve::K256] {
        let key = KeyPair::generate(curve).unwrap();
        assert_eq!(key.curve, curve);
        let public = KeyPair::from_jwk(&key.public_jwk().unwrap()).unwrap();
        assert_eq!(public.curve, curve);
        assert!(!public.jwk.contains("\"d\""));
        assert!(key.jwk.contains("\"d\""));
        assert!(key.can_agree_with(&public) == key.can_agree());
    }
    let a = KeyPair::generate(Curve::X25519).unwrap();
    let b = KeyPair::generate(Curve::X25519).unwrap();
    assert_ne!(a.jwk, b.jwk);
}
