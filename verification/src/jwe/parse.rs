//! Reading an encrypted envelope from text.

use crate::crypto::ContentEncryption;
use crate::encoding::{
    base64url_strict, decode_field, sha256, sha256_digest, text_from_utf8, utf8_text,
};
use crate::error::{err_caused, err_msg, error_caused, error_of, Error, ErrorKind, ErrorView};
use crate::json::{
    json_read, json_written, parse, parse_or_malformed, to_text, values_of, Json, JsonValue,
};
use crate::jwe::envelope::{
    content_encryption_of, key_management_of, kids_of, recipients_view, Jwe, JweView,
    KeyManagement, Recipient, RecipientView,
};
use crate::utils::{
    join_texts, joined_texts, same_bytes, same_text, sort_texts, sorted_texts,
};
use vstd::prelude::*;
use vstd::string::StringSliceAdditionalSpecFns;
use vstd::utf8::encode_utf8;

verus! {

/// The members that make a JSON value an encrypted envelope, as they stand
/// in it.
pub ghost struct JweShape {
    pub protected: Seq<char>,
    pub recipients: Seq<RecipientView>,
    pub iv: Seq<char>,
    pub ciphertext: Seq<char>,
    pub tag: Seq<char>,
}

/// The recipient that a JSON value describes: it has a `header` with a
/// `kid`, and an `encrypted_key`.
pub open spec fn recipient_of(v: JsonValue) -> Option<RecipientView> {
    match (v.field("header"@), v.text_field("encrypted_key"@)) {
        (Some(header), Some(encrypted_key)) => match header.text_field("kid"@) {
            Some(kid) => Some(RecipientView { kid, encrypted_key }),
            None => None,
        },
        _ => None,
    }
}

/// The recipients that a list of JSON values describes, if each describes
/// one.
pub open spec fn recipients_of(items: Seq<JsonValue>) -> Option<Seq<RecipientView>>
    decreases items.len(),
{
    if items.len() == 0 {
        Some(Seq::empty())
    } else {
        match (recipients_of(items.drop_last()), recipient_of(items.last())) {
            (Some(before), Some(last)) => Some(before.push(last)),
            _ => None,
        }
    }
}

/// The envelope members of a JSON value, if it has them all: the texts
/// `protected`, `iv`, `ciphertext` and `tag`, and the list `recipients`.
pub open spec fn shape_of(v: JsonValue) -> Option<JweShape> {
    match (
        v.text_field("protected"@),
        v.field("recipients"@),
        v.text_field("iv"@),
        v.text_field("ciphertext"@),
        v.text_field("tag"@),
    ) {
        (
            Some(protected),
            Some(JsonValue::Array(items)),
            Some(iv),
            Some(ciphertext),
            Some(tag),
        ) => match recipients_of(items) {
            Some(recipients) => Some(JweShape { protected, recipients, iv, ciphertext, tag }),
            None => None,
        },
        _ => None,
    }
}

/// Whether a text has the shape of an encrypted envelope.
pub open spec fn looks_like_jwe(text: Seq<char>) -> bool {
    json_read(text) is Ok && shape_of(json_read(text)->Ok_0) is Some
}

/// The members of a protected header, as they stand in it.
pub ghost struct HeaderView {
    pub typ: Option<Seq<char>>,
    pub alg: Seq<char>,
    pub enc: Seq<char>,
    pub skid: Option<Seq<char>>,
    pub apu: Option<Seq<char>>,
    pub apv: Seq<char>,
    pub epk: Seq<char>,
}

/// The error for a protected header that lacks a member.
pub open spec fn missing_field(name: Seq<char>) -> ErrorView {
    error_of(
        ErrorKind::Malformed,
        "Unable parse protected header: missing field '"@ + name + "'"@,
    )
}

/// The members of a protected header: `alg`, `enc` and `apv` are texts and
/// `epk` is there, each required and looked for in this order; `typ`,
/// `skid` and `apu` are taken where they are texts.
pub open spec fn header_fields(h: JsonValue) -> Result<HeaderView, ErrorView> {
    if h.text_field("alg"@) is None {
        Err(missing_field("alg"@))
    } else if h.text_field("enc"@) is None {
        Err(missing_field("enc"@))
    } else if h.text_field("apv"@) is None {
        Err(missing_field("apv"@))
    } else if h.field("epk"@) is None {
        Err(missing_field("epk"@))
    } else {
        Ok(
            HeaderView {
                typ: h.text_field("typ"@),
                alg: h.text_field("alg"@)->Some_0,
                enc: h.text_field("enc"@)->Some_0,
                skid: h.text_field("skid"@),
                apu: h.text_field("apu"@),
                apv: h.text_field("apv"@)->Some_0,
                epk: json_written(h.field("epk"@)->Some_0),
            },
        )
    }
}

/// Decoding a base64url member; a failure names the member.
pub open spec fn decoded(text: Seq<char>, context: Seq<char>) -> Result<Seq<u8>, ErrorView> {
    match base64url_strict(text) {
        Ok(bytes) => Ok(bytes),
        Err(cause) => Err(error_caused(ErrorKind::Malformed, context, cause)),
    }
}

/// The protected header that a base64url text holds.
pub open spec fn header_of(protected: Seq<char>) -> Result<HeaderView, ErrorView> {
    match decoded(protected, "Unable decode protected header"@) {
        Err(e) => Err(e),
        Ok(bytes) => match utf8_text(bytes) {
            None => Err(
                error_caused(
                    ErrorKind::Malformed,
                    "Unable parse protected header"@,
                    "invalid UTF-8"@,
                ),
            ),
            Some(text) => match json_read(text) {
                Err(cause) => Err(
                    error_caused(ErrorKind::Malformed, "Unable parse protected header"@, cause),
                ),
                Ok(h) => header_fields(h),
            },
        },
    }
}

/// The `apv` that goes with a list of recipient key ids: the SHA-256 digest
/// of the ids, sorted and joined by a full stop.
pub open spec fn apv_of(kids: Seq<Seq<char>>) -> Seq<u8> {
    sha256_digest(encode_utf8(join_texts(sort_texts(kids), "."@)))
}

/// The digest of the recipients does not depend on the order in which their
/// key ids are listed: two lists that hold the same key ids, each as often
/// as the other, have one digest.
pub proof fn law_apv_ignores_order(a: Seq<Seq<char>>, b: Seq<Seq<char>>)
    requires
        a.to_multiset() == b.to_multiset(),
    ensures
        apv_of(a) == apv_of(b),
{
    crate::utils::law_sorting_ignores_order(a, b);
}

/// Whether `skid` and `apu` go together: where there is a `skid`, `apu`
/// holds its UTF-8 bytes.
pub open spec fn sender_consistent(skid: Option<Seq<char>>, apu: Option<Seq<u8>>) -> bool {
    match skid {
        None => true,
        Some(skid) => apu == Some(encode_utf8(skid)),
    }
}

/// The envelope that shape and header make: every base64url member is
/// decoded, `apv` is held against the recipients, and `skid` against `apu`.
pub open spec fn assemble(shape: JweShape, header: HeaderView) -> Result<JweView, ErrorView> {
    match decoded(header.apv, "Unable decode apv"@) {
        Err(e) => Err(e),
        Ok(apv) => match decoded_optional(header.apu, "Unable decode apu"@) {
            Err(e) => Err(e),
            Ok(apu) => match decoded(shape.iv, "Unable decode iv"@) {
                Err(e) => Err(e),
                Ok(iv) => match decoded(shape.ciphertext, "Unable decode ciphertext"@) {
                    Err(e) => Err(e),
                    Ok(ciphertext) => match decoded(shape.tag, "Unable decode tag"@) {
                        Err(e) => Err(e),
                        Ok(tag) => if apv != apv_of(kids_of(shape.recipients)) {
                            Err(error_of(ErrorKind::Malformed, "APV mismatch"@))
                        } else if !sender_consistent(header.skid, apu) {
                            Err(error_of(ErrorKind::Malformed, "SKID present, but no apu"@))
                        } else {
                            Ok(
                                JweView {
                                    protected: shape.protected,
                                    typ: header.typ,
                                    alg: key_management_of(header.alg),
                                    enc: content_encryption_of(header.enc),
                                    skid: header.skid,
                                    apu,
                                    apv,
                                    epk: header.epk,
                                    recipients: shape.recipients,
                                    iv,
                                    ciphertext,
                                    tag,
                                },
                            )
                        },
                    },
                },
            },
        },
    }
}

/// Decoding a base64url member that may be missing.
pub open spec fn decoded_optional(text: Option<Seq<char>>, context: Seq<char>) -> Result<
    Option<Seq<u8>>,
    ErrorView,
> {
    match text {
        None => Ok(None),
        Some(t) => match decoded(t, context) {
            Ok(bytes) => Ok(Some(bytes)),
            Err(e) => Err(e),
        },
    }
}

/// Reading an encrypted envelope: nothing for a text that has not the shape
/// of one, an error for an envelope that is malformed.
pub open spec fn read_jwe(text: Seq<char>) -> Result<Option<JweView>, ErrorView> {
    if !looks_like_jwe(text) {
        Ok(None)
    } else {
        let shape = shape_of(json_read(text)->Ok_0)->Some_0;
        match header_of(shape.protected) {
            Err(e) => Err(e),
            Ok(header) => match assemble(shape, header) {
                Err(e) => Err(e),
                Ok(jwe) => Ok(Some(jwe)),
            },
        }
    }
}

struct Shape {
    protected: String,
    recipients: Vec<Recipient>,
    iv: String,
    ciphertext: String,
    tag: String,
}

impl Shape {
    spec fn shape(&self) -> JweShape {
        JweShape {
            protected: self.protected@,
            recipients: recipients_view(self.recipients@),
            iv: self.iv@,
            ciphertext: self.ciphertext@,
            tag: self.tag@,
        }
    }
}

struct Header {
    typ: Option<String>,
    alg: String,
    enc: String,
    skid: Option<String>,
    apu: Option<String>,
    apv: String,
    epk: String,
}

impl Header {
    spec fn header(&self) -> HeaderView {
        HeaderView {
            typ: self.typ.deep_view(),
            alg: self.alg@,
            enc: self.enc@,
            skid: self.skid.deep_view(),
            apu: self.apu.deep_view(),
            apv: self.apv@,
            epk: self.epk@,
        }
    }
}

fn read_recipient(v: &Json) -> (r: Option<Recipient>)
    ensures
        match r {
            Some(rec) => recipient_of(v@) == Some(rec@),
            None => recipient_of(v@) is None,
        },
{
    let header = match v.get("header") {
        Some(h) => h,
        None => return None,
    };
    let encrypted_key = match v.get_text("encrypted_key") {
        Some(k) => k,
        None => return None,
    };
    match header.get_text("kid") {
        Some(kid) => Some(Recipient { kid, encrypted_key }),
        None => None,
    }
}

fn read_recipients(items: &Vec<Json>) -> (r: Option<Vec<Recipient>>)
    ensures
        match r {
            Some(recs) => recipients_of(values_of(items@)) == Some(recipients_view(recs@)),
            None => recipients_of(values_of(items@)) is None,
        },
{
    let ghost all = values_of(items@);
    let mut out: Vec<Recipient> = Vec::new();
    let mut i: usize = 0;
    assert(all.take(0) =~= Seq::<JsonValue>::empty());
    assert(recipients_view(out@) =~= Seq::<RecipientView>::empty());
    while i < items.len()
        invariant
            i <= items.len(),
            all == values_of(items@),
            recipients_of(all.take(i as int)) == Some(recipients_view(out@)),
        decreases items.len() - i,
    {
        let ghost before = recipients_view(out@);
        let ghost upto = all.take(i + 1);
        assert(upto.drop_last() =~= all.take(i as int));
        assert(upto.last() == items[i as int]@);
        match read_recipient(&items[i]) {
            Some(rec) => {
                out.push(rec);
                assert(recipients_view(out@) =~= before.push(rec@));
            },
            None => {
                proof {
                    lemma_recipients_fail(all, i + 1);
                }
                return None;
            },
        }
        i += 1;
    }
    assert(all.take(items.len() as int) =~= all);
    Some(out)
}

/// Where a list up to some place describes no recipients, the whole list
/// describes none.
proof fn lemma_recipients_fail(items: Seq<JsonValue>, n: int)
    requires
        0 <= n <= items.len(),
        recipients_of(items.take(n)) is None,
    ensures
        recipients_of(items) is None,
    decreases items.len() - n,
{
    if n < items.len() {
        assert(items.take(n + 1).drop_last() =~= items.take(n));
        lemma_recipients_fail(items, n + 1);
    } else {
        assert(items.take(n) =~= items);
    }
}

fn read_shape(v: &Json) -> (r: Option<Shape>)
    ensures
        match r {
            Some(s) => shape_of(v@) == Some(s.shape()),
            None => shape_of(v@) is None,
        },
{
    let protected = match v.get_text("protected") {
        Some(t) => t,
        None => return None,
    };
    let items = match v.get("recipients") {
        Some(j) => match j.as_array() {
            Some(items) => items,
            None => return None,
        },
        None => return None,
    };
    let iv = match v.get_text("iv") {
        Some(t) => t,
        None => return None,
    };
    let ciphertext = match v.get_text("ciphertext") {
        Some(t) => t,
        None => return None,
    };
    let tag = match v.get_text("tag") {
        Some(t) => t,
        None => return None,
    };
    match read_recipients(items) {
        Some(recipients) => Some(Shape { protected, recipients, iv, ciphertext, tag }),
        None => None,
    }
}

/// The error for a protected header that lacks a member.
pub fn missing(name: &str) -> (r: Error)
    ensures
        r@ == missing_field(name@),
{
    let mut message = "Unable parse protected header: missing field '".to_owned();
    vstd::string::StringExecFns::append(&mut message, name);
    vstd::string::StringExecFns::append(&mut message, "'");
    Error { kind: ErrorKind::Malformed, message }
}

fn read_header_fields(h: &Json) -> (r: Result<Header, Error>)
    ensures
        match r {
            Ok(header) => header_fields(h@) == Ok::<HeaderView, ErrorView>(header.header()),
            Err(e) => header_fields(h@) == Err::<HeaderView, ErrorView>(e@),
        },
{
    let alg = match h.get_text("alg") {
        Some(t) => t,
        None => return Err(missing("alg")),
    };
    let enc = match h.get_text("enc") {
        Some(t) => t,
        None => return Err(missing("enc")),
    };
    let apv = match h.get_text("apv") {
        Some(t) => t,
        None => return Err(missing("apv")),
    };
    let epk = match h.get("epk") {
        Some(j) => to_text(j),
        None => return Err(missing("epk")),
    };
    Ok(
        Header {
            typ: h.get_text("typ"),
            alg,
            enc,
            skid: h.get_text("skid"),
            apu: h.get_text("apu"),
            apv,
            epk,
        },
    )
}

fn read_header(protected: &str) -> (r: Result<Header, Error>)
    ensures
        match r {
            Ok(header) => header_of(protected@) == Ok::<HeaderView, ErrorView>(header.header()),
            Err(e) => header_of(protected@) == Err::<HeaderView, ErrorView>(e@),
        },
{
    let bytes = decode_field(protected, "Unable decode protected header")?;
    let text = match text_from_utf8(bytes) {
        Some(t) => t,
        None => {
            return Err(
                err_caused(ErrorKind::Malformed, "Unable parse protected header", "invalid UTF-8"),
            );
        },
    };
    let h = parse_or_malformed(text.as_str(), "Unable parse protected header")?;
    read_header_fields(&h)
}

/// The `apv` that goes with a list of recipient key ids.
pub fn compute_apv(kids: &Vec<String>) -> (r: Vec<u8>)
    ensures
        r@ == apv_of(kids.deep_view()),
{
    let sorted = sorted_texts(kids);
    let joined = joined_texts(&sorted, ".");
    sha256(joined.as_str().as_bytes())
}

/// The key management that a protected header names.
pub fn key_management(name: &str) -> (r: KeyManagement)
    ensures
        r == key_management_of(name@),
{
    if same_text(name, "ECDH-1PU+A256KW") {
        KeyManagement::Ecdh1puA256kw
    } else if same_text(name, "ECDH-ES+A256KW") {
        KeyManagement::EcdhEsA256kw
    } else {
        KeyManagement::Other
    }
}

/// The content encryption that a protected header names.
pub fn content_encryption(name: &str) -> (r: Option<ContentEncryption>)
    ensures
        r == content_encryption_of(name@),
{
    if same_text(name, "A256CBC-HS512") {
        Some(ContentEncryption::A256cbcHs512)
    } else if same_text(name, "XC20P") {
        Some(ContentEncryption::Xc20P)
    } else if same_text(name, "A256GCM") {
        Some(ContentEncryption::A256Gcm)
    } else {
        None
    }
}

fn check_sender(skid: &Option<String>, apu: &Option<Vec<u8>>) -> (r: bool)
    ensures
        r == sender_consistent(skid.deep_view(), crate::jwe::envelope::bytes_view(*apu)),
{
    match skid {
        None => true,
        Some(skid) => match apu {
            None => false,
            Some(apu) => {
                let expected = crate::encoding::utf8_bytes(skid.as_str());
                same_bytes(apu, &expected)
            },
        },
    }
}

fn build(shape: Shape, header: Header) -> (r: Result<Jwe, Error>)
    ensures
        match r {
            Ok(jwe) => assemble(shape.shape(), header.header()) == Ok::<JweView, ErrorView>(jwe@),
            Err(e) => assemble(shape.shape(), header.header()) == Err::<JweView, ErrorView>(e@),
        },
{
    let apv = decode_field(header.apv.as_str(), "Unable decode apv")?;
    let apu = match &header.apu {
        None => None,
        Some(t) => Some(decode_field(t.as_str(), "Unable decode apu")?),
    };
    let iv = decode_field(shape.iv.as_str(), "Unable decode iv")?;
    let ciphertext = decode_field(shape.ciphertext.as_str(), "Unable decode ciphertext")?;
    let tag = decode_field(shape.tag.as_str(), "Unable decode tag")?;
    let jwe = Jwe {
        protected: shape.protected,
        typ: header.typ,
        alg: key_management(header.alg.as_str()),
        enc: content_encryption(header.enc.as_str()),
        skid: header.skid,
        apu,
        apv,
        epk: header.epk,
        recipients: shape.recipients,
        iv,
        ciphertext,
        tag,
    };
    let kids = jwe.kids();
    let expected = compute_apv(&kids);
    if !same_bytes(&jwe.apv, &expected) {
        return Err(err_msg(ErrorKind::Malformed, "APV mismatch"));
    }
    if !check_sender(&jwe.skid, &jwe.apu) {
        return Err(err_msg(ErrorKind::Malformed, "SKID present, but no apu"));
    }
    Ok(jwe)
}

impl Jwe {
    /// Reads an encrypted envelope from text. A text that has not the shape
    /// of one gives `None`; one that has it and is malformed gives the
    /// error.
    pub fn parse(text: &str) -> (r: Result<Option<Jwe>, Error>)
        ensures
            match r {
                Ok(Some(jwe)) => read_jwe(text@) == Ok::<Option<JweView>, ErrorView>(Some(jwe@)),
                Ok(None) => read_jwe(text@) == Ok::<Option<JweView>, ErrorView>(None),
                Err(e) => read_jwe(text@) == Err::<Option<JweView>, ErrorView>(e@),
            },
    {
        let value = match parse(text) {
            Ok(v) => v,
            Err(_) => return Ok(None),
        };
        let shape = match read_shape(&value) {
            Some(s) => s,
            None => return Ok(None),
        };
        let header = read_header(shape.protected.as_str())?;
        let jwe = build(shape, header)?;
        Ok(Some(jwe))
    }
}

} // verus!
