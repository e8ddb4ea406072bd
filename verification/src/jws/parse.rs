//! Reading a signed envelope from text.

use crate::algorithms::SignAlg;
use crate::encoding::{decode_field, text_from_utf8, utf8_text};
use crate::error::{err_caused, error_caused, Error, ErrorKind, ErrorView};
use crate::json::{json_read, parse, parse_or_malformed, values_of, Json, JsonValue};
use crate::jwe::parse::{decoded, missing, missing_field};
use crate::jws::envelope::{
    sign_alg_named, signatures_view, Jws, JwsView, Signature, SignatureView,
};
use crate::utils::same_text;
use vstd::prelude::*;

verus! {

/// One signature as it stands in an envelope.
pub ghost struct SignatureShape {
    pub protected: Seq<char>,
    pub kid: Seq<char>,
    pub signature: Seq<char>,
}

/// The signature that a JSON value describes: it has the texts `protected`
/// and `signature`, and a `header` with a `kid`.
pub open spec fn signature_shape_of(v: JsonValue) -> Option<SignatureShape> {
    match (v.text_field("protected"@), v.text_field("signature"@), v.field("header"@)) {
        (Some(protected), Some(signature), Some(header)) => match header.text_field("kid"@) {
            Some(kid) => Some(SignatureShape { protected, kid, signature }),
            None => None,
        },
        _ => None,
    }
}

/// The signatures that a list of JSON values describes, if each describes
/// one.
pub open spec fn signature_shapes_of(items: Seq<JsonValue>) -> Option<Seq<SignatureShape>>
    decreases items.len(),
{
    if items.len() == 0 {
        Some(Seq::empty())
    } else {
        match (signature_shapes_of(items.drop_last()), signature_shape_of(items.last())) {
            (Some(before), Some(last)) => Some(before.push(last)),
            _ => None,
        }
    }
}

/// The shape of a signed envelope in its general form: a text `payload`
/// and a list `signatures`.
pub open spec fn general_shape_of(v: JsonValue) -> Option<(Seq<char>, Seq<SignatureShape>)> {
    match (v.text_field("payload"@), v.field("signatures"@)) {
        (Some(payload), Some(JsonValue::Array(items))) => match signature_shapes_of(items) {
            Some(signatures) => Some((payload, signatures)),
            None => None,
        },
        _ => None,
    }
}

/// The shape of a signed envelope in its flattened form: a text `payload`
/// and, beside it, the members of its one signature.
pub open spec fn flattened_shape_of(v: JsonValue) -> Option<(Seq<char>, Seq<SignatureShape>)> {
    match (v.text_field("payload"@), signature_shape_of(v)) {
        (Some(payload), Some(signature)) => Some((payload, seq![signature])),
        _ => None,
    }
}

/// The shape of a signed envelope: the general form, or else the flattened
/// one.
pub open spec fn jws_shape_of(v: JsonValue) -> Option<(Seq<char>, Seq<SignatureShape>)> {
    match general_shape_of(v) {
        Some(shape) => Some(shape),
        None => flattened_shape_of(v),
    }
}

/// Whether a text has the shape of a signed envelope.
pub open spec fn looks_like_jws(text: Seq<char>) -> bool {
    json_read(text) is Ok && jws_shape_of(json_read(text)->Ok_0) is Some
}

/// A signature with its protected header read: the header is base64url of
/// a JSON object with the texts `typ` and `alg`.
pub open spec fn signature_of(shape: SignatureShape) -> Result<SignatureView, ErrorView> {
    match decoded(shape.protected, "Unable decode protected header"@) {
        Err(e) => Err(e),
        Ok(bytes) => match utf8_text(bytes) {
            None => Err(
                error_caused(
                    ErrorKind::Malformed,
                    "Unable parse protected header"@,
                    "invalid UTF-8"@,
                ),
            ),
            Some(text) => match json_read(text) {
                Err(cause) => Err(
                    error_caused(ErrorKind::Malformed, "Unable parse protected header"@, cause),
                ),
                Ok(h) => match (h.text_field("typ"@), h.text_field("alg"@)) {
                    (None, _) => Err(missing_field("typ"@)),
                    (Some(_), None) => Err(missing_field("alg"@)),
                    (Some(typ), Some(alg)) => Ok(
                        SignatureView {
                            protected: shape.protected,
                            typ,
                            alg: sign_alg_named(alg),
                            kid: shape.kid,
                            signature: shape.signature,
                        },
                    ),
                },
            },
        },
    }
}

/// The signatures with their protected headers read, in their order; the
/// first header that cannot be read gives the error.
pub open spec fn signatures_of(shapes: Seq<SignatureShape>) -> Result<
    Seq<SignatureView>,
    ErrorView,
>
    decreases shapes.len(),
{
    if shapes.len() == 0 {
        Ok(Seq::empty())
    } else {
        match signatures_of(shapes.drop_last()) {
            Err(e) => Err(e),
            Ok(before) => match signature_of(shapes.last()) {
                Err(e) => Err(e),
                Ok(last) => Ok(before.push(last)),
            },
        }
    }
}

/// Reading a signed envelope: nothing for a text that has not the shape of
/// one, an error for an envelope that is malformed.
pub open spec fn read_jws(text: Seq<char>) -> Result<Option<JwsView>, ErrorView> {
    if !looks_like_jws(text) {
        Ok(None)
    } else {
        let shape = jws_shape_of(json_read(text)->Ok_0)->Some_0;
        match signatures_of(shape.1) {
            Err(e) => Err(e),
            Ok(signatures) => Ok(Some(JwsView { payload: shape.0, signatures })),
        }
    }
}

struct Shape {
    protected: String,
    kid: String,
    signature: String,
}

impl Shape {
    spec fn shape(&self) -> SignatureShape {
        SignatureShape { protected: self.protected@, kid: self.kid@, signature: self.signature@ }
    }
}

spec fn shapes_view(list: Seq<Shape>) -> Seq<SignatureShape> {
    Seq::new(list.len(), |i: int| list[i].shape())
}

fn read_signature_shape(v: &Json) -> (r: Option<Shape>)
    ensures
        match r {
            Some(s) => signature_shape_of(v@) == Some(s.shape()),
            None => signature_shape_of(v@) is None,
        },
{
    let protected = match v.get_text("protected") {
        Some(t) => t,
        None => return None,
    };
    let signature = match v.get_text("signature") {
        Some(t) => t,
        None => return None,
    };
    let header = match v.get("header") {
        Some(h) => h,
        None => return None,
    };
    match header.get_text("kid") {
        Some(kid) => Some(Shape { protected, kid, signature }),
        None => None,
    }
}

proof fn lemma_shapes_fail(items: Seq<JsonValue>, n: int)
    requires
        0 <= n <= items.len(),
        signature_shapes_of(items.take(n)) is None,
    ensures
        signature_shapes_of(items) is None,
    decreases items.len() - n,
{
    if n < items.len() {
        assert(items.take(n + 1).drop_last() =~= items.take(n));
        lemma_shapes_fail(items, n + 1);
    } else {
        assert(items.take(n) =~= items);
    }
}

fn read_signature_shapes(items: &Vec<Json>) -> (r: Option<Vec<Shape>>)
    ensures
        match r {
            Some(list) => signature_shapes_of(values_of(items@)) == Some(shapes_view(list@)),
            None => signature_shapes_of(values_of(items@)) is None,
        },
{
    let ghost all = values_of(items@);
    let mut out: Vec<Shape> = Vec::new();
    let mut i: usize = 0;
    assert(all.take(0) =~= Seq::<JsonValue>::empty());
    assert(shapes_view(out@) =~= Seq::<SignatureShape>::empty());
    while i < items.len()
        invariant
            i <= items.len(),
            all == values_of(items@),
            signature_shapes_of(all.take(i as int)) == Some(shapes_view(out@)),
        decreases items.len() - i,
    {
        let ghost before = shapes_view(out@);
        let ghost upto = all.take(i + 1);
        assert(upto.drop_last() =~= all.take(i as int));
        assert(upto.last() == items[i as int]@);
        match read_signature_shape(&items[i]) {
            Some(s) => {
                out.push(s);
                assert(shapes_view(out@) =~= before.push(s.shape()));
            },
            None => {
                proof {
                    lemma_shapes_fail(all, i + 1);
                }
                return None;
            },
        }
        i += 1;
    }
    assert(all.take(items.len() as int) =~= all);
    Some(out)
}

/// The signing algorithm that a protected header names.
pub fn sign_alg_from_name(name: &str) -> (r: Option<SignAlg>)
    ensures
        r == sign_alg_named(name@),
{
    if same_text(name, "EdDSA") {
        Some(SignAlg::EdDSA)
    } else if same_text(name, "ES256") {
        Some(SignAlg::ES256)
    } else if same_text(name, "ES256K") {
        Some(SignAlg::ES256K)
    } else {
        None
    }
}

fn read_signature(shape: &Shape) -> (r: Result<Signature, Error>)
    ensures
        match r {
            Ok(s) => signature_of(shape.shape()) == Ok::<SignatureView, ErrorView>(s@),
            Err(e) => signature_of(shape.shape()) == Err::<SignatureView, ErrorView>(e@),
        },
{
    let bytes = decode_field(shape.protected.as_str(), "Unable decode protected header")?;
    let text = match text_from_utf8(bytes) {
        Some(t) => t,
        None => {
            return Err(
                err_caused(ErrorKind::Malformed, "Unable parse protected header", "invalid UTF-8"),
            );
        },
    };
    let h = parse_or_malformed(text.as_str(), "Unable parse protected header")?;
    let typ = match h.get_text("typ") {
        Some(t) => t,
        None => return Err(missing("typ")),
    };
    let alg = match h.get_text("alg") {
        Some(t) => t,
        None => return Err(missing("alg")),
    };
    Ok(
        Signature {
            protected: shape.protected.clone(),
            typ,
            alg: sign_alg_from_name(alg.as_str()),
            kid: shape.kid.clone(),
            signature: shape.signature.clone(),
        },
    )
}

/// Where the signatures up to some place cannot be read, the whole list
/// gives the same error.
proof fn lemma_signatures_fail(shapes: Seq<SignatureShape>, n: int)
    requires
        0 <= n <= shapes.len(),
        signatures_of(shapes.take(n)) is Err,
    ensures
        signatures_of(shapes) == signatures_of(shapes.take(n)),
    decreases shapes.len() - n,
{
    if n < shapes.len() {
        assert(shapes.take(n + 1).drop_last() =~= shapes.take(n));
        lemma_signatures_fail(shapes, n + 1);
    } else {
        assert(shapes.take(n) =~= shapes);
    }
}

fn read_signatures(shapes: &Vec<Shape>) -> (r: Result<Vec<Signature>, Error>)
    ensures
        match r {
            Ok(list) => signatures_of(shapes_view(shapes@)) == Ok::<
                Seq<SignatureView>,
                ErrorView,
            >(signatures_view(list@)),
            Err(e) => signatures_of(shapes_view(shapes@)) == Err::<
                Seq<SignatureView>,
                ErrorView,
            >(e@),
        },
{
    let ghost all = shapes_view(shapes@);
    let mut out: Vec<Signature> = Vec::new();
    let mut i: usize = 0;
    assert(all.take(0) =~= Seq::<SignatureShape>::empty());
    assert(signatures_view(out@) =~= Seq::<SignatureView>::empty());
    while i < shapes.len()
        invariant
            i <= shapes.len(),
            all == shapes_view(shapes@),
            signatures_of(all.take(i as int)) == Ok::<Seq<SignatureView>, ErrorView>(
                signatures_view(out@),
            ),
        decreases shapes.len() - i,
    {
        let ghost before = signatures_view(out@);
        let ghost upto = all.take(i + 1);
        assert(upto.drop_last() =~= all.take(i as int));
        assert(upto.last() == shapes[i as int].shape());
        match read_signature(&shapes[i]) {
            Ok(s) => {
                out.push(s);
                assert(signatures_view(out@) =~= before.push(s@));
            },
            Err(e) => {
                proof {
                    lemma_signatures_fail(all, i + 1);
                }
                return Err(e);
            },
        }
        i += 1;
    }
    assert(all.take(shapes.len() as int) =~= all);
    Ok(out)
}

fn read_general(value: &Json) -> (r: Option<(String, Vec<Shape>)>)
    ensures
        match r {
            Some((payload, shapes)) => general_shape_of(value@) == Some(
                (payload@, shapes_view(shapes@)),
            ),
            None => general_shape_of(value@) is None,
        },
{
    let payload = match value.get_text("payload") {
        Some(t) => t,
        None => return None,
    };
    let items = match value.get("signatures") {
        Some(j) => match j.as_array() {
            Some(items) => items,
            None => return None,
        },
        None => return None,
    };
    match read_signature_shapes(items) {
        Some(shapes) => Some((payload, shapes)),
        None => None,
    }
}

fn read_flattened(value: &Json) -> (r: Option<(String, Vec<Shape>)>)
    ensures
        match r {
            Some((payload, shapes)) => flattened_shape_of(value@) == Some(
                (payload@, shapes_view(shapes@)),
            ),
            None => flattened_shape_of(value@) is None,
        },
{
    let payload = match value.get_text("payload") {
        Some(t) => t,
        None => return None,
    };
    match read_signature_shape(value) {
        Some(shape) => {
            let mut shapes: Vec<Shape> = Vec::new();
            shapes.push(shape);
            assert(shapes_view(shapes@) =~= seq![shape.shape()]);
            Some((payload, shapes))
        },
        None => None,
    }
}

impl Jws {
    /// Reads a signed envelope from text, in its general or its flattened
    /// form. A text that has not the shape of one gives `None`; one that
    /// has it and is malformed gives the error.
    pub fn parse(text: &str) -> (r: Result<Option<Jws>, Error>)
        ensures
            match r {
                Ok(Some(jws)) => read_jws(text@) == Ok::<Option<JwsView>, ErrorView>(Some(jws@)),
                Ok(None) => read_jws(text@) == Ok::<Option<JwsView>, ErrorView>(None),
                Err(e) => read_jws(text@) == Err::<Option<JwsView>, ErrorView>(e@),
            },
    {
        let value = match parse(text) {
            Ok(v) => v,
            Err(_) => return Ok(None),
        };
        let (payload, shapes) = match read_general(&value) {
            Some(found) => found,
            None => match read_flattened(&value) {
                Some(found) => found,
                None => return Ok(None),
            },
        };
        let signatures = read_signatures(&shapes)?;
        Ok(Some(Jws { payload, signatures }))
    }
}

} // verus!
