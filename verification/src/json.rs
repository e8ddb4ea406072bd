//! JSON values as the library holds them, and their reading and writing.

use crate::error::{err_caused, Error, ErrorKind};
use vstd::prelude::*;

verus! {

/// A number that is no 64-bit integer, as the text that it is written
/// with. The text is kept to itself: a value is made by [`DecimalText::new`],
/// which takes none but a text that is read as such a number and written
/// the same, or by reading JSON.
#[derive(Debug, PartialEq, Eq)]
pub struct DecimalText {
    text: String,
}

impl View for DecimalText {
    type V = Seq<char>;

    closed spec fn view(&self) -> Seq<char> {
        self.text@
    }
}

impl DecimalText {
    /// The number that a text is written as. A text that is not read as a
    /// number, or as a number that is written otherwise, is refused.
    pub fn new(text: &str) -> (r: Option<DecimalText>)
        ensures
            match r {
                Some(d) => d@ == text@ && json_read(text@) == Ok::<JsonValue, Seq<char>>(
                    JsonValue::Decimal(text@),
                ),
                None => json_read(text@) != Ok::<JsonValue, Seq<char>>(JsonValue::Decimal(text@)),
            },
    {
        match read_with_serde(text) {
            Ok(Json::Decimal(d)) => if crate::utils::same_text(d.text.as_str(), text) {
                Some(d)
            } else {
                None
            },
            _ => None,
        }
    }

    /// The text that the number is written with.
    pub fn as_str(&self) -> (r: &str)
        ensures
            r@ == self@,
    {
        self.text.as_str()
    }

    /// A copy of this number.
    pub fn duplicate(&self) -> (r: DecimalText)
        ensures
            r@ == self@,
    {
        DecimalText { text: self.text.clone() }
    }
}

/// A JSON value. The members of an object keep the order they were given in.
#[derive(Debug, PartialEq, Eq)]
pub enum Json {
    Null,
    Bool(bool),
    /// A number that fits an unsigned 64-bit integer.
    UInt(u64),
    /// A negative number that fits a signed 64-bit integer.
    Int(i64),
    /// Any other number, as the text it is written with.
    Decimal(DecimalText),
    Str(String),
    Array(Vec<Json>),
    Object(Vec<(String, Json)>),
}

/// The mathematical value of a [`Json`].
pub ghost enum JsonValue {
    Null,
    Bool(bool),
    UInt(u64),
    Int(i64),
    Decimal(Seq<char>),
    Str(Seq<char>),
    Array(Seq<JsonValue>),
    Object(Seq<(Seq<char>, JsonValue)>),
}

/// The mathematical value of `j`.
pub open spec fn json_value(j: Json) -> JsonValue
    decreases j,
{
    match j {
        Json::Null => JsonValue::Null,
        Json::Bool(b) => JsonValue::Bool(b),
        Json::UInt(n) => JsonValue::UInt(n),
        Json::Int(n) => JsonValue::Int(n),
        Json::Decimal(n) => JsonValue::Decimal(n@),
        Json::Str(s) => JsonValue::Str(s@),
        Json::Array(items) => JsonValue::Array(
            Seq::new(
                items@.len(),
                |i: int|
                    if 0 <= i < items@.len() {
                        json_value(items@[i])
                    } else {
                        JsonValue::Null
                    },
            ),
        ),
        Json::Object(members) => JsonValue::Object(
            Seq::new(
                members@.len(),
                |i: int|
                    if 0 <= i < members@.len() {
                        (members@[i].0@, json_value(members@[i].1))
                    } else {
                        (Seq::empty(), JsonValue::Null)
                    },
            ),
        ),
    }
}

impl View for Json {
    type V = JsonValue;

    open spec fn view(&self) -> JsonValue {
        json_value(*self)
    }
}

/// The value of the first member named `key`, if there is one.
pub open spec fn member(members: Seq<(Seq<char>, JsonValue)>, key: Seq<char>) -> Option<
    JsonValue,
>
    decreases members.len(),
{
    if members.len() == 0 {
        None
    } else if members[0].0 == key {
        Some(members[0].1)
    } else {
        member(members.drop_first(), key)
    }
}

impl JsonValue {
    /// The member `key` of an object; `None` for a missing member and for
    /// anything that is no object.
    pub open spec fn field(self, key: Seq<char>) -> Option<JsonValue> {
        match self {
            JsonValue::Object(members) => member(members, key),
            _ => None,
        }
    }

    /// The text of a string member; `None` where the member is missing or
    /// no string.
    pub open spec fn text_field(self, key: Seq<char>) -> Option<Seq<char>> {
        match self.field(key) {
            Some(JsonValue::Str(s)) => Some(s),
            _ => None,
        }
    }

    /// Whether the object has a member `key`.
    pub open spec fn has(self, key: Seq<char>) -> bool {
        self.field(key) is Some
    }
}

/// The views of a vector of values, one for one.
pub open spec fn values_of(items: Seq<Json>) -> Seq<JsonValue> {
    Seq::new(items.len(), |i: int| items[i]@)
}

/// The views of the members of an object, one for one.
pub open spec fn members_of(members: Seq<(String, Json)>) -> Seq<(Seq<char>, JsonValue)> {
    Seq::new(members.len(), |i: int| (members[i].0@, members[i].1@))
}

/// An array's view is the views of its items.
pub proof fn lemma_array_view(items: Vec<Json>)
    ensures
        Json::Array(items)@ == JsonValue::Array(values_of(items@)),
{
    let v = Json::Array(items)@;
    assert(v is Array);
    assert(v->Array_0.len() == items@.len());
    assert(v->Array_0 =~= values_of(items@));
}

/// An object's view is the views of its members.
pub proof fn lemma_object_view(members: Vec<(String, Json)>)
    ensures
        Json::Object(members)@ == JsonValue::Object(members_of(members@)),
{
    let v = Json::Object(members)@;
    assert(v is Object);
    assert(v->Object_0.len() == members@.len());
    assert(v->Object_0 =~= members_of(members@));
}

impl Clone for Json {
    fn clone(&self) -> (r: Json)
        ensures
            r@ == self@,
    {
        self.duplicate()
    }
}

impl Json {
    /// A copy of this value.
    #[verifier::loop_isolation(false)]
    pub fn duplicate(&self) -> (r: Json)
        ensures
            r@ == self@,
        decreases self,
    {
        match self {
            Json::Null => Json::Null,
            Json::Bool(b) => Json::Bool(*b),
            Json::UInt(n) => Json::UInt(*n),
            Json::Int(n) => Json::Int(*n),
            Json::Decimal(n) => Json::Decimal(n.duplicate()),
            Json::Str(s) => Json::Str(s.clone()),
            Json::Array(items) => {
                let mut out: Vec<Json> = Vec::new();
                let mut i: usize = 0;
                while i < items.len()
                    invariant
                        i <= items.len(),
                        out.len() == i,
                        forall|k: int| 0 <= k < i ==> out[k]@ == items[k]@,
                    decreases items.len() - i,
                {
                    out.push(items[i].duplicate());
                    i += 1;
                }
                let r = Json::Array(out);
                assert(r@->Array_0 =~= self@->Array_0);
                r
            },
            Json::Object(members) => {
                let mut out: Vec<(String, Json)> = Vec::new();
                let mut i: usize = 0;
                while i < members.len()
                    invariant
                        i <= members.len(),
                        out.len() == i,
                        forall|k: int|
                            0 <= k < i ==> out[k].0@ == members[k].0@ && out[k].1@
                                == members[k].1@,
                    decreases members.len() - i,
                {
                    out.push((members[i].0.clone(), members[i].1.duplicate()));
                    i += 1;
                }
                let r = Json::Object(out);
                assert(r@->Object_0 =~= self@->Object_0);
                r
            },
        }
    }

    /// The member `key` of an object.
    #[verifier::loop_isolation(false)]
    pub fn get(&self, key: &str) -> (r: Option<&Json>)
        ensures
            match r {
                Some(j) => self@.field(key@) == Some(j@),
                None => self@.field(key@) is None,
            },
    {
        match self {
            Json::Object(members) => {
                proof {
                    lemma_object_view(*members);
                }
                let wanted = key.to_owned();
                let mut i: usize = 0;
                assert(members_of(members@).skip(0) =~= members_of(members@));
                while i < members.len()
                    invariant
                        i <= members.len(),
                        wanted@ == key@,
                        member(members_of(members@), key@) == member(
                            members_of(members@).skip(i as int),
                            key@,
                        ),
                    decreases members.len() - i,
                {
                    let ghost rest = members_of(members@).skip(i as int);
                    assert(rest.len() > 0);
                    assert(rest[0] == (members[i as int].0@, members[i as int].1@));
                    assert(rest.drop_first() =~= members_of(members@).skip(i + 1));
                    if members[i].0 == wanted {
                        return Some(&members[i].1);
                    }
                    i += 1;
                }
                None
            },
            _ => None,
        }
    }

    /// The text of a string value.
    pub fn as_str(&self) -> (r: Option<&String>)
        ensures
            match r {
                Some(s) => self@ == JsonValue::Str(s@),
                None => !(self@ is Str),
            },
    {
        match self {
            Json::Str(s) => Some(s),
            _ => None,
        }
    }

    /// The number held by an unsigned integer value.
    pub fn as_u64(&self) -> (r: Option<u64>)
        ensures
            match r {
                Some(n) => self@ == JsonValue::UInt(n),
                None => !(self@ is UInt),
            },
    {
        match self {
            Json::UInt(n) => Some(*n),
            _ => None,
        }
    }

    /// The items of an array.
    pub fn as_array(&self) -> (r: Option<&Vec<Json>>)
        ensures
            match r {
                Some(items) => self@ == JsonValue::Array(values_of(items@)),
                None => !(self@ is Array),
            },
    {
        match self {
            Json::Array(items) => {
                proof {
                    lemma_array_view(*items);
                }
                Some(items)
            },
            _ => None,
        }
    }

    /// The members of an object.
    pub fn as_object(&self) -> (r: Option<&Vec<(String, Json)>>)
        ensures
            match r {
                Some(members) => self@ == JsonValue::Object(members_of(members@)),
                None => !(self@ is Object),
            },
    {
        match self {
            Json::Object(members) => {
                proof {
                    lemma_object_view(*members);
                }
                Some(members)
            },
            _ => None,
        }
    }

    /// The text of the string member `key`.
    pub fn get_text(&self, key: &str) -> (r: Option<String>)
        ensures
            match r {
                Some(s) => self@.text_field(key@) == Some(s@),
                None => self@.text_field(key@) is None,
            },
    {
        match self.get(key) {
            Some(Json::Str(s)) => Some(s.clone()),
            _ => None,
        }
    }

    /// A string value holding `text`.
    pub fn text(text: &str) -> (r: Json)
        ensures
            r@ == JsonValue::Str(text@),
    {
        Json::Str(text.to_owned())
    }
}

#[verifier::external_type_specification]
#[verifier::external_body]
pub struct ExValue(serde_json::Value);

#[verifier::external_type_specification]
#[verifier::external_body]
pub struct ExNumber(serde_json::Number);

/// What `serde_json` reads in a text: the value, or its complaint.
pub uninterp spec fn json_read(text: Seq<char>) -> core::result::Result<JsonValue, Seq<char>>;

/// The text that `serde_json` writes for a value, in its compact form.
pub uninterp spec fn json_written(value: JsonValue) -> Seq<char>;

/// Turns a number of `serde_json` into the variant that holds it: `as_u64`
/// for one that fits, else `as_i64`, else the text that `to_string` prints
/// for it.
#[verifier::external_body]
fn number_from_serde(n: &serde_json::Number) -> Json {
    match (n.as_u64(), n.as_i64()) {
        (Some(u), _) => Json::UInt(u),
        (_, Some(i)) => Json::Int(i),
        _ => Json::Decimal(DecimalText { text: n.to_string() }),
    }
}

/// Turns a `serde_json::Value` into a [`Json`], variant by variant. The
/// members of an object come in the order in which its map yields them.
#[verifier::external_body]
fn from_serde(v: &serde_json::Value) -> Json {
    match v {
        serde_json::Value::Null => Json::Null,
        serde_json::Value::Bool(b) => Json::Bool(*b),
        serde_json::Value::Number(n) => number_from_serde(n),
        serde_json::Value::String(s) => Json::Str(s.clone()),
        serde_json::Value::Array(a) => Json::Array(a.iter().map(from_serde).collect()),
        serde_json::Value::Object(m) => Json::Object(
            m.iter().map(|(k, v)| (k.clone(), from_serde(v))).collect(),
        ),
    }
}

/// Turns a [`Json`] into a `serde_json::Value`, variant by variant. A
/// `Decimal` becomes what `serde_json::from_str` reads in its text, which
/// is a text that it read as a number before. Of members with one name the
/// last one stays.
#[verifier::external_body]
fn to_serde(j: &Json) -> serde_json::Value {
    match j {
        Json::Null => serde_json::Value::Null,
        Json::Bool(b) => serde_json::Value::Bool(*b),
        Json::UInt(n) => serde_json::Value::from(*n),
        Json::Int(n) => serde_json::Value::from(*n),
        Json::Decimal(n) => serde_json::from_str(n.text.as_str()).unwrap_or_default(),
        Json::Str(s) => serde_json::Value::String(s.clone()),
        Json::Array(a) => serde_json::Value::Array(a.iter().map(to_serde).collect()),
        Json::Object(m) => serde_json::Value::Object(
            m.iter().map(|(k, v)| (k.clone(), to_serde(v))).collect(),
        ),
    }
}

/// `serde_json::from_str` into a `serde_json::Value`: the value read, or the
/// printed form of the error. The result depends on the text alone.
#[verifier::external_body]
fn read_with_serde(text: &str) -> (r: core::result::Result<Json, String>)
    ensures
        match r {
            Ok(j) => json_read(text@) == Ok::<JsonValue, Seq<char>>(j@),
            Err(e) => json_read(text@) == Err::<JsonValue, Seq<char>>(e@),
        },
{
    match serde_json::from_str::<serde_json::Value>(text) {
        Ok(v) => Ok(from_serde(&v)),
        Err(e) => Err(e.to_string()),
    }
}

/// `serde_json::to_string` of the value: compact JSON text. Writing a
/// `serde_json::Value` to a string does not fail.
#[verifier::external_body]
fn write_with_serde(j: &Json) -> (r: String)
    ensures
        r@ == json_written(j@),
{
    serde_json::to_string(&to_serde(j)).unwrap_or_default()
}

/// Reads a JSON text.
pub fn parse(text: &str) -> (r: core::result::Result<Json, String>)
    ensures
        match r {
            Ok(j) => json_read(text@) == Ok::<JsonValue, Seq<char>>(j@),
            Err(e) => json_read(text@) == Err::<JsonValue, Seq<char>>(e@),
        },
{
    read_with_serde(text)
}

/// Reads a JSON text; a text that is no JSON gives a `Malformed` error whose
/// message starts with `context`.
pub fn parse_or_malformed(text: &str, context: &str) -> (r: core::result::Result<Json, Error>)
    ensures
        match r {
            Ok(j) => json_read(text@) == Ok::<JsonValue, Seq<char>>(j@),
            Err(e) => json_read(text@) is Err && e@ == crate::error::error_caused(
                ErrorKind::Malformed,
                context@,
                json_read(text@)->Err_0,
            ),
        },
{
    match read_with_serde(text) {
        Ok(j) => Ok(j),
        Err(cause) => Err(err_caused(ErrorKind::Malformed, context, cause.as_str())),
    }
}

/// Writes a value as compact JSON text.
pub fn to_text(j: &Json) -> (r: String)
    ensures
        r@ == json_written(j@),
{
    write_with_serde(j)
}

} // verus!
