//! A JSON document model. Parsing a raw body is delegated to serde_json and
//! named by `json_of`; everything that reads the parsed document — field
//! lookup and the provider schemas — is verified against the ghost model.

use vstd::prelude::*;

verus! {

broadcast use vstd::std_specs::vec::group_vec_axioms, vstd::seq::group_seq_axioms;

/// Ghost model of a JSON document. Numbers are kept in their textual form:
/// no schema in this library reads a numeric value.
pub enum JsonV {
    Null,
    Bool(bool),
    Num(Seq<char>),
    Str(Seq<char>),
    Arr(Seq<JsonV>),
    Obj(Seq<(Seq<char>, JsonV)>),
}

/// A parsed JSON document. Object members keep the order in which the parser
/// hands them over; numbers are kept in their textual form.
pub enum Json {
    Null,
    Bool(bool),
    Num(String),
    Str(String),
    Arr(Vec<Json>),
    Obj(Vec<(String, Json)>),
}

/// The ghost model of a parsed object's member list.
pub open spec fn fields_model(fields: Seq<(String, Json)>) -> Seq<(Seq<char>, JsonV)> {
    Seq::new(fields.len(), |i: int| (fields[i].0@, fields[i].1.model()))
}

impl Json {
    /// The ghost model of a parsed document.
    pub open spec fn model(self) -> JsonV
        decreases self,
    {
        match self {
            Json::Null => JsonV::Null,
            Json::Bool(b) => JsonV::Bool(b),
            Json::Num(s) => JsonV::Num(s@),
            Json::Str(s) => JsonV::Str(s@),
            Json::Arr(items) => JsonV::Arr(
                Seq::new(
                    items@.len(),
                    |i: int|
                        if 0 <= i < items@.len() {
                            items@[i].model()
                        } else {
                            JsonV::Null
                        },
                ),
            ),
            Json::Obj(fields) => JsonV::Obj(
                Seq::new(
                    fields@.len(),
                    |i: int|
                        if 0 <= i < fields@.len() {
                            (fields@[i].0@, fields@[i].1.model())
                        } else {
                            (Seq::empty(), JsonV::Null)
                        },
                ),
            ),
        }
    }
}

/// What serde_json's parser returns for a body, carried over to the model:
/// `None` where the body is not a JSON document it accepts, otherwise the
/// parsed document. A function of the body alone.
pub uninterp spec fn json_of(body: Seq<char>) -> Option<JsonV>;

/// Relies on serde_json::Value: the parser's document type, declared so that
/// it can appear in signatures here.
#[verifier::external_type_specification]
#[verifier::external_body]
pub struct ExValue(serde_json::Value);

/// The conversion half of `parse_json`: relies on serde_json::Value exposing
/// exactly the six JSON cases, and on Number's Display rendering. Each arm
/// moves the corresponding payload over; object members arrive in
/// serde_json's map order.
#[verifier::external_body]
fn from_value(v: &serde_json::Value) -> Json {
    match v {
        serde_json::Value::Null => Json::Null,
        serde_json::Value::Bool(b) => Json::Bool(*b),
        serde_json::Value::Number(n) => Json::Num(n.to_string()),
        serde_json::Value::String(s) => Json::Str(s.clone()),
        serde_json::Value::Array(a) => Json::Arr(a.iter().map(from_value).collect()),
        serde_json::Value::Object(m) => Json::Obj(
            m.iter().map(|(k, x)| (k.clone(), from_value(x))).collect(),
        ),
    }
}

/// Relies on serde_json::from_str::<Value>: parses the body as one JSON
/// document, or fails. `json_of` names the parse result as `from_value`
/// carries it over; both are functions of the body alone.
#[verifier::external_body]
pub(crate) fn parse_json(body: &str) -> (r: Option<Json>)
    ensures
        (match r {
            Some(j) => json_of(body@) == Some(j.model()),
            None => json_of(body@) is None,
        }),
{
    match serde_json::from_str::<serde_json::Value>(body) {
        Ok(v) => Some(from_value(&v)),
        Err(_) => None,
    }
}

/// The value under the first member with the given key, if any.
pub open spec fn lookup(fields: Seq<(Seq<char>, JsonV)>, key: Seq<char>) -> Option<JsonV>
    decreases fields.len(),
{
    if fields.len() == 0 {
        None
    } else if fields[0].0 == key {
        Some(fields[0].1)
    } else {
        lookup(fields.drop_first(), key)
    }
}

proof fn lemma_lookup_skip(fields: Seq<(Seq<char>, JsonV)>, key: Seq<char>, i: int)
    requires
        0 <= i <= fields.len(),
        forall|j: int| 0 <= j < i ==> (#[trigger] fields[j]).0 != key,
    ensures
        lookup(fields, key) == lookup(fields.skip(i), key),
    decreases i,
{
    if i == 0 {
        assert(fields.skip(0) =~= fields);
    } else {
        lemma_lookup_skip(fields, key, i - 1);
        assert(fields.skip(i - 1).len() > 0);
        assert(fields.skip(i - 1)[0] == fields[i - 1]);
        assert(fields.skip(i - 1).drop_first() =~= fields.skip(i));
    }
}

/// Character-for-character string equality.
pub fn str_equal(a: &str, b: &str) -> (r: bool)
    ensures
        r == (a@ == b@),
{
    let an = a.unicode_len();
    let bn = b.unicode_len();
    if an != bn {
        proof {
            assert(a@ != b@);
        }
        return false;
    }
    let mut i: usize = 0;
    while i < an
        invariant
            an == a@.len(),
            bn == b@.len(),
            an == bn,
            i <= an,
            forall|j: int| 0 <= j < i ==> a@[j] == b@[j],
        decreases an - i,
    {
        if a.get_char(i) != b.get_char(i) {
            proof {
                assert(a@ != b@);
            }
            return false;
        }
        i += 1;
    }
    proof {
        assert(a@ =~= b@);
    }
    true
}

/// The element list of a parsed document, when the document is an array.
/// The model of each element is pinned down one by one.
pub fn json_as_arr<'a>(j: &'a Json) -> (r: Option<&'a Vec<Json>>)
    ensures
        (match r {
            Some(items) => {
                &&& j.model() is Arr
                &&& j.model()->Arr_0.len() == items@.len()
                &&& forall|i: int|
                    0 <= i < items@.len() ==> j.model()->Arr_0[i] == #[trigger] items@[i].model()
            },
            None => !(j.model() is Arr),
        }),
{
    match j {
        Json::Arr(items) => Some(items),
        _ => None,
    }
}

/// Looks a key up in a parsed object's member list: the first member with
/// that key, as `lookup` has it in the model.
pub fn obj_get<'a>(fields: &'a Vec<(String, Json)>, key: &str) -> (r: Option<&'a Json>)
    ensures
        (match r {
            Some(j) => lookup(fields_model(fields@), key@) == Some(j.model()),
            None => lookup(fields_model(fields@), key@) is None,
        }),
{
    let mut i: usize = 0;
    while i < fields.len()
        invariant
            i <= fields@.len(),
            forall|j: int| 0 <= j < i ==> (#[trigger] fields_model(fields@)[j]).0 != key@,
        decreases fields@.len() - i,
    {
        if str_equal(fields[i].0.as_str(), key) {
            proof {
                lemma_lookup_skip(fields_model(fields@), key@, i as int);
                assert(fields_model(fields@).skip(i as int)[0] == fields_model(fields@)[i as int]);
            }
            return Some(&fields[i].1);
        }
        i += 1;
    }
    proof {
        lemma_lookup_skip(fields_model(fields@), key@, fields@.len() as int);
        assert(fields_model(fields@).skip(fields@.len() as int).len() == 0);
    }
    None
}

} // verus!
