use vstd::prelude::*;

use crate::strutil::str_eq;

verus! {

broadcast use vstd::seq::group_seq_axioms;

/// A parsed JSON document, as the library models it: numbers are kept when
/// they fit an `i64` and otherwise only noted, and objects keep their
/// fields in the order the parser hands them over.
pub enum Json {
    Null,
    Bool(bool),
    Int(i64),
    BigNum,
    Str(String),
    Arr(Vec<Json>),
    Obj(Vec<(String, Json)>),
}

/// The mathematical shape of a JSON document.
pub enum JsonV {
    Null,
    Bool(bool),
    Int(int),
    BigNum,
    Str(Seq<char>),
    Arr(Seq<JsonV>),
    Obj(Seq<(Seq<char>, JsonV)>),
}

/// The shape of a document.
pub open spec fn json_model(j: Json) -> JsonV
    decreases j,
    via json_model_dec
{
    match j {
        Json::Null => JsonV::Null,
        Json::Bool(b) => JsonV::Bool(b),
        Json::Int(i) => JsonV::Int(i as int),
        Json::BigNum => JsonV::BigNum,
        Json::Str(s) => JsonV::Str(s@),
        Json::Arr(items) => JsonV::Arr(arr_model(items@)),
        Json::Obj(fields) => JsonV::Obj(obj_model(fields@)),
    }
}

/// The shapes of the elements of an array.
pub open spec fn arr_model(s: Seq<Json>) -> Seq<JsonV>
    decreases s,
    via arr_model_dec
{
    if s.len() == 0 {
        Seq::<JsonV>::empty()
    } else {
        seq![json_model(s[0])] + arr_model(s.drop_first())
    }
}

/// The shapes of the fields of an object.
pub open spec fn obj_model(s: Seq<(String, Json)>) -> Seq<(Seq<char>, JsonV)>
    decreases s,
    via obj_model_dec
{
    if s.len() == 0 {
        Seq::<(Seq<char>, JsonV)>::empty()
    } else {
        seq![(s[0].0@, json_model(s[0].1))] + obj_model(s.drop_first())
    }
}

#[via_fn]
proof fn json_model_dec(j: Json) {
    match j {
        Json::Arr(items) => {
            assert(decreases_to!(j => items));
            assert(decreases_to!(items => items@));
        },
        Json::Obj(fields) => {
            assert(decreases_to!(j => fields));
            assert(decreases_to!(fields => fields@));
        },
        _ => {},
    }
}

#[via_fn]
proof fn arr_model_dec(s: Seq<Json>) {
    if s.len() > 0 {
        assert(decreases_to!(s => s[0]));
        assert(s.drop_first() == s.subrange(1, s.len() as int));
        assert(decreases_to!(s => s.subrange(1, s.len() as int)));
    }
}

#[via_fn]
proof fn obj_model_dec(s: Seq<(String, Json)>) {
    if s.len() > 0 {
        let p = s[0];
        assert(decreases_to!(s => p));
        assert(decreases_to!(p => p.1));
        assert(s.drop_first() == s.subrange(1, s.len() as int));
        assert(decreases_to!(s => s.subrange(1, s.len() as int)));
    }
}

impl View for Json {
    type V = JsonV;

    open spec fn view(&self) -> JsonV {
        json_model(*self)
    }
}

pub proof fn lemma_arr_model(s: Seq<Json>)
    ensures
        arr_model(s).len() == s.len(),
        forall|i: int| 0 <= i < s.len() ==> arr_model(s)[i] == json_model(s[i]),
    decreases s.len(),
{
    if s.len() > 0 {
        lemma_arr_model(s.drop_first());
        assert forall|i: int| 0 <= i < s.len() implies arr_model(s)[i] == json_model(s[i]) by {
            if i > 0 {
                assert(s.drop_first()[i - 1] == s[i]);
                assert(arr_model(s)[i] == arr_model(s.drop_first())[i - 1]);
            }
        }
    }
}

pub proof fn lemma_obj_model(s: Seq<(String, Json)>)
    ensures
        obj_model(s).len() == s.len(),
        forall|i: int|
            0 <= i < s.len() ==> obj_model(s)[i] == (s[i].0@, json_model(s[i].1)),
    decreases s.len(),
{
    if s.len() > 0 {
        lemma_obj_model(s.drop_first());
        assert forall|i: int|
            0 <= i < s.len() implies obj_model(s)[i] == (s[i].0@, json_model(s[i].1)) by {
            if i > 0 {
                assert(s.drop_first()[i - 1] == s[i]);
                assert(obj_model(s)[i] == obj_model(s.drop_first())[i - 1]);
            }
        }
    }
}

/// The value of the first field named `k`, if any.
pub open spec fn obj_lookup(fs: Seq<(Seq<char>, JsonV)>, k: Seq<char>) -> Option<JsonV>
    decreases fs.len(),
{
    if fs.len() == 0 {
        None
    } else if fs[0].0 == k {
        Some(fs[0].1)
    } else {
        obj_lookup(fs.drop_first(), k)
    }
}

/// Field `k` of a document, when the document is an object that has it.
pub open spec fn jv_get(j: JsonV, k: Seq<char>) -> Option<JsonV> {
    match j {
        JsonV::Obj(fs) => obj_lookup(fs, k),
        _ => None,
    }
}

/// The string payload of a document, when it is a string.
pub open spec fn jv_str(j: JsonV) -> Option<Seq<char>> {
    match j {
        JsonV::Str(s) => Some(s),
        _ => None,
    }
}

/// Declares serde_json's value type so that the parse wrappers can hand
/// it through; the library never looks inside it.
#[verifier::external_type_specification]
#[verifier::external_body]
pub struct ExValue(serde_json::Value);

/// The library's model of what a `serde_json::Value` tree holds.
pub uninterp spec fn value_model(v: serde_json::Value) -> JsonV;

/// What `serde_json::from_str` yields on a text, if the text parses: a
/// function of the text alone.
pub uninterp spec fn parsed_json(s: Seq<char>) -> Option<JsonV>;

/// Relies on serde_json::from_str::<serde_json::Value>: a text either
/// fails to parse or parses to one document determined by the text.
#[verifier::external_body]
fn parse_value(s: &str) -> (r: Option<serde_json::Value>)
    ensures
        match r {
            Some(v) => parsed_json(s@) == Some(value_model(v)),
            None => parsed_json(s@) is None,
        },
{
    serde_json::from_str::<serde_json::Value>(s).ok()
}

/// Relies on the variant structure of serde_json::Value and on
/// serde_json::Number::as_i64: each node converts to the library's JSON
/// type, a function of the value alone; a number outside `i64` is only
/// noted.
#[verifier::external_body]
fn value_to_json(v: serde_json::Value) -> (r: Json)
    ensures
        r@ == value_model(v),
{
    match v {
        serde_json::Value::Null => Json::Null,
        serde_json::Value::Bool(b) => Json::Bool(b),
        serde_json::Value::Number(n) => n.as_i64().map_or(Json::BigNum, Json::Int),
        serde_json::Value::String(s) => Json::Str(s),
        serde_json::Value::Array(a) => Json::Arr(a.into_iter().map(value_to_json).collect()),
        serde_json::Value::Object(m) => Json::Obj(
            m.into_iter().map(|(k, x)| (k, value_to_json(x))).collect(),
        ),
    }
}

/// Parse a response body into the library's JSON model.
pub fn parse_json(s: &str) -> (r: Option<Json>)
    ensures
        match r {
            Some(j) => parsed_json(s@) == Some(j@),
            None => parsed_json(s@) is None,
        },
{
    match parse_value(s) {
        Some(v) => Some(value_to_json(v)),
        None => None,
    }
}

impl Json {
    /// Field `k` of this document, when it is an object that has one.
    pub fn get<'a>(&'a self, k: &str) -> (r: Option<&'a Json>)
        ensures
            match r {
                Some(v) => jv_get(self@, k@) == Some(v@),
                None => jv_get(self@, k@) is None,
            },
    {
        match self {
            Json::Obj(fields) => {
                let ghost m = obj_model(fields@);
                proof {
                    lemma_obj_model(fields@);
                    assert(m.skip(0) =~= m);
                }
                let n = fields.len();
                let mut i: usize = 0;
                while i < n
                    invariant
                        0 <= i <= n,
                        n == fields@.len(),
                        m == obj_model(fields@),
                        m.len() == n,
                        forall|a: int|
                            0 <= a < n ==> m[a] == (fields@[a].0@, json_model(fields@[a].1)),
                        obj_lookup(m, k@) == obj_lookup(m.skip(i as int), k@),
                        self@ == JsonV::Obj(m),
                    decreases n - i,
                {
                    proof {
                        assert(m.skip(i as int)[0] == m[i as int]);
                        assert(m.skip(i as int).drop_first() =~= m.skip(i as int + 1));
                    }
                    if str_eq(fields[i].0.as_str(), k) {
                        proof {
                            assert(m[i as int].0 == k@);
                            assert(m.skip(i as int)[0].0 == k@);
                            assert(obj_lookup(m.skip(i as int), k@) == Some(
                                m.skip(i as int)[0].1,
                            ));
                            assert(obj_lookup(m, k@) == Some(json_model(fields@[i as int].1)));
                        }
                        return Some(&fields[i].1);
                    }
                    i += 1;
                }
                proof {
                    assert(m.skip(n as int) =~= Seq::<(Seq<char>, JsonV)>::empty());
                }
                None
            },
            _ => None,
        }
    }

    /// The string payload of this document, when it is a string.
    pub fn str_value(&self) -> (r: Option<String>)
        ensures
            match r {
                Some(s) => jv_str(self@) == Some(s@),
                None => jv_str(self@) is None,
            },
    {
        match self {
            Json::Str(s) => Some(s.clone()),
            _ => None,
        }
    }

    /// The integer payload of this document, when it is an integer that
    /// fits an `i64`.
    pub fn int_value(&self) -> (r: Option<i64>)
        ensures
            match r {
                Some(i) => self@ == JsonV::Int(i as int),
                None => !(self@ is Int),
            },
    {
        match self {
            Json::Int(i) => Some(*i),
            _ => None,
        }
    }

    /// The elements of this document, when it is an array.
    pub fn arr<'a>(&'a self) -> (r: Option<&'a Vec<Json>>)
        ensures
            match r {
                Some(items) => self@ == JsonV::Arr(arr_model(items@)),
                None => !(self@ is Arr),
            },
    {
        match self {
            Json::Arr(items) => Some(items),
            _ => None,
        }
    }
}

} // verus!
