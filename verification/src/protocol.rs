use vstd::prelude::*;

use crate::strutil::strs_model;
use crate::json::{
    Json, JsonV, jv_get, jv_str, parse_json, parsed_json, arr_model, lemma_arr_model,
};

verus! {

broadcast use vstd::seq::group_seq_axioms;

/// A response as the transport hands it back: the status code, the value
/// of the out-of-band API error header if it was present, every
/// `Set-Cookie` header value in order, and the body text.
pub struct HttpResponse {
    pub status: u16,
    pub api_error: Option<String>,
    pub set_cookies: Vec<String>,
    pub body: String,
}

/// A status the pipeline accepts: 2xx or 3xx.
pub open spec fn success_status(s: u16) -> bool {
    200 <= s < 400
}

/// An API-level error: the server's error code and its explanation.
#[derive(Debug)]
pub struct ApiErr {
    pub code: String,
    pub info: String,
}

/// Everything one operation can fail with.
#[derive(Debug)]
pub enum MwError {
    /// The connection itself failed; raised by the driver, never by the
    /// library.
    TransportConnect,
    /// A non-2xx/3xx status on the preflight or the main call.
    TransportStatus { status: u16 },
    /// The out-of-band error header was present, or the body carried an
    /// error envelope.
    Api(ApiErr),
    /// The login result was not the success value; carries the server's
    /// literal result string.
    Auth { result: String },
    /// The body did not match the shape the action expects.
    Decode,
    /// A mutating action was attempted without an edit token.
    State,
}

/// The code/info pair of a body-level error envelope, when the document
/// carries one with both fields as strings.
pub open spec fn error_envelope(j: JsonV) -> Option<(Seq<char>, Seq<char>)> {
    match jv_get(j, "error"@) {
        Some(e) => match (jv_get(e, "code"@), jv_get(e, "info"@)) {
            (Some(c), Some(i)) => match (jv_str(c), jv_str(i)) {
                (Some(cs), Some(is)) => Some((cs, is)),
                _ => None,
            },
            _ => None,
        },
        None => None,
    }
}

/// The token under `query.tokens.<key>`, when present as a string.
pub open spec fn token_of(j: JsonV, key: Seq<char>) -> Option<Seq<char>> {
    match jv_get(j, "query"@) {
        Some(q) => match jv_get(q, "tokens"@) {
            Some(t) => match jv_get(t, key) {
                Some(v) => jv_str(v),
                None => None,
            },
            None => None,
        },
        None => None,
    }
}

/// The result string under `<sect>.result`, when present as a string.
pub open spec fn result_of(j: JsonV, sect: Seq<char>) -> Option<Seq<char>> {
    match jv_get(j, sect) {
        Some(s) => match jv_get(s, "result"@) {
            Some(v) => jv_str(v),
            None => None,
        },
        None => None,
    }
}

/// The strings of an array, when every element is a string.
pub open spec fn str_items(items: Seq<JsonV>) -> Option<Seq<Seq<char>>>
    decreases items.len(),
{
    if items.len() == 0 {
        Some(Seq::<Seq<char>>::empty())
    } else {
        match jv_str(items[0]) {
            Some(s) => match str_items(items.drop_first()) {
                Some(rest) => Some(seq![s] + rest),
                None => None,
            },
            None => None,
        }
    }
}

/// The user record under `query.userinfo`: the numeric id, the name, and
/// the rights strings.
pub open spec fn userinfo_of(j: JsonV) -> Option<(int, Seq<char>, Seq<Seq<char>>)> {
    match jv_get(j, "query"@) {
        Some(q) => match jv_get(q, "userinfo"@) {
            Some(u) => match (jv_get(u, "id"@), jv_get(u, "name"@), jv_get(u, "rights"@)) {
                (Some(idv), Some(namev), Some(rightsv)) => match (idv, jv_str(namev), rightsv) {
                    (JsonV::Int(id), Some(nm), JsonV::Arr(items)) => match str_items(items) {
                        Some(rs) => Some((id, nm, rs)),
                        None => None,
                    },
                    _ => None,
                },
                _ => None,
            },
            None => None,
        },
        None => None,
    }
}

/// A user as the user-info query reports one.
#[derive(Debug)]
pub struct UserData {
    pub id: i64,
    pub name: String,
    pub rights: Vec<String>,
}

/// The body-level error envelope of a document, if it carries one.
fn error_of(j: &Json) -> (r: Option<ApiErr>)
    ensures
        match r {
            Some(e) => error_envelope(j@) == Some((e.code@, e.info@)),
            None => error_envelope(j@) is None,
        },
{
    match j.get("error") {
        Some(e) => {
            let c = match e.get("code") {
                Some(c) => c,
                None => {
                    return None;
                },
            };
            let i = match e.get("info") {
                Some(i) => i,
                None => {
                    return None;
                },
            };
            match (c.str_value(), i.str_value()) {
                (Some(code), Some(info)) => Some(ApiErr { code, info }),
                _ => None,
            }
        },
        None => None,
    }
}

/// The token string under `query.tokens.<key>` of a document.
fn token_field(j: &Json, key: &str) -> (r: Option<String>)
    ensures
        match r {
            Some(t) => token_of(j@, key@) == Some(t@),
            None => token_of(j@, key@) is None,
        },
{
    match j.get("query") {
        Some(q) => match q.get("tokens") {
            Some(t) => match t.get(key) {
                Some(v) => v.str_value(),
                None => None,
            },
            None => None,
        },
        None => None,
    }
}

/// The result string under `<sect>.result` of a document.
fn result_field(j: &Json, sect: &str) -> (r: Option<String>)
    ensures
        match r {
            Some(t) => result_of(j@, sect@) == Some(t@),
            None => result_of(j@, sect@) is None,
        },
{
    match j.get(sect) {
        Some(s) => match s.get("result") {
            Some(v) => v.str_value(),
            None => None,
        },
        None => None,
    }
}

/// The strings of an array document, when every element is a string.
fn str_vec(items: &Vec<Json>) -> (r: Option<Vec<String>>)
    ensures
        match r {
            Some(v) => str_items(arr_model(items@)) == Some(strs_model(v@)),
            None => str_items(arr_model(items@)) is None,
        },
{
    let ghost m = arr_model(items@);
    proof {
        lemma_arr_model(items@);
        assert(m.skip(0) =~= m);
    }
    let mut out: Vec<String> = Vec::new();
    let n = items.len();
    let mut i: usize = 0;
    proof {
        assert(strs_model(out@) =~= Seq::<Seq<char>>::empty());
    }
    while i < n
        invariant
            0 <= i <= n,
            n == items@.len(),
            m == arr_model(items@),
            m.len() == n,
            forall|a: int| 0 <= a < n ==> m[a] == items@[a]@,
            strs_model(out@).len() == i,
            str_items(m) == match str_items(m.skip(i as int)) {
                Some(rest) => Some(strs_model(out@) + rest),
                None => None::<Seq<Seq<char>>>,
            },
        decreases n - i,
    {
        proof {
            assert(m.skip(i as int)[0] == m[i as int]);
            assert(m.skip(i as int).drop_first() =~= m.skip(i as int + 1));
        }
        match items[i].str_value() {
            Some(s) => {
                out.push(s);
                proof {
                    assert(strs_model(out@) =~= strs_model(out@.drop_last()) + seq![
                        out@.last()@,
                    ]);
                    if str_items(m.skip(i as int + 1)) is Some {
                        let rest = str_items(m.skip(i as int + 1)).unwrap();
                        assert((strs_model(out@.drop_last()) + (seq![out@.last()@] + rest)) =~= (
                        strs_model(out@) + rest));
                    }
                }
            },
            None => {
                return None;
            },
        }
        i += 1;
    }
    proof {
        assert(m.skip(n as int) =~= Seq::<JsonV>::empty());
        assert(strs_model(out@) + Seq::<Seq<char>>::empty() =~= strs_model(out@));
    }
    Some(out)
}

/// Decode a token response body: the token under `query.tokens.<key>`.
/// Returns `Ok` exactly when the body parses, carries no error envelope,
/// and holds the token as a string; an error envelope beats a shape
/// mismatch.
pub fn decode_token(body: &str, key: &str) -> (r: Result<String, MwError>)
    ensures
        match r {
            Ok(t) => {
                &&& parsed_json(body@) matches Some(doc)
                &&& error_envelope(parsed_json(body@).unwrap()) is None
                &&& token_of(parsed_json(body@).unwrap(), key@) == Some(t@)
            },
            Err(e) => match e {
                MwError::Api(err) => {
                    &&& parsed_json(body@) is Some
                    &&& error_envelope(parsed_json(body@).unwrap()) == Some(
                        (err.code@, err.info@),
                    )
                },
                MwError::Decode => parsed_json(body@) is None || (error_envelope(
                    parsed_json(body@).unwrap(),
                ) is None && token_of(parsed_json(body@).unwrap(), key@) is None),
                _ => false,
            },
        },
{
    let doc = match parse_json(body) {
        Some(doc) => doc,
        None => {
            return Err(MwError::Decode);
        },
    };
    if let Some(e) = error_of(&doc) {
        return Err(MwError::Api(e));
    }
    match token_field(&doc, key) {
        Some(t) => Ok(t),
        None => Err(MwError::Decode),
    }
}

/// Decode a result-string response body: the string under
/// `<sect>.result`. Returns `Ok` exactly when the body parses, carries no
/// error envelope, and holds the result string; an error envelope beats a
/// shape mismatch.
pub fn decode_result(body: &str, sect: &str) -> (r: Result<String, MwError>)
    ensures
        match r {
            Ok(t) => {
                &&& parsed_json(body@) is Some
                &&& error_envelope(parsed_json(body@).unwrap()) is None
                &&& result_of(parsed_json(body@).unwrap(), sect@) == Some(t@)
            },
            Err(e) => match e {
                MwError::Api(err) => {
                    &&& parsed_json(body@) is Some
                    &&& error_envelope(parsed_json(body@).unwrap()) == Some(
                        (err.code@, err.info@),
                    )
                },
                MwError::Decode => parsed_json(body@) is None || (error_envelope(
                    parsed_json(body@).unwrap(),
                ) is None && result_of(parsed_json(body@).unwrap(), sect@) is None),
                _ => false,
            },
        },
{
    let doc = match parse_json(body) {
        Some(doc) => doc,
        None => {
            return Err(MwError::Decode);
        },
    };
    if let Some(e) = error_of(&doc) {
        return Err(MwError::Api(e));
    }
    match result_field(&doc, sect) {
        Some(t) => Ok(t),
        None => Err(MwError::Decode),
    }
}

/// Decode a user-info response body into the user record. Returns `Ok`
/// exactly when the body parses, carries no error envelope, and matches
/// the user-info shape; an error envelope beats a shape mismatch.
pub fn decode_user(body: &str) -> (r: Result<UserData, MwError>)
    ensures
        match r {
            Ok(u) => {
                &&& parsed_json(body@) is Some
                &&& error_envelope(parsed_json(body@).unwrap()) is None
                &&& userinfo_of(parsed_json(body@).unwrap()) == Some(
                    (u.id as int, u.name@, strs_model(u.rights@)),
                )
            },
            Err(e) => match e {
                MwError::Api(err) => {
                    &&& parsed_json(body@) is Some
                    &&& error_envelope(parsed_json(body@).unwrap()) == Some(
                        (err.code@, err.info@),
                    )
                },
                MwError::Decode => parsed_json(body@) is None || (error_envelope(
                    parsed_json(body@).unwrap(),
                ) is None && userinfo_of(parsed_json(body@).unwrap()) is None),
                _ => false,
            },
        },
{
    let doc = match parse_json(body) {
        Some(doc) => doc,
        None => {
            return Err(MwError::Decode);
        },
    };
    if let Some(e) = error_of(&doc) {
        return Err(MwError::Api(e));
    }
    let q = match doc.get("query") {
        Some(q) => q,
        None => {
            return Err(MwError::Decode);
        },
    };
    let u = match q.get("userinfo") {
        Some(u) => u,
        None => {
            return Err(MwError::Decode);
        },
    };
    let idv = match u.get("id") {
        Some(v) => v,
        None => {
            return Err(MwError::Decode);
        },
    };
    let namev = match u.get("name") {
        Some(v) => v,
        None => {
            return Err(MwError::Decode);
        },
    };
    let rightsv = match u.get("rights") {
        Some(v) => v,
        None => {
            return Err(MwError::Decode);
        },
    };
    let id = match idv.int_value() {
        Some(i) => i,
        None => {
            return Err(MwError::Decode);
        },
    };
    let name = match namev.str_value() {
        Some(s) => s,
        None => {
            return Err(MwError::Decode);
        },
    };
    let items = match rightsv.arr() {
        Some(items) => items,
        None => {
            return Err(MwError::Decode);
        },
    };
    match str_vec(items) {
        Some(rights) => Ok(UserData { id, name, rights }),
        None => Err(MwError::Decode),
    }
}

/// Inspect a response body that needs no payload (edit, upload): report
/// the error envelope if the body parses and carries one, and nothing
/// otherwise.
pub fn check_plain(body: &str) -> (r: Option<ApiErr>)
    ensures
        match r {
            Some(e) => {
                &&& parsed_json(body@) is Some
                &&& error_envelope(parsed_json(body@).unwrap()) == Some((e.code@, e.info@))
            },
            None => parsed_json(body@) is None || error_envelope(
                parsed_json(body@).unwrap(),
            ) is None,
        },
{
    match parse_json(body) {
        Some(doc) => error_of(&doc),
        None => None,
    }
}

} // verus!
