use vstd::prelude::*;
use crate::json::{members_view, optional_member, find_member, member, opt_view, Json, JsonNumber, JsonValue, NumberModel};
use crate::message::{id_of, params_of, IdModel, JsonRpcId};

verus! {

/// The error member of an error response.
#[derive(Debug, PartialEq, Eq)]
pub struct JsonRpcError {
    pub code: i32,
    pub message: String,
    pub data: Option<JsonValue>,
}

/// A response that carries a result.
#[derive(Debug, PartialEq, Eq)]
pub struct JsonRpcResponseSuccess {
    pub id: JsonRpcId,
    pub jsonrpc: String,
    pub result: Option<JsonValue>,
}

/// A response that carries an error.
#[derive(Debug, PartialEq, Eq)]
pub struct JsonRpcResponseError {
    pub id: JsonRpcId,
    pub jsonrpc: String,
    pub error: JsonRpcError,
}

/// A response: exactly one of a result or an error.
#[derive(Debug, PartialEq, Eq)]
pub enum JsonRpcResponse {
    Success(JsonRpcResponseSuccess),
    Error(JsonRpcResponseError),
}

/// The mathematical content of a [`JsonRpcResponse`].
pub enum ResponseModel {
    Success { id: IdModel, jsonrpc: Seq<char>, result: Option<Json> },
    Error { id: IdModel, jsonrpc: Seq<char>, code: i32, message: Seq<char>, data: Option<Json> },
}

impl View for JsonRpcResponse {
    type V = ResponseModel;

    open spec fn view(&self) -> ResponseModel {
        match self {
            JsonRpcResponse::Success(s) => ResponseModel::Success {
                id: s.id@,
                jsonrpc: s.jsonrpc@,
                result: opt_view(s.result),
            },
            JsonRpcResponse::Error(e) => ResponseModel::Error {
                id: e.id@,
                jsonrpc: e.jsonrpc@,
                code: e.error.code,
                message: e.error.message@,
                data: opt_view(e.error.data),
            },
        }
    }
}

/// The view of an optional response.
pub open spec fn opt_response_view(r: Option<JsonRpcResponse>) -> Option<ResponseModel> {
    match r {
        Some(x) => Some(x@),
        None => None,
    }
}

/// An identifier as a bare JSON number or a bare JSON string.
pub open spec fn id_json(id: IdModel) -> Json {
    match id {
        IdModel::Number(n) => Json::Number(NumberModel::PosInt(n)),
        IdModel::Text(s) => Json::Str(s),
    }
}

/// An error code as a JSON number.
pub open spec fn code_json(code: i32) -> Json {
    if code >= 0 {
        Json::Number(NumberModel::PosInt(code as u64))
    } else {
        Json::Number(NumberModel::NegInt(code as i64))
    }
}

/// An optional value, with `null` for none.
pub open spec fn or_null(v: Option<Json>) -> Json {
    match v {
        Some(x) => x,
        None => Json::Null,
    }
}

/// The document a response is written as: members `id`, `jsonrpc`, then
/// `result`, or `error` with members `code`, `message` and `data`.
pub open spec fn response_json(r: ResponseModel) -> Json {
    match r {
        ResponseModel::Success { id, jsonrpc, result } => Json::Object(
            seq![("id"@, id_json(id)), ("jsonrpc"@, Json::Str(jsonrpc)), ("result"@, or_null(result))],
        ),
        ResponseModel::Error { id, jsonrpc, code, message, data } => Json::Object(
            seq![
                ("id"@, id_json(id)),
                ("jsonrpc"@, Json::Str(jsonrpc)),
                ("error"@, Json::Object(
                    seq![("code"@, code_json(code)), ("message"@, Json::Str(message)), ("data"@, or_null(data))],
                )),
            ],
        ),
    }
}

/// The error code a JSON value denotes: an integer within 32 bits.
pub open spec fn code_of(v: Json) -> Option<i32> {
    match v {
        Json::Number(NumberModel::PosInt(n)) => if n <= i32::MAX { Some(n as i32) } else { None },
        Json::Number(NumberModel::NegInt(n)) => if n >= i32::MIN { Some(n as i32) } else { None },
        _ => None,
    }
}

/// The string a JSON value holds.
pub open spec fn text_of(v: Option<Json>) -> Option<Seq<char>> {
    match v {
        Some(Json::Str(s)) => Some(s),
        _ => None,
    }
}

/// How a document is read back as a response: an object with an
/// identifier `id` and a string `jsonrpc`; when its `error` member is
/// present and not `null` it must be an object with an integer `code` and a
/// string `message`, and the response is an error; otherwise it is a
/// success whose result is the `result` member (none when absent or
/// `null`).  Other members are ignored.
pub open spec fn decode_response(doc: Json) -> Option<ResponseModel> {
    match doc {
        Json::Object(ms) => {
            let id = match member(ms, "id"@) {
                Some(v) => id_of(v),
                None => None,
            };
            let jsonrpc = text_of(member(ms, "jsonrpc"@));
            if id is None || jsonrpc is None {
                None
            } else {
                match params_of(member(ms, "error"@)) {
                    None => Some(ResponseModel::Success {
                        id: id->0,
                        jsonrpc: jsonrpc->0,
                        result: params_of(member(ms, "result"@)),
                    }),
                    Some(Json::Object(es)) => {
                        let code = match member(es, "code"@) {
                            Some(c) => code_of(c),
                            None => None,
                        };
                        let message = text_of(member(es, "message"@));
                        if code is None || message is None {
                            None
                        } else {
                            Some(ResponseModel::Error {
                                id: id->0,
                                jsonrpc: jsonrpc->0,
                                code: code->0,
                                message: message->0,
                                data: params_of(member(es, "data"@)),
                            })
                        }
                    },
                    Some(_) => None,
                }
            }
        },
        _ => None,
    }
}

impl JsonRpcId {
    /// The identifier as a bare JSON number or string.
    pub fn to_json(&self) -> (r: JsonValue)
        ensures
            r@ == id_json(self@),
    {
        match self {
            JsonRpcId::Number(n) => JsonValue::Number(JsonNumber::PosInt(*n)),
            JsonRpcId::String(s) => JsonValue::Str(s.clone()),
        }
    }
}

/// A string document holding a copy of `s`.
pub fn string_value(s: &String) -> (r: JsonValue)
    ensures
        r@ == Json::Str(s@),
{
    JsonValue::Str(s.clone())
}

fn code_to_json(code: i32) -> (r: JsonValue)
    ensures
        r@ == code_json(code),
{
    if code >= 0 {
        JsonValue::Number(JsonNumber::PosInt(code as u64))
    } else {
        JsonValue::Number(JsonNumber::NegInt(code as i64))
    }
}

fn copy_or_null(v: &Option<JsonValue>) -> (r: JsonValue)
    ensures
        r@ == or_null(opt_view(*v)),
{
    match v {
        Some(x) => x.deep_copy(),
        None => JsonValue::Null,
    }
}

impl JsonRpcResponse {
    /// The document this response is written as.
    pub fn to_json(&self) -> (r: JsonValue)
        ensures
            r@ == response_json(self@),
    {
        match self {
            JsonRpcResponse::Success(s) => {
                let members = vec![
                    ("id".to_owned(), s.id.to_json()),
                    ("jsonrpc".to_owned(), string_value(&s.jsonrpc)),
                    ("result".to_owned(), copy_or_null(&s.result)),
                ];
                let r = JsonValue::Object(members);
                assert(r@->Object_0 =~= response_json(self@)->Object_0);
                r
            },
            JsonRpcResponse::Error(e) => {
                let error_members = vec![
                    ("code".to_owned(), code_to_json(e.error.code)),
                    ("message".to_owned(), string_value(&e.error.message)),
                    ("data".to_owned(), copy_or_null(&e.error.data)),
                ];
                let error = JsonValue::Object(error_members);
                assert(error@->Object_0 =~= response_json(self@)->Object_0[2].1->Object_0);
                let members = vec![
                    ("id".to_owned(), e.id.to_json()),
                    ("jsonrpc".to_owned(), string_value(&e.jsonrpc)),
                    ("error".to_owned(), error),
                ];
                let r = JsonValue::Object(members);
                assert(r@->Object_0 =~= response_json(self@)->Object_0);
                r
            },
        }
    }
}

/// Reads a document back as a response.
pub fn response_from_json(doc: &JsonValue) -> (r: Option<JsonRpcResponse>)
    ensures
        opt_response_view(r) == decode_response(doc@),
{
    let members = match doc {
        JsonValue::Object(m) => m,
        _ => {
            return None;
        },
    };
    assert(doc@->Object_0 == members_view(*members));
    let id = match find_member(members, &"id".to_owned()) {
        Some(i) => match &members[i].1 {
            JsonValue::Number(JsonNumber::PosInt(n)) => JsonRpcId::Number(*n),
            JsonValue::Str(s) => JsonRpcId::String(s.clone()),
            _ => {
                return None;
            },
        },
        None => {
            return None;
        },
    };
    let jsonrpc = match find_member(members, &"jsonrpc".to_owned()) {
        Some(i) => match &members[i].1 {
            JsonValue::Str(s) => s.clone(),
            _ => {
                return None;
            },
        },
        None => {
            return None;
        },
    };
    let error_at = match find_member(members, &"error".to_owned()) {
        Some(i) => match &members[i].1 {
            JsonValue::Null => None,
            _ => Some(i),
        },
        None => None,
    };
    match error_at {
        None => {
            let result = optional_member(members, &"result".to_owned());
            Some(JsonRpcResponse::Success(JsonRpcResponseSuccess { id, jsonrpc, result }))
        },
        Some(i) => match &members[i].1 {
            JsonValue::Object(es) => {
                assert(members_view(*members)[i as int].1->Object_0 == members_view(*es));
                let code = match find_member(es, &"code".to_owned()) {
                    Some(j) => match &es[j].1 {
                        JsonValue::Number(JsonNumber::PosInt(n)) => {
                            if *n > i32::MAX as u64 {
                                return None;
                            }
                            *n as i32
                        },
                        JsonValue::Number(JsonNumber::NegInt(n)) => {
                            if *n < i32::MIN as i64 {
                                return None;
                            }
                            *n as i32
                        },
                        _ => {
                            return None;
                        },
                    },
                    None => {
                        return None;
                    },
                };
                let message = match find_member(es, &"message".to_owned()) {
                    Some(j) => match &es[j].1 {
                        JsonValue::Str(s) => s.clone(),
                        _ => {
                            return None;
                        },
                    },
                    None => {
                        return None;
                    },
                };
                let data = optional_member(es, &"data".to_owned());
                Some(
                    JsonRpcResponse::Error(
                        JsonRpcResponseError { id, jsonrpc, error: JsonRpcError { code, message, data } },
                    ),
                )
            },
            _ => None,
        },
    }
}

/// Writing a response as a document and reading the document back gives
/// the same response, for every response whose optional result or error
/// data is not itself `null` (a `null` there reads back as absent).
pub proof fn lemma_response_round_trip(r: ResponseModel)
    requires
        r is Success ==> r->Success_result != Some(Json::Null),
        r is Error ==> r->Error_data != Some(Json::Null),
    ensures
        decode_response(response_json(r)) == Some(r),
{
    reveal_strlit("id");
    reveal_strlit("jsonrpc");
    reveal_strlit("result");
    reveal_strlit("error");
    reveal_strlit("code");
    reveal_strlit("message");
    reveal_strlit("data");
    reveal_with_fuel(member, 4);
    let ms = response_json(r)->Object_0;
    assert(ms.drop_last().drop_last() =~= seq![ms[0]]);
    assert(ms.drop_last() =~= seq![ms[0], ms[1]]);
    assert(seq![ms[0]].drop_last() =~= Seq::<(Seq<char>, Json)>::empty());
    assert(seq![ms[0], ms[1]].drop_last() =~= seq![ms[0]]);
    assert("id"@.len() == 2 && "jsonrpc"@.len() == 7 && "result"@.len() == 6 && "error"@.len() == 5);
    assert("code"@.len() == 4 && "message"@.len() == 7 && "data"@.len() == 4);
    assert("code"@[0] == 'c' && "data"@[0] == 'd');
    assert(member(ms, "id"@) == Some(ms[0].1));
    assert(member(ms, "jsonrpc"@) == Some(ms[1].1));
    match r {
        ResponseModel::Success { id, jsonrpc, result } => {
            assert(member(ms, "error"@) is None);
            assert(member(ms, "result"@) == Some(or_null(result)));
        },
        ResponseModel::Error { id, jsonrpc, code, message, data } => {
            assert(member(ms, "error"@) == Some(ms[2].1));
            let es = ms[2].1->Object_0;
            assert(es.drop_last() =~= seq![es[0], es[1]]);
            assert(seq![es[0], es[1]].drop_last() =~= seq![es[0]]);
            assert(seq![es[0]].drop_last() =~= Seq::<(Seq<char>, Json)>::empty());
            assert(member(es, "code"@) == Some(code_json(code)));
            assert(code_of(code_json(code)) == Some(code));
            assert(member(es, "message"@) == Some(Json::Str(message)));
            assert(member(es, "data"@) == Some(or_null(data)));
        },
    }
}

} // verus!
