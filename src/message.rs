use vstd::prelude::*;
use vstd::string::StringExecFns;
use crate::json::{find_member, member, members_view, opt_view, optional_member, Json, JsonNumber, JsonValue};

verus! {

/// Invalid JSON was received, or the text is not a request or a notification.
pub const ERROR_CODE_PARSE_ERROR: i32 = -32700;

/// The document is not a request this endpoint serves.
pub const ERROR_CODE_INVALID_REQUEST: i32 = -32600;

/// The method does not exist.
pub const ERROR_CODE_METHOD_NOT_FOUND: i32 = -32601;

/// Invalid method parameters.
pub const ERROR_CODE_INVALID_PARAMS: i32 = -32602;

/// Internal error of the endpoint.
pub const ERROR_CODE_INTERNAL_ERROR: i32 = -32603;

/// The identifier a client attaches to a request: a bare JSON number or a
/// bare JSON string, echoed unchanged in the response.
#[derive(Debug, PartialEq, Eq)]
pub enum JsonRpcId {
    Number(u64),
    String(String),
}

/// The mathematical content of a [`JsonRpcId`].
pub enum IdModel {
    Number(u64),
    Text(Seq<char>),
}

impl View for JsonRpcId {
    type V = IdModel;

    open spec fn view(&self) -> IdModel {
        match self {
            JsonRpcId::Number(n) => IdModel::Number(*n),
            JsonRpcId::String(s) => IdModel::Text(s@),
        }
    }
}

/// The decimal digit written for `d`.
pub open spec fn digit_text(d: nat) -> Seq<char> {
    if d == 0 { "0"@ }
    else if d == 1 { "1"@ }
    else if d == 2 { "2"@ }
    else if d == 3 { "3"@ }
    else if d == 4 { "4"@ }
    else if d == 5 { "5"@ }
    else if d == 6 { "6"@ }
    else if d == 7 { "7"@ }
    else if d == 8 { "8"@ }
    else { "9"@ }
}

/// `n` written in decimal, without leading zeros.
pub open spec fn decimal_text(n: nat) -> Seq<char>
    decreases n,
{
    if n < 10 {
        digit_text(n)
    } else {
        decimal_text(n / 10) + digit_text(n % 10)
    }
}

/// The text form of an identifier: a number in decimal, a string as it is.
pub open spec fn id_text(id: IdModel) -> Seq<char> {
    match id {
        IdModel::Number(n) => decimal_text(n as nat),
        IdModel::Text(s) => s,
    }
}

fn digit(d: u64) -> (r: &'static str)
    requires
        d < 10,
    ensures
        r@ == digit_text(d as nat),
{
    if d == 0 { "0" }
    else if d == 1 { "1" }
    else if d == 2 { "2" }
    else if d == 3 { "3" }
    else if d == 4 { "4" }
    else if d == 5 { "5" }
    else if d == 6 { "6" }
    else if d == 7 { "7" }
    else if d == 8 { "8" }
    else { "9" }
}

fn decimal(n: u64) -> (r: String)
    ensures
        r@ == decimal_text(n as nat),
    decreases n,
{
    if n < 10 {
        digit(n).to_owned()
    } else {
        let mut s = decimal(n / 10);
        s.append(digit(n % 10));
        s
    }
}

impl JsonRpcId {
    /// The identifier as text, as it appears in diagnostics: a number in
    /// decimal, a string unchanged.
    pub fn to_text(&self) -> (r: String)
        ensures
            r@ == id_text(self@),
    {
        match self {
            JsonRpcId::Number(n) => decimal(*n),
            JsonRpcId::String(s) => s.clone(),
        }
    }

    /// A copy of the identifier: same variant, same payload.
    pub fn clone(&self) -> (r: JsonRpcId)
        ensures
            r == *self,
            r@ == self@,
    {
        match self {
            JsonRpcId::Number(n) => JsonRpcId::Number(*n),
            JsonRpcId::String(s) => JsonRpcId::String(s.clone()),
        }
    }
}

/// A message that expects exactly one correlated response.
#[derive(Debug, PartialEq, Eq)]
pub struct JsonRpcRequest {
    pub id: JsonRpcId,
    pub jsonrpc: String,
    pub method: String,
    pub params: Option<JsonValue>,
}

/// A message that never receives a response.
#[derive(Debug, PartialEq, Eq)]
pub struct JsonRpcNotification {
    pub jsonrpc: String,
    pub method: String,
    pub params: Option<JsonValue>,
}

/// One line of input after classification.
#[derive(Debug, PartialEq, Eq)]
pub enum Message {
    Request(JsonRpcRequest),
    Notification(JsonRpcNotification),
    /// Neither a request nor a notification.
    Unrecognized,
}

/// The mathematical content of a [`JsonRpcRequest`].
pub struct RequestModel {
    pub id: IdModel,
    pub jsonrpc: Seq<char>,
    pub method: Seq<char>,
    pub params: Option<Json>,
}

/// The mathematical content of a [`JsonRpcNotification`].
pub struct NotificationModel {
    pub jsonrpc: Seq<char>,
    pub method: Seq<char>,
    pub params: Option<Json>,
}

/// The mathematical content of a [`Message`].
pub enum MessageModel {
    Request(RequestModel),
    Notification(NotificationModel),
    Unrecognized,
}

impl View for JsonRpcRequest {
    type V = RequestModel;

    open spec fn view(&self) -> RequestModel {
        RequestModel {
            id: self.id@,
            jsonrpc: self.jsonrpc@,
            method: self.method@,
            params: opt_view(self.params),
        }
    }
}

impl View for JsonRpcNotification {
    type V = NotificationModel;

    open spec fn view(&self) -> NotificationModel {
        NotificationModel {
            jsonrpc: self.jsonrpc@,
            method: self.method@,
            params: opt_view(self.params),
        }
    }
}

impl View for Message {
    type V = MessageModel;

    open spec fn view(&self) -> MessageModel {
        match self {
            Message::Request(r) => MessageModel::Request(r@),
            Message::Notification(n) => MessageModel::Notification(n@),
            Message::Unrecognized => MessageModel::Unrecognized,
        }
    }
}

/// The identifier a JSON value denotes: a non-negative integer that fits in
/// 64 bits, or a string.
pub open spec fn id_of(v: Json) -> Option<IdModel> {
    match v {
        Json::Number(crate::json::NumberModel::PosInt(n)) => Some(IdModel::Number(n)),
        Json::Str(s) => Some(IdModel::Text(s)),
        _ => None,
    }
}

/// The parameters a message carries: an absent or `null` member means none.
pub open spec fn params_of(v: Option<Json>) -> Option<Json> {
    match v {
        Some(Json::Null) => None,
        other => other,
    }
}

/// The method a message names: a non-empty string.
pub open spec fn method_of(v: Option<Json>) -> Option<Seq<char>> {
    match v {
        Some(Json::Str(m)) => if m.len() > 0 { Some(m) } else { None },
        _ => None,
    }
}

/// How one input document is read.  `doc` is `None` when the line was not
/// JSON at all.  A document is a request when it is an object whose
/// `jsonrpc` member is the string "2.0", whose `method` member is a
/// non-empty string and whose `id` member is an identifier; it is a
/// notification when it has the same shape and no `id` member at all.
/// Other members are ignored.
pub open spec fn classify_spec(doc: Option<Json>) -> MessageModel {
    match doc {
        Some(Json::Object(ms)) => {
            if member(ms, "jsonrpc"@) == Some(Json::Str("2.0"@)) && method_of(member(ms, "method"@)) is Some {
                let method = method_of(member(ms, "method"@))->0;
                let params = params_of(member(ms, "params"@));
                match member(ms, "id"@) {
                    None => MessageModel::Notification(
                        NotificationModel { jsonrpc: "2.0"@, method, params },
                    ),
                    Some(v) => match id_of(v) {
                        Some(id) => MessageModel::Request(
                            RequestModel { id, jsonrpc: "2.0"@, method, params },
                        ),
                        None => MessageModel::Unrecognized,
                    },
                }
            } else {
                MessageModel::Unrecognized
            }
        },
        _ => MessageModel::Unrecognized,
    }
}

/// Reads one input document as a request, a notification, or neither.
pub fn classify(doc: &Option<JsonValue>) -> (r: Message)
    ensures
        r@ == classify_spec(opt_view(*doc)),
{
    let members = match doc {
        Some(JsonValue::Object(members)) => members,
        _ => {
            return Message::Unrecognized;
        },
    };
    let ghost ms = doc->0@->Object_0;
    assert(ms == members_view(*members));
    let version = "2.0".to_owned();
    let version_ok = match find_member(members, &"jsonrpc".to_owned()) {
        Some(i) => match &members[i].1 {
            JsonValue::Str(s) => *s == version,
            _ => false,
        },
        None => false,
    };
    if !version_ok {
        return Message::Unrecognized;
    }
    let method = match find_member(members, &"method".to_owned()) {
        Some(i) => match &members[i].1 {
            JsonValue::Str(s) => {
                if s.as_str().is_empty() {
                    return Message::Unrecognized;
                }
                s.clone()
            },
            _ => {
                return Message::Unrecognized;
            },
        },
        None => {
            return Message::Unrecognized;
        },
    };
    let params = optional_member(members, &"params".to_owned());
    match find_member(members, &"id".to_owned()) {
        None => Message::Notification(JsonRpcNotification { jsonrpc: version, method, params }),
        Some(i) => {
            let id = match &members[i].1 {
                JsonValue::Number(JsonNumber::PosInt(n)) => JsonRpcId::Number(*n),
                JsonValue::Str(s) => JsonRpcId::String(s.clone()),
                _ => {
                    return Message::Unrecognized;
                },
            };
            Message::Request(JsonRpcRequest { id, jsonrpc: version, method, params })
        },
    }
}

} // verus!
