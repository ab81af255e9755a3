use vstd::prelude::*;
use vstd::string::StringExecFns;
use crate::json::{find_member, member, members_view, opt_view, Json, JsonValue};
use crate::message::{
    classify, classify_spec, IdModel, JsonRpcId, JsonRpcNotification, JsonRpcRequest, Message,
    MessageModel, NotificationModel, RequestModel, ERROR_CODE_INVALID_REQUEST,
    ERROR_CODE_PARSE_ERROR,
};
use crate::response::{
    response_json, string_value, JsonRpcError, JsonRpcResponse, JsonRpcResponseError, JsonRpcResponseSuccess,
    ResponseModel,
};

verus! {

/// The protocol version `initialize` answers with when the client names none.
pub open spec fn default_protocol_version() -> Seq<char> {
    "2024-11-05"@
}

/// The `serverInfo` member of the `initialize` result.
pub open spec fn server_info() -> Json {
    Json::Object(seq![("name"@, Json::Str("MCP Rust test server"@)), ("version"@, Json::Str("0.1.0"@))])
}

/// The protocol version `initialize` answers with: the `protocolVersion`
/// member of the parameters when it is there and a string, else the
/// default version string.
pub open spec fn answered_version(params: Option<Json>) -> Json {
    match params {
        Some(Json::Object(ms)) => match member(ms, "protocolVersion"@) {
            Some(Json::Str(v)) => Json::Str(v),
            _ => Json::Str(default_protocol_version()),
        },
        _ => Json::Str(default_protocol_version()),
    }
}

/// The result of `initialize`.
pub open spec fn initialize_result(params: Option<Json>) -> Json {
    Json::Object(
        seq![
            ("capabilities"@, Json::Object(Seq::empty())),
            ("protocolVersion"@, answered_version(params)),
            ("serverInfo"@, server_info()),
        ],
    )
}

/// The message of the error answered to a request for an unknown method.
pub open spec fn unknown_method_message(method: Seq<char>) -> Seq<char> {
    "Invalid request: '"@ + method + "'"@
}

/// The response to a request: `initialize` and `ping` succeed, any other
/// method is answered with an invalid-request error.  The identifier is
/// the request's own.
pub open spec fn request_response(req: RequestModel) -> ResponseModel {
    if req.method == "initialize"@ {
        ResponseModel::Success { id: req.id, jsonrpc: "2.0"@, result: Some(initialize_result(req.params)) }
    } else if req.method == "ping"@ {
        ResponseModel::Success { id: req.id, jsonrpc: "2.0"@, result: Some(Json::Object(Seq::empty())) }
    } else {
        ResponseModel::Error {
            id: req.id,
            jsonrpc: "2.0"@,
            code: ERROR_CODE_INVALID_REQUEST,
            message: unknown_method_message(req.method),
            data: None,
        }
    }
}

/// The response to a line that is neither a request nor a notification.
/// Its identifier is the number 0, since none could be read.
pub open spec fn parse_error_response() -> ResponseModel {
    ResponseModel::Error {
        id: IdModel::Number(0),
        jsonrpc: "2.0"@,
        code: ERROR_CODE_PARSE_ERROR,
        message: "Parse error"@,
        data: None,
    }
}

/// What handling a notification amounts to; neither sends anything.
#[derive(Debug, PartialEq, Eq, Structural, Clone, Copy)]
pub enum NotificationOutcome {
    /// The client finished the initialization handshake.
    Initialized,
    /// A notification for a method this endpoint does not know.
    UnknownMethod,
}

/// What a notification amounts to: only `notifications/initialized` is
/// known.
pub open spec fn notification_outcome(n: NotificationModel) -> NotificationOutcome {
    if n.method == "notifications/initialized"@ {
        NotificationOutcome::Initialized
    } else {
        NotificationOutcome::UnknownMethod
    }
}

/// What handling one input line amounts to: a response to send, or a
/// notification that gets none.
#[derive(Debug, PartialEq, Eq)]
pub enum Outcome {
    Respond(JsonRpcResponse),
    Notified(NotificationOutcome),
}

/// The mathematical content of an [`Outcome`].
pub enum OutcomeModel {
    Respond(ResponseModel),
    Notified(NotificationOutcome),
}

impl View for Outcome {
    type V = OutcomeModel;

    open spec fn view(&self) -> OutcomeModel {
        match self {
            Outcome::Respond(r) => OutcomeModel::Respond(r@),
            Outcome::Notified(n) => OutcomeModel::Notified(*n),
        }
    }
}

/// What one input document leads to; `doc` is `None` when the line was not
/// JSON.
pub open spec fn outcome_spec(doc: Option<Json>) -> OutcomeModel {
    match classify_spec(doc) {
        MessageModel::Request(req) => OutcomeModel::Respond(request_response(req)),
        MessageModel::Notification(n) => OutcomeModel::Notified(notification_outcome(n)),
        MessageModel::Unrecognized => OutcomeModel::Respond(parse_error_response()),
    }
}

fn initialize_result_value(params: &Option<JsonValue>) -> (r: JsonValue)
    ensures
        r@ == initialize_result(opt_view(*params)),
{
    let version = match params {
        Some(JsonValue::Object(ms)) => {
            assert(opt_view(*params)->0->Object_0 == members_view(*ms));
            match find_member(ms, &"protocolVersion".to_owned()) {
                Some(i) => match &ms[i].1 {
                    JsonValue::Str(v) => string_value(v),
                    _ => string_value(&"2024-11-05".to_owned()),
                },
                None => string_value(&"2024-11-05".to_owned()),
            }
        },
        _ => string_value(&"2024-11-05".to_owned()),
    };
    let info = JsonValue::Object(
        vec![
            ("name".to_owned(), string_value(&"MCP Rust test server".to_owned())),
            ("version".to_owned(), string_value(&"0.1.0".to_owned())),
        ],
    );
    assert(info@->Object_0 =~= server_info()->Object_0);
    let capabilities = JsonValue::Object(Vec::new());
    assert(capabilities@->Object_0 =~= Seq::empty());
    let r = JsonValue::Object(
        vec![
            ("capabilities".to_owned(), capabilities),
            ("protocolVersion".to_owned(), version),
            ("serverInfo".to_owned(), info),
        ],
    );
    assert(r@->Object_0 =~= initialize_result(opt_view(*params))->Object_0);
    r
}

/// Answers a request.
pub fn handle_request(request: &JsonRpcRequest) -> (r: JsonRpcResponse)
    ensures
        r@ == request_response(request@),
{
    let id = request.id.clone();
    let jsonrpc = "2.0".to_owned();
    if request.method == "initialize".to_owned() {
        let result = initialize_result_value(&request.params);
        JsonRpcResponse::Success(JsonRpcResponseSuccess { id, jsonrpc, result: Some(result) })
    } else if request.method == "ping".to_owned() {
        let result = JsonValue::Object(Vec::new());
        assert(result@->Object_0 =~= Seq::empty());
        JsonRpcResponse::Success(JsonRpcResponseSuccess { id, jsonrpc, result: Some(result) })
    } else {
        let mut message = "Invalid request: '".to_owned();
        message.append(request.method.as_str());
        message.append("'");
        let error = JsonRpcError { code: ERROR_CODE_INVALID_REQUEST, message, data: None };
        JsonRpcResponse::Error(JsonRpcResponseError { id, jsonrpc, error })
    }
}

/// Handles a notification; no response is ever produced for one.
pub fn handle_notification(notification: &JsonRpcNotification) -> (r: NotificationOutcome)
    ensures
        r == notification_outcome(notification@),
{
    if notification.method == "notifications/initialized".to_owned() {
        NotificationOutcome::Initialized
    } else {
        NotificationOutcome::UnknownMethod
    }
}

/// The error response to a line that is neither a request nor a
/// notification.
pub fn parse_error() -> (r: JsonRpcResponse)
    ensures
        r@ == parse_error_response(),
{
    let error = JsonRpcError { code: ERROR_CODE_PARSE_ERROR, message: "Parse error".to_owned(), data: None };
    JsonRpcResponse::Error(JsonRpcResponseError { id: JsonRpcId::Number(0), jsonrpc: "2.0".to_owned(), error })
}

/// Handles one input document; `doc` is `None` when the line was not JSON.
pub fn handle_message(doc: &Option<JsonValue>) -> (r: Outcome)
    ensures
        r@ == outcome_spec(opt_view(*doc)),
{
    match classify(doc) {
        Message::Request(req) => Outcome::Respond(handle_request(&req)),
        Message::Notification(n) => Outcome::Notified(handle_notification(&n)),
        Message::Unrecognized => Outcome::Respond(parse_error()),
    }
}

/// The views of a sequence of input documents.
pub open spec fn docs_view(docs: Seq<Option<JsonValue>>) -> Seq<Option<Json>> {
    docs.map_values(|d: Option<JsonValue>| opt_view(d))
}

/// The views of a sequence of responses.
pub open spec fn responses_view(rs: Seq<JsonRpcResponse>) -> Seq<ResponseModel> {
    rs.map_values(|r: JsonRpcResponse| r@)
}

/// The responses sent for a sequence of input documents, in input order:
/// one for each document that is not a notification.
pub open spec fn replies(docs: Seq<Option<Json>>) -> Seq<ResponseModel>
    decreases docs.len(),
{
    if docs.len() == 0 {
        Seq::empty()
    } else {
        let earlier = replies(docs.drop_last());
        match outcome_spec(docs.last()) {
            OutcomeModel::Respond(r) => earlier.push(r),
            OutcomeModel::Notified(_) => earlier,
        }
    }
}

/// Handles input documents one after the other and gives the responses to
/// send, in input order.
pub fn handle_messages(docs: &Vec<Option<JsonValue>>) -> (r: Vec<JsonRpcResponse>)
    ensures
        responses_view(r@) == replies(docs_view(docs@)),
{
    let mut out: Vec<JsonRpcResponse> = Vec::new();
    let mut i: usize = 0;
    proof {
        assert(responses_view(out@) =~= replies(docs_view(docs@.take(0))));
    }
    while i < docs.len()
        invariant
            i <= docs.len(),
            responses_view(out@) == replies(docs_view(docs@.take(i as int))),
        decreases docs.len() - i,
    {
        let ghost before = out@;
        let outcome = handle_message(&docs[i]);
        proof {
            let taken = docs_view(docs@.take(i + 1));
            assert(taken.drop_last() =~= docs_view(docs@.take(i as int)));
            assert(taken.last() == opt_view(docs@[i as int]));
        }
        match outcome {
            Outcome::Respond(resp) => {
                out.push(resp);
                assert(responses_view(out@) =~= responses_view(before).push(resp@));
            },
            Outcome::Notified(_) => {},
        }
        i = i + 1;
    }
    assert(docs@.take(docs.len() as int) =~= docs@);
    out
}

/// The bytes written for one serialized response: the text followed by a
/// newline, or none when the text itself holds a newline and so would not
/// stay on one line.
pub fn frame_line(text: &[u8]) -> (r: Option<Vec<u8>>)
    ensures
        r is Some <==> !text@.contains(10u8),
        r is Some ==> r->0@ == text@.push(10u8),
{
    let mut out: Vec<u8> = Vec::new();
    let mut i: usize = 0;
    while i < text.len()
        invariant
            i <= text.len(),
            out@ == text@.take(i as int),
            !text@.take(i as int).contains(10u8),
        decreases text.len() - i,
    {
        if text[i] == 10u8 {
            assert(text@[i as int] == 10u8);
            return None;
        }
        out.push(text[i]);
        proof {
            assert(text@.take(i + 1) =~= text@.take(i as int).push(text@[i as int]));
            assert(!text@.take(i + 1).contains(10u8)) by {
                if text@.take(i + 1).contains(10u8) {
                    let k = choose|k: int| 0 <= k < i + 1 && #[trigger] text@.take(i + 1)[k] == 10u8;
                    if k < i {
                        assert(text@.take(i as int)[k] == 10u8);
                    }
                }
            }
        }
        i = i + 1;
    }
    assert(text@.take(text.len() as int) =~= text@);
    out.push(10u8);
    Some(out)
}

/// A request for a method other than `initialize` and `ping` is answered
/// with an invalid-request error that carries the request's identifier.
pub proof fn lemma_unknown_method_is_invalid_request(doc: Option<Json>)
    requires
        classify_spec(doc) is Request,
        classify_spec(doc)->Request_0.method != "initialize"@,
        classify_spec(doc)->Request_0.method != "ping"@,
    ensures
        outcome_spec(doc) == OutcomeModel::Respond(
            ResponseModel::Error {
                id: classify_spec(doc)->Request_0.id,
                jsonrpc: "2.0"@,
                code: ERROR_CODE_INVALID_REQUEST,
                message: unknown_method_message(classify_spec(doc)->Request_0.method),
                data: None,
            },
        ),
        ERROR_CODE_INVALID_REQUEST == -32600,
{
}

/// A `ping` request, whatever its parameters, succeeds with an empty object
/// and carries the request's identifier.
pub proof fn lemma_ping_succeeds(doc: Option<Json>)
    requires
        classify_spec(doc) is Request,
        classify_spec(doc)->Request_0.method == "ping"@,
    ensures
        outcome_spec(doc) == OutcomeModel::Respond(
            ResponseModel::Success {
                id: classify_spec(doc)->Request_0.id,
                jsonrpc: "2.0"@,
                result: Some(Json::Object(Seq::empty())),
            },
        ),
{
    reveal_strlit("ping");
    reveal_strlit("initialize");
    assert("ping"@.len() != "initialize"@.len());
}

/// An `initialize` request succeeds, and the `protocolVersion` of its
/// result is always a string: the one the parameters name, or the default
/// when the parameters or that member are absent or not a string.
pub proof fn lemma_initialize_answers_version(doc: Option<Json>)
    requires
        classify_spec(doc) is Request,
        classify_spec(doc)->Request_0.method == "initialize"@,
    ensures
        ({
            let req = classify_spec(doc)->Request_0;
            &&& outcome_spec(doc) is Respond
            &&& outcome_spec(doc)->Respond_0 is Success
            &&& outcome_spec(doc)->Respond_0->Success_id == req.id
            &&& outcome_spec(doc)->Respond_0->Success_result is Some
            &&& member(
                outcome_spec(doc)->Respond_0->Success_result->0->Object_0,
                "protocolVersion"@,
            ) == Some(answered_version(req.params))
            &&& (forall|x: Seq<char>|
                req.params matches Some(Json::Object(ms)) && member(ms, "protocolVersion"@) == Some(
                    Json::Str(x),
                ) ==> answered_version(req.params) == Json::Str(x))
            &&& req.params is None ==> answered_version(req.params) == Json::Str(
                default_protocol_version(),
            )
            &&& answered_version(req.params) is Str
        }),
{
    reveal_strlit("capabilities");
    reveal_strlit("protocolVersion");
    reveal_strlit("serverInfo");
    assert("capabilities"@.len() == 12 && "protocolVersion"@.len() == 15 && "serverInfo"@.len() == 10);
    let ms = initialize_result(classify_spec(doc)->Request_0.params)->Object_0;
    reveal_with_fuel(member, 2);
    assert(ms.drop_last() =~= seq![ms[0], ms[1]]);
    assert(seq![ms[0], ms[1]].last() == ms[1]);
    assert(member(ms, "protocolVersion"@) == Some(ms[1].1));
}

/// A notification never leads to a response.
pub proof fn lemma_notification_is_silent(doc: Option<Json>)
    requires
        classify_spec(doc) is Notification,
    ensures
        outcome_spec(doc) is Notified,
        replies(seq![doc]) == Seq::<ResponseModel>::empty(),
{
    reveal_with_fuel(replies, 2);
    assert(seq![doc].drop_last() =~= Seq::<Option<Json>>::empty());
    assert(seq![doc].last() == doc);
}

/// Sending the same `ping` request twice gives two identical successful
/// responses.
pub proof fn lemma_repeated_ping_is_identical(doc: Option<Json>)
    requires
        classify_spec(doc) is Request,
        classify_spec(doc)->Request_0.method == "ping"@,
    ensures
        replies(seq![doc, doc]).len() == 2,
        replies(seq![doc, doc])[0] == replies(seq![doc, doc])[1],
        replies(seq![doc, doc])[0] is Success,
{
    lemma_ping_succeeds(doc);
    let docs = seq![doc, doc];
    assert(docs[0] == doc && docs[1] == doc);
    lemma_replies_in_order(docs);
    assert(OutcomeModel::Respond(replies(docs)[0]) == outcome_spec(docs[0]));
    assert(OutcomeModel::Respond(replies(docs)[1]) == outcome_spec(docs[1]));
}

/// The `id` member written in the response to a request is the request's
/// own `id` member, with the same JSON type: a number stays a number and a
/// string stays a string.
pub proof fn lemma_response_echoes_id(doc: Option<Json>)
    requires
        classify_spec(doc) is Request,
    ensures
        outcome_spec(doc) is Respond,
        member(response_json(outcome_spec(doc)->Respond_0)->Object_0, "id"@) == member(
            doc->0->Object_0,
            "id"@,
        ),
{
    reveal_strlit("id");
    reveal_strlit("jsonrpc");
    reveal_strlit("result");
    reveal_strlit("error");
    assert("id"@.len() == 2 && "jsonrpc"@.len() == 7 && "result"@.len() == 6 && "error"@.len() == 5);
    reveal_with_fuel(member, 3);
    let ms = response_json(outcome_spec(doc)->Respond_0)->Object_0;
    assert(ms.drop_last() =~= seq![ms[0], ms[1]]);
    assert(seq![ms[0], ms[1]].drop_last() =~= seq![ms[0]]);
    assert(seq![ms[0], ms[1]].last() == ms[1]);
    assert(seq![ms[0]].last() == ms[0]);
    assert(member(ms, "id"@) == Some(ms[0].1));
}

/// When no input is a notification, the i-th response answers the i-th
/// input: responses are neither dropped nor reordered.
pub proof fn lemma_replies_in_order(docs: Seq<Option<Json>>)
    requires
        forall|i: int| 0 <= i < docs.len() ==> !(#[trigger] classify_spec(docs[i]) is Notification),
    ensures
        replies(docs).len() == docs.len(),
        forall|i: int| 0 <= i < docs.len() ==> OutcomeModel::Respond(#[trigger] replies(docs)[i]) == outcome_spec(docs[i]),
    decreases docs.len(),
{
    if docs.len() > 0 {
        let earlier = docs.drop_last();
        assert forall|i: int| 0 <= i < earlier.len() implies !(#[trigger] classify_spec(earlier[i]) is Notification) by {
            assert(earlier[i] == docs[i]);
        }
        lemma_replies_in_order(earlier);
        assert(!(classify_spec(docs[docs.len() - 1]) is Notification));
        assert forall|i: int| 0 <= i < docs.len() implies OutcomeModel::Respond(#[trigger] replies(docs)[i]) == outcome_spec(docs[i]) by {
            if i < docs.len() - 1 {
                assert(earlier[i] == docs[i]);
            }
        }
    }
}

} // verus!
