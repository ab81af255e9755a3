use mcp_handshake::dispatch::{
    frame_line, handle_message, handle_messages, handle_notification, handle_request,
    NotificationOutcome, Outcome,
};
use mcp_handshake::json::{JsonNumber, JsonValue};
use mcp_handshake::message::{
    classify, JsonRpcId, JsonRpcNotification, JsonRpcRequest, Message, ERROR_CODE_INTERNAL_ERROR,
    ERROR_CODE_INVALID_PARAMS, ERROR_CODE_INVALID_REQUEST, ERROR_CODE_METHOD_NOT_FOUND,
    ERROR_CODE_PARSE_ERROR,
};
use mcp_handshake::response::{
    response_from_json, JsonRpcError, JsonRpcResponse, JsonRpcResponseError,
    JsonRpcResponseSuccess,
};

fn to_lib(v: &serde_json::Value) -> JsonValue {
    match v {
        serde_json::Value::Null => JsonValue::Null,
        serde_json::Value::Bool(b) => JsonValue::Bool(*b),
        serde_json::Value::Number(n) => {
            if let Some(u) = n.as_u64() {
                JsonValue::Number(JsonNumber::PosInt(u))
            } else if let Some(i) = n.as_i64() {
                JsonValue::Number(JsonNumber::NegInt(i))
            } else {
                JsonValue::Number(JsonNumber::Decimal(n.to_string()))
            }
        }
        serde_json::Value::String(s) => JsonValue::Str(s.clone()),
        serde_json::Value::Array(items) => JsonValue::Array(items.iter().map(to_lib).collect()),
        serde_json::Value::Object(members) => JsonValue::Object(
            members.iter().map(|(k, v)| (k.clone(), to_lib(v))).collect(),
        ),
    }
}

fn from_lib(v: &JsonValue) -> serde_json::Value {
    match v {
        JsonValue::Null => serde_json::Value::Null,
        JsonValue::Bool(b) => serde_json::Value::Bool(*b),
        JsonValue::Number(JsonNumber::PosInt(u)) => serde_json::Value::from(*u),
        JsonValue::Number(JsonNumber::NegInt(i)) => serde_json::Value::from(*i),
        JsonValue::Number(JsonNumber::Decimal(s)) => serde_json::from_str(s).unwrap(),
        JsonValue::Str(s) => serde_json::Value::String(s.clone()),
        JsonValue::Array(items) => serde_json::Value::Array(items.iter().map(from_lib).collect()),
        JsonValue::Object(members) => serde_json::Value::Object(
            members.iter().map(|(k, v)| (k.clone(), from_lib(v))).collect(),
        ),
    }
}

fn parse(line: &str) -> Option<JsonValue> {
    serde_json::from_str::<serde_json::Value>(line).ok().map(|v| to_lib(&v))
}

/// The text sent for one input line, or `None` when nothing is sent.
fn reply_text(line: &str) -> Option<serde_json::Value> {
    match handle_message(&parse(line)) {
        Outcome::Respond(r) => {
            let text = serde_json::to_string(&from_lib(&r.to_json())).unwrap();
            Some(serde_json::from_str(&text).unwrap())
        }
        Outcome::Notified(_) => None,
    }
}

fn respond(line: &str) -> JsonRpcResponse {
    match handle_message(&parse(line)) {
        Outcome::Respond(r) => r,
        Outcome::Notified(n) => panic!("no response, notification outcome {:?}", n),
    }
}

fn empty_object() -> JsonValue {
    JsonValue::Object(Vec::new())
}

fn member<'a>(v: &'a JsonValue, key: &str) -> Option<&'a JsonValue> {
    match v {
        JsonValue::Object(ms) => ms.iter().rev().find(|(k, _)| k == key).map(|(_, v)| v),
        _ => None,
    }
}

#[test]
fn error_codes_match_the_registry() {
    assert_eq!(ERROR_CODE_PARSE_ERROR, -32700);
    assert_eq!(ERROR_CODE_INVALID_REQUEST, -32600);
    assert_eq!(ERROR_CODE_METHOD_NOT_FOUND, -32601);
    assert_eq!(ERROR_CODE_INVALID_PARAMS, -32602);
    assert_eq!(ERROR_CODE_INTERNAL_ERROR, -32603);
}

#[test]
fn unknown_method_gets_invalid_request() {
    let r = respond(r#"{"jsonrpc":"2.0","id":7,"method":"tools/list"}"#);
    assert_eq!(
        r,
        JsonRpcResponse::Error(JsonRpcResponseError {
            id: JsonRpcId::Number(7),
            jsonrpc: "2.0".to_string(),
            error: JsonRpcError {
                code: -32600,
                message: "Invalid request: 'tools/list'".to_string(),
                data: None,
            },
        })
    );
}

#[test]
fn unknown_method_echoes_string_id() {
    let out = reply_text(r#"{"jsonrpc":"2.0","id":"req-1","method":"nope"}"#).unwrap();
    assert_eq!(out["id"], serde_json::Value::String("req-1".to_string()));
    assert_eq!(out["error"]["code"], serde_json::Value::from(-32600));
    assert_eq!(out["error"]["data"], serde_json::Value::Null);
}

#[test]
fn ping_succeeds_with_empty_object() {
    let r = respond(r#"{"jsonrpc":"2.0","id":1,"method":"ping"}"#);
    assert_eq!(
        r,
        JsonRpcResponse::Success(JsonRpcResponseSuccess {
            id: JsonRpcId::Number(1),
            jsonrpc: "2.0".to_string(),
            result: Some(empty_object()),
        })
    );
}

#[test]
fn ping_ignores_params() {
    let r = respond(r#"{"jsonrpc":"2.0","id":"p","method":"ping","params":{"x":[1,2.5,-3]}}"#);
    assert_eq!(
        r,
        JsonRpcResponse::Success(JsonRpcResponseSuccess {
            id: JsonRpcId::String("p".to_string()),
            jsonrpc: "2.0".to_string(),
            result: Some(empty_object()),
        })
    );
}

#[test]
fn initialize_echoes_protocol_version() {
    let out = reply_text(
        r#"{"jsonrpc":"2.0","id":0,"method":"initialize","params":{"protocolVersion":"X","capabilities":{}}}"#,
    )
    .unwrap();
    assert_eq!(out["id"], serde_json::Value::from(0u64));
    assert_eq!(out["jsonrpc"], serde_json::Value::String("2.0".to_string()));
    assert_eq!(out["result"]["protocolVersion"], serde_json::Value::String("X".to_string()));
    assert_eq!(out["result"]["capabilities"], serde_json::Value::Object(Default::default()));
    assert_eq!(
        out["result"]["serverInfo"]["name"],
        serde_json::Value::String("MCP Rust test server".to_string())
    );
    assert_eq!(out["result"]["serverInfo"]["version"], serde_json::Value::String("0.1.0".to_string()));
}

#[test]
fn initialize_without_params_uses_default_version() {
    let r = respond(r#"{"jsonrpc":"2.0","id":3,"method":"initialize"}"#);
    let result = match &r {
        JsonRpcResponse::Success(s) => s.result.as_ref().unwrap(),
        other => panic!("unexpected {:?}", other),
    };
    assert_eq!(member(result, "protocolVersion"), Some(&JsonValue::Str("2024-11-05".to_string())));
}

#[test]
fn initialize_without_version_member_uses_default_version() {
    let out = reply_text(r#"{"jsonrpc":"2.0","id":3,"method":"initialize","params":{"other":1}}"#)
        .unwrap();
    assert_eq!(out["result"]["protocolVersion"], serde_json::Value::String("2024-11-05".to_string()));
}

#[test]
fn initialize_with_non_string_version_uses_default_version() {
    for params in [r#"{"protocolVersion":5}"#, r#"{"protocolVersion":null}"#, r#"{"protocolVersion":{"a":1}}"#, r#"{"protocolVersion":["X"]}"#] {
        let line = format!(r#"{{"jsonrpc":"2.0","id":8,"method":"initialize","params":{}}}"#, params);
        let out = reply_text(&line).unwrap();
        assert_eq!(out["result"]["protocolVersion"], serde_json::Value::String("2024-11-05".to_string()), "{}", params);
    }
}

#[test]
fn initialized_notification_produces_no_output() {
    assert_eq!(reply_text(r#"{"jsonrpc":"2.0","method":"notifications/initialized"}"#), None);
    assert_eq!(
        handle_message(&parse(r#"{"jsonrpc":"2.0","method":"notifications/initialized"}"#)),
        Outcome::Notified(NotificationOutcome::Initialized)
    );
}

#[test]
fn unknown_notification_produces_no_output() {
    assert_eq!(
        handle_message(&parse(r#"{"jsonrpc":"2.0","method":"notifications/other","params":{}}"#)),
        Outcome::Notified(NotificationOutcome::UnknownMethod)
    );
}

#[test]
fn repeated_ping_gives_identical_responses() {
    let line = r#"{"jsonrpc":"2.0","id":5,"method":"ping"}"#;
    let docs = vec![parse(line), parse(line)];
    let out = handle_messages(&docs);
    assert_eq!(out.len(), 2);
    assert_eq!(out[0], out[1]);
    assert_eq!(reply_text(line), reply_text(line));
}

#[test]
fn success_response_round_trips_through_text() {
    let r = respond(r#"{"jsonrpc":"2.0","id":"abc","method":"initialize","params":{"protocolVersion":"2025-03-26"}}"#);
    let text = serde_json::to_string(&from_lib(&r.to_json())).unwrap();
    let back = serde_json::from_str::<serde_json::Value>(&text).unwrap();
    assert_eq!(response_from_json(&to_lib(&back)), Some(r));
}

#[test]
fn error_response_round_trips_through_text() {
    let r = JsonRpcResponse::Error(JsonRpcResponseError {
        id: JsonRpcId::Number(u64::MAX),
        jsonrpc: "2.0".to_string(),
        error: JsonRpcError {
            code: -32602,
            message: "bad".to_string(),
            data: Some(JsonValue::Array(vec![JsonValue::Bool(true), JsonValue::Str("x".to_string())])),
        },
    });
    let text = serde_json::to_string(&from_lib(&r.to_json())).unwrap();
    let back = serde_json::from_str::<serde_json::Value>(&text).unwrap();
    assert_eq!(response_from_json(&to_lib(&back)), Some(r));
}

#[test]
fn not_json_gets_parse_error_with_zero_id() {
    let out = reply_text("not json").unwrap();
    assert_eq!(out["id"], serde_json::Value::from(0u64));
    assert_eq!(out["error"]["code"], serde_json::Value::from(-32700));
    assert_eq!(out["error"]["message"], serde_json::Value::String("Parse error".to_string()));
    assert_eq!(
        respond("not json"),
        JsonRpcResponse::Error(JsonRpcResponseError {
            id: JsonRpcId::Number(0),
            jsonrpc: "2.0".to_string(),
            error: JsonRpcError { code: -32700, message: "Parse error".to_string(), data: None },
        })
    );
}

#[test]
fn numeric_id_stays_a_number() {
    let out = reply_text(r#"{"jsonrpc":"2.0","id":42,"method":"ping"}"#).unwrap();
    assert!(out["id"].is_u64());
    assert_eq!(out["id"], serde_json::Value::from(42u64));
}

#[test]
fn string_id_stays_a_string() {
    let out = reply_text(r#"{"jsonrpc":"2.0","id":"abc","method":"ping"}"#).unwrap();
    assert_eq!(out["id"], serde_json::Value::String("abc".to_string()));
    let out = reply_text(r#"{"jsonrpc":"2.0","id":"42","method":"ping"}"#).unwrap();
    assert_eq!(out["id"], serde_json::Value::String("42".to_string()));
}

#[test]
fn responses_keep_input_order() {
    let lines = [
        r#"{"jsonrpc":"2.0","id":1,"method":"ping"}"#,
        r#"{"jsonrpc":"2.0","method":"notifications/initialized"}"#,
        "garbage",
        r#"{"jsonrpc":"2.0","id":"two","method":"other"}"#,
        r#"{"jsonrpc":"2.0","id":3,"method":"initialize"}"#,
    ];
    let docs: Vec<Option<JsonValue>> = lines.iter().map(|l| parse(l)).collect();
    let out = handle_messages(&docs);
    let ids: Vec<JsonRpcId> = out
        .iter()
        .map(|r| match r {
            JsonRpcResponse::Success(s) => s.id.clone(),
            JsonRpcResponse::Error(e) => e.id.clone(),
        })
        .collect();
    assert_eq!(
        ids,
        vec![
            JsonRpcId::Number(1),
            JsonRpcId::Number(0),
            JsonRpcId::String("two".to_string()),
            JsonRpcId::Number(3)
        ]
    );
}

#[test]
fn request_shapes_that_are_rejected() {
    for line in [
        r#"[1,2]"#,
        r#"{"jsonrpc":"2.0","id":1.5,"method":"ping"}"#,
        r#"{"jsonrpc":"2.0","id":-1,"method":"ping"}"#,
        r#"{"jsonrpc":"2.0","id":null,"method":"ping"}"#,
        r#"{"jsonrpc":"1.0","id":1,"method":"ping"}"#,
        r#"{"id":1,"method":"ping"}"#,
        r#"{"jsonrpc":"2.0","id":1,"method":""}"#,
        r#"{"jsonrpc":"2.0","id":1,"method":3}"#,
        r#"{"jsonrpc":"2.0","id":1}"#,
    ] {
        assert_eq!(classify(&parse(line)), Message::Unrecognized, "{}", line);
    }
    assert_eq!(classify(&None), Message::Unrecognized);
}

#[test]
fn classify_reads_request_and_notification() {
    assert_eq!(
        classify(&parse(r#"{"jsonrpc":"2.0","id":9,"method":"m","params":null,"extra":true}"#)),
        Message::Request(JsonRpcRequest {
            id: JsonRpcId::Number(9),
            jsonrpc: "2.0".to_string(),
            method: "m".to_string(),
            params: None,
        })
    );
    assert_eq!(
        classify(&parse(r#"{"jsonrpc":"2.0","method":"n","params":[1]}"#)),
        Message::Notification(JsonRpcNotification {
            jsonrpc: "2.0".to_string(),
            method: "n".to_string(),
            params: Some(JsonValue::Array(vec![JsonValue::Number(JsonNumber::PosInt(1))])),
        })
    );
}

#[test]
fn handlers_called_directly() {
    let req = JsonRpcRequest {
        id: JsonRpcId::String("x".to_string()),
        jsonrpc: "2.0".to_string(),
        method: "ping".to_string(),
        params: None,
    };
    assert_eq!(
        handle_request(&req),
        JsonRpcResponse::Success(JsonRpcResponseSuccess {
            id: JsonRpcId::String("x".to_string()),
            jsonrpc: "2.0".to_string(),
            result: Some(empty_object()),
        })
    );
    let n = JsonRpcNotification {
        jsonrpc: "2.0".to_string(),
        method: "notifications/initialized".to_string(),
        params: None,
    };
    assert_eq!(handle_notification(&n), NotificationOutcome::Initialized);
}

#[test]
fn id_clone_keeps_variant_and_payload() {
    let a = JsonRpcId::String("abc".to_string());
    assert_eq!(a.clone(), JsonRpcId::String("abc".to_string()));
    assert_eq!(JsonRpcId::Number(42).clone(), JsonRpcId::Number(42));
}

#[test]
fn response_document_layout() {
    let r = respond(r#"{"jsonrpc":"2.0","id":4,"method":"ping"}"#);
    let text = serde_json::to_string(&from_lib(&r.to_json())).unwrap();
    assert_eq!(text, r#"{"id":4,"jsonrpc":"2.0","result":{}}"#);
}

#[test]
fn response_from_json_rejects_bad_documents() {
    assert_eq!(response_from_json(&parse(r#"{"jsonrpc":"2.0"}"#).unwrap()), None);
    assert_eq!(response_from_json(&parse(r#"{"id":1}"#).unwrap()), None);
    assert_eq!(
        response_from_json(&parse(r#"{"id":1,"jsonrpc":"2.0","error":{"code":4294967296,"message":"m"}}"#).unwrap()),
        None
    );
    assert_eq!(
        response_from_json(&parse(r#"{"id":1,"jsonrpc":"2.0","error":{"code":5,"message":"m"}}"#).unwrap()),
        Some(JsonRpcResponse::Error(JsonRpcResponseError {
            id: JsonRpcId::Number(1),
            jsonrpc: "2.0".to_string(),
            error: JsonRpcError { code: 5, message: "m".to_string(), data: None },
        }))
    );
}

#[test]
fn frame_line_appends_newline() {
    assert_eq!(frame_line(b"{}"), Some(b"{}\n".to_vec()));
    assert_eq!(frame_line(b""), Some(b"\n".to_vec()));
    assert_eq!(frame_line(b"{\n}"), None);
}

#[test]
fn deep_copy_is_equal() {
    let v = parse(r#"{"a":[1,-2,3.25,"s",null,true],"b":{"c":{}}}"#).unwrap();
    assert_eq!(v.deep_copy(), v);
}

#[test]
fn id_text_form() {
    assert_eq!(JsonRpcId::Number(42).to_text(), "42");
    assert_eq!(JsonRpcId::Number(0).to_text(), "0");
    assert_eq!(JsonRpcId::Number(u64::MAX).to_text(), u64::MAX.to_string());
    assert_eq!(JsonRpcId::Number(1000).to_text(), "1000");
    assert_eq!(JsonRpcId::String("abc".to_string()).to_text(), "abc");
}
