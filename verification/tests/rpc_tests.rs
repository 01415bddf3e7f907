use dice_rpc::handlers::{
    get_balance, handle_default_request, ping, register_default_handlers, required_str,
    required_u64, send_tx, send_tx_with, DefaultMethod, OptionExt,
};
use dice_rpc::json::{JsonNumber, JsonValue};
use dice_rpc::rpc::{
    parse_rpc_request, RequestError, RequestField, RpcErrorObj, RpcRequest, RpcResponse, RpcServer,
    INVALID_PARAMS, METHOD_NOT_FOUND, PARSE_ERROR,
};
use dice_rpc::BatchResponse;

type Handler = fn(JsonValue) -> Result<JsonValue, RpcErrorObj>;

fn first(_params: JsonValue) -> Result<JsonValue, RpcErrorObj> {
    Ok(JsonValue::Str("first".to_string()))
}

fn second(_params: JsonValue) -> Result<JsonValue, RpcErrorObj> {
    Ok(JsonValue::Str("second".to_string()))
}

fn fail_with_data(params: JsonValue) -> Result<JsonValue, RpcErrorObj> {
    Err(RpcErrorObj { code: -32000, message: "boom".to_string(), data: Some(params) })
}

fn fail_plain(_params: JsonValue) -> Result<JsonValue, RpcErrorObj> {
    Err(RpcErrorObj { code: 17, message: "plain".to_string(), data: None })
}

fn num(n: u64) -> JsonValue {
    JsonValue::Number(JsonNumber::Unsigned(n))
}

fn text(s: &str) -> JsonValue {
    JsonValue::Str(s.to_string())
}

fn obj(members: Vec<(&str, JsonValue)>) -> JsonValue {
    JsonValue::Object(members.into_iter().map(|(k, v)| (k.to_string(), v)).collect())
}

fn request(method: &str, params: JsonValue, id: JsonValue) -> RpcRequest {
    RpcRequest { jsonrpc: "2.0".to_string(), method: method.to_string(), params, id }
}

#[test]
fn unknown_method_is_reported_with_its_name() {
    let server: RpcServer<Handler> = RpcServer::new();
    let resp = server.handle_request(request("does_not_exist", obj(vec![]), num(3)));
    let error = resp.error.unwrap();
    assert_eq!(error.code, METHOD_NOT_FOUND);
    assert_eq!(error.message, "Method not found: does_not_exist");
    assert!(error.message.contains("does_not_exist"));
    assert_eq!(error.data, None);
    assert_eq!(resp.result, None);
    assert_eq!(resp.id, num(3));
    assert_eq!(resp.jsonrpc, "2.0");
}

#[test]
fn error_codes() {
    assert_eq!(PARSE_ERROR, -32700);
    assert_eq!(METHOD_NOT_FOUND, -32602);
    assert_eq!(INVALID_PARAMS, -32602);
}

#[test]
fn second_registration_replaces_the_first() {
    let mut server: RpcServer<Handler> = RpcServer::new();
    server.register("m", first);
    let resp = server.handle_request(request("m", obj(vec![]), num(1)));
    assert_eq!(resp.result, Some(text("first")));
    server.register("m", second);
    let resp = server.handle_request(request("m", obj(vec![]), num(2)));
    assert_eq!(resp.result, Some(text("second")));
    server.register("other", first);
    let resp = server.handle_request(request("m", obj(vec![]), num(3)));
    assert_eq!(resp.result, Some(text("second")));
    let resp = server.handle_request(request("other", obj(vec![]), num(4)));
    assert_eq!(resp.result, Some(text("first")));
}

#[test]
fn resolve_finds_what_was_registered() {
    let mut server: RpcServer<u8> = RpcServer::new();
    assert_eq!(server.resolve("a"), None);
    server.register("a", 1);
    server.register("b", 2);
    server.register("a", 3);
    assert_eq!(server.resolve("a"), Some(&3));
    assert_eq!(server.resolve("b"), Some(&2));
    assert_eq!(server.resolve("A"), None);
    assert_eq!(server.resolve(""), None);
}

#[test]
fn handler_error_is_passed_on_with_its_data() {
    let mut server: RpcServer<Handler> = RpcServer::new();
    server.register("fail", fail_with_data);
    let resp = server.handle_request(request("fail", obj(vec![("k", num(1))]), text("a")));
    assert_eq!(resp.id, text("a"));
    assert_eq!(resp.result, None);
    assert_eq!(
        resp.error,
        Some(RpcErrorObj {
            code: -32000,
            message: "boom".to_string(),
            data: Some(obj(vec![("k", num(1))])),
        })
    );
    assert_eq!(resp.jsonrpc, "2.0");
}

#[test]
fn handler_error_without_data_stays_without() {
    let mut server: RpcServer<Handler> = RpcServer::new();
    server.register("fail", fail_plain);
    let resp = server.handle_request(request("fail", num(1), num(2)));
    assert_eq!(
        resp.error,
        Some(RpcErrorObj { code: 17, message: "plain".to_string(), data: None })
    );
    assert_eq!(
        resp.to_json_text(),
        r#"{"jsonrpc":"2.0","error":{"code":17,"message":"plain"},"id":2}"#
    );
}

#[test]
fn handler_error_data_reaches_the_wire() {
    let mut server: RpcServer<Handler> = RpcServer::new();
    server.register("fail", fail_with_data);
    let reply = server.answer_line(r#"{"jsonrpc":"2.0","method":"fail","params":{"k":1},"id":"a"}"#);
    assert_eq!(
        reply,
        r#"{"jsonrpc":"2.0","error":{"code":-32000,"message":"boom","data":{"k":1}},"id":"a"}"#
    );
}

#[test]
fn with_result_and_with_error() {
    let ok = RpcResponse::with_result(num(1), text("x"));
    assert_eq!(
        ok,
        RpcResponse { jsonrpc: "2.0".to_string(), result: Some(text("x")), error: None, id: num(1) }
    );
    let err = RpcResponse::with_error(JsonValue::Null, -5, "bad".to_string());
    assert_eq!(
        err,
        RpcResponse {
            jsonrpc: "2.0".to_string(),
            result: None,
            error: Some(RpcErrorObj { code: -5, message: "bad".to_string(), data: None }),
            id: JsonValue::Null,
        }
    );
    assert_eq!(RpcResponse::from_outcome(num(1), Ok(text("x"))), ok);
    assert_eq!(
        RpcResponse::from_outcome(
            JsonValue::Null,
            Err(RpcErrorObj { code: -5, message: "bad".to_string(), data: None })
        ),
        err
    );
    let with_data = RpcResponse {
        jsonrpc: "2.0".to_string(),
        result: None,
        error: Some(RpcErrorObj { code: -5, message: "bad".to_string(), data: Some(num(1)) }),
        id: text("i"),
    };
    assert_eq!(
        RpcResponse::from_outcome(
            text("i"),
            Err(RpcErrorObj { code: -5, message: "bad".to_string(), data: Some(num(1)) })
        ),
        with_data
    );
    assert_eq!(
        RpcResponse::from_error(
            text("i"),
            RpcErrorObj { code: -5, message: "bad".to_string(), data: Some(num(1)) }
        ),
        with_data
    );
}

#[test]
fn ping_scenario_text() {
    let mut server: RpcServer<DefaultMethod> = RpcServer::new();
    register_default_handlers(&mut server);
    let req = parse_rpc_request(r#"{"jsonrpc":"2.0","method":"ping","params":{},"id":1}"#).unwrap();
    let resp = handle_default_request(&server, req);
    assert_eq!(resp.to_json_text(), r#"{"jsonrpc":"2.0","result":"pong","error":null,"id":1}"#);
}

#[test]
fn error_response_text() {
    let resp = RpcResponse::with_error(text("a"), -32602, "Method not found: x".to_string());
    assert_eq!(
        resp.to_json_text(),
        r#"{"jsonrpc":"2.0","error":{"code":-32602,"message":"Method not found: x"},"id":"a"}"#
    );
}

#[test]
fn error_data_is_written_when_present() {
    let resp = RpcResponse {
        jsonrpc: "2.0".to_string(),
        result: None,
        error: Some(RpcErrorObj { code: 7, message: "m".to_string(), data: Some(num(1)) }),
        id: JsonValue::Null,
    };
    assert_eq!(
        resp.to_json_text(),
        r#"{"jsonrpc":"2.0","error":{"code":7,"message":"m","data":1},"id":null}"#
    );
}

#[test]
fn response_value_members_in_order() {
    let v = RpcResponse::with_result(num(1), text("pong")).to_value();
    assert_eq!(
        v,
        obj(vec![
            ("jsonrpc", text("2.0")),
            ("result", text("pong")),
            ("error", JsonValue::Null),
            ("id", num(1)),
        ])
    );
    let v = RpcResponse::with_error(num(1), -1, "e".to_string()).to_value();
    assert_eq!(
        v,
        obj(vec![
            ("jsonrpc", text("2.0")),
            (
                "error",
                obj(vec![
                    ("code", JsonValue::Number(JsonNumber::Negative(-1))),
                    ("message", text("e")),
                ])
            ),
            ("id", num(1)),
        ])
    );
}

#[test]
fn batch_response_text_is_an_array_in_order() {
    let out = BatchResponse::Batch(vec![
        RpcResponse::with_result(num(1), text("a")),
        RpcResponse::with_result(num(2), text("b")),
    ]);
    assert!(!out.has_error());
    assert_eq!(
        out.to_json_text(),
        r#"[{"jsonrpc":"2.0","result":"a","error":null,"id":1},{"jsonrpc":"2.0","result":"b","error":null,"id":2}]"#
    );
    let out = BatchResponse::Batch(vec![
        RpcResponse::with_result(num(1), text("a")),
        RpcResponse::with_error(num(2), -1, "e".to_string()),
    ]);
    assert!(out.has_error());
    assert!(BatchResponse::Single(RpcResponse::with_error(num(2), -1, "e".to_string())).has_error());
    assert!(!BatchResponse::Single(RpcResponse::with_result(num(2), num(1))).has_error());
    assert!(!BatchResponse::Batch(vec![]).has_error());
    assert_eq!(BatchResponse::Batch(vec![]).to_json_text(), "[]");
}

#[test]
fn json_text_keeps_numbers_and_nesting() {
    let req = parse_rpc_request(
        r#"{"jsonrpc":"2.0","method":"m","params":{"a":[1,-2,1.5,true,null,"s",{"b":18446744073709551615}]},"id":-7}"#,
    )
    .unwrap();
    assert_eq!(req.id, JsonValue::Number(JsonNumber::Negative(-7)));
    assert_eq!(
        req.params,
        obj(vec![(
            "a",
            JsonValue::Array(vec![
                num(1),
                JsonValue::Number(JsonNumber::Negative(-2)),
                JsonValue::Number(JsonNumber::Decimal("1.5".to_string())),
                JsonValue::Bool(true),
                JsonValue::Null,
                text("s"),
                obj(vec![("b", num(u64::MAX))]),
            ])
        )])
    );
    let resp = RpcResponse::with_result(req.id, req.params);
    assert_eq!(
        resp.to_json_text(),
        r#"{"jsonrpc":"2.0","result":{"a":[1,-2,1.5,true,null,"s",{"b":18446744073709551615}]},"error":null,"id":-7}"#
    );
}

#[test]
fn parse_rpc_request_reads_members() {
    let req = parse_rpc_request(r#"{"id":"x","method":"ping","jsonrpc":"2.0","extra":1}"#).unwrap();
    assert_eq!(req, request("ping", obj(vec![]), text("x")));
    assert!(matches!(parse_rpc_request("nonsense"), Err(RequestError::Syntax(_))));
    assert_eq!(parse_rpc_request("[]"), Err(RequestError::NotAnObject));
    assert_eq!(
        parse_rpc_request(r#"{"jsonrpc":"2.0","method":"ping"}"#),
        Err(RequestError::MissingField(RequestField::Id))
    );
}

#[test]
fn from_value_takes_the_last_of_repeated_members() {
    let v = obj(vec![
        ("jsonrpc", text("1.0")),
        ("method", text("a")),
        ("id", num(1)),
        ("method", text("b")),
        ("jsonrpc", text("2.0")),
    ]);
    assert_eq!(RpcRequest::from_value(v), Ok(request("b", obj(vec![]), num(1))));
}

#[test]
fn parse_error_response_says_why() {
    let resp = RpcResponse::parse_error(&RequestError::MissingField(RequestField::Method));
    assert_eq!(resp.id, JsonValue::Null);
    assert_eq!(
        resp.error,
        Some(RpcErrorObj {
            code: PARSE_ERROR,
            message: "Parse error: missing field: method".to_string(),
            data: None,
        })
    );
    assert_eq!(RequestError::NotAnObject.message(), "request is not an object");
    assert_eq!(
        RequestError::NotAString(RequestField::Jsonrpc).message(),
        "field is not a string: jsonrpc"
    );
    assert_eq!(RequestError::MissingField(RequestField::Id).message(), "missing field: id");
    assert_eq!(RequestError::Syntax("oops".to_string()).message(), "oops");
}

#[test]
fn json_value_lookups() {
    let v = obj(vec![("a", text("x")), ("n", num(5)), ("a", text("y"))]);
    assert_eq!(v.get("a"), Some(&text("y")));
    assert_eq!(v.get("n"), Some(&num(5)));
    assert_eq!(v.get("missing"), None);
    assert_eq!(text("x").get("a"), None);
    assert_eq!(text("x").as_str(), Some("x"));
    assert_eq!(num(1).as_str(), None);
    assert_eq!(num(1).as_u64(), Some(1));
    assert_eq!(JsonValue::Number(JsonNumber::Negative(-1)).as_u64(), None);
    assert_eq!(text("1").as_u64(), None);
    assert!(v.is_object());
    assert!(!JsonValue::Array(vec![]).is_object());
}

#[test]
fn default_ping_and_balance() {
    assert_eq!(ping(JsonValue::Null), Ok(text("pong")));
    assert_eq!(get_balance(obj(vec![("address", text("0x123"))])), Ok(text("61725")));
    assert_eq!(get_balance(obj(vec![("address", text("é"))])), Ok(text("24690")));
    let missing =
        RpcErrorObj { code: INVALID_PARAMS, message: "Missing 'address' param".to_string(), data: None };
    assert_eq!(get_balance(obj(vec![])), Err(RpcErrorObj { ..missing }));
    let missing =
        RpcErrorObj { code: INVALID_PARAMS, message: "Missing 'address' param".to_string(), data: None };
    assert_eq!(get_balance(obj(vec![("address", text(""))])), Err(missing));
    assert!(get_balance(JsonValue::Array(vec![text("0x1")])).is_err());
    assert!(get_balance(obj(vec![("address", num(1))])).is_err());
}

#[test]
fn default_send_tx() {
    let params = obj(vec![("raw_tx", text("0xabc"))]);
    assert_eq!(send_tx_with(params, "id-1".to_string()), Ok(text("id-1")));
    let missing =
        RpcErrorObj { code: INVALID_PARAMS, message: "Missing 'raw_tx' param".to_string(), data: None };
    assert_eq!(send_tx_with(obj(vec![]), "id-1".to_string()), Err(missing));
    assert!(send_tx(obj(vec![("raw_tx", text(""))])).is_err());
    match send_tx(obj(vec![("raw_tx", text("0xabc"))])) {
        Ok(JsonValue::Str(id)) => assert_eq!(id.len(), 36),
        other => panic!("unexpected {:?}", other),
    }
}

#[test]
fn default_set_dispatch() {
    let mut server: RpcServer<DefaultMethod> = RpcServer::new();
    register_default_handlers(&mut server);
    assert_eq!(server.resolve("ping"), Some(&DefaultMethod::Ping));
    assert_eq!(server.resolve("get_balance"), Some(&DefaultMethod::GetBalance));
    assert_eq!(server.resolve("send_tx"), Some(&DefaultMethod::SendTx));
    let resp =
        handle_default_request(&server, request("get_balance", obj(vec![("address", text("ab"))]), num(2)));
    assert_eq!(resp.result, Some(text("24690")));
    assert_eq!(resp.id, num(2));
    let resp = handle_default_request(&server, request("nope", obj(vec![]), num(3)));
    assert_eq!(resp.error.unwrap().message, "Method not found: nope");
    assert_eq!(DefaultMethod::Ping.call(JsonValue::Null), Ok(text("pong")));
}

#[test]
fn option_ext_maps_missing_values() {
    assert_eq!(Some(3u8).ok_or_invalid_params(), Ok(3u8));
    assert_eq!(
        None::<u8>.ok_or_invalid_params(),
        Err(RpcErrorObj { code: INVALID_PARAMS, message: "Invalid parameters".to_string(), data: None })
    );
    assert_eq!(Some(3u8).ok_or_rpc_error(-1, "x".to_string()), Ok(3u8));
    assert_eq!(
        None::<u8>.ok_or_rpc_error(-1, "x".to_string()),
        Err(RpcErrorObj { code: -1, message: "x".to_string(), data: None })
    );
}

#[test]
fn required_parameters() {
    let params = obj(vec![("a", text("x")), ("n", num(5))]);
    assert_eq!(required_str(&params, "a", "no a"), Ok("x"));
    assert_eq!(required_u64(&params, "n", "no n"), Ok(5));
    assert_eq!(
        required_str(&params, "n", "no a"),
        Err(RpcErrorObj { code: INVALID_PARAMS, message: "no a".to_string(), data: None })
    );
    assert_eq!(
        required_u64(&params, "a", "no n"),
        Err(RpcErrorObj { code: INVALID_PARAMS, message: "no n".to_string(), data: None })
    );
    assert!(required_str(&JsonValue::Null, "a", "no a").is_err());
}
