use dice_rpc::batch::reversed;
use dice_rpc::json::{JsonNumber, JsonValue};
use dice_rpc::rpc::{RequestError, RequestField, RpcErrorObj, INVALID_REQUEST};
use dice_rpc::RpcRequest;
use dice_rpc::RpcServer;
use dice_rpc::{BatchRequest, BatchResponse};

type Handler = fn(JsonValue) -> Result<JsonValue, RpcErrorObj>;

fn pong(_params: JsonValue) -> Result<JsonValue, RpcErrorObj> {
    Ok(JsonValue::Str("pong".to_string()))
}

fn echo(params: JsonValue) -> Result<JsonValue, RpcErrorObj> {
    Ok(params)
}

fn refuse(_params: JsonValue) -> Result<JsonValue, RpcErrorObj> {
    Err(RpcErrorObj {
        code: -32000,
        message: "refused".to_string(),
        data: Some(JsonValue::Bool(true)),
    })
}

fn num(n: u64) -> JsonValue {
    JsonValue::Number(JsonNumber::Unsigned(n))
}

fn empty_object() -> JsonValue {
    JsonValue::Object(vec![])
}

fn request(method: &str, params: JsonValue, id: JsonValue) -> RpcRequest {
    RpcRequest { jsonrpc: "2.0".to_string(), method: method.to_string(), params, id }
}

fn parse_single_request_case() {
    let raw = r#"{"jsonrpc":"2.0","method":"ping","params":{},"id":1}"#;
    let batch = BatchRequest::parse(raw).unwrap();
    assert!(!batch.is_batch());
    assert_eq!(batch.len(), 1);
}

fn parse_batch_request_case() {
    let raw = r#"[
            {"jsonrpc":"2.0","method":"ping","params":{},"id":1},
            {"jsonrpc":"2.0","method":"get_balance","params":{"address":"0x123"},"id":2}
        ]"#;
    let batch = BatchRequest::parse(raw).unwrap();
    assert!(batch.is_batch());
    assert_eq!(batch.len(), 2);
}

fn batch_processing_case() {
    let mut server: RpcServer<Handler> = RpcServer::new();

    // Register a simple handler
    server.register("ping", pong);

    // Create batch request
    let requests = vec![
        request("ping", empty_object(), num(1)),
        request("ping", empty_object(), num(2)),
    ];

    let batch = BatchRequest::Batch(requests);
    let response = server.handle_batch(batch);

    match response {
        BatchResponse::Batch(responses) => {
            assert_eq!(responses.len(), 2);
            assert_eq!(responses[0].result, Some(JsonValue::Str("pong".to_string())));
            assert_eq!(responses[1].result, Some(JsonValue::Str("pong".to_string())));
        }
        _ => panic!("Expected batch response"),
    }
}

#[test]
fn batch_test_parse_single_request() {
    parse_single_request_case();
}

#[test]
fn batch_tests_test_parse_single_request() {
    parse_single_request_case();
}

#[test]
fn batch_test_parse_batch_request() {
    parse_batch_request_case();
}

#[test]
fn batch_tests_test_parse_batch_request() {
    parse_batch_request_case();
}

#[test]
fn batch_test_batch_processing() {
    batch_processing_case();
}

#[test]
fn batch_tests_test_batch_processing() {
    batch_processing_case();
}

#[test]
fn parsed_requests_carry_their_members() {
    let raw = r#"[
            {"jsonrpc":"2.0","method":"ping","params":{},"id":1},
            {"jsonrpc":"2.0","method":"get_balance","params":{"address":"0x123"},"id":"two"},
            {"jsonrpc":"2.0","method":"noparams","id":null}
        ]"#;
    let expected = BatchRequest::Batch(vec![
        request("ping", empty_object(), num(1)),
        request(
            "get_balance",
            JsonValue::Object(vec![("address".to_string(), JsonValue::Str("0x123".to_string()))]),
            JsonValue::Str("two".to_string()),
        ),
        request("noparams", empty_object(), JsonValue::Null),
    ]);
    assert_eq!(BatchRequest::parse(raw), Ok(expected));
}

#[test]
fn parse_reports_what_is_wrong() {
    assert!(matches!(BatchRequest::parse("{not json"), Err(RequestError::Syntax(_))));
    assert!(matches!(BatchRequest::parse(""), Err(RequestError::Syntax(_))));
    assert_eq!(BatchRequest::parse("42"), Err(RequestError::NotAnObject));
    assert_eq!(BatchRequest::parse("[1]"), Err(RequestError::NotAnObject));
    assert_eq!(
        BatchRequest::parse(r#"{"method":"ping","id":1}"#),
        Err(RequestError::MissingField(RequestField::Jsonrpc))
    );
    assert_eq!(
        BatchRequest::parse(r#"{"jsonrpc":"2.0","id":1}"#),
        Err(RequestError::MissingField(RequestField::Method))
    );
    assert_eq!(
        BatchRequest::parse(r#"{"jsonrpc":"2.0","method":"ping"}"#),
        Err(RequestError::MissingField(RequestField::Id))
    );
    assert_eq!(
        BatchRequest::parse(r#"{"jsonrpc":2,"method":"ping","id":1}"#),
        Err(RequestError::NotAString(RequestField::Jsonrpc))
    );
    assert_eq!(
        BatchRequest::parse(r#"{"jsonrpc":"2.0","method":7,"id":1}"#),
        Err(RequestError::NotAString(RequestField::Method))
    );
    assert_eq!(
        BatchRequest::parse(r#"[{"jsonrpc":"2.0","method":"ping","id":1},{"jsonrpc":"2.0","id":2}]"#),
        Err(RequestError::MissingField(RequestField::Method))
    );
}

#[test]
fn empty_array_parses_as_empty_batch() {
    let batch = BatchRequest::parse("[]").unwrap();
    assert!(batch.is_batch());
    assert!(batch.is_empty());
    assert_eq!(batch.len(), 0);
    assert_eq!(batch, BatchRequest::Batch(vec![]));
}

#[test]
fn single_is_never_empty() {
    let single = BatchRequest::Single(request("ping", empty_object(), num(1)));
    assert!(!single.is_batch());
    assert!(!single.is_empty());
    assert_eq!(single.len(), 1);
}

#[test]
fn single_request_yields_single_response() {
    let mut server: RpcServer<Handler> = RpcServer::new();
    server.register("ping", pong);
    let out = server.handle_batch(BatchRequest::Single(request("ping", empty_object(), num(4))));
    match out {
        BatchResponse::Single(resp) => {
            assert_eq!(resp.result, Some(JsonValue::Str("pong".to_string())));
            assert_eq!(resp.id, num(4));
        }
        _ => panic!("Expected single response"),
    }
}

#[test]
fn empty_batch_yields_single_invalid_request() {
    let server: RpcServer<Handler> = RpcServer::new();
    let out = server.handle_batch(BatchRequest::Batch(vec![]));
    match out {
        BatchResponse::Single(resp) => {
            assert_eq!(resp.id, JsonValue::Null);
            assert_eq!(resp.result, None);
            assert_eq!(
                resp.error,
                Some(RpcErrorObj {
                    code: INVALID_REQUEST,
                    message: "Invalid Request: empty batch".to_string(),
                    data: None,
                })
            );
            assert_eq!(INVALID_REQUEST, -32600);
        }
        _ => panic!("Expected single response"),
    }
}

#[test]
fn batch_of_one_stays_a_batch() {
    let mut server: RpcServer<Handler> = RpcServer::new();
    server.register("ping", pong);
    let out = server.handle_batch(BatchRequest::Batch(vec![request("ping", empty_object(), num(1))]));
    match out {
        BatchResponse::Batch(responses) => assert_eq!(responses.len(), 1),
        _ => panic!("Expected batch response"),
    }
}

#[test]
fn batch_responses_keep_request_order_and_failures_stay_local() {
    let mut server: RpcServer<Handler> = RpcServer::new();
    server.register("echo", echo);
    server.register("refuse", refuse);
    let batch = BatchRequest::Batch(vec![
        request("echo", num(10), num(1)),
        request("refuse", num(20), num(2)),
        request("missing", num(30), num(3)),
        request("echo", num(40), num(4)),
    ]);
    match server.handle_batch(batch) {
        BatchResponse::Batch(responses) => {
            assert_eq!(responses.len(), 4);
            assert_eq!(responses[0].result, Some(num(10)));
            assert_eq!(responses[0].id, num(1));
            assert_eq!(responses[1].result, None);
            assert_eq!(
                responses[1].error,
                Some(RpcErrorObj {
                    code: -32000,
                    message: "refused".to_string(),
                    data: Some(JsonValue::Bool(true)),
                })
            );
            assert_eq!(responses[1].id, num(2));
            assert_eq!(responses[2].error.as_ref().unwrap().code, -32602);
            assert_eq!(responses[2].id, num(3));
            assert_eq!(responses[3].result, Some(num(40)));
            assert_eq!(responses[3].id, num(4));
        }
        _ => panic!("Expected batch response"),
    }
}

#[test]
fn reversed_turns_the_order_round() {
    assert_eq!(reversed(vec![1, 2, 3]), vec![3, 2, 1]);
    assert_eq!(reversed(Vec::<u8>::new()), Vec::<u8>::new());
}
