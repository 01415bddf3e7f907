use dice_rpc::json::{JsonNumber, JsonValue};
use dice_rpc::rpc::{RpcErrorObj, RpcRequest, RpcServer, INVALID_PARAMS};
use dice_rpc::state::StateStore;
use dice_rpc::stateful::{
    account_value, confirm_transaction, get_balance, get_transaction, get_transactions,
    handle_stateful_request, list_accounts, register_stateful_handlers, set_balance, transfer,
    transfer_with, transaction_value, StatefulMethod, LEDGER_ERROR, NOT_FOUND,
};

fn num(n: u64) -> JsonValue {
    JsonValue::Number(JsonNumber::Unsigned(n))
}

fn text(s: &str) -> JsonValue {
    JsonValue::Str(s.to_string())
}

fn obj(members: Vec<(&str, JsonValue)>) -> JsonValue {
    JsonValue::Object(members.into_iter().map(|(k, v)| (k.to_string(), v)).collect())
}

fn invalid(message: &str) -> RpcErrorObj {
    RpcErrorObj { code: INVALID_PARAMS, message: message.to_string(), data: None }
}

fn request(method: &str, params: JsonValue, id: u64) -> RpcRequest {
    RpcRequest { jsonrpc: "2.0".to_string(), method: method.to_string(), params, id: num(id) }
}

#[test]
fn stateful_get_balance() {
    let mut state = StateStore::new();
    state.set_balance("0xAlice", 1000);
    assert_eq!(
        get_balance(&state, obj(vec![("address", text("0xAlice"))])),
        Ok(obj(vec![("address", text("0xAlice")), ("balance", text("1000"))]))
    );
    assert_eq!(
        get_balance(&state, obj(vec![("address", text("0xNobody"))])),
        Ok(obj(vec![("address", text("0xNobody")), ("balance", text("0"))]))
    );
    assert_eq!(get_balance(&state, obj(vec![])), Err(invalid("Missing 'address' parameter")));
    assert_eq!(state.get_all_accounts().len(), 1);
}

#[test]
fn stateful_set_balance() {
    let mut state = StateStore::new();
    assert_eq!(
        set_balance(&mut state, obj(vec![("address", text("0xA")), ("balance", num(18446744073709551615))])),
        Ok(obj(vec![
            ("address", text("0xA")),
            ("balance", text("18446744073709551615")),
            ("success", JsonValue::Bool(true)),
        ]))
    );
    assert_eq!(state.get_balance("0xA"), Some(u64::MAX));
    assert_eq!(
        set_balance(&mut state, obj(vec![("balance", num(1))])),
        Err(invalid("Missing 'address' parameter"))
    );
    assert_eq!(
        set_balance(&mut state, obj(vec![("address", text("0xA")), ("balance", text("1"))])),
        Err(invalid("Missing or invalid 'balance' parameter"))
    );
    assert_eq!(
        set_balance(
            &mut state,
            obj(vec![("address", text("0xA")), ("balance", JsonValue::Number(JsonNumber::Negative(-1)))])
        ),
        Err(invalid("Missing or invalid 'balance' parameter"))
    );
    assert_eq!(state.get_balance("0xA"), Some(u64::MAX));
}

#[test]
fn stateful_transfer() {
    let mut state = StateStore::new();
    state.set_balance("0xA", 1000);
    let params = obj(vec![("from", text("0xA")), ("to", text("0xB")), ("amount", num(300))]);
    assert_eq!(
        transfer_with(&mut state, params, "tx-1".to_string(), 99),
        Ok(obj(vec![
            ("txid", text("tx-1")),
            ("from", text("0xA")),
            ("to", text("0xB")),
            ("amount", num(300)),
            ("status", text("pending")),
        ]))
    );
    assert_eq!(state.get_balance("0xA"), Some(700));
    assert_eq!(state.get_balance("0xB"), Some(300));
    let params = obj(vec![("from", text("0xA")), ("to", text("0xB")), ("amount", num(701))]);
    assert_eq!(
        transfer(&mut state, params),
        Err(RpcErrorObj { code: LEDGER_ERROR, message: "Insufficient balance".to_string(), data: None })
    );
    let params = obj(vec![("from", text("0xZ")), ("to", text("0xB")), ("amount", num(1))]);
    assert_eq!(
        transfer(&mut state, params),
        Err(RpcErrorObj { code: -32000, message: "Sender account not found".to_string(), data: None })
    );
    assert_eq!(
        transfer(&mut state, obj(vec![("to", text("0xB")), ("amount", num(1))])),
        Err(invalid("Missing 'from' parameter"))
    );
    assert_eq!(
        transfer(&mut state, obj(vec![("from", text("0xA")), ("amount", num(1))])),
        Err(invalid("Missing 'to' parameter"))
    );
    assert_eq!(
        transfer(&mut state, obj(vec![("from", text("0xA")), ("to", text("0xB"))])),
        Err(invalid("Missing or invalid 'amount' parameter"))
    );
    assert_eq!(state.get_balance("0xA"), Some(700));
    assert_eq!(state.get_transactions_for_address("0xA").len(), 1);
}

#[test]
fn stateful_transaction_queries() {
    let mut state = StateStore::new();
    state.set_balance("0xA", 1000);
    state.transfer_with("0xA", "0xB", 10, "tx-1".to_string(), 5).unwrap();
    state.transfer_with("0xB", "0xC", 4, "tx-2".to_string(), 6).unwrap();
    let tx1 = obj(vec![
        ("txid", text("tx-1")),
        ("from", text("0xA")),
        ("to", text("0xB")),
        ("amount", num(10)),
        ("timestamp", num(5)),
        ("status", text("pending")),
    ]);
    assert_eq!(get_transaction(&state, obj(vec![("txid", text("tx-1"))])), Ok(tx1));
    assert_eq!(
        get_transaction(&state, obj(vec![("txid", text("tx-9"))])),
        Err(RpcErrorObj { code: NOT_FOUND, message: "Transaction not found".to_string(), data: None })
    );
    assert_eq!(get_transaction(&state, obj(vec![])), Err(invalid("Missing 'txid' parameter")));
    assert_eq!(
        confirm_transaction(&mut state, obj(vec![("txid", text("tx-1"))])),
        Ok(obj(vec![
            ("txid", text("tx-1")),
            ("status", text("confirmed")),
            ("success", JsonValue::Bool(true)),
        ]))
    );
    assert_eq!(
        confirm_transaction(&mut state, obj(vec![("txid", text("tx-9"))])),
        Err(RpcErrorObj { code: -32001, message: "Transaction not found".to_string(), data: None })
    );
    assert_eq!(confirm_transaction(&mut state, obj(vec![])), Err(invalid("Missing 'txid' parameter")));
    let confirmed = state.get_transaction("tx-1").unwrap();
    let tx2 = state.get_transaction("tx-2").unwrap();
    assert_eq!(
        get_transactions(&state, obj(vec![("address", text("0xB"))])),
        Ok(obj(vec![
            ("address", text("0xB")),
            (
                "transactions",
                JsonValue::Array(vec![transaction_value(&confirmed), transaction_value(&tx2)])
            ),
        ]))
    );
    assert_eq!(
        transaction_value(&confirmed),
        obj(vec![
            ("txid", text("tx-1")),
            ("from", text("0xA")),
            ("to", text("0xB")),
            ("amount", num(10)),
            ("timestamp", num(5)),
            ("status", text("confirmed")),
        ])
    );
    assert_eq!(
        get_transactions(&state, obj(vec![("address", text("0xNobody"))])),
        Ok(obj(vec![("address", text("0xNobody")), ("transactions", JsonValue::Array(vec![]))]))
    );
    assert_eq!(get_transactions(&state, obj(vec![])), Err(invalid("Missing 'address' parameter")));
}

#[test]
fn stateful_list_accounts() {
    let mut state = StateStore::new();
    assert_eq!(
        list_accounts(&state, JsonValue::Null),
        Ok(obj(vec![("accounts", JsonValue::Array(vec![])), ("count", num(0))]))
    );
    state.set_balance("0xA", 10);
    state.set_balance("0xB", 20);
    let accounts = state.get_all_accounts();
    assert_eq!(
        list_accounts(&state, JsonValue::Null),
        Ok(obj(vec![
            ("accounts", JsonValue::Array(accounts.iter().map(account_value).collect())),
            ("count", num(2)),
        ]))
    );
    let a = accounts.iter().find(|a| a.address == "0xA").unwrap();
    assert_eq!(
        account_value(a),
        obj(vec![("address", text("0xA")), ("balance", text("10")), ("nonce", num(0))])
    );
}

#[test]
fn stateful_dispatch() {
    let mut server: RpcServer<StatefulMethod> = RpcServer::new();
    register_stateful_handlers(&mut server);
    assert_eq!(server.resolve("ping"), Some(&StatefulMethod::Ping));
    assert_eq!(server.resolve("get_balance"), Some(&StatefulMethod::GetBalance));
    assert_eq!(server.resolve("set_balance"), Some(&StatefulMethod::SetBalance));
    assert_eq!(server.resolve("transfer"), Some(&StatefulMethod::Transfer));
    assert_eq!(server.resolve("get_transaction"), Some(&StatefulMethod::GetTransaction));
    assert_eq!(server.resolve("confirm_transaction"), Some(&StatefulMethod::ConfirmTransaction));
    assert_eq!(server.resolve("get_transactions"), Some(&StatefulMethod::GetTransactions));
    assert_eq!(server.resolve("list_accounts"), Some(&StatefulMethod::ListAccounts));
    let mut state = StateStore::new();
    let resp = handle_stateful_request(
        &server,
        &mut state,
        request("set_balance", obj(vec![("address", text("0xA")), ("balance", num(500))]), 1),
    );
    assert!(resp.error.is_none());
    let resp = handle_stateful_request(
        &server,
        &mut state,
        request("get_balance", obj(vec![("address", text("0xA"))]), 2),
    );
    assert_eq!(
        resp.result,
        Some(obj(vec![("address", text("0xA")), ("balance", text("500"))]))
    );
    assert_eq!(resp.id, num(2));
    let resp = handle_stateful_request(&server, &mut state, request("ping", JsonValue::Null, 3));
    assert_eq!(resp.result, Some(text("pong")));
    let resp = handle_stateful_request(&server, &mut state, request("nonexistent_method", obj(vec![]), 4));
    let error = resp.error.unwrap();
    assert_eq!(error.code, -32602);
    assert!(error.message.contains("Method not found"));
    let resp = handle_stateful_request(&server, &mut state, request("get_balance", obj(vec![]), 5));
    assert_eq!(resp.error.unwrap().code, INVALID_PARAMS);
    let resp = handle_stateful_request(
        &server,
        &mut state,
        request("transfer", obj(vec![("from", text("0xA")), ("to", text("0xB")), ("amount", num(300))]), 6),
    );
    assert!(resp.error.is_none());
    assert_eq!(state.get_balance("0xA"), Some(200));
    assert_eq!(state.get_balance("0xB"), Some(300));
}
