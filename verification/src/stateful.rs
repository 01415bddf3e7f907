//! The handlers that work on the ledger.
use vstd::prelude::*;
use crate::handlers::{
    bool_member, decimal, decimal_text, is_bool_member, is_failure, is_str, is_str_member,
    is_u64_member, required_str, required_u64, str_member, u64_member,
};
use crate::json::JsonValue;
use crate::rpc::{RpcErrorObj, RpcRequest, RpcResponse, RpcServer, METHOD_NOT_FOUND};
use crate::state::{
    after_transfer, fresh_txid, touches, transfer_fault, unix_now, Account, AccountView,
    StateStore, Transaction, TransactionStatus, TransactionView,
};

verus! {

/// A failure of the ledger itself.
pub const LEDGER_ERROR: i64 = -32000;

/// The transaction is not known.
pub const NOT_FOUND: i64 = -32001;

/// The status in words.
pub open spec fn status_text(status: TransactionStatus) -> Seq<char> {
    match status {
        TransactionStatus::Pending => "pending"@,
        TransactionStatus::Confirmed => "confirmed"@,
        TransactionStatus::Failed => "failed"@,
    }
}

/// The ledger is as it was.
pub open spec fn unchanged(before: StateStore, after: StateStore) -> bool {
    after.accounts() == before.accounts() && after.transactions() == before.transactions()
}

/// `v` is the object that tells a balance: the address, and the balance as
/// decimal text.
pub open spec fn is_balance_reply(v: JsonValue, address: Seq<char>, balance: u64) -> bool {
    &&& v is Object
    &&& v->Object_0@.len() == 2
    &&& is_str_member(v->Object_0@[0], "address"@, address)
    &&& is_str_member(v->Object_0@[1], "balance"@, decimal(balance as nat))
}

/// `v` is the object that confirms a new balance.
pub open spec fn is_set_balance_reply(v: JsonValue, address: Seq<char>, balance: u64) -> bool {
    &&& v is Object
    &&& v->Object_0@.len() == 3
    &&& is_str_member(v->Object_0@[0], "address"@, address)
    &&& is_str_member(v->Object_0@[1], "balance"@, decimal(balance as nat))
    &&& is_bool_member(v->Object_0@[2], "success"@, true)
}

/// `v` is the object that tells of a transfer just made.
pub open spec fn is_transfer_reply(v: JsonValue, tx: TransactionView) -> bool {
    &&& v is Object
    &&& v->Object_0@.len() == 5
    &&& is_str_member(v->Object_0@[0], "txid"@, tx.txid)
    &&& is_str_member(v->Object_0@[1], "from"@, tx.from)
    &&& is_str_member(v->Object_0@[2], "to"@, tx.to)
    &&& is_u64_member(v->Object_0@[3], "amount"@, tx.amount)
    &&& is_str_member(v->Object_0@[4], "status"@, "pending"@)
}

/// `v` is the object that describes a transaction.
pub open spec fn is_transaction_value(v: JsonValue, tx: TransactionView) -> bool {
    &&& v is Object
    &&& v->Object_0@.len() == 6
    &&& is_str_member(v->Object_0@[0], "txid"@, tx.txid)
    &&& is_str_member(v->Object_0@[1], "from"@, tx.from)
    &&& is_str_member(v->Object_0@[2], "to"@, tx.to)
    &&& is_u64_member(v->Object_0@[3], "amount"@, tx.amount)
    &&& is_u64_member(v->Object_0@[4], "timestamp"@, tx.timestamp)
    &&& is_str_member(v->Object_0@[5], "status"@, status_text(tx.status))
}

/// `v` is the object that confirms a confirmation.
pub open spec fn is_confirm_reply(v: JsonValue, txid: Seq<char>) -> bool {
    &&& v is Object
    &&& v->Object_0@.len() == 3
    &&& is_str_member(v->Object_0@[0], "txid"@, txid)
    &&& is_str_member(v->Object_0@[1], "status"@, "confirmed"@)
    &&& is_bool_member(v->Object_0@[2], "success"@, true)
}

/// `v` is the object that describes an account: the address, the balance as
/// decimal text, and the nonce.
pub open spec fn is_account_value(v: JsonValue, a: AccountView) -> bool {
    &&& v is Object
    &&& v->Object_0@.len() == 3
    &&& is_str_member(v->Object_0@[0], "address"@, a.address)
    &&& is_str_member(v->Object_0@[1], "balance"@, decimal(a.balance as nat))
    &&& is_u64_member(v->Object_0@[2], "nonce"@, a.nonce)
}

/// `v` is the array of the objects that describe `txs`, in their order.
pub open spec fn is_transaction_array(v: JsonValue, txs: Seq<TransactionView>) -> bool {
    &&& v is Array
    &&& v->Array_0@.len() == txs.len()
    &&& forall|i: int| 0 <= i < txs.len() ==> is_transaction_value(#[trigger] v->Array_0@[i], txs[i])
}

/// `v` is the array of the objects that describe `accounts`, in their order.
pub open spec fn is_account_array(v: JsonValue, accounts: Seq<AccountView>) -> bool {
    &&& v is Array
    &&& v->Array_0@.len() == accounts.len()
    &&& forall|i: int|
        0 <= i < accounts.len() ==> is_account_value(#[trigger] v->Array_0@[i], accounts[i])
}

/// `v` is the object that lists the transactions of an address.
pub open spec fn is_history_reply(v: JsonValue, address: Seq<char>, txs: Seq<TransactionView>) -> bool {
    &&& v is Object
    &&& v->Object_0@.len() == 2
    &&& is_str_member(v->Object_0@[0], "address"@, address)
    &&& v->Object_0@[1].0@ == "transactions"@
    &&& is_transaction_array(v->Object_0@[1].1, txs)
}

/// `v` is the object that lists all accounts, with their number.
pub open spec fn is_accounts_reply(v: JsonValue, accounts: Seq<AccountView>) -> bool {
    &&& v is Object
    &&& v->Object_0@.len() == 2
    &&& v->Object_0@[0].0@ == "accounts"@
    &&& is_account_array(v->Object_0@[0].1, accounts)
    &&& is_u64_member(v->Object_0@[1], "count"@, accounts.len() as u64)
}

fn status_word(status: TransactionStatus) -> (r: &'static str)
    ensures
        r@ == status_text(status),
{
    match status {
        TransactionStatus::Pending => "pending",
        TransactionStatus::Confirmed => "confirmed",
        TransactionStatus::Failed => "failed",
    }
}

fn owned_text_member(key: &str, value: String) -> (e: (String, JsonValue))
    ensures
        is_str_member(e, key@, value@),
{
    (key.to_owned(), JsonValue::Str(value))
}

fn ledger_failure(code: i64, message: String) -> (e: RpcErrorObj)
    ensures
        e.code == code,
        e.message@ == message@,
        e.data is None,
{
    RpcErrorObj { code, message, data: None }
}

/// The object that describes a transaction.
pub fn transaction_value(tx: &Transaction) -> (v: JsonValue)
    ensures
        is_transaction_value(v, tx@),
{
    let mut m: Vec<(String, JsonValue)> = Vec::new();
    m.push(str_member("txid", tx.txid.as_str()));
    m.push(str_member("from", tx.from.as_str()));
    m.push(str_member("to", tx.to.as_str()));
    m.push(u64_member("amount", tx.amount));
    m.push(u64_member("timestamp", tx.timestamp));
    m.push(str_member("status", status_word(tx.status)));
    JsonValue::Object(m)
}

/// The object that describes an account.
pub fn account_value(a: &Account) -> (v: JsonValue)
    ensures
        is_account_value(v, a@),
{
    let mut m: Vec<(String, JsonValue)> = Vec::new();
    m.push(str_member("address", a.address.as_str()));
    m.push(owned_text_member("balance", decimal_text(a.balance)));
    m.push(u64_member("nonce", a.nonce));
    JsonValue::Object(m)
}

/// What `get_balance` owes: the balance of the string parameter `address`,
/// zero where it has no account.
pub open spec fn get_balance_post(
    state: StateStore,
    params: JsonValue,
    r: Result<JsonValue, RpcErrorObj>,
) -> bool {
    match params.str_member("address"@) {
        None => is_failure(r, crate::rpc::INVALID_PARAMS, "Missing 'address' parameter"@),
        Some(a) => r matches Ok(v) && is_balance_reply(
            v,
            a,
            if state.accounts().contains_key(a) {
                state.accounts()[a].balance
            } else {
                0
            },
        ),
    }
}

/// Tells the balance of an address.
pub fn get_balance(state: &StateStore, params: JsonValue) -> (r: Result<JsonValue, RpcErrorObj>)
    requires
        state.wf(),
    ensures
        get_balance_post(*state, params, r),
{
    let address = match required_str(&params, "address", "Missing 'address' parameter") {
        Ok(a) => a,
        Err(e) => {
            return Err(e);
        },
    };
    let balance: u64 = match state.get_balance(address) {
        Some(b) => b,
        None => 0,
    };
    let mut m: Vec<(String, JsonValue)> = Vec::new();
    m.push(str_member("address", address));
    m.push(owned_text_member("balance", decimal_text(balance)));
    Ok(JsonValue::Object(m))
}

/// What `set_balance` owes: with the string parameter `address` and the
/// integer parameter `balance` the account gets that balance; without one of
/// them nothing changes.
pub open spec fn set_balance_post(
    before: StateStore,
    params: JsonValue,
    r: Result<JsonValue, RpcErrorObj>,
    after: StateStore,
) -> bool {
    match params.str_member("address"@) {
        None => is_failure(r, crate::rpc::INVALID_PARAMS, "Missing 'address' parameter"@)
            && unchanged(before, after),
        Some(a) => match params.u64_member("balance"@) {
            None => is_failure(
                r,
                crate::rpc::INVALID_PARAMS,
                "Missing or invalid 'balance' parameter"@,
            ) && unchanged(before, after),
            Some(b) => r matches Ok(v) && is_set_balance_reply(v, a, b) && after.transactions()
                == before.transactions() && after.accounts() == before.accounts().insert(
                a,
                AccountView {
                    address: a,
                    balance: b,
                    nonce: if before.accounts().contains_key(a) {
                        before.accounts()[a].nonce
                    } else {
                        0
                    },
                },
            ),
        },
    }
}

/// Sets the balance of an address.
pub fn set_balance(state: &mut StateStore, params: JsonValue) -> (r: Result<JsonValue, RpcErrorObj>)
    requires
        old(state).wf(),
    ensures
        final(state).wf(),
        set_balance_post(*old(state), params, r, *final(state)),
{
    let address = match required_str(&params, "address", "Missing 'address' parameter") {
        Ok(a) => a,
        Err(e) => {
            return Err(e);
        },
    };
    let balance = match required_u64(&params, "balance", "Missing or invalid 'balance' parameter") {
        Ok(b) => b,
        Err(e) => {
            return Err(e);
        },
    };
    state.set_balance(address, balance);
    let mut m: Vec<(String, JsonValue)> = Vec::new();
    m.push(str_member("address", address));
    m.push(owned_text_member("balance", decimal_text(balance)));
    m.push(bool_member("success", true));
    Ok(JsonValue::Object(m))
}

/// The first parameter of a transfer that is missing, by the message that
/// says so, if one is missing.
pub open spec fn transfer_params_fault(params: JsonValue) -> Option<Seq<char>> {
    if params.str_member("from"@) is None {
        Some("Missing 'from' parameter"@)
    } else if params.str_member("to"@) is None {
        Some("Missing 'to' parameter"@)
    } else if params.u64_member("amount"@) is None {
        Some("Missing or invalid 'amount' parameter"@)
    } else {
        None
    }
}

/// What a transfer owes, whatever id and time it is recorded with: without
/// its three parameters, or where the ledger refuses it, nothing changes and
/// the error says why; else the funds have moved, the transfer is recorded,
/// and the reply describes it.
pub open spec fn transfer_post(
    before: StateStore,
    params: JsonValue,
    r: Result<JsonValue, RpcErrorObj>,
    after: StateStore,
) -> bool {
    match transfer_params_fault(params) {
        Some(why) => is_failure(r, crate::rpc::INVALID_PARAMS, why) && unchanged(before, after),
        None => {
            let from = params.str_member("from"@)->Some_0;
            let to = params.str_member("to"@)->Some_0;
            let amount = params.u64_member("amount"@)->Some_0;
            match transfer_fault(before.accounts(), from, to, amount) {
                Some(why) => is_failure(r, LEDGER_ERROR, why) && unchanged(before, after),
                None => r matches Ok(v) && after.accounts() == after_transfer(
                    before.accounts(),
                    from,
                    to,
                    amount,
                ) && exists|tx: TransactionView| #[trigger]
                    is_transfer_reply(v, tx) && tx.from == from && tx.to == to && tx.amount
                        == amount && tx.status == TransactionStatus::Pending
                        && after.transactions() == before.transactions().insert(tx.txid, tx),
            }
        },
    }
}

/// Makes a transfer and records it under `txid` with the time `timestamp`.
pub fn transfer_with(
    state: &mut StateStore,
    params: JsonValue,
    txid: String,
    timestamp: u64,
) -> (r: Result<JsonValue, RpcErrorObj>)
    requires
        old(state).wf(),
    ensures
        final(state).wf(),
        transfer_post(*old(state), params, r, *final(state)),
        r matches Ok(v) ==> is_transfer_reply(
            v,
            TransactionView {
                txid: txid@,
                from: params.str_member("from"@)->Some_0,
                to: params.str_member("to"@)->Some_0,
                amount: params.u64_member("amount"@)->Some_0,
                timestamp,
                status: TransactionStatus::Pending,
            },
        ),
{
    let from = match required_str(&params, "from", "Missing 'from' parameter") {
        Ok(a) => a,
        Err(e) => {
            return Err(e);
        },
    };
    let to = match required_str(&params, "to", "Missing 'to' parameter") {
        Ok(a) => a,
        Err(e) => {
            return Err(e);
        },
    };
    let amount = match required_u64(&params, "amount", "Missing or invalid 'amount' parameter") {
        Ok(a) => a,
        Err(e) => {
            return Err(e);
        },
    };
    match state.transfer_with(from, to, amount, txid, timestamp) {
        Ok(tx) => {
            let mut m: Vec<(String, JsonValue)> = Vec::new();
            m.push(str_member("txid", tx.txid.as_str()));
            m.push(str_member("from", tx.from.as_str()));
            m.push(str_member("to", tx.to.as_str()));
            m.push(u64_member("amount", tx.amount));
            m.push(str_member("status", "pending"));
            let v = JsonValue::Object(m);
            assert(is_transfer_reply(v, tx@));
            Ok(v)
        },
        Err(e) => Err(ledger_failure(LEDGER_ERROR, e)),
    }
}

/// Makes a transfer and records it under a fresh random id with the time of
/// the system clock.
pub fn transfer(state: &mut StateStore, params: JsonValue) -> (r: Result<JsonValue, RpcErrorObj>)
    requires
        old(state).wf(),
    ensures
        final(state).wf(),
        transfer_post(*old(state), params, r, *final(state)),
{
    let txid = fresh_txid();
    let timestamp = unix_now();
    transfer_with(state, params, txid, timestamp)
}

/// What `get_transaction` owes: the transaction recorded under the string
/// parameter `txid`.
pub open spec fn get_transaction_post(
    state: StateStore,
    params: JsonValue,
    r: Result<JsonValue, RpcErrorObj>,
) -> bool {
    match params.str_member("txid"@) {
        None => is_failure(r, crate::rpc::INVALID_PARAMS, "Missing 'txid' parameter"@),
        Some(id) => if state.transactions().contains_key(id) {
            r matches Ok(v) && is_transaction_value(v, state.transactions()[id])
        } else {
            is_failure(r, NOT_FOUND, "Transaction not found"@)
        },
    }
}

/// Describes the transaction with a given id.
pub fn get_transaction(state: &StateStore, params: JsonValue) -> (r: Result<JsonValue, RpcErrorObj>)
    requires
        state.wf(),
    ensures
        get_transaction_post(*state, params, r),
{
    let txid = match required_str(&params, "txid", "Missing 'txid' parameter") {
        Ok(a) => a,
        Err(e) => {
            return Err(e);
        },
    };
    match state.get_transaction(txid) {
        Some(tx) => Ok(transaction_value(&tx)),
        None => Err(ledger_failure(NOT_FOUND, "Transaction not found".to_owned())),
    }
}

/// What `confirm_transaction` owes: the transaction recorded under the
/// string parameter `txid` becomes confirmed.
pub open spec fn confirm_transaction_post(
    before: StateStore,
    params: JsonValue,
    r: Result<JsonValue, RpcErrorObj>,
    after: StateStore,
) -> bool {
    match params.str_member("txid"@) {
        None => is_failure(r, crate::rpc::INVALID_PARAMS, "Missing 'txid' parameter"@)
            && unchanged(before, after),
        Some(id) => if before.transactions().contains_key(id) {
            r matches Ok(v) && is_confirm_reply(v, id) && after.accounts() == before.accounts()
                && after.transactions() == before.transactions().insert(
                id,
                TransactionView {
                    status: TransactionStatus::Confirmed,
                    ..before.transactions()[id]
                },
            )
        } else {
            is_failure(r, NOT_FOUND, "Transaction not found"@) && unchanged(before, after)
        },
    }
}

/// Confirms the transaction with a given id.
pub fn confirm_transaction(state: &mut StateStore, params: JsonValue) -> (r: Result<
    JsonValue,
    RpcErrorObj,
>)
    requires
        old(state).wf(),
    ensures
        final(state).wf(),
        confirm_transaction_post(*old(state), params, r, *final(state)),
{
    let txid = match required_str(&params, "txid", "Missing 'txid' parameter") {
        Ok(a) => a,
        Err(e) => {
            return Err(e);
        },
    };
    match state.confirm_transaction(txid) {
        Ok(_) => {
            let mut m: Vec<(String, JsonValue)> = Vec::new();
            m.push(str_member("txid", txid));
            m.push(str_member("status", "confirmed"));
            m.push(bool_member("success", true));
            Ok(JsonValue::Object(m))
        },
        Err(e) => Err(ledger_failure(NOT_FOUND, e)),
    }
}

/// What `get_transactions` owes: the transactions that the string parameter
/// `address` sent or received, in the ledger's order.
pub open spec fn get_transactions_post(
    state: StateStore,
    params: JsonValue,
    r: Result<JsonValue, RpcErrorObj>,
) -> bool {
    match params.str_member("address"@) {
        None => is_failure(r, crate::rpc::INVALID_PARAMS, "Missing 'address' parameter"@),
        Some(a) => r matches Ok(v) && is_history_reply(
            v,
            a,
            state.transaction_list().filter(|t: TransactionView| touches(t, a)),
        ),
    }
}

/// Lists the transactions of an address.
pub fn get_transactions(state: &StateStore, params: JsonValue) -> (r: Result<JsonValue, RpcErrorObj>)
    requires
        state.wf(),
    ensures
        get_transactions_post(*state, params, r),
{
    let address = match required_str(&params, "address", "Missing 'address' parameter") {
        Ok(a) => a,
        Err(e) => {
            return Err(e);
        },
    };
    let txs = state.get_transactions_for_address(address);
    let ghost views = txs@.map_values(|t: Transaction| t@);
    let mut items: Vec<JsonValue> = Vec::new();
    let mut i: usize = 0;
    while i < txs.len()
        invariant
            i <= txs@.len(),
            items@.len() == i,
            forall|j: int| 0 <= j < i ==> is_transaction_value(#[trigger] items@[j], txs@[j]@),
        decreases txs@.len() - i,
    {
        items.push(transaction_value(&txs[i]));
        i = i + 1;
    }
    let list = JsonValue::Array(items);
    assert(is_transaction_array(list, views));
    let mut m: Vec<(String, JsonValue)> = Vec::new();
    m.push(str_member("address", address));
    m.push(("transactions".to_owned(), list));
    Ok(JsonValue::Object(m))
}

/// What `list_accounts` owes: every account, in the ledger's order, and
/// their number.
pub open spec fn list_accounts_post(state: StateStore, r: Result<JsonValue, RpcErrorObj>) -> bool {
    r matches Ok(v) && is_accounts_reply(v, state.account_list())
}

/// Lists all accounts.
pub fn list_accounts(state: &StateStore, params: JsonValue) -> (r: Result<JsonValue, RpcErrorObj>)
    requires
        state.wf(),
    ensures
        list_accounts_post(*state, r),
{
    let accounts = state.get_all_accounts();
    let ghost views = accounts@.map_values(|a: Account| a@);
    let mut items: Vec<JsonValue> = Vec::new();
    let mut i: usize = 0;
    while i < accounts.len()
        invariant
            i <= accounts@.len(),
            items@.len() == i,
            forall|j: int| 0 <= j < i ==> is_account_value(#[trigger] items@[j], accounts@[j]@),
        decreases accounts@.len() - i,
    {
        items.push(account_value(&accounts[i]));
        i = i + 1;
    }
    let list = JsonValue::Array(items);
    assert(is_account_array(list, views));
    let count: u64 = accounts.len() as u64;
    let mut m: Vec<(String, JsonValue)> = Vec::new();
    m.push(("accounts".to_owned(), list));
    m.push(u64_member("count", count));
    Ok(JsonValue::Object(m))
}

/// The methods of the set that works on the ledger.
#[derive(Debug, Clone, Copy, PartialEq, Eq)]
pub enum StatefulMethod {
    Ping,
    GetBalance,
    SetBalance,
    Transfer,
    GetTransaction,
    ConfirmTransaction,
    GetTransactions,
    ListAccounts,
}

impl StatefulMethod {
    /// `r` is an outcome of this method on `params`, and `after` the ledger
    /// that it leaves.
    pub open spec fn outcome(
        self,
        before: StateStore,
        params: JsonValue,
        r: Result<JsonValue, RpcErrorObj>,
        after: StateStore,
    ) -> bool {
        match self {
            StatefulMethod::Ping => unchanged(before, after) && (r matches Ok(v) && is_str(
                v,
                "pong"@,
            )),
            StatefulMethod::GetBalance => unchanged(before, after) && get_balance_post(
                before,
                params,
                r,
            ),
            StatefulMethod::SetBalance => set_balance_post(before, params, r, after),
            StatefulMethod::Transfer => transfer_post(before, params, r, after),
            StatefulMethod::GetTransaction => unchanged(before, after) && get_transaction_post(
                before,
                params,
                r,
            ),
            StatefulMethod::ConfirmTransaction => confirm_transaction_post(
                before,
                params,
                r,
                after,
            ),
            StatefulMethod::GetTransactions => unchanged(before, after) && get_transactions_post(
                before,
                params,
                r,
            ),
            StatefulMethod::ListAccounts => unchanged(before, after) && list_accounts_post(
                before,
                r,
            ),
        }
    }

    /// Runs the method on the ledger.
    pub fn call(self, state: &mut StateStore, params: JsonValue) -> (r: Result<
        JsonValue,
        RpcErrorObj,
    >)
        requires
            old(state).wf(),
        ensures
            final(state).wf(),
            self.outcome(*old(state), params, r, *final(state)),
    {
        match self {
            StatefulMethod::Ping => crate::handlers::ping(params),
            StatefulMethod::GetBalance => get_balance(state, params),
            StatefulMethod::SetBalance => set_balance(state, params),
            StatefulMethod::Transfer => transfer(state, params),
            StatefulMethod::GetTransaction => get_transaction(state, params),
            StatefulMethod::ConfirmTransaction => confirm_transaction(state, params),
            StatefulMethod::GetTransactions => get_transactions(state, params),
            StatefulMethod::ListAccounts => list_accounts(state, params),
        }
    }
}

/// The registry after the ledger's methods are bound, each name to the
/// handler given for it.
pub open spec fn stateful_table<H>(
    before: Map<Seq<char>, H>,
    ping: H,
    get_balance: H,
    set_balance: H,
    transfer: H,
    get_transaction: H,
    confirm_transaction: H,
    get_transactions: H,
    list_accounts: H,
) -> Map<Seq<char>, H> {
    before.insert("ping"@, ping).insert("get_balance"@, get_balance).insert(
        "set_balance"@,
        set_balance,
    ).insert("transfer"@, transfer).insert("get_transaction"@, get_transaction).insert(
        "confirm_transaction"@,
        confirm_transaction,
    ).insert("get_transactions"@, get_transactions).insert("list_accounts"@, list_accounts)
}

/// The registry after the ledger's methods are bound to their names.
pub open spec fn with_stateful_handlers(m: Map<Seq<char>, StatefulMethod>) -> Map<
    Seq<char>,
    StatefulMethod,
> {
    stateful_table(
        m,
        StatefulMethod::Ping,
        StatefulMethod::GetBalance,
        StatefulMethod::SetBalance,
        StatefulMethod::Transfer,
        StatefulMethod::GetTransaction,
        StatefulMethod::ConfirmTransaction,
        StatefulMethod::GetTransactions,
        StatefulMethod::ListAccounts,
    )
}

/// `h` is what `make` gives for the method `m`.
pub open spec fn made_for<H, F: Fn(StatefulMethod) -> H>(make: F, m: StatefulMethod, h: H) -> bool {
    call_ensures(make, (m,), h)
}

/// Binds the ledger's methods on a server of any handler type. `make` gives
/// the handler that stands for each method; each name is bound to what it
/// gives for the method of that name.
pub fn bind_stateful_handlers<H, F: Fn(StatefulMethod) -> H>(server: &mut RpcServer<H>, make: F)
    requires
        old(server).wf(),
        forall|m: StatefulMethod| call_requires(make, (m,)),
    ensures
        final(server).wf(),
        exists|h0: H, h1: H, h2: H, h3: H, h4: H, h5: H, h6: H, h7: H|
            made_for(make, StatefulMethod::Ping, h0) && made_for(
                make,
                StatefulMethod::GetBalance,
                h1,
            ) && made_for(make, StatefulMethod::SetBalance, h2) && made_for(
                make,
                StatefulMethod::Transfer,
                h3,
            ) && made_for(make, StatefulMethod::GetTransaction, h4) && made_for(
                make,
                StatefulMethod::ConfirmTransaction,
                h5,
            ) && made_for(make, StatefulMethod::GetTransactions, h6) && made_for(
                make,
                StatefulMethod::ListAccounts,
                h7,
            ) && final(server)@ == #[trigger] stateful_table(
                old(server)@,
                h0,
                h1,
                h2,
                h3,
                h4,
                h5,
                h6,
                h7,
            ),
{
    let h0 = make(StatefulMethod::Ping);
    let h1 = make(StatefulMethod::GetBalance);
    let h2 = make(StatefulMethod::SetBalance);
    let h3 = make(StatefulMethod::Transfer);
    let h4 = make(StatefulMethod::GetTransaction);
    let h5 = make(StatefulMethod::ConfirmTransaction);
    let h6 = make(StatefulMethod::GetTransactions);
    let h7 = make(StatefulMethod::ListAccounts);
    let ghost made = (h0, h1, h2, h3, h4, h5, h6, h7);
    server.register("ping", h0);
    server.register("get_balance", h1);
    server.register("set_balance", h2);
    server.register("transfer", h3);
    server.register("get_transaction", h4);
    server.register("confirm_transaction", h5);
    server.register("get_transactions", h6);
    server.register("list_accounts", h7);
    assert(server@ == stateful_table(
        old(server)@,
        made.0,
        made.1,
        made.2,
        made.3,
        made.4,
        made.5,
        made.6,
        made.7,
    ));
}

/// Binds the ledger's methods to their names.
pub fn register_stateful_handlers(server: &mut RpcServer<StatefulMethod>)
    requires
        old(server).wf(),
    ensures
        final(server).wf(),
        final(server)@ == with_stateful_handlers(old(server)@),
{
    server.register("ping", StatefulMethod::Ping);
    server.register("get_balance", StatefulMethod::GetBalance);
    server.register("set_balance", StatefulMethod::SetBalance);
    server.register("transfer", StatefulMethod::Transfer);
    server.register("get_transaction", StatefulMethod::GetTransaction);
    server.register("confirm_transaction", StatefulMethod::ConfirmTransaction);
    server.register("get_transactions", StatefulMethod::GetTransactions);
    server.register("list_accounts", StatefulMethod::ListAccounts);
}

/// `resp` answers `req` on a server of the ledger's methods, and `after` is
/// the ledger that the call leaves. A method that is not bound leaves the
/// ledger as it was.
pub open spec fn stateful_answers(
    server: RpcServer<StatefulMethod>,
    before: StateStore,
    req: RpcRequest,
    resp: RpcResponse,
    after: StateStore,
) -> bool {
    if server@.contains_key(req.method@) {
        exists|outcome: Result<JsonValue, RpcErrorObj>|
            server@[req.method@].outcome(before, req.params, outcome, after)
                && #[trigger] resp.is_outcome(req.id, outcome)
    } else {
        unchanged(before, after) && resp.is_error(
            req.id,
            METHOD_NOT_FOUND,
            "Method not found: "@ + req.method@,
        )
    }
}

/// Dispatches one request on a server of the ledger's methods.
pub fn handle_stateful_request(
    server: &RpcServer<StatefulMethod>,
    state: &mut StateStore,
    req: RpcRequest,
) -> (resp: RpcResponse)
    requires
        server.wf(),
        old(state).wf(),
    ensures
        final(state).wf(),
        stateful_answers(*server, *old(state), req, resp, *final(state)),
        resp.wf(),
        resp.id == req.id,
{
    let RpcRequest { jsonrpc: _, method, params, id } = req;
    match server.resolve(method.as_str()) {
        Some(m) => {
            let outcome = m.call(state, params);
            RpcResponse::from_outcome(id, outcome)
        },
        None => RpcResponse::method_not_found(id, method.as_str()),
    }
}

} // verus!
