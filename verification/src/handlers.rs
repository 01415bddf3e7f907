//! The handlers that come with the engine: the default set, and the set that
//! works on the ledger.
use vstd::prelude::*;
use crate::json::{JsonNumber, JsonValue};
use crate::rpc::{RpcErrorObj, RpcRequest, RpcResponse, RpcServer, INVALID_PARAMS, METHOD_NOT_FOUND};
use crate::state::fresh_txid;

verus! {

/// The decimal digit for a number below ten.
pub open spec fn digit(d: nat) -> char {
    if d == 0 {
        '0'
    } else if d == 1 {
        '1'
    } else if d == 2 {
        '2'
    } else if d == 3 {
        '3'
    } else if d == 4 {
        '4'
    } else if d == 5 {
        '5'
    } else if d == 6 {
        '6'
    } else if d == 7 {
        '7'
    } else if d == 8 {
        '8'
    } else {
        '9'
    }
}

/// The decimal text of a number, without leading zeros.
pub open spec fn decimal(n: nat) -> Seq<char>
    decreases n,
{
    if n < 10 {
        seq![digit(n)]
    } else {
        decimal(n / 10).push(digit(n % 10))
    }
}

/// `u64`'s `to_string`. The contract claims that the text is the number in
/// decimal digits, without sign or leading zeros.
#[verifier::external_body]
pub(crate) fn decimal_text(n: u64) -> (r: String)
    ensures
        r@ == decimal(n as nat),
{
    n.to_string()
}

/// `v` is the string `s`.
pub open spec fn is_str(v: JsonValue, s: Seq<char>) -> bool {
    v matches JsonValue::Str(t) && t@ == s
}

/// `e` is the member `key` with the string `s` as its value.
pub open spec fn is_str_member(e: (String, JsonValue), key: Seq<char>, s: Seq<char>) -> bool {
    e.0@ == key && is_str(e.1, s)
}

/// `e` is the member `key` with the number `n` as its value.
pub open spec fn is_u64_member(e: (String, JsonValue), key: Seq<char>, n: u64) -> bool {
    e.0@ == key && e.1 == JsonValue::Number(JsonNumber::Unsigned(n))
}

/// `e` is the member `key` with the truth value `b` as its value.
pub open spec fn is_bool_member(e: (String, JsonValue), key: Seq<char>, b: bool) -> bool {
    e.0@ == key && e.1 == JsonValue::Bool(b)
}

/// `r` is the error with this code and message, and no data.
pub open spec fn is_failure<T>(r: Result<T, RpcErrorObj>, code: i64, message: Seq<char>) -> bool {
    r matches Err(e) && e.code == code && e.message@ == message && e.data is None
}

pub(crate) fn str_member(key: &str, value: &str) -> (e: (String, JsonValue))
    ensures
        is_str_member(e, key@, value@),
{
    (key.to_owned(), JsonValue::Str(value.to_owned()))
}

pub(crate) fn u64_member(key: &str, n: u64) -> (e: (String, JsonValue))
    ensures
        is_u64_member(e, key@, n),
{
    (key.to_owned(), JsonValue::Number(JsonNumber::Unsigned(n)))
}

pub(crate) fn bool_member(key: &str, b: bool) -> (e: (String, JsonValue))
    ensures
        is_bool_member(e, key@, b),
{
    (key.to_owned(), JsonValue::Bool(b))
}

fn failure(code: i64, message: &str) -> (e: RpcErrorObj)
    ensures
        e.code == code,
        e.message@ == message@,
        e.data is None,
{
    RpcErrorObj { code, message: message.to_owned(), data: None }
}

/// Turns a missing value into an error for the caller of a method.
pub trait OptionExt<T>: Sized {
    /// The value that may be missing.
    spec fn held(self) -> Option<T>;

    /// The value, or the error `INVALID_PARAMS` with the message
    /// "Invalid parameters".
    fn ok_or_invalid_params(self) -> (r: Result<T, RpcErrorObj>)
        ensures
            match self.held() {
                Some(v) => r == Ok::<T, RpcErrorObj>(v),
                None => is_failure(r, INVALID_PARAMS, "Invalid parameters"@),
            },
    ;

    /// The value, or the error with the given code and message.
    fn ok_or_rpc_error(self, code: i64, msg: String) -> (r: Result<T, RpcErrorObj>)
        ensures
            match self.held() {
                Some(v) => r == Ok::<T, RpcErrorObj>(v),
                None => r == Err::<T, RpcErrorObj>(RpcErrorObj { code, message: msg, data: None }),
            },
    ;
}

impl<T> OptionExt<T> for Option<T> {
    open spec fn held(self) -> Option<T> {
        self
    }

    fn ok_or_invalid_params(self) -> (r: Result<T, RpcErrorObj>) {
        match self {
            Some(v) => Ok(v),
            None => Err(failure(INVALID_PARAMS, "Invalid parameters")),
        }
    }

    fn ok_or_rpc_error(self, code: i64, msg: String) -> (r: Result<T, RpcErrorObj>) {
        match self {
            Some(v) => Ok(v),
            None => Err(RpcErrorObj { code, message: msg, data: None }),
        }
    }
}

/// The string parameter `key`, or the error `INVALID_PARAMS` with `message`
/// where the parameters have no string member of that name.
pub fn required_str<'a>(params: &'a JsonValue, key: &str, message: &str) -> (r: Result<
    &'a str,
    RpcErrorObj,
>)
    ensures
        match params.str_member(key@) {
            Some(s) => r matches Ok(t) && t@ == s,
            None => is_failure(r, INVALID_PARAMS, message@),
        },
{
    match params.get(key) {
        Some(v) => match v.as_str() {
            Some(s) => Ok(s),
            None => Err(failure(INVALID_PARAMS, message)),
        },
        None => Err(failure(INVALID_PARAMS, message)),
    }
}

/// The non-negative integer parameter `key`, or the error `INVALID_PARAMS`
/// with `message` where the parameters have no such member.
pub fn required_u64(params: &JsonValue, key: &str, message: &str) -> (r: Result<u64, RpcErrorObj>)
    ensures
        match params.u64_member(key@) {
            Some(n) => r == Ok::<u64, RpcErrorObj>(n),
            None => is_failure(r, INVALID_PARAMS, message@),
        },
{
    match params.get(key) {
        Some(v) => match v.as_u64() {
            Some(n) => Ok(n),
            None => Err(failure(INVALID_PARAMS, message)),
        },
        None => Err(failure(INVALID_PARAMS, message)),
    }
}

/// The balance that the default `get_balance` makes up for an address: its
/// length in bytes times 12345, cut to 64 bits.
pub open spec fn made_up_balance(address: Seq<char>) -> u64 {
    (((vstd::utf8::encode_utf8(address).len() as usize) * 12345) % 0x1_0000_0000_0000_0000) as u64
}

fn scaled(len: usize) -> (r: u64)
    ensures
        r == ((len * 12345) % 0x1_0000_0000_0000_0000) as u64,
{
    let wide: u128 = (len as u128 * 12345) % 0x1_0000_0000_0000_0000;
    wide as u64
}

fn make_up_balance(address: &str) -> (r: u64)
    ensures
        r == made_up_balance(address@),
{
    scaled(address.len())
}

/// The default `ping`: always "pong".
pub fn ping(params: JsonValue) -> (r: Result<JsonValue, RpcErrorObj>)
    ensures
        r matches Ok(v) && is_str(v, "pong"@),
{
    Ok(JsonValue::Str("pong".to_owned()))
}

/// The default `get_balance`: a made-up balance for the string parameter
/// `address`, as decimal text. An address that is missing or empty is an
/// error.
pub fn get_balance(params: JsonValue) -> (r: Result<JsonValue, RpcErrorObj>)
    ensures
        match params.str_member("address"@) {
            Some(a) if a.len() > 0 => r matches Ok(v) && is_str(v, decimal(made_up_balance(a) as nat)),
            _ => is_failure(r, INVALID_PARAMS, "Missing 'address' param"@),
        },
{
    let address: &str = match required_str(&params, "address", "Missing 'address' param") {
        Ok(a) => a,
        Err(e) => {
            return Err(e);
        },
    };
    if address.is_empty() {
        return Err(failure(INVALID_PARAMS, "Missing 'address' param"));
    }
    Ok(JsonValue::Str(decimal_text(make_up_balance(address))))
}

/// The default `send_tx` with the id that it answers: the id as a string,
/// where the string parameter `raw_tx` is there and not empty.
pub fn send_tx_with(params: JsonValue, txid: String) -> (r: Result<JsonValue, RpcErrorObj>)
    ensures
        match params.str_member("raw_tx"@) {
            Some(raw) if raw.len() > 0 => r == Ok::<JsonValue, RpcErrorObj>(JsonValue::Str(txid)),
            _ => is_failure(r, INVALID_PARAMS, "Missing 'raw_tx' param"@),
        },
{
    let raw: &str = match required_str(&params, "raw_tx", "Missing 'raw_tx' param") {
        Ok(a) => a,
        Err(e) => {
            return Err(e);
        },
    };
    if raw.is_empty() {
        return Err(failure(INVALID_PARAMS, "Missing 'raw_tx' param"));
    }
    Ok(JsonValue::Str(txid))
}

/// The default `send_tx`: answers a fresh random transaction id.
pub fn send_tx(params: JsonValue) -> (r: Result<JsonValue, RpcErrorObj>)
    ensures
        match params.str_member("raw_tx"@) {
            Some(raw) if raw.len() > 0 => r matches Ok(v) && v is Str,
            _ => is_failure(r, INVALID_PARAMS, "Missing 'raw_tx' param"@),
        },
{
    send_tx_with(params, fresh_txid())
}

/// The methods of the default set.
#[derive(Debug, Clone, Copy, PartialEq, Eq)]
pub enum DefaultMethod {
    Ping,
    GetBalance,
    SendTx,
}

impl DefaultMethod {
    /// `r` is an outcome of this method on `params`.
    pub open spec fn outcome(self, params: JsonValue, r: Result<JsonValue, RpcErrorObj>) -> bool {
        match self {
            DefaultMethod::Ping => r matches Ok(v) && is_str(v, "pong"@),
            DefaultMethod::GetBalance => match params.str_member("address"@) {
                Some(a) if a.len() > 0 => r matches Ok(v) && is_str(
                    v,
                    decimal(made_up_balance(a) as nat),
                ),
                _ => is_failure(r, INVALID_PARAMS, "Missing 'address' param"@),
            },
            DefaultMethod::SendTx => match params.str_member("raw_tx"@) {
                Some(raw) if raw.len() > 0 => r matches Ok(v) && v is Str,
                _ => is_failure(r, INVALID_PARAMS, "Missing 'raw_tx' param"@),
            },
        }
    }

    /// Runs the method.
    pub fn call(self, params: JsonValue) -> (r: Result<JsonValue, RpcErrorObj>)
        ensures
            self.outcome(params, r),
    {
        match self {
            DefaultMethod::Ping => ping(params),
            DefaultMethod::GetBalance => get_balance(params),
            DefaultMethod::SendTx => send_tx(params),
        }
    }
}

/// The registry after the default set is bound: `ping`, `get_balance` and
/// `send_tx`, each to the handler given for it.
pub open spec fn default_table<H>(
    before: Map<Seq<char>, H>,
    ping: H,
    get_balance: H,
    send_tx: H,
) -> Map<Seq<char>, H> {
    before.insert("ping"@, ping).insert("get_balance"@, get_balance).insert("send_tx"@, send_tx)
}

/// Binds the default set on a server of any handler type. `make` gives the
/// handler that stands for each method; the names are bound to what it
/// gives for `Ping`, `GetBalance` and `SendTx`.
pub fn bind_default_handlers<H, F: Fn(DefaultMethod) -> H>(server: &mut RpcServer<H>, make: F)
    requires
        old(server).wf(),
        forall|m: DefaultMethod| call_requires(make, (m,)),
    ensures
        final(server).wf(),
        exists|ping: H, get_balance: H, send_tx: H|
            call_ensures(make, (DefaultMethod::Ping,), ping) && call_ensures(
                make,
                (DefaultMethod::GetBalance,),
                get_balance,
            ) && call_ensures(make, (DefaultMethod::SendTx,), send_tx) && final(server)@
                == #[trigger] default_table(old(server)@, ping, get_balance, send_tx),
{
    let ping = make(DefaultMethod::Ping);
    let get_balance = make(DefaultMethod::GetBalance);
    let send_tx = make(DefaultMethod::SendTx);
    let ghost made = (ping, get_balance, send_tx);
    server.register("ping", ping);
    server.register("get_balance", get_balance);
    server.register("send_tx", send_tx);
    assert(server@ == default_table(old(server)@, made.0, made.1, made.2));
}

/// Binds the default set: `ping`, `get_balance` and `send_tx`.
pub fn register_default_handlers(server: &mut RpcServer<DefaultMethod>)
    requires
        old(server).wf(),
    ensures
        final(server).wf(),
        final(server)@ == default_table(
            old(server)@,
            DefaultMethod::Ping,
            DefaultMethod::GetBalance,
            DefaultMethod::SendTx,
        ),
{
    server.register("ping", DefaultMethod::Ping);
    server.register("get_balance", DefaultMethod::GetBalance);
    server.register("send_tx", DefaultMethod::SendTx);
}

/// `resp` answers `req` on a server of the default set.
pub open spec fn default_answers(
    server: RpcServer<DefaultMethod>,
    req: RpcRequest,
    resp: RpcResponse,
) -> bool {
    if server@.contains_key(req.method@) {
        exists|outcome: Result<JsonValue, RpcErrorObj>|
            server@[req.method@].outcome(req.params, outcome) && #[trigger] resp.is_outcome(
                req.id,
                outcome,
            )
    } else {
        resp.is_error(req.id, METHOD_NOT_FOUND, "Method not found: "@ + req.method@)
    }
}

/// Dispatches one request on a server of the default set.
pub fn handle_default_request(server: &RpcServer<DefaultMethod>, req: RpcRequest) -> (resp:
    RpcResponse)
    requires
        server.wf(),
    ensures
        default_answers(*server, req, resp),
        resp.wf(),
        resp.id == req.id,
{
    let RpcRequest { jsonrpc: _, method, params, id } = req;
    match server.resolve(method.as_str()) {
        Some(m) => {
            let outcome = m.call(params);
            RpcResponse::from_outcome(id, outcome)
        },
        None => RpcResponse::method_not_found(id, method.as_str()),
    }
}

} // verus!
