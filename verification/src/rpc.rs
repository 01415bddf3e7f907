//! The message model, the handler registry and the dispatcher.
use vstd::prelude::*;
use crate::json::{json_error_text, json_text_value, member, read_json_text, same_text, JsonValue};
use crate::strmap::StringMap;

verus! {

/// The request could not be parsed as JSON.
pub const PARSE_ERROR: i64 = -32700;

/// The request is not a valid request.
pub const INVALID_REQUEST: i64 = -32600;

/// No handler is registered under the method's name. The code is the one
/// that `INVALID_PARAMS` has: JSON-RPC 2.0 reserves -32601 for an unknown
/// method, but clients of this engine have always been sent -32602, and the
/// engine keeps to that.
pub const METHOD_NOT_FOUND: i64 = -32602;

/// The parameters are missing or of the wrong type.
pub const INVALID_PARAMS: i64 = -32602;

/// One call: a method's name, its parameters, and the id that the response
/// echoes.
#[derive(Debug, PartialEq)]
pub struct RpcRequest {
    pub jsonrpc: String,
    pub method: String,
    pub params: JsonValue,
    pub id: JsonValue,
}

/// What went wrong with a call.
#[derive(Debug, PartialEq)]
pub struct RpcErrorObj {
    pub code: i64,
    pub message: String,
    pub data: Option<JsonValue>,
}

/// The answer to one call: a result or an error, never both.
#[derive(Debug, PartialEq)]
pub struct RpcResponse {
    pub jsonrpc: String,
    pub result: Option<JsonValue>,
    pub error: Option<RpcErrorObj>,
    pub id: JsonValue,
}

impl RpcResponse {
    /// Exactly one of `result` and `error` is present.
    pub open spec fn wf(&self) -> bool {
        (self.result is Some) != (self.error is Some)
    }

    /// This is the successful response to the call `id`, carrying `value`.
    pub open spec fn is_result(&self, id: JsonValue, value: JsonValue) -> bool {
        &&& self.jsonrpc@ == "2.0"@
        &&& self.result == Some(value)
        &&& self.error is None
        &&& self.id == id
    }

    /// This is the error response to the call `id`, with this code and
    /// message and no further data.
    pub open spec fn is_error(&self, id: JsonValue, code: i64, message: Seq<char>) -> bool {
        &&& self.jsonrpc@ == "2.0"@
        &&& self.result is None
        &&& self.error is Some
        &&& self.error->Some_0.code == code
        &&& self.error->Some_0.message@ == message
        &&& self.error->Some_0.data is None
        &&& self.id == id
    }

    /// This is the error response to the call `id` that carries the error
    /// object `e` as it is: its code, its message and its data.
    pub open spec fn carries_error(&self, id: JsonValue, e: RpcErrorObj) -> bool {
        &&& self.jsonrpc@ == "2.0"@
        &&& self.result is None
        &&& self.error == Some(e)
        &&& self.id == id
    }

    /// This is the response that the call `id` gets for a handler's
    /// `outcome`: the handler's value as the result, or the handler's error
    /// object as the error.
    pub open spec fn is_outcome(
        &self,
        id: JsonValue,
        outcome: Result<JsonValue, RpcErrorObj>,
    ) -> bool {
        match outcome {
            Ok(value) => self.is_result(id, value),
            Err(e) => self.carries_error(id, e),
        }
    }

    /// The successful response to the call `id`.
    pub fn with_result(id: JsonValue, res: JsonValue) -> (r: Self)
        ensures
            r.is_result(id, res),
            r.wf(),
    {
        RpcResponse { jsonrpc: "2.0".to_owned(), result: Some(res), error: None, id }
    }

    /// The error response to the call `id`.
    pub fn with_error(id: JsonValue, code: i64, message: String) -> (r: Self)
        ensures
            r.is_error(id, code, message@),
            r.error == Some(RpcErrorObj { code, message, data: None }),
            r.wf(),
    {
        RpcResponse {
            jsonrpc: "2.0".to_owned(),
            result: None,
            error: Some(RpcErrorObj { code, message, data: None }),
            id,
        }
    }

    /// The error response to the call `id` that carries the error object `e`
    /// as it is.
    pub fn from_error(id: JsonValue, e: RpcErrorObj) -> (r: Self)
        ensures
            r.carries_error(id, e),
            r.wf(),
    {
        RpcResponse { jsonrpc: "2.0".to_owned(), result: None, error: Some(e), id }
    }

    /// The response to the call `id` whose handler ended with `outcome`.
    pub fn from_outcome(id: JsonValue, outcome: Result<JsonValue, RpcErrorObj>) -> (r: Self)
        ensures
            r.is_outcome(id, outcome),
            r.wf(),
    {
        match outcome {
            Ok(value) => RpcResponse::with_result(id, value),
            Err(e) => RpcResponse::from_error(id, e),
        }
    }

    /// The response to a call of a method that has no handler.
    pub fn method_not_found(id: JsonValue, method: &str) -> (r: Self)
        ensures
            r.is_error(id, METHOD_NOT_FOUND, "Method not found: "@ + method@),
            r.wf(),
    {
        let mut message = "Method not found: ".to_owned();
        message.append(method);
        RpcResponse::with_error(id, METHOD_NOT_FOUND, message)
    }
}

/// A member that every request must have.
#[derive(Debug, Clone, Copy, PartialEq, Eq)]
pub enum RequestField {
    Jsonrpc,
    Method,
    Id,
}

/// Why a text or a value is not a request.
#[derive(Debug, PartialEq)]
pub enum RequestError {
    /// The text is not JSON. The string is the JSON codec's message.
    Syntax(String),
    /// The value is not an object.
    NotAnObject,
    /// The object lacks a member that a request must have.
    MissingField(RequestField),
    /// The member is there, but it is not a string.
    NotAString(RequestField),
}

/// The four member names of a request differ from one another.
pub proof fn lemma_field_names()
    ensures
        "jsonrpc"@ != "method"@,
        "jsonrpc"@ != "params"@,
        "jsonrpc"@ != "id"@,
        "method"@ != "params"@,
        "method"@ != "id"@,
        "params"@ != "id"@,
{
    reveal_strlit("jsonrpc");
    reveal_strlit("method");
    reveal_strlit("params");
    reveal_strlit("id");
    assert("jsonrpc"@.len() == 7);
    assert("method"@.len() == 6);
    assert("params"@.len() == 6);
    assert("id"@.len() == 2);
    assert("method"@[0] == 'm');
    assert("params"@[0] == 'p');
}

/// The first rule of a request that `v` breaks, if it breaks one. A request
/// is an object whose members `jsonrpc` and `method` are strings and which
/// has a member `id`; the rules are tried in that order.
pub open spec fn request_fault(v: JsonValue) -> Option<RequestError> {
    match v {
        JsonValue::Object(fields) => match member(fields@, "jsonrpc"@) {
            None => Some(RequestError::MissingField(RequestField::Jsonrpc)),
            Some(JsonValue::Str(_)) => match member(fields@, "method"@) {
                None => Some(RequestError::MissingField(RequestField::Method)),
                Some(JsonValue::Str(_)) => match member(fields@, "id"@) {
                    None => Some(RequestError::MissingField(RequestField::Id)),
                    Some(_) => None,
                },
                Some(_) => Some(RequestError::NotAString(RequestField::Method)),
            },
            Some(_) => Some(RequestError::NotAString(RequestField::Jsonrpc)),
        },
        _ => Some(RequestError::NotAnObject),
    }
}

/// `req` is the request that the object `v` stands for: its members
/// `jsonrpc`, `method` and `id` as they are, and its member `params`, or the
/// empty object where it has none.
pub open spec fn is_request_of(v: JsonValue, req: RpcRequest) -> bool {
    &&& v is Object
    &&& member(v->Object_0@, "jsonrpc"@) == Some(JsonValue::Str(req.jsonrpc))
    &&& member(v->Object_0@, "method"@) == Some(JsonValue::Str(req.method))
    &&& member(v->Object_0@, "id"@) == Some(req.id)
    &&& match member(v->Object_0@, "params"@) {
        Some(p) => req.params == p,
        None => req.params matches JsonValue::Object(m) && m@.len() == 0,
    }
}

/// The slot of the member named `key` while an object is taken apart from
/// its end: once filled it holds the member's value; while it is empty the
/// members not yet seen decide.
pub open spec fn slot_tracks(
    slot: Option<JsonValue>,
    all: Seq<(String, JsonValue)>,
    rest: Seq<(String, JsonValue)>,
    key: Seq<char>,
) -> bool {
    match slot {
        Some(x) => member(all, key) == Some(x),
        None => member(all, key) == member(rest, key),
    }
}

impl RpcRequest {
    /// Reads a request from a JSON value.
    pub fn from_value(v: JsonValue) -> (r: Result<RpcRequest, RequestError>)
        ensures
            match r {
                Ok(req) => request_fault(v) is None && is_request_of(v, req),
                Err(e) => request_fault(v) == Some(e),
            },
    {
        let mut fields = match v {
            JsonValue::Object(f) => f,
            _ => {
                return Err(RequestError::NotAnObject);
            },
        };
        let ghost all = fields@;
        let mut jsonrpc: Option<JsonValue> = None;
        let mut method: Option<JsonValue> = None;
        let mut params: Option<JsonValue> = None;
        let mut id: Option<JsonValue> = None;
        while fields.len() > 0
            invariant
                slot_tracks(jsonrpc, all, fields@, "jsonrpc"@),
                slot_tracks(method, all, fields@, "method"@),
                slot_tracks(params, all, fields@, "params"@),
                slot_tracks(id, all, fields@, "id"@),
            decreases fields@.len(),
        {
            let ghost before = fields@;
            let entry = fields.pop().unwrap();
            proof {
                lemma_field_names();
                assert(fields@ =~= before.drop_last());
                assert(entry == before.last());
            }
            let (name, value) = entry;
            if same_text(name.as_str(), "jsonrpc") {
                if jsonrpc.is_none() {
                    jsonrpc = Some(value);
                }
            } else if same_text(name.as_str(), "method") {
                if method.is_none() {
                    method = Some(value);
                }
            } else if same_text(name.as_str(), "params") {
                if params.is_none() {
                    params = Some(value);
                }
            } else if same_text(name.as_str(), "id") {
                if id.is_none() {
                    id = Some(value);
                }
            }
        }
        let jsonrpc = match jsonrpc {
            None => {
                return Err(RequestError::MissingField(RequestField::Jsonrpc));
            },
            Some(JsonValue::Str(s)) => s,
            Some(_) => {
                return Err(RequestError::NotAString(RequestField::Jsonrpc));
            },
        };
        let method = match method {
            None => {
                return Err(RequestError::MissingField(RequestField::Method));
            },
            Some(JsonValue::Str(s)) => s,
            Some(_) => {
                return Err(RequestError::NotAString(RequestField::Method));
            },
        };
        let id = match id {
            None => {
                return Err(RequestError::MissingField(RequestField::Id));
            },
            Some(x) => x,
        };
        let params = match params {
            Some(p) => p,
            None => JsonValue::Object(Vec::new()),
        };
        Ok(RpcRequest { jsonrpc, method, params, id })
    }
}

/// What parsing `text` as one request must give: a syntax error where the
/// text is not JSON, and else what the JSON value gives.
pub open spec fn parsed_request(text: Seq<char>, r: Result<RpcRequest, RequestError>) -> bool {
    match json_text_value(text) {
        None => r matches Err(RequestError::Syntax(_)),
        Some(v) => match r {
            Ok(req) => request_fault(v) is None && is_request_of(v, req),
            Err(e) => request_fault(v) == Some(e),
        },
    }
}

/// Parses the JSON text of one request.
pub fn parse_rpc_request(raw: &str) -> (r: Result<RpcRequest, RequestError>)
    ensures
        parsed_request(raw@, r),
{
    match read_json_text(raw) {
        Ok(v) => RpcRequest::from_value(v),
        Err(e) => Err(RequestError::Syntax(json_error_text(&e))),
    }
}

/// The registry of handlers, by method name, and the dispatcher over it. A
/// name has at most one handler: registering under a name that is taken
/// replaces the handler.
#[derive(Clone)]
pub struct RpcServer<H> {
    handlers: StringMap<H>,
}

impl<H> RpcServer<H> {
    /// The registry's invariant.
    pub closed spec fn wf(&self) -> bool {
        self.handlers.wf()
    }

    /// The handler of each registered method name.
    pub closed spec fn view(&self) -> Map<Seq<char>, H> {
        self.handlers@
    }

    /// A server with no handlers.
    pub fn new() -> (r: Self)
        ensures
            r.wf(),
            r@ == Map::<Seq<char>, H>::empty(),
    {
        RpcServer { handlers: StringMap::new() }
    }

    /// Binds `handler` to `method`. A handler that was bound to that name
    /// before is dropped; every other name keeps its handler.
    pub fn register(&mut self, method: &str, handler: H)
        requires
            old(self).wf(),
        ensures
            final(self).wf(),
            final(self)@ == old(self)@.insert(method@, handler),
    {
        self.handlers.insert(method.to_owned(), handler);
    }

    /// The handler bound to `method`, if there is one.
    pub fn resolve(&self, method: &str) -> (r: Option<&H>)
        requires
            self.wf(),
        ensures
            match r {
                Some(h) => self@.contains_key(method@) && self@[method@] == *h,
                None => !self@.contains_key(method@),
            },
    {
        self.handlers.get(method)
    }
}

impl<F: Fn(JsonValue) -> Result<JsonValue, RpcErrorObj>> RpcServer<F> {
    /// Every registered handler may be called with any parameters.
    pub open spec fn accepts_all(&self) -> bool {
        forall|m: Seq<char>, p: JsonValue|
            self@.contains_key(m) ==> #[trigger] call_requires(self@[m], (p,))
    }

    /// `resp` answers `req`: where the method has a handler, it is the
    /// response for an outcome of that handler on the request's parameters;
    /// where it has none, it is the error that names the method. Either way
    /// it carries the request's id.
    pub open spec fn answers(&self, req: RpcRequest, resp: RpcResponse) -> bool {
        if self@.contains_key(req.method@) {
            exists|outcome: Result<JsonValue, RpcErrorObj>|
                call_ensures(self@[req.method@], (req.params,), outcome) && #[trigger] resp.is_outcome(
                    req.id,
                    outcome,
                )
        } else {
            resp.is_error(req.id, METHOD_NOT_FOUND, "Method not found: "@ + req.method@)
        }
    }

    /// Dispatches one request: looks the method up, calls its handler with
    /// the parameters, and wraps what the handler returns.
    pub fn handle_request(&self, req: RpcRequest) -> (resp: RpcResponse)
        requires
            self.wf(),
            self.accepts_all(),
        ensures
            self.answers(req, resp),
            resp.wf(),
            resp.id == req.id,
    {
        let RpcRequest { jsonrpc: _, method, params, id } = req;
        match self.resolve(method.as_str()) {
            Some(h) => {
                let outcome = h(params);
                RpcResponse::from_outcome(id, outcome)
            },
            None => RpcResponse::method_not_found(id, method.as_str()),
        }
    }
}

/// Registering twice under one name leaves the second handler bound to it,
/// and the first one nowhere: the registry is as if the first registration
/// had not been made.
pub proof fn lemma_register_replaces<H>(handlers: Map<Seq<char>, H>, method: Seq<char>, first: H, second: H)
    ensures
        handlers.insert(method, first).insert(method, second) == handlers.insert(method, second),
        handlers.insert(method, first).insert(method, second)[method] == second,
        forall|other: Seq<char>|
            other != method ==> (#[trigger] handlers.insert(method, first).insert(
                method,
                second,
            ).contains_key(other) <==> handlers.contains_key(other)),
{
    assert(handlers.insert(method, first).insert(method, second) =~= handlers.insert(
        method,
        second,
    ));
}

/// A request for a method that has no handler is answered with the error
/// `METHOD_NOT_FOUND`, whose message ends in the method's name, and with the
/// request's id.
pub proof fn lemma_unknown_method<F: Fn(JsonValue) -> Result<JsonValue, RpcErrorObj>>(
    server: RpcServer<F>,
    req: RpcRequest,
    resp: RpcResponse,
)
    requires
        !server@.contains_key(req.method@),
        server.answers(req, resp),
    ensures
        resp.error is Some,
        resp.result is None,
        resp.error->Some_0.code == METHOD_NOT_FOUND,
        resp.error->Some_0.message@ == "Method not found: "@ + req.method@,
        resp.error->Some_0.message@.subrange(
            resp.error->Some_0.message@.len() - req.method@.len(),
            resp.error->Some_0.message@.len() as int,
        ) == req.method@,
        resp.id == req.id,
{
    let message = resp.error->Some_0.message@;
    assert(message.subrange(message.len() - req.method@.len(), message.len() as int)
        =~= req.method@);
}

} // verus!
