//! Single and batch requests, and the coordinator that answers a batch in
//! the order of its requests.
use vstd::prelude::*;
use crate::auth::{AuthMiddleware, AuthenticatedServer};
use crate::json::{json_error_text, json_text_value, read_json_text, JsonValue};
use crate::rpc::{
    is_request_of, request_fault, RequestError, RpcErrorObj, RpcRequest, RpcResponse, RpcServer,
    INVALID_REQUEST,
};

verus! {

/// One request, or a batch of them.
#[derive(Debug, PartialEq)]
pub enum BatchRequest {
    Single(RpcRequest),
    Batch(Vec<RpcRequest>),
}

/// One response, or a batch of them.
#[derive(Debug, PartialEq)]
pub enum BatchResponse {
    Single(RpcResponse),
    Batch(Vec<RpcResponse>),
}

/// The items of `v` in the opposite order.
pub fn reversed<T>(v: Vec<T>) -> (r: Vec<T>)
    ensures
        r@.len() == v@.len(),
        forall|i: int| 0 <= i < v@.len() ==> r@[i] == v@[v@.len() - 1 - i],
{
    let mut rest = v;
    let mut out: Vec<T> = Vec::new();
    while rest.len() > 0
        invariant
            rest@.len() + out@.len() == v@.len(),
            forall|i: int| 0 <= i < rest@.len() ==> rest@[i] == v@[i],
            forall|i: int| 0 <= i < out@.len() ==> out@[i] == v@[v@.len() - 1 - i],
        decreases rest@.len(),
    {
        let item = rest.pop().unwrap();
        out.push(item);
    }
    out
}

/// What reading `v` as a single request or a batch must give. An array is a
/// batch: each of its items must be a request, and the first one that is not
/// decides the error. Any other value is a single request.
pub open spec fn batch_of_value(v: JsonValue, r: Result<BatchRequest, RequestError>) -> bool {
    match v {
        JsonValue::Array(items) => match r {
            Ok(b) => {
                &&& b is Batch
                &&& b->Batch_0@.len() == items@.len()
                &&& forall|i: int|
                    0 <= i < items@.len() ==> request_fault(#[trigger] items@[i]) is None
                &&& forall|i: int|
                    0 <= i < items@.len() ==> is_request_of(items@[i], #[trigger] b->Batch_0@[i])
            },
            Err(e) => exists|i: int|
                0 <= i < items@.len() && request_fault(#[trigger] items@[i]) == Some(e)
                    && forall|j: int| 0 <= j < i ==> request_fault(#[trigger] items@[j]) is None,
        },
        _ => match r {
            Ok(b) => b matches BatchRequest::Single(req) && request_fault(v) is None
                && is_request_of(v, req),
            Err(e) => request_fault(v) == Some(e),
        },
    }
}

/// What parsing `text` as a single request or a batch must give: a syntax
/// error where the text is not JSON, and else what the JSON value gives.
pub open spec fn batch_of_text(text: Seq<char>, r: Result<BatchRequest, RequestError>) -> bool {
    match json_text_value(text) {
        None => r matches Err(RequestError::Syntax(_)),
        Some(v) => batch_of_value(v, r),
    }
}

impl BatchRequest {
    /// Reads a single request or a batch from a JSON value. Whether the
    /// value is an array decides which of the two it is.
    pub fn from_value(v: JsonValue) -> (r: Result<BatchRequest, RequestError>)
        ensures
            batch_of_value(v, r),
    {
        match v {
            JsonValue::Array(items) => {
                let ghost all = items@;
                let mut pending = reversed(items);
                let mut requests: Vec<RpcRequest> = Vec::new();
                while pending.len() > 0
                    invariant
                        v is Array,
                        v->Array_0@ == all,
                        pending@.len() + requests@.len() == all.len(),
                        forall|i: int|
                            0 <= i < pending@.len() ==> pending@[i] == all[all.len() - 1 - i],
                        forall|i: int|
                            0 <= i < requests@.len() ==> request_fault(#[trigger] all[i]) is None,
                        forall|i: int|
                            0 <= i < requests@.len() ==> is_request_of(
                                all[i],
                                #[trigger] requests@[i],
                            ),
                    decreases pending@.len(),
                {
                    let ghost at = requests@.len() as int;
                    let item = pending.pop().unwrap();
                    assert(item == all[at]);
                    match RpcRequest::from_value(item) {
                        Ok(req) => {
                            requests.push(req);
                        },
                        Err(e) => {
                            assert(request_fault(all[at]) == Some(e));
                            return Err(e);
                        },
                    }
                }
                Ok(BatchRequest::Batch(requests))
            },
            other => match RpcRequest::from_value(other) {
                Ok(req) => Ok(BatchRequest::Single(req)),
                Err(e) => Err(e),
            },
        }
    }

    /// Parses the JSON text of a single request or of a batch.
    pub fn parse(raw: &str) -> (r: Result<BatchRequest, RequestError>)
        ensures
            batch_of_text(raw@, r),
    {
        match read_json_text(raw) {
            Ok(v) => BatchRequest::from_value(v),
            Err(e) => Err(RequestError::Syntax(json_error_text(&e))),
        }
    }

    /// The number of requests: one for a single request.
    pub open spec fn spec_len(&self) -> nat {
        match self {
            BatchRequest::Single(_) => 1,
            BatchRequest::Batch(v) => v@.len(),
        }
    }

    /// Whether this is a batch.
    pub fn is_batch(&self) -> (r: bool)
        ensures
            r == (self is Batch),
    {
        match self {
            BatchRequest::Single(_) => false,
            BatchRequest::Batch(_) => true,
        }
    }

    /// The number of requests: one for a single request.
    pub fn len(&self) -> (r: usize)
        ensures
            r == self.spec_len(),
    {
        match self {
            BatchRequest::Single(_) => 1,
            BatchRequest::Batch(v) => v.len(),
        }
    }

    /// Whether there is no request at all: true of the empty batch only.
    pub fn is_empty(&self) -> (r: bool)
        ensures
            r == (self.spec_len() == 0),
    {
        self.len() == 0
    }
}

/// The response to the empty batch: the error `INVALID_REQUEST` with the id
/// `null`.
pub fn empty_batch_response() -> (resp: RpcResponse)
    ensures
        resp.is_error(JsonValue::Null, INVALID_REQUEST, "Invalid Request: empty batch"@),
        resp.wf(),
{
    RpcResponse::with_error(
        JsonValue::Null,
        INVALID_REQUEST,
        "Invalid Request: empty batch".to_owned(),
    )
}

impl<F: Fn(JsonValue) -> Result<JsonValue, RpcErrorObj>> RpcServer<F> {
    /// `resp` answers `req`, behind the guard where there is one.
    pub open spec fn guarded_answers(
        &self,
        auth: Option<AuthMiddleware>,
        req: RpcRequest,
        resp: RpcResponse,
    ) -> bool {
        &&& resp.id == req.id
        &&& resp.wf()
        &&& match auth {
            Some(guard) => self.answers_behind(guard, req, resp),
            None => self.answers(req, resp),
        }
    }

    /// `out` answers `batch`. A single request gets a single response. The
    /// empty batch gets the single error `INVALID_REQUEST` with the id
    /// `null`. A batch of one request or more gets a batch of as many
    /// responses, each at the place of its request.
    pub open spec fn batch_answers(
        &self,
        auth: Option<AuthMiddleware>,
        batch: BatchRequest,
        out: BatchResponse,
    ) -> bool {
        match batch {
            BatchRequest::Single(req) => out matches BatchResponse::Single(resp)
                && self.guarded_answers(auth, req, resp),
            BatchRequest::Batch(reqs) => if reqs@.len() == 0 {
                out matches BatchResponse::Single(resp) && resp.is_error(
                    JsonValue::Null,
                    INVALID_REQUEST,
                    "Invalid Request: empty batch"@,
                )
            } else {
                out matches BatchResponse::Batch(resps) && resps@.len() == reqs@.len()
                    && forall|i: int|
                    0 <= i < reqs@.len() ==> self.guarded_answers(auth, reqs@[i], #[trigger] resps@[i])
            },
        }
    }

    fn run_one(&self, req: RpcRequest, auth: Option<&AuthMiddleware>) -> (resp: RpcResponse)
        requires
            self.wf(),
            self.accepts_all(),
            auth matches Some(guard) ==> guard.wf(),
        ensures
            self.guarded_answers(
                match auth {
                    Some(guard) => Some(*guard),
                    None => None,
                },
                req,
                resp,
            ),
    {
        match auth {
            Some(guard) => self.handle_authenticated_request(req, guard),
            None => self.handle_request(req),
        }
    }

    fn run_batch(&self, batch: BatchRequest, auth: Option<&AuthMiddleware>) -> (out: BatchResponse)
        requires
            self.wf(),
            self.accepts_all(),
            auth matches Some(guard) ==> guard.wf(),
        ensures
            self.batch_answers(
                match auth {
                    Some(guard) => Some(*guard),
                    None => None,
                },
                batch,
                out,
            ),
    {
        let ghost guard: Option<AuthMiddleware> = match auth {
            Some(g) => Some(*g),
            None => None,
        };
        match batch {
            BatchRequest::Single(req) => BatchResponse::Single(self.run_one(req, auth)),
            BatchRequest::Batch(requests) => {
                if requests.len() == 0 {
                    return BatchResponse::Single(empty_batch_response());
                }
                let ghost reqs = requests@;
                let mut pending = reversed(requests);
                let mut responses: Vec<RpcResponse> = Vec::new();
                while pending.len() > 0
                    invariant
                        self.wf(),
                        self.accepts_all(),
                        auth matches Some(g) ==> g.wf(),
                        guard == (match auth {
                            Some(g) => Some(*g),
                            None => None,
                        }),
                        pending@.len() + responses@.len() == reqs.len(),
                        forall|i: int|
                            0 <= i < pending@.len() ==> pending@[i] == reqs[reqs.len() - 1 - i],
                        forall|i: int|
                            0 <= i < responses@.len() ==> self.guarded_answers(
                                guard,
                                reqs[i],
                                #[trigger] responses@[i],
                            ),
                    decreases pending@.len(),
                {
                    let req = pending.pop().unwrap();
                    let resp = self.run_one(req, auth);
                    responses.push(resp);
                }
                BatchResponse::Batch(responses)
            },
        }
    }

    /// Answers a single request or a batch. The requests of a batch do not
    /// depend on one another: each gets its own response, whether or not
    /// another one fails.
    pub fn handle_batch(&self, batch: BatchRequest) -> (out: BatchResponse)
        requires
            self.wf(),
            self.accepts_all(),
        ensures
            self.batch_answers(None, batch, out),
    {
        self.run_batch(batch, None)
    }

    /// Answers a single request or a batch behind the guard, which checks
    /// each request of a batch on its own.
    pub fn handle_authenticated_batch(&self, batch: BatchRequest, auth: &AuthMiddleware) -> (out:
        BatchResponse)
        requires
            self.wf(),
            self.accepts_all(),
            auth.wf(),
        ensures
            self.batch_answers(Some(*auth), batch, out),
    {
        self.run_batch(batch, Some(auth))
    }
}

/// The answer to a batch has the batch's shape: a single response for a
/// single request, and for a batch of one request or more a batch of as
/// many responses, each with the id of the request at its place.
pub proof fn lemma_batch_shape<F: Fn(JsonValue) -> Result<JsonValue, RpcErrorObj>>(
    server: RpcServer<F>,
    auth: Option<AuthMiddleware>,
    batch: BatchRequest,
    out: BatchResponse,
)
    requires
        server.batch_answers(auth, batch, out),
    ensures
        batch is Single ==> out is Single,
        batch is Batch && batch->Batch_0@.len() > 0 ==> out is Batch && out->Batch_0@.len()
            == batch->Batch_0@.len(),
        batch is Batch && batch->Batch_0@.len() > 0 ==> forall|i: int|
            0 <= i < batch->Batch_0@.len() ==> (#[trigger] out->Batch_0@[i]).id
                == batch->Batch_0@[i].id && out->Batch_0@[i].wf(),
{
}

/// The empty batch is answered with one error response: the code
/// `INVALID_REQUEST` and the id `null`.
pub proof fn lemma_empty_batch<F: Fn(JsonValue) -> Result<JsonValue, RpcErrorObj>>(
    server: RpcServer<F>,
    auth: Option<AuthMiddleware>,
    batch: BatchRequest,
    out: BatchResponse,
)
    requires
        batch is Batch,
        batch->Batch_0@.len() == 0,
        server.batch_answers(auth, batch, out),
    ensures
        out is Single,
        out->Single_0.error is Some,
        out->Single_0.result is None,
        out->Single_0.error->Some_0.code == INVALID_REQUEST,
        out->Single_0.id == JsonValue::Null,
{
}

/// Behind the guard, each request of a batch is judged on its own: the
/// response at a place is the guard's error exactly where the guard refuses
/// the request at that place, whatever it says of the others.
pub proof fn lemma_batch_auth_independent<F: Fn(JsonValue) -> Result<JsonValue, RpcErrorObj>>(
    server: RpcServer<F>,
    auth: AuthMiddleware,
    batch: BatchRequest,
    out: BatchResponse,
    i: int,
)
    requires
        batch is Batch,
        0 <= i < batch->Batch_0@.len(),
        server.batch_answers(Some(auth), batch, out),
    ensures
        out is Batch,
        match auth.verdict(batch->Batch_0@[i].params) {
            Some(code) => out->Batch_0@[i].is_error(
                batch->Batch_0@[i].id,
                code,
                crate::auth::auth_message(code),
            ),
            None => server.answers(batch->Batch_0@[i], out->Batch_0@[i]),
        },
{
    let resp = out->Batch_0@[i];
    assert(server.guarded_answers(Some(auth), batch->Batch_0@[i], resp));
}

} // verus!
