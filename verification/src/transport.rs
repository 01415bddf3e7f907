//! What a transport does between reading a request and writing the reply:
//! parse, dispatch, serialise, and book the exchange in the counters.
use vstd::prelude::*;
use vstd::utf8::{decode_utf8, valid_utf8};
use crate::auth::AuthMiddleware;
use crate::batch::{batch_of_text, BatchRequest, BatchResponse};
use crate::handlers::{decimal, decimal_text};
use crate::json::{json_value_text, JsonValue};
use crate::metrics::{bumped, counted, smoothed, Metrics, RequestTracer};
use crate::rpc::{
    parse_rpc_request, parsed_request, RequestError, RpcErrorObj, RpcRequest, RpcResponse,
    RpcServer, PARSE_ERROR,
};
use crate::wire::{is_batch_value, is_response_value};

verus! {

/// `String::from_utf8`. The contract claims that the call succeeds exactly
/// on valid UTF-8, and that the text is then what the bytes decode to.
#[verifier::external_body]
pub(crate) fn text_of_bytes(bytes: Vec<u8>) -> (r: Option<String>)
    ensures
        r is Some == valid_utf8(bytes@),
        r matches Some(s) ==> s@ == decode_utf8(bytes@),
{
    String::from_utf8(bytes).ok()
}

/// One request, or one batch, served: the name under which the exchange is
/// counted, whether a response in it is an error, and the reply's JSON text.
#[derive(Debug, PartialEq)]
pub struct Exchange {
    pub label: String,
    pub failed: bool,
    pub reply: String,
}

/// What a transport sends back for a text that it received.
#[derive(Debug, PartialEq)]
pub enum Answer {
    /// The text was a request or a batch, and this is how it was served.
    Served(Exchange),
    /// The text could not be read. The string is the JSON text of the
    /// response that says so; the exchange is not counted.
    Unreadable(String),
}

/// The name under which an exchange is counted: the method of a single
/// request, or `batch(n)` for a batch of `n` requests.
pub open spec fn label_of(batch: BatchRequest) -> Seq<char> {
    match batch {
        BatchRequest::Single(req) => req.method@,
        BatchRequest::Batch(reqs) => "batch("@ + decimal(reqs@.len()) + ")"@,
    }
}

/// `text` is the JSON text of `out`.
pub open spec fn is_batch_text(out: BatchResponse, text: Seq<char>) -> bool {
    exists|v: JsonValue| is_batch_value(out, v) && text == #[trigger] json_value_text(v)
}

/// `text` is the JSON text of `resp`.
pub open spec fn is_response_text(resp: RpcResponse, text: Seq<char>) -> bool {
    exists|v: JsonValue| is_response_value(resp, v) && text == #[trigger] json_value_text(v)
}

/// `text` is the JSON text of the response to a request that could not be
/// read because of `err`.
pub open spec fn is_unreadable_reply(err: RequestError, text: Seq<char>) -> bool {
    exists|resp: RpcResponse| #[trigger]
        resp.is_error(JsonValue::Null, PARSE_ERROR, "Parse error: "@ + err.spec_message())
            && is_response_text(resp, text)
}

/// The name under which an exchange is counted.
pub fn request_label(batch: &BatchRequest) -> (label: String)
    ensures
        label@ == label_of(*batch),
{
    match batch {
        BatchRequest::Single(req) => req.method.clone(),
        BatchRequest::Batch(reqs) => {
            let mut label = "batch(".to_owned();
            let count = decimal_text(reqs.len() as u64);
            label.append(count.as_str());
            label.append(")");
            label
        },
    }
}

/// The JSON text of the response to a request that could not be read.
pub fn unreadable_reply(err: &RequestError) -> (text: String)
    ensures
        is_unreadable_reply(*err, text@),
{
    let resp = RpcResponse::parse_error(err);
    let ghost shown = resp;
    let text = resp.to_json_text();
    assert(is_response_text(shown, text@));
    text
}

/// Books a served exchange that took `elapsed_us` microseconds: one more
/// request, one more success or error, the duration, and the label's count.
pub fn book_exchange(metrics: &mut Metrics, exchange: &Exchange, elapsed_us: u64)
    requires
        old(metrics).wf(),
    ensures
        final(metrics).wf(),
        final(metrics).total_requests() == bumped(old(metrics).total_requests()),
        final(metrics).total_success() == (if exchange.failed {
            old(metrics).total_success()
        } else {
            bumped(old(metrics).total_success())
        }),
        final(metrics).total_errors() == (if exchange.failed {
            bumped(old(metrics).total_errors())
        } else {
            old(metrics).total_errors()
        }),
        final(metrics).avg_duration_us() == smoothed(old(metrics).avg_duration_us(), elapsed_us),
        final(metrics).method_counts() == counted(old(metrics).method_counts(), exchange.label@),
{
    let tracer = RequestTracer::new(exchange.label.as_str(), metrics);
    if exchange.failed {
        tracer.error(metrics, elapsed_us);
    } else {
        tracer.success(metrics, elapsed_us);
    }
}

impl<F: Fn(JsonValue) -> Result<JsonValue, RpcErrorObj>> RpcServer<F> {
    /// `x` is how `batch` is served, behind the guard where there is one.
    pub open spec fn serves(
        &self,
        auth: Option<AuthMiddleware>,
        batch: BatchRequest,
        x: Exchange,
    ) -> bool {
        &&& x.label@ == label_of(batch)
        &&& exists|out: BatchResponse| #[trigger]
            self.batch_answers(auth, batch, out) && x.failed == out.spec_has_error()
                && is_batch_text(out, x.reply@)
    }

    /// `a` is the answer to the text `raw`: where the text is a request or a
    /// batch, how it is served; where it is not, the reply that says why.
    pub open spec fn answers_text(
        &self,
        auth: Option<AuthMiddleware>,
        raw: Seq<char>,
        a: Answer,
    ) -> bool {
        exists|parsed: Result<BatchRequest, RequestError>| #[trigger]
            batch_of_text(raw, parsed) && match parsed {
                Ok(batch) => a matches Answer::Served(x) && self.serves(auth, batch, x),
                Err(e) => a matches Answer::Unreadable(text) && is_unreadable_reply(e, text@),
            }
    }

    /// Serves a request or a batch: dispatches it, behind the guard where
    /// there is one, and writes the reply as JSON text.
    pub fn exchange(&self, auth: Option<&AuthMiddleware>, batch: BatchRequest) -> (x: Exchange)
        requires
            self.wf(),
            self.accepts_all(),
            auth matches Some(g) ==> g.wf(),
        ensures
            self.serves(
                match auth {
                    Some(g) => Some(*g),
                    None => None,
                },
                batch,
                x,
            ),
    {
        let label = request_label(&batch);
        let out = match auth {
            Some(g) => self.handle_authenticated_batch(batch, g),
            None => self.handle_batch(batch),
        };
        let failed = out.has_error();
        let ghost shown = out;
        let reply = out.to_json_text();
        assert(is_batch_text(shown, reply@));
        Exchange { label, failed, reply }
    }

    /// Answers the JSON text of a request or of a batch.
    pub fn answer_text(&self, auth: Option<&AuthMiddleware>, raw: &str) -> (a: Answer)
        requires
            self.wf(),
            self.accepts_all(),
            auth matches Some(g) ==> g.wf(),
        ensures
            self.answers_text(
                match auth {
                    Some(g) => Some(*g),
                    None => None,
                },
                raw@,
                a,
            ),
    {
        let parsed = BatchRequest::parse(raw);
        let ghost seen = parsed;
        let a = match parsed {
            Ok(batch) => Answer::Served(self.exchange(auth, batch)),
            Err(e) => Answer::Unreadable(unreadable_reply(&e)),
        };
        assert(batch_of_text(raw@, seen));
        a
    }

    /// `text` is the reply to the line `raw` of the line-delimited protocol:
    /// the JSON text of the response to the one request that the line holds,
    /// or of the parse error where it holds none. The line protocol has no
    /// batches and no guard.
    pub open spec fn answers_line(&self, raw: Seq<char>, text: Seq<char>) -> bool {
        exists|parsed: Result<RpcRequest, RequestError>| #[trigger]
            parsed_request(raw, parsed) && match parsed {
                Ok(req) => exists|resp: RpcResponse| #[trigger]
                    self.answers(req, resp) && resp.id == req.id && is_response_text(resp, text),
                Err(e) => is_unreadable_reply(e, text),
            }
    }

    /// Answers one line of the line-delimited protocol.
    pub fn answer_line(&self, raw: &str) -> (text: String)
        requires
            self.wf(),
            self.accepts_all(),
        ensures
            self.answers_line(raw@, text@),
    {
        let parsed = parse_rpc_request(raw);
        let ghost seen = parsed;
        let text = match parsed {
            Ok(req) => {
                let resp = self.handle_request(req);
                let ghost shown = resp;
                let text = resp.to_json_text();
                assert(self.answers(req, shown) && shown.id == req.id && is_response_text(
                    shown,
                    text@,
                ));
                text
            },
            Err(e) => unreadable_reply(&e),
        };
        assert(parsed_request(raw@, seen));
        text
    }

    /// Answers the payload of a frame. A payload that is not UTF-8 has no
    /// answer: the connection ends.
    pub fn answer_frame(&self, auth: Option<&AuthMiddleware>, payload: Vec<u8>) -> (a: Option<Answer>)
        requires
            self.wf(),
            self.accepts_all(),
            auth matches Some(g) ==> g.wf(),
        ensures
            match a {
                Some(answer) => valid_utf8(payload@) && self.answers_text(
                    match auth {
                        Some(g) => Some(*g),
                        None => None,
                    },
                    decode_utf8(payload@),
                    answer,
                ),
                None => !valid_utf8(payload@),
            },
    {
        match text_of_bytes(payload) {
            Some(raw) => Some(self.answer_text(auth, raw.as_str())),
            None => None,
        }
    }
}

} // verus!
