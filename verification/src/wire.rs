//! Responses as JSON values and as JSON text.
use vstd::prelude::*;
use crate::batch::{reversed, BatchResponse};
use crate::json::{json_value_text, write_json_text, JsonNumber, JsonValue};
use crate::rpc::{RequestError, RequestField, RpcErrorObj, RpcResponse, PARSE_ERROR};

verus! {

/// The JSON number that stands for an error code.
pub open spec fn code_number(code: i64) -> JsonNumber {
    if code >= 0 {
        JsonNumber::Unsigned(code as u64)
    } else {
        JsonNumber::Negative(code)
    }
}

/// `v` is the JSON value of an error: an object with the members `code` and
/// `message`, and `data` after them where the error carries data.
pub open spec fn is_error_value(e: RpcErrorObj, v: JsonValue) -> bool {
    &&& v is Object
    &&& v->Object_0@.len() == if e.data is Some { 3int } else { 2int }
    &&& v->Object_0@[0].0@ == "code"@
    &&& v->Object_0@[0].1 == JsonValue::Number(code_number(e.code))
    &&& v->Object_0@[1].0@ == "message"@
    &&& v->Object_0@[1].1 == JsonValue::Str(e.message)
    &&& e.data matches Some(d) ==> v->Object_0@[2].0@ == "data"@ && v->Object_0@[2].1 == d
}

/// `v` is the JSON value of a response: an object with the members
/// `jsonrpc`, then `result` where there is a result, then `error` (`null`
/// where there is no error), then `id`.
pub open spec fn is_response_value(resp: RpcResponse, v: JsonValue) -> bool {
    let skip = if resp.result is Some { 1int } else { 0int };
    &&& v is Object
    &&& v->Object_0@.len() == 3 + skip
    &&& v->Object_0@[0].0@ == "jsonrpc"@
    &&& v->Object_0@[0].1 == JsonValue::Str(resp.jsonrpc)
    &&& resp.result matches Some(r) ==> v->Object_0@[1].0@ == "result"@ && v->Object_0@[1].1 == r
    &&& v->Object_0@[1 + skip].0@ == "error"@
    &&& match resp.error {
        None => v->Object_0@[1 + skip].1 == JsonValue::Null,
        Some(e) => is_error_value(e, v->Object_0@[1 + skip].1),
    }
    &&& v->Object_0@[2 + skip].0@ == "id"@
    &&& v->Object_0@[2 + skip].1 == resp.id
}

/// `v` is the JSON value of a response or of a batch of them: the response's
/// object, or the array of the responses' objects in their order.
pub open spec fn is_batch_value(out: BatchResponse, v: JsonValue) -> bool {
    match out {
        BatchResponse::Single(resp) => is_response_value(resp, v),
        BatchResponse::Batch(resps) => v is Array && v->Array_0@.len() == resps@.len()
            && forall|i: int|
            0 <= i < resps@.len() ==> is_response_value(resps@[i], #[trigger] v->Array_0@[i]),
    }
}

impl RpcErrorObj {
    /// The error as a JSON value.
    pub fn to_value(self) -> (v: JsonValue)
        ensures
            is_error_value(self, v),
    {
        let RpcErrorObj { code, message, data } = self;
        let number = if code >= 0 {
            JsonNumber::Unsigned(code as u64)
        } else {
            JsonNumber::Negative(code)
        };
        let mut members: Vec<(String, JsonValue)> = Vec::new();
        members.push(("code".to_owned(), JsonValue::Number(number)));
        members.push(("message".to_owned(), JsonValue::Str(message)));
        match data {
            Some(d) => {
                members.push(("data".to_owned(), d));
            },
            None => {},
        }
        JsonValue::Object(members)
    }
}

impl RpcResponse {
    /// The response as a JSON value.
    pub fn to_value(self) -> (v: JsonValue)
        ensures
            is_response_value(self, v),
    {
        let RpcResponse { jsonrpc, result, error, id } = self;
        let mut members: Vec<(String, JsonValue)> = Vec::new();
        members.push(("jsonrpc".to_owned(), JsonValue::Str(jsonrpc)));
        match result {
            Some(r) => {
                members.push(("result".to_owned(), r));
            },
            None => {},
        }
        let error_value = match error {
            Some(e) => e.to_value(),
            None => JsonValue::Null,
        };
        members.push(("error".to_owned(), error_value));
        members.push(("id".to_owned(), id));
        JsonValue::Object(members)
    }

    /// The response as compact JSON text.
    pub fn to_json_text(self) -> (text: String)
        ensures
            exists|v: JsonValue| is_response_value(self, v) && text@ == #[trigger] json_value_text(v),
    {
        let v = self.to_value();
        write_json_text(&v)
    }

    /// The response to a request that could not be read: the code
    /// `PARSE_ERROR`, the id `null`, and a message that says why.
    pub fn parse_error(err: &RequestError) -> (r: Self)
        ensures
            r.is_error(JsonValue::Null, PARSE_ERROR, "Parse error: "@ + err.spec_message()),
            r.wf(),
    {
        let mut message = "Parse error: ".to_owned();
        let reason = err.message();
        message.append(reason.as_str());
        RpcResponse::with_error(JsonValue::Null, PARSE_ERROR, message)
    }
}

impl RequestField {
    /// The member's name.
    pub open spec fn spec_name(self) -> Seq<char> {
        match self {
            RequestField::Jsonrpc => "jsonrpc"@,
            RequestField::Method => "method"@,
            RequestField::Id => "id"@,
        }
    }

    /// The member's name.
    pub fn name(self) -> (r: &'static str)
        ensures
            r@ == self.spec_name(),
    {
        match self {
            RequestField::Jsonrpc => "jsonrpc",
            RequestField::Method => "method",
            RequestField::Id => "id",
        }
    }
}

impl RequestError {
    /// The error in words.
    pub open spec fn spec_message(&self) -> Seq<char> {
        match self {
            RequestError::Syntax(m) => m@,
            RequestError::NotAnObject => "request is not an object"@,
            RequestError::MissingField(f) => "missing field: "@ + f.spec_name(),
            RequestError::NotAString(f) => "field is not a string: "@ + f.spec_name(),
        }
    }

    /// The error in words.
    pub fn message(&self) -> (r: String)
        ensures
            r@ == self.spec_message(),
    {
        match self {
            RequestError::Syntax(m) => m.clone(),
            RequestError::NotAnObject => "request is not an object".to_owned(),
            RequestError::MissingField(f) => {
                let mut text = "missing field: ".to_owned();
                text.append(f.name());
                text
            },
            RequestError::NotAString(f) => {
                let mut text = "field is not a string: ".to_owned();
                text.append(f.name());
                text
            },
        }
    }
}

impl BatchResponse {
    /// Whether a response in it is an error.
    pub open spec fn spec_has_error(&self) -> bool {
        match self {
            BatchResponse::Single(resp) => resp.error is Some,
            BatchResponse::Batch(resps) => exists|i: int|
                0 <= i < resps@.len() && (#[trigger] resps@[i]).error is Some,
        }
    }

    /// Whether a response in it is an error.
    pub fn has_error(&self) -> (r: bool)
        ensures
            r == self.spec_has_error(),
    {
        match self {
            BatchResponse::Single(resp) => resp.error.is_some(),
            BatchResponse::Batch(resps) => {
                let mut i: usize = 0;
                while i < resps.len()
                    invariant
                        self is Batch,
                        self->Batch_0@ == resps@,
                        i <= resps@.len(),
                        forall|j: int| 0 <= j < i ==> (#[trigger] resps@[j]).error is None,
                    decreases resps@.len() - i,
                {
                    if resps[i].error.is_some() {
                        return true;
                    }
                    i = i + 1;
                }
                false
            },
        }
    }

    /// The response, or the batch of responses, as a JSON value.
    pub fn to_value(self) -> (v: JsonValue)
        ensures
            is_batch_value(self, v),
    {
        match self {
            BatchResponse::Single(resp) => resp.to_value(),
            BatchResponse::Batch(resps) => {
                let ghost all = resps@;
                let mut pending = reversed(resps);
                let mut items: Vec<JsonValue> = Vec::new();
                while pending.len() > 0
                    invariant
                        self is Batch,
                        self->Batch_0@ == all,
                        pending@.len() + items@.len() == all.len(),
                        forall|i: int|
                            0 <= i < pending@.len() ==> pending@[i] == all[all.len() - 1 - i],
                        forall|i: int|
                            0 <= i < items@.len() ==> is_response_value(all[i], #[trigger] items@[i]),
                    decreases pending@.len(),
                {
                    let resp = pending.pop().unwrap();
                    let item = resp.to_value();
                    items.push(item);
                }
                JsonValue::Array(items)
            },
        }
    }

    /// The response, or the batch of responses, as compact JSON text.
    pub fn to_json_text(self) -> (text: String)
        ensures
            exists|v: JsonValue| is_batch_value(self, v) && text@ == #[trigger] json_value_text(v),
    {
        let v = self.to_value();
        write_json_text(&v)
    }
}

} // verus!
