//! Requests and responses, and their encoding as JSON text.
//!
//! A request is the object `{"method": <string>, "params": <value>}`, a
//! response the object `{"status": "success" | "error", "data": <value>}`.
//! Other members of a received object are ignored.

use vstd::prelude::*;
use crate::json::{
    json_parse, json_text, json_field, json_str, json_string, json_object, entry_lookup,
    distinct_keys, parse_value, value_text, field, string_value, object_value,
};

verus! {

/// One operation asked of the host.
#[derive(Debug)]
pub struct Request {
    /// Names the operation; a well-formed request has a non-empty one.
    pub method: String,
    /// Arguments of the operation, of any shape.
    pub params: serde_json::Value,
}

/// Outcome of an operation.
#[derive(Clone, Copy, Debug, PartialEq, Eq, Structural)]
pub enum Status {
    Success,
    Error,
}

/// The host's answer to one request.
#[derive(Debug)]
pub struct Response {
    pub status: Status,
    /// A result payload or an explanatory message, of any shape.
    pub data: serde_json::Value,
}

/// Why a received text is not a message.
#[derive(Clone, Copy, Debug, PartialEq, Eq, Structural)]
pub enum DecodeError {
    /// The text is not one JSON document.
    NotJson,
    /// The document lacks a member, or a member has the wrong kind.
    BadShape,
}

/// The wire text of a status.
pub open spec fn status_text(s: Status) -> Seq<char> {
    match s {
        Status::Success => "success"@,
        Status::Error => "error"@,
    }
}

/// The status whose wire text this is, if any.
pub open spec fn status_of_text(t: Seq<char>) -> Option<Status> {
    if t == "success"@ {
        Some(Status::Success)
    } else if t == "error"@ {
        Some(Status::Error)
    } else {
        None
    }
}

/// The JSON object that carries a request.
pub open spec fn request_value(method: Seq<char>, params: serde_json::Value) -> serde_json::Value {
    json_object(seq![("method"@, json_string(method)), ("params"@, params)])
}

/// The JSON object that carries a response.
pub open spec fn response_value(status: Status, data: serde_json::Value) -> serde_json::Value {
    json_object(seq![("status"@, json_string(status_text(status))), ("data"@, data)])
}

/// The method and params of a JSON value that has the shape of a request:
/// a non-empty string under "method" and any value under "params".
pub open spec fn request_shape(v: serde_json::Value) -> Option<(Seq<char>, serde_json::Value)> {
    match (json_field(v, "method"@), json_field(v, "params"@)) {
        (Some(m), Some(p)) => match json_str(m) {
            Some(t) => if t.len() > 0 {
                Some((t, p))
            } else {
                None
            },
            None => None,
        },
        _ => None,
    }
}

/// The status and data of a JSON value that has the shape of a response:
/// "success" or "error" under "status" and any value under "data".
pub open spec fn response_shape(v: serde_json::Value) -> Option<(Status, serde_json::Value)> {
    match (json_field(v, "status"@), json_field(v, "data"@)) {
        (Some(s), Some(d)) => match json_str(s) {
            Some(t) => match status_of_text(t) {
                Some(st) => Some((st, d)),
                None => None,
            },
            None => None,
        },
        _ => None,
    }
}

/// What decoding a text as a request gives.
pub open spec fn decoded_request(text: Seq<char>) -> Result<(Seq<char>, serde_json::Value), DecodeError> {
    match json_parse(text) {
        None => Err(DecodeError::NotJson),
        Some(v) => match request_shape(v) {
            None => Err(DecodeError::BadShape),
            Some(r) => Ok(r),
        },
    }
}

/// What decoding a text as a response gives.
pub open spec fn decoded_response(text: Seq<char>) -> Result<(Status, serde_json::Value), DecodeError> {
    match json_parse(text) {
        None => Err(DecodeError::NotJson),
        Some(v) => match response_shape(v) {
            None => Err(DecodeError::BadShape),
            Some(r) => Ok(r),
        },
    }
}

/// The payload `{"message": text}`.
pub open spec fn message_value(text: Seq<char>) -> serde_json::Value {
    json_object(seq![("message"@, json_string(text))])
}

impl Request {
    pub open spec fn wf(&self) -> bool {
        self.method@.len() > 0
    }

    /// A request, if the method is non-empty.
    pub fn new(method: &str, params: serde_json::Value) -> (r: Option<Request>)
        ensures
            r is Some <==> method@.len() > 0,
            r matches Some(q) ==> q.method@ == method@ && q.params == params && q.wf(),
    {
        if method.is_empty() {
            None
        } else {
            Some(Request { method: method.to_owned(), params })
        }
    }
}

impl Status {
    /// The wire text of the status.
    pub fn as_text(&self) -> (r: &'static str)
        ensures
            r@ == status_text(*self),
    {
        match self {
            Status::Success => "success",
            Status::Error => "error",
        }
    }
}

/// A JSON object of two members under distinct keys.
fn pair_object(k1: &str, v1: serde_json::Value, k2: &str, v2: serde_json::Value) -> (r: serde_json::Value)
    requires
        k1@ != k2@,
    ensures
        r == json_object(seq![(k1@, v1), (k2@, v2)]),
        json_field(r, k1@) == Some(v1),
        json_field(r, k2@) == Some(v2),
{
    let mut entries: Vec<(String, serde_json::Value)> = Vec::new();
    entries.push((k1.to_owned(), v1));
    entries.push((k2.to_owned(), v2));
    let ghost es = entries@.map_values(|e: (String, serde_json::Value)| (e.0@, e.1));
    assert(es =~= seq![(k1@, v1), (k2@, v2)]);
    assert(distinct_keys(es));
    let r = object_value(entries);
    assert(entry_lookup(es, k1@) == Some(v1));
    assert(entry_lookup(es.drop_first(), k2@) == Some(v2));
    assert(json_field(r, k2@) == entry_lookup(es, k2@));
    r
}

/// The JSON object that carries a request.
pub fn request_to_value(r: &Request) -> (v: serde_json::Value)
    ensures
        v == request_value(r.method@, r.params),
        r.wf() ==> request_shape(v) == Some((r.method@, r.params)),
{
    proof {
        reveal_strlit("method");
        reveal_strlit("params");
        assert("method"@[0] != "params"@[0]);
    }
    let m = string_value(r.method.as_str());
    pair_object("method", m, "params", r.params.clone())
}

/// The request a JSON value carries, if it has the shape of one.
pub fn request_from_value(v: &serde_json::Value) -> (r: Option<Request>)
    ensures
        r is Some <==> request_shape(*v) is Some,
        r matches Some(q) ==> request_shape(*v) == Some((q.method@, q.params)) && q.wf(),
{
    let m = match field(v, "method") {
        Some(m) => m,
        None => return None,
    };
    let p = match field(v, "params") {
        Some(p) => p,
        None => return None,
    };
    match m.as_str() {
        Some(t) => Request::new(t, p.clone()),
        None => None,
    }
}

/// The JSON text of a request.
///
/// A well-formed request decodes back to itself whenever serde_json reads
/// back the value it wrote.
pub fn encode_request(r: &Request) -> (s: String)
    ensures
        s@ == json_text(request_value(r.method@, r.params)),
        r.wf() && json_parse(s@) == Some(request_value(r.method@, r.params))
            ==> decoded_request(s@) == Ok::<(Seq<char>, serde_json::Value), DecodeError>((r.method@, r.params)),
{
    let v = request_to_value(r);
    value_text(&v)
}

/// The request a text carries.
pub fn decode_request(text: &str) -> (r: Result<Request, DecodeError>)
    ensures
        r matches Ok(q) ==> decoded_request(text@) == Ok::<(Seq<char>, serde_json::Value), DecodeError>((q.method@, q.params)) && q.wf(),
        r matches Err(e) ==> decoded_request(text@) == Err::<(Seq<char>, serde_json::Value), DecodeError>(e),
{
    match parse_value(text) {
        None => Err(DecodeError::NotJson),
        Some(v) => match request_from_value(&v) {
            Some(q) => Ok(q),
            None => Err(DecodeError::BadShape),
        },
    }
}

/// The status whose wire text `t` is, if any.
fn status_from_text(t: &str) -> (r: Option<Status>)
    ensures
        r == status_of_text(t@),
{
    let owned = t.to_owned();
    if owned == "success".to_owned() {
        Some(Status::Success)
    } else if owned == "error".to_owned() {
        Some(Status::Error)
    } else {
        None
    }
}

/// The JSON object that carries a response.
pub fn response_to_value(r: &Response) -> (v: serde_json::Value)
    ensures
        v == response_value(r.status, r.data),
        response_shape(v) == Some((r.status, r.data)),
{
    proof {
        reveal_strlit("status");
        reveal_strlit("data");
        reveal_strlit("success");
        reveal_strlit("error");
        assert("status"@[0] != "data"@[0]);
        assert("success"@ != "error"@) by {
            assert("success"@[0] != "error"@[0]);
        }
    }
    let s = string_value(r.status.as_text());
    pair_object("status", s, "data", r.data.clone())
}

/// The response a JSON value carries, if it has the shape of one.
pub fn response_from_value(v: &serde_json::Value) -> (r: Option<Response>)
    ensures
        r is Some <==> response_shape(*v) is Some,
        r matches Some(q) ==> response_shape(*v) == Some((q.status, q.data)),
{
    let s = match field(v, "status") {
        Some(s) => s,
        None => return None,
    };
    let d = match field(v, "data") {
        Some(d) => d,
        None => return None,
    };
    match s.as_str() {
        Some(t) => match status_from_text(t) {
            Some(status) => Some(Response { status, data: d.clone() }),
            None => None,
        },
        None => None,
    }
}

/// The JSON text of a response.
///
/// A response decodes back to itself whenever serde_json reads back the
/// value it wrote.
pub fn encode_response(r: &Response) -> (s: String)
    ensures
        s@ == json_text(response_value(r.status, r.data)),
        json_parse(s@) == Some(response_value(r.status, r.data))
            ==> decoded_response(s@) == Ok::<(Status, serde_json::Value), DecodeError>((r.status, r.data)),
{
    let v = response_to_value(r);
    value_text(&v)
}

/// The response a text carries.
pub fn decode_response(text: &str) -> (r: Result<Response, DecodeError>)
    ensures
        r matches Ok(q) ==> decoded_response(text@) == Ok::<(Status, serde_json::Value), DecodeError>((q.status, q.data)),
        r matches Err(e) ==> decoded_response(text@) == Err::<(Status, serde_json::Value), DecodeError>(e),
{
    match parse_value(text) {
        None => Err(DecodeError::NotJson),
        Some(v) => match response_from_value(&v) {
            Some(q) => Ok(q),
            None => Err(DecodeError::BadShape),
        },
    }
}

/// The payload `{"message": text}`.
pub fn message_payload(text: &str) -> (v: serde_json::Value)
    ensures
        v == message_value(text@),
{
    let mut entries: Vec<(String, serde_json::Value)> = Vec::new();
    entries.push(("message".to_owned(), string_value(text)));
    let ghost es = entries@.map_values(|e: (String, serde_json::Value)| (e.0@, e.1));
    assert(es =~= seq![("message"@, json_string(text@))]);
    object_value(entries)
}

/// The empty JSON object `{}`.
pub fn empty_params() -> (v: serde_json::Value)
    ensures
        v == json_object(seq![]),
{
    let entries: Vec<(String, serde_json::Value)> = Vec::new();
    let ghost es = entries@.map_values(|e: (String, serde_json::Value)| (e.0@, e.1));
    assert(es =~= seq![]);
    object_value(entries)
}

/// The request the connector sends: `ping` with empty params.
pub fn ping_request() -> (r: Request)
    ensures
        r.method@ == "ping"@,
        r.params == json_object(seq![]),
        r.wf(),
{
    proof {
        reveal_strlit("ping");
    }
    Request { method: "ping".to_owned(), params: empty_params() }
}

} // verus!
