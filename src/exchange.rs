//! One exchange over a connection: the connector sends a request and reads
//! the response; the listener reads the request and sends the response.
//!
//! These are the decisions of each side; opening sockets, reading,
//! writing and closing are left to the caller, which hands over the bytes
//! one read delivered and sends the bytes it is given.

use vstd::prelude::*;
use vstd::utf8::{valid_utf8, decode_utf8, encode_utf8};
use crate::framing::{FrameError, frame_text, read_frame};
use crate::message::{
    Request, Response, Status, DecodeError, decoded_request, decoded_response, response_value,
    encode_request, decode_response, decode_request, encode_response, request_value,
};
use crate::dispatch::{dispatch, dispatched};
use crate::json::json_text;

verus! {

/// Why an exchange was abandoned.
#[derive(Clone, Copy, Debug, PartialEq, Eq, Structural)]
pub enum ExchangeError {
    Frame(FrameError),
    Decode(DecodeError),
}

/// The message text in a read's bytes, or why there is none.
pub open spec fn received_text(received: Seq<u8>) -> Result<Seq<char>, ExchangeError> {
    if received.len() == 0 {
        Err(ExchangeError::Frame(FrameError::Empty))
    } else if !valid_utf8(received) {
        Err(ExchangeError::Frame(FrameError::InvalidText))
    } else {
        Ok(decode_utf8(received))
    }
}

/// The bytes of a text, if they fit in one read of `buffer_size` bytes.
pub open spec fn framed(text: Seq<char>, buffer_size: nat) -> Result<Seq<u8>, ExchangeError> {
    if encode_utf8(text).len() <= buffer_size {
        Ok(encode_utf8(text))
    } else {
        Err(ExchangeError::Frame(FrameError::TooLarge))
    }
}

/// What the listener sends back for the bytes of one read: the framed
/// response to the request they carry, or nothing if they carry none.
pub open spec fn reply_for(received: Seq<u8>, buffer_size: nat) -> Result<Seq<u8>, ExchangeError> {
    match received_text(received) {
        Err(e) => Err(e),
        Ok(text) => match decoded_request(text) {
            Err(e) => Err(ExchangeError::Decode(e)),
            Ok((method, _params)) => framed(
                json_text(response_value(dispatched(method).0, dispatched(method).1)),
                buffer_size,
            ),
        },
    }
}

/// What the connector makes of the bytes of one read.
pub open spec fn response_for(received: Seq<u8>) -> Result<(Status, serde_json::Value), ExchangeError> {
    match received_text(received) {
        Err(e) => Err(e),
        Ok(text) => match decoded_response(text) {
            Err(e) => Err(ExchangeError::Decode(e)),
            Ok(r) => Ok(r),
        },
    }
}

fn received_message(received: &[u8]) -> (r: Result<String, ExchangeError>)
    ensures
        r matches Ok(t) ==> received_text(received@) == Ok::<Seq<char>, ExchangeError>(t@),
        r matches Err(e) ==> received_text(received@) == Err::<Seq<char>, ExchangeError>(e),
{
    match read_frame(received) {
        Ok(t) => Ok(t),
        Err(e) => Err(ExchangeError::Frame(e)),
    }
}

fn framed_message(text: &str, buffer_size: usize) -> (r: Result<Vec<u8>, ExchangeError>)
    ensures
        r matches Ok(b) ==> framed(text@, buffer_size as nat) == Ok::<Seq<u8>, ExchangeError>(b@),
        r matches Err(e) ==> framed(text@, buffer_size as nat) == Err::<Seq<u8>, ExchangeError>(e),
{
    match frame_text(text, buffer_size) {
        Ok(b) => Ok(b),
        Err(e) => Err(ExchangeError::Frame(e)),
    }
}

/// Listener side: the bytes to send back for the bytes one read delivered.
///
/// An error means the exchange is abandoned: nothing is sent and the
/// connection is closed. Nothing is kept between calls, so a malformed
/// exchange has no effect on any other.
pub fn serve_received(received: &[u8], buffer_size: usize) -> (r: Result<Vec<u8>, ExchangeError>)
    ensures
        r matches Ok(b) ==> reply_for(received@, buffer_size as nat) == Ok::<Seq<u8>, ExchangeError>(b@),
        r matches Err(e) ==> reply_for(received@, buffer_size as nat) == Err::<Seq<u8>, ExchangeError>(e),
{
    let text = match received_message(received) {
        Ok(t) => t,
        Err(e) => return Err(e),
    };
    let request = match decode_request(text.as_str()) {
        Ok(q) => q,
        Err(e) => return Err(ExchangeError::Decode(e)),
    };
    let response = dispatch(&request);
    let out = encode_response(&response);
    framed_message(out.as_str(), buffer_size)
}

/// Connector side: the bytes that carry a request, if they fit in one read
/// of `buffer_size` bytes.
pub fn request_bytes(request: &Request, buffer_size: usize) -> (r: Result<Vec<u8>, ExchangeError>)
    ensures
        r matches Ok(b) ==> framed(json_text(request_value(request.method@, request.params)), buffer_size as nat)
            == Ok::<Seq<u8>, ExchangeError>(b@),
        r matches Err(e) ==> framed(json_text(request_value(request.method@, request.params)), buffer_size as nat)
            == Err::<Seq<u8>, ExchangeError>(e),
{
    let text = encode_request(request);
    framed_message(text.as_str(), buffer_size)
}

/// Connector side: the response in the bytes one read delivered.
pub fn response_from_bytes(received: &[u8]) -> (r: Result<Response, ExchangeError>)
    ensures
        r matches Ok(q) ==> response_for(received@) == Ok::<(Status, serde_json::Value), ExchangeError>((q.status, q.data)),
        r matches Err(e) ==> response_for(received@) == Err::<(Status, serde_json::Value), ExchangeError>(e),
{
    let text = match received_message(received) {
        Ok(t) => t,
        Err(e) => return Err(e),
    };
    match decode_response(text.as_str()) {
        Ok(q) => Ok(q),
        Err(e) => Err(ExchangeError::Decode(e)),
    }
}

/// A read whose bytes are not text, or whose text is not a request, gets
/// no reply: the exchange is abandoned and nothing is sent.
pub proof fn lemma_malformed_gets_no_reply(received: Seq<u8>, buffer_size: nat)
    requires
        received.len() == 0 || !valid_utf8(received) || decoded_request(decode_utf8(received)) is Err,
    ensures
        reply_for(received, buffer_size) is Err,
{
}

} // verus!
