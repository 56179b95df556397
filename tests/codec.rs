use enclave_bridge::dispatch::dispatch;
use enclave_bridge::framing::{frame_text, read_frame, FrameError, BUFFER_SIZE};
use enclave_bridge::message::{
    decode_request, decode_response, empty_params, encode_request, encode_response, message_payload,
    ping_request, DecodeError, Request, Response, Status,
};

fn json(text: &str) -> serde_json::Value {
    serde_json::from_str(text).unwrap()
}

#[test]
fn ping_request_text() {
    assert_eq!(encode_request(&ping_request()), r#"{"method":"ping","params":{}}"#);
}

#[test]
fn request_round_trip_with_nested_params() {
    let params = json(r#"{"a":[1,-2,true,null,"x"],"b":{"c":{"d":"e"}},"f":1.5}"#);
    let request = Request::new("store", params.clone()).unwrap();
    let back = decode_request(&encode_request(&request)).unwrap();
    assert_eq!(back.method, "store");
    assert_eq!(back.params, params);
}

#[test]
fn response_round_trip() {
    let response = Response { status: Status::Error, data: json(r#"{"message":"no"}"#) };
    let text = encode_response(&response);
    assert_eq!(text, r#"{"data":{"message":"no"},"status":"error"}"#);
    let back = decode_response(&text).unwrap();
    assert_eq!(back.status, Status::Error);
    assert_eq!(back.data, response.data);
}

#[test]
fn empty_method_is_refused() {
    assert!(Request::new("", empty_params()).is_none());
    assert_eq!(decode_request(r#"{"method":"","params":{}}"#).unwrap_err(), DecodeError::BadShape);
}

#[test]
fn request_decode_errors() {
    assert_eq!(decode_request("not json").unwrap_err(), DecodeError::NotJson);
    assert_eq!(decode_request(r#"{"method":"ping""#).unwrap_err(), DecodeError::NotJson);
    assert_eq!(decode_request(r#"{"method":"ping"}"#).unwrap_err(), DecodeError::BadShape);
    assert_eq!(decode_request(r#"{"params":{}}"#).unwrap_err(), DecodeError::BadShape);
    assert_eq!(decode_request(r#"{"method":7,"params":{}}"#).unwrap_err(), DecodeError::BadShape);
    assert_eq!(decode_request(r#"["ping",{}]"#).unwrap_err(), DecodeError::BadShape);
}

#[test]
fn request_extra_members_are_ignored() {
    let r = decode_request(r#"{"method":"ping","params":[1],"id":3}"#).unwrap();
    assert_eq!(r.method, "ping");
    assert_eq!(r.params, json("[1]"));
}

#[test]
fn response_with_unknown_status_is_refused() {
    assert_eq!(
        decode_response(r#"{"status":"maybe","data":{}}"#).unwrap_err(),
        DecodeError::BadShape
    );
    assert_eq!(decode_response(r#"{"status":"success"}"#).unwrap_err(), DecodeError::BadShape);
}

#[test]
fn ping_is_answered_with_pong_whatever_the_params() {
    for params in [empty_params(), json(r#"{"x":1}"#), json("null")] {
        let r = dispatch(&Request::new("ping", params).unwrap());
        assert_eq!(r.status, Status::Success);
        assert_eq!(r.data, json(r#"{"message":"pong"}"#));
    }
}

#[test]
fn unknown_methods_get_error() {
    for method in ["unknown_op", "Ping", "ping ", "pingpong", "p"] {
        let r = dispatch(&Request::new(method, json(r#"{"x":1}"#)).unwrap());
        assert_eq!(r.status, Status::Error);
        assert_eq!(r.data, json(r#"{"message":"Unknown method"}"#));
    }
}

#[test]
fn message_payload_shape() {
    assert_eq!(message_payload("hi"), json(r#"{"message":"hi"}"#));
    assert_eq!(Status::Success.as_text(), "success");
    assert_eq!(Status::Error.as_text(), "error");
}

#[test]
fn framing_keeps_utf8_bytes() {
    let bytes = frame_text("h\u{e9}llo", BUFFER_SIZE).unwrap();
    assert_eq!(bytes, vec![b'h', 0xc3, 0xa9, b'l', b'l', b'o']);
    assert_eq!(read_frame(&bytes).unwrap(), "h\u{e9}llo");
}

#[test]
fn framing_limits() {
    assert_eq!(frame_text("abcd", 4).unwrap(), b"abcd".to_vec());
    assert_eq!(frame_text("abcde", 4).unwrap_err(), FrameError::TooLarge);
    assert_eq!(frame_text("\u{e9}", 1).unwrap_err(), FrameError::TooLarge);
    let big = "x".repeat(BUFFER_SIZE + 1);
    assert_eq!(frame_text(&big, BUFFER_SIZE).unwrap_err(), FrameError::TooLarge);
}

#[test]
fn read_frame_errors() {
    assert_eq!(read_frame(&[]).unwrap_err(), FrameError::Empty);
    assert_eq!(read_frame(&[0xff, 0x41]).unwrap_err(), FrameError::InvalidText);
    assert_eq!(read_frame(&[0xc3]).unwrap_err(), FrameError::InvalidText);
}
