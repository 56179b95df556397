use enclave_bridge::config::{vsock_port, ConfigError, VsockEndpoint, ANY_CID, DEFAULT_PORT, HOST_CID};
use enclave_bridge::exchange::{request_bytes, response_from_bytes, serve_received, ExchangeError};
use enclave_bridge::framing::{FrameError, BUFFER_SIZE};
use enclave_bridge::listener::{ConnectionEvent, ListenerStats};
use enclave_bridge::message::{ping_request, DecodeError, Request, Status};

fn json(text: &str) -> serde_json::Value {
    serde_json::from_str(text).unwrap()
}

#[test]
fn ping_exchange_end_to_end() {
    let sent = request_bytes(&ping_request(), BUFFER_SIZE).unwrap();
    assert_eq!(sent, br#"{"method":"ping","params":{}}"#.to_vec());
    let reply = serve_received(&sent, BUFFER_SIZE).unwrap();
    assert_eq!(reply, br#"{"data":{"message":"pong"},"status":"success"}"#.to_vec());
    let response = response_from_bytes(&reply).unwrap();
    assert_eq!(response.status, Status::Success);
    assert_eq!(response.data, json(r#"{"message":"pong"}"#));
}

#[test]
fn unknown_method_exchange_end_to_end() {
    let request = Request::new("unknown_op", json(r#"{"x":1}"#)).unwrap();
    let sent = request_bytes(&request, BUFFER_SIZE).unwrap();
    let reply = serve_received(&sent, BUFFER_SIZE).unwrap();
    let response = response_from_bytes(&reply).unwrap();
    assert_eq!(response.status, Status::Error);
    assert_eq!(response.data, json(r#"{"message":"Unknown method"}"#));
}

#[test]
fn malformed_connection_then_good_one() {
    let mut stats = ListenerStats::new();
    let bad = serve_received(&[0xff, 0xfe, 0x00], BUFFER_SIZE);
    assert_eq!(bad.unwrap_err(), ExchangeError::Frame(FrameError::InvalidText));
    stats.record(ConnectionEvent::Abandoned(ExchangeError::Frame(FrameError::InvalidText)));
    let not_request = serve_received(b"{\"hello\":1}", BUFFER_SIZE);
    assert_eq!(not_request.unwrap_err(), ExchangeError::Decode(DecodeError::BadShape));
    let garbage = serve_received(b"garbage", BUFFER_SIZE);
    assert_eq!(garbage.unwrap_err(), ExchangeError::Decode(DecodeError::NotJson));
    let good = serve_received(br#"{"method":"ping","params":{}}"#, BUFFER_SIZE).unwrap();
    assert_eq!(response_from_bytes(&good).unwrap().status, Status::Success);
    stats.record(ConnectionEvent::Served);
    assert_eq!(stats.served, 1);
    assert_eq!(stats.abandoned, 1);
}

#[test]
fn empty_read_gets_no_reply() {
    assert_eq!(serve_received(&[], BUFFER_SIZE).unwrap_err(), ExchangeError::Frame(FrameError::Empty));
    assert_eq!(response_from_bytes(&[]).unwrap_err(), ExchangeError::Frame(FrameError::Empty));
}

#[test]
fn reply_that_does_not_fit_is_not_sent() {
    let r = serve_received(br#"{"method":"ping","params":{}}"#, 10);
    assert_eq!(r.unwrap_err(), ExchangeError::Frame(FrameError::TooLarge));
}

#[test]
fn oversized_request_is_not_sent() {
    let big = serde_json::Value::from("y".repeat(BUFFER_SIZE));
    let request = Request::new("ping", big).unwrap();
    assert_eq!(
        request_bytes(&request, BUFFER_SIZE).unwrap_err(),
        ExchangeError::Frame(FrameError::TooLarge)
    );
}

#[test]
fn two_connections_get_their_own_responses() {
    let a = request_bytes(&ping_request(), BUFFER_SIZE).unwrap();
    let b = request_bytes(&Request::new("other", json("{}")).unwrap(), BUFFER_SIZE).unwrap();
    let reply_a = serve_received(&a, BUFFER_SIZE).unwrap();
    let reply_b = serve_received(&b, BUFFER_SIZE).unwrap();
    assert_eq!(response_from_bytes(&reply_a).unwrap().status, Status::Success);
    assert_eq!(response_from_bytes(&reply_b).unwrap().status, Status::Error);
}

#[test]
fn response_bytes_errors() {
    assert_eq!(
        response_from_bytes(b"{\"status\":\"ok\",\"data\":1}").unwrap_err(),
        ExchangeError::Decode(DecodeError::BadShape)
    );
    assert_eq!(
        response_from_bytes(&[0xc0]).unwrap_err(),
        ExchangeError::Frame(FrameError::InvalidText)
    );
}

#[test]
fn listener_stats_count_each_event() {
    let mut stats = ListenerStats::new();
    stats.record(ConnectionEvent::AcceptFailed);
    stats.record(ConnectionEvent::TransferFailed);
    stats.record(ConnectionEvent::TransferFailed);
    assert_eq!(stats.accept_failures, 1);
    assert_eq!(stats.transfer_failures, 2);
    assert_eq!(stats.served, 0);
    let mut full = ListenerStats { served: u64::MAX, abandoned: 0, transfer_failures: 0, accept_failures: 0 };
    full.record(ConnectionEvent::Served);
    assert_eq!(full.served, u64::MAX);
}

#[test]
fn port_configuration() {
    assert_eq!(vsock_port(None), Ok(DEFAULT_PORT));
    assert_eq!(vsock_port(Some("6000")), Ok(6000));
    assert_eq!(vsock_port(Some("+7")), Ok(7));
    assert_eq!(vsock_port(Some("4294967295")), Ok(u32::MAX));
    assert_eq!(vsock_port(Some("4294967296")), Err(ConfigError::InvalidPort));
    assert_eq!(vsock_port(Some("abc")), Err(ConfigError::InvalidPort));
    assert_eq!(vsock_port(Some("")), Err(ConfigError::InvalidPort));
    assert_eq!(vsock_port(Some("-1")), Err(ConfigError::InvalidPort));
    assert_eq!(vsock_port(Some("+")), Err(ConfigError::InvalidPort));
}

#[test]
fn endpoints() {
    assert_eq!(VsockEndpoint::host(5005), VsockEndpoint { cid: HOST_CID, port: 5005 });
    assert_eq!(VsockEndpoint::any(5005).cid, ANY_CID);
    assert_eq!(HOST_CID, 3);
}
