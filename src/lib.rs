//! A two-party request/response bridge between an enclave and its host:
//! connection retry policy, single-read message framing, the request and
//! response shapes on top of JSON, and the host's dispatcher.

pub mod retry;
pub mod framing;
pub mod json;
pub mod message;
pub mod dispatch;
pub mod exchange;
pub mod listener;
pub mod config;
