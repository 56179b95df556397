//! Single-read message framing.
//!
//! A message travels as one write of its UTF-8 text, with no length prefix
//! and no delimiter; the receiver makes one bounded read into a buffer of a
//! fixed size and takes whatever arrived as the whole message. A message
//! must therefore fit in one buffer, which `frame_text` enforces on the
//! sending side. Explicit length-prefixed framing would lift that limit;
//! it is not done here, so that both peers keep speaking the same protocol.

use vstd::prelude::*;
use vstd::utf8::{valid_utf8, decode_utf8, encode_utf8, encode_utf8_valid_utf8, encode_utf8_decode_utf8};
use vstd::string::StringSliceAdditionalSpecFns;

verus! {

/// Size of the buffer a peer reads a message into.
pub const BUFFER_SIZE: usize = 8192;

/// Why bytes could not be sent or taken as a message.
#[derive(Clone, Copy, Debug, PartialEq, Eq, Structural)]
pub enum FrameError {
    /// The text needs more bytes than one read can hold.
    TooLarge,
    /// The read delivered no bytes: the peer closed without sending.
    Empty,
    /// The bytes are not UTF-8 text.
    InvalidText,
}

/// Relies on `std::str::from_utf8`: succeeds exactly on valid UTF-8, and
/// then holds the characters the bytes encode.
#[verifier::external_body]
fn utf8_text(b: &[u8]) -> (r: Option<String>)
    ensures
        r is Some <==> valid_utf8(b@),
        r matches Some(t) ==> t@ == decode_utf8(b@),
{
    std::str::from_utf8(b).ok().map(|s| s.to_string())
}

/// The bytes to send for a message text, if they fit in one read of
/// `buffer_size` bytes.
pub fn frame_text(text: &str, buffer_size: usize) -> (r: Result<Vec<u8>, FrameError>)
    ensures
        r is Ok <==> encode_utf8(text@).len() <= buffer_size,
        r matches Ok(b) ==> b@ == encode_utf8(text@),
        r matches Err(e) ==> e == FrameError::TooLarge,
{
    let bytes = text.as_bytes();
    if bytes.len() <= buffer_size {
        Ok(vstd::slice::slice_to_vec(bytes))
    } else {
        Err(FrameError::TooLarge)
    }
}

/// The message text in the bytes that one read delivered.
pub fn read_frame(received: &[u8]) -> (r: Result<String, FrameError>)
    ensures
        received@.len() == 0 ==> r == Err::<String, FrameError>(FrameError::Empty),
        received@.len() > 0 && !valid_utf8(received@) ==> r == Err::<String, FrameError>(
            FrameError::InvalidText,
        ),
        r is Ok <==> received@.len() > 0 && valid_utf8(received@),
        r matches Ok(t) ==> t@ == decode_utf8(received@),
{
    if received.len() == 0 {
        return Err(FrameError::Empty);
    }
    match utf8_text(received) {
        Some(t) => Ok(t),
        None => Err(FrameError::InvalidText),
    }
}

/// Every text comes back unchanged from its own bytes.
pub proof fn lemma_frame_round_trip(text: Seq<char>)
    ensures
        valid_utf8(encode_utf8(text)),
        decode_utf8(encode_utf8(text)) == text,
{
    encode_utf8_valid_utf8(text);
    encode_utf8_decode_utf8(text);
}

} // verus!
