//! Per-connection reader decisions in broadcast mode.
//!
//! Each accepted connection gets a dedicated reader thread that attempts
//! an exact-size read of one frame from its non-blocking socket, then
//! acts on the outcome. The shell performs the read, the sleep and the
//! channel send; `reader_step` decides, from the outcome alone, which of
//! those actions follows.

use vstd::prelude::*;
use crate::frame::{decode_frame, frame_payload};

verus! {

/// How long the reader and the fan-out loop sleep between polls, in
/// milliseconds, so that an idle loop never spins without a pause.
pub const POLL_INTERVAL_MS: u64 = 100;

/// The outcome of one read attempt on a connection's socket.
#[derive(Debug, PartialEq, Eq)]
pub enum ReadEvent {
    /// An exact-size read filled one whole frame.
    Frame(Vec<u8>),
    /// The non-blocking socket had no data ready: not an error.
    WouldBlock,
    /// Any other I/O error: the connection is lost.
    Failed,
}

/// What the reader thread does next.
#[derive(Debug, PartialEq, Eq)]
pub enum ReaderAction {
    /// Publish this decoded message onto the inbound channel, then poll again.
    Publish(Vec<u8>),
    /// Sleep this many milliseconds, then poll again.
    Sleep(u64),
    /// Terminate the reader thread: the connection is retired.
    Abort,
}

/// Relies on core::str::from_utf8: it returns `Ok` exactly on byte
/// sequences that are valid UTF-8, as `vstd::utf8::valid_utf8` states it.
#[verifier::external_body]
fn utf8_ok(bytes: &Vec<u8>) -> (r: bool)
    ensures
        r == vstd::utf8::valid_utf8(bytes@),
{
    core::str::from_utf8(bytes.as_slice()).is_ok()
}

/// One turn of the reader loop. A received frame is stripped of its
/// padding and published if its payload decodes as UTF-8 text; a payload
/// that does not is fatal for this connection (invalid peer). An idle
/// socket is no error: the thread sleeps one poll interval and retries.
/// Any other read failure retires the connection.
pub fn reader_step(ev: ReadEvent) -> (r: ReaderAction)
    ensures
        match ev {
            ReadEvent::Frame(f) => {
                if vstd::utf8::valid_utf8(frame_payload(f@)) {
                    r matches ReaderAction::Publish(m) && m@ == frame_payload(f@)
                } else {
                    r is Abort
                }
            },
            ReadEvent::WouldBlock => r matches ReaderAction::Sleep(d) && d == POLL_INTERVAL_MS,
            ReadEvent::Failed => r is Abort,
        },
{
    match ev {
        ReadEvent::Frame(f) => {
            let payload = decode_frame(&f);
            if utf8_ok(&payload) {
                ReaderAction::Publish(payload)
            } else {
                ReaderAction::Abort
            }
        },
        ReadEvent::WouldBlock => ReaderAction::Sleep(POLL_INTERVAL_MS),
        ReadEvent::Failed => ReaderAction::Abort,
    }
}

} // verus!
