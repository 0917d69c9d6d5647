//! Per-connection handler decisions in pooled echo mode.
//!
//! A connection handled by a pool worker reads into a fixed buffer over
//! and over. The first successful read announces the peer's username;
//! every later one is a message, echoed back to the sender as the whole
//! raw buffer — stale trailing bytes from earlier reads included, which
//! is the wire behaviour of this mode. A read of zero bytes is an
//! orderly close; an I/O error is a connection loss.

use vstd::prelude::*;

verus! {

/// Size in bytes of the read buffer in pooled echo mode.
pub const ECHO_BUFFER_SIZE: usize = 240;

/// What the handler has seen from this connection so far.
#[derive(Debug, PartialEq, Eq)]
pub enum EchoPhase {
    /// No read yet: the next frame names the peer.
    AwaitUsername,
    /// The username is known: every further frame is a message.
    Chatting,
}

/// The outcome of one read into the handler's buffer.
#[derive(Debug, PartialEq, Eq)]
pub enum EchoEvent {
    /// `n` bytes were read into the front of the buffer.
    Data(usize),
    /// A read of zero bytes: the peer closed in an orderly way.
    Eof,
    /// An I/O error: the connection is lost.
    Failed,
}

/// What the handler does next.
#[derive(Debug, PartialEq, Eq)]
pub enum EchoAction {
    /// Log these bytes as the peer's username; echo nothing.
    Announce(Vec<u8>),
    /// Log the message and write these bytes — the whole buffer,
    /// stale tail included — back to the sender.
    EchoBack(Vec<u8>),
    /// Return success: the peer is done.
    Finish,
    /// Abort the handler: the connection is lost.
    Fail,
}

/// One turn of the echo handler. `buffer` is the handler's read buffer;
/// on `Data(n)`, its first `n` bytes are what the peer just sent.
pub fn echo_step(phase: EchoPhase, buffer: &Vec<u8>, ev: EchoEvent) -> (r: (EchoPhase, EchoAction))
    requires
        ev matches EchoEvent::Data(n) ==> 0 < n <= buffer@.len(),
    ensures
        match ev {
            EchoEvent::Data(n) => match phase {
                EchoPhase::AwaitUsername => {
                    &&& r.0 is Chatting
                    &&& r.1 matches EchoAction::Announce(u) && u@ == buffer@.subrange(0, n as int)
                },
                EchoPhase::Chatting => {
                    &&& r.0 is Chatting
                    &&& r.1 matches EchoAction::EchoBack(b) && b@ == buffer@
                },
            },
            EchoEvent::Eof => r.0 == phase && r.1 is Finish,
            EchoEvent::Failed => r.0 == phase && r.1 is Fail,
        },
{
    match ev {
        EchoEvent::Data(n) => match phase {
            EchoPhase::AwaitUsername => {
                let mut name: Vec<u8> = Vec::new();
                let mut i: usize = 0;
                while i < n
                    invariant
                        i <= n,
                        n <= buffer@.len(),
                        name@ == buffer@.subrange(0, i as int),
                    decreases n - i,
                {
                    name.push(buffer[i]);
                    i = i + 1;
                    assert(name@ == buffer@.subrange(0, i as int));
                }
                (EchoPhase::Chatting, EchoAction::Announce(name))
            },
            EchoPhase::Chatting => (EchoPhase::Chatting, EchoAction::EchoBack(buffer.clone())),
        },
        EchoEvent::Eof => (phase, EchoAction::Finish),
        EchoEvent::Failed => (phase, EchoAction::Fail),
    }
}

} // verus!
