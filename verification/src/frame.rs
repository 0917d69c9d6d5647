//! The wire frame: a fixed-size byte buffer whose payload is the leading
//! run of non-zero bytes, the remainder zero padding.
//!
//! A message that does not fit in the frame is rejected (not truncated):
//! the sender keeps the message and may split or drop it itself.

use vstd::prelude::*;

verus! {

/// Size in bytes of one wire frame in broadcast mode.
pub const MESSAGE_SIZE: usize = 32;

/// The payload a frame carries: its longest prefix free of zero bytes.
pub open spec fn frame_payload(frame: Seq<u8>) -> Seq<u8>
    decreases frame.len(),
{
    if frame.len() == 0 || frame[0] == 0 {
        Seq::empty()
    } else {
        seq![frame[0]] + frame_payload(frame.drop_first())
    }
}

/// The frame carrying `msg`: the message followed by zero padding up to `size`.
pub open spec fn padded_frame(msg: Seq<u8>, size: nat) -> Seq<u8>
    recommends
        msg.len() <= size,
{
    msg + Seq::new((size - msg.len()) as nat, |i: int| 0u8)
}

/// Whether `msg` can ride in a frame of `size` bytes and come back intact:
/// it fits, and holds no zero byte (a zero would read as start of padding).
pub open spec fn encodable(msg: Seq<u8>, size: nat) -> bool {
    msg.len() <= size && forall|i: int| 0 <= i < msg.len() ==> msg[i] != 0
}

/// Pads `msg` with zero bytes to a frame of exactly `size` bytes.
/// Rejects a message longer than the frame.
pub fn encode_frame(msg: &Vec<u8>, size: usize) -> (r: Option<Vec<u8>>)
    ensures
        r is Some <==> msg@.len() <= size,
        r matches Some(f) ==> f@ == padded_frame(msg@, size as nat),
        r matches Some(f) ==> f@.len() == size,
{
    if msg.len() > size {
        return None;
    }
    let mut f: Vec<u8> = Vec::new();
    let mut i: usize = 0;
    while i < msg.len()
        invariant
            i <= msg@.len(),
            f@ == msg@.subrange(0, i as int),
        decreases msg@.len() - i,
    {
        f.push(msg[i]);
        i = i + 1;
        assert(f@ == msg@.subrange(0, i as int));
    }
    assert(f@ == msg@);
    while f.len() < size
        invariant
            msg@.len() <= f@.len() <= size,
            f@.subrange(0, msg@.len() as int) == msg@,
            forall|j: int| msg@.len() <= j < f@.len() ==> f@[j] == 0,
        decreases size - f@.len(),
    {
        f.push(0u8);
        assert(f@.subrange(0, msg@.len() as int) == msg@);
    }
    proof {
        assert(f@ =~= padded_frame(msg@, size as nat));
    }
    Some(f)
}

/// Strips the padding: returns the longest zero-free prefix of `frame`.
pub fn decode_frame(frame: &Vec<u8>) -> (r: Vec<u8>)
    ensures
        r@ == frame_payload(frame@),
{
    let mut out: Vec<u8> = Vec::new();
    let mut i: usize = 0;
    while i < frame.len() && frame[i] != 0
        invariant
            i <= frame@.len(),
            out@ == frame@.subrange(0, i as int),
            forall|j: int| 0 <= j < i ==> frame@[j] != 0,
        decreases frame@.len() - i,
    {
        out.push(frame[i]);
        i = i + 1;
        assert(out@ == frame@.subrange(0, i as int));
    }
    proof {
        lemma_payload_of_prefix(frame@, i as int);
        assert(out@ == frame_payload(frame@));
    }
    out
}

/// The payload of a frame whose first `i` bytes are non-zero and whose
/// byte `i`, if any, is zero, is exactly those first `i` bytes.
proof fn lemma_payload_of_prefix(frame: Seq<u8>, i: int)
    requires
        0 <= i <= frame.len(),
        forall|j: int| 0 <= j < i ==> frame[j] != 0,
        i == frame.len() || frame[i] == 0,
    ensures
        frame_payload(frame) == frame.subrange(0, i),
    decreases i,
{
    if i == 0 {
        assert(frame_payload(frame) == Seq::<u8>::empty());
        assert(frame.subrange(0, 0) =~= Seq::<u8>::empty());
    } else {
        let rest = frame.drop_first();
        assert(forall|j: int| 0 <= j < i - 1 ==> rest[j] != 0);
        lemma_payload_of_prefix(rest, i - 1);
        assert(frame.subrange(0, i) =~= seq![frame[0]] + rest.subrange(0, i - 1));
    }
}

/// Frame round-trip: a message that fits and holds no zero byte, padded
/// into a frame, decodes back to exactly the original message.
pub proof fn lemma_frame_round_trip(msg: Seq<u8>, size: nat)
    requires
        encodable(msg, size),
    ensures
        frame_payload(padded_frame(msg, size)) == msg,
{
    let f = padded_frame(msg, size);
    assert(forall|j: int| 0 <= j < msg.len() ==> f[j] == msg[j]);
    if msg.len() < size {
        assert(f[msg.len() as int] == 0);
    }
    lemma_payload_of_prefix(f, msg.len() as int);
    assert(f.subrange(0, msg.len() as int) =~= msg);
}

} // verus!
