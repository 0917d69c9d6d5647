//! The broadcast registry: the live set of connected client sockets and
//! the fan-out and pruning rules of the main poll loop.
//!
//! The registry is owned and mutated by the single fan-out loop alone;
//! reader threads reach it only through the inbound-message channel. A
//! client is identified by the number the registry handed out when its
//! connection was accepted; the socket itself stays with the shell, which
//! keeps its own id-to-socket table in step by these contracts.
//!
//! Fan-out is flat: one inbound message is addressed to every registered
//! client, the sender included (a single shared channel, no self-echo
//! suppression).

use vstd::prelude::*;
use crate::frame::{encodable, encode_frame, padded_frame, MESSAGE_SIZE};

verus! {

/// The clients that remain after one fan-out: those whose write
/// succeeded, in their original order.
pub open spec fn kept(clients: Seq<u64>, ok: Seq<bool>) -> Seq<u64>
    recommends
        ok.len() == clients.len(),
    decreases clients.len(),
{
    if clients.len() == 0 {
        Seq::empty()
    } else {
        let rest = kept(clients.drop_last(), ok.drop_last());
        if ok[clients.len() - 1] {
            rest.push(clients.last())
        } else {
            rest
        }
    }
}

/// The live set of client connections eligible to receive broadcasts.
pub struct Registry {
    /// Ids of the registered clients, in order of connection.
    pub clients: Vec<u64>,
    /// The id the next accepted connection will get.
    pub next_id: u64,
}

impl Registry {
    /// Every registered id was handed out by `register`, and no id twice:
    /// an id names one connection.
    pub open spec fn wf(self) -> bool {
        &&& forall|i: int| 0 <= i < self.clients@.len() ==> #[trigger] self.clients@[i] < self.next_id
        &&& forall|i: int, k: int|
            0 <= i < k < self.clients@.len() ==> self.clients@[i] != self.clients@[k]
    }

    /// An empty registry: no client connected yet.
    pub fn new() -> (r: Registry)
        ensures
            r.wf(),
            r.clients@ === Seq::empty(),
            r.next_id == 0,
    {
        Registry { clients: Vec::new(), next_id: 0 }
    }

    /// Registers one newly accepted connection and returns its id. The
    /// id counter must not be exhausted (it never is in practice: ids
    /// are handed out one per accepted connection).
    pub fn register(&mut self) -> (id: u64)
        requires
            old(self).wf(),
            old(self).next_id < u64::MAX,
        ensures
            final(self).wf(),
            id == old(self).next_id,
            final(self).clients@ == old(self).clients@.push(id),
            final(self).next_id == old(self).next_id + 1,
    {
        let id = self.next_id;
        self.clients.push(id);
        self.next_id = self.next_id + 1;
        id
    }

    /// Plans one fan-out: pairs every registered client with the frame
    /// carrying `msg`, in registry order. Refused if and only if the
    /// message does not fit in one frame; the registry is left for
    /// `apply_write_results` to prune once the writes have been tried.
    pub fn fan_out(&self, msg: &Vec<u8>) -> (r: Option<Vec<(u64, Vec<u8>)>>)
        requires
            self.wf(),
        ensures
            r is Some <==> msg@.len() <= MESSAGE_SIZE,
            r matches Some(plan) ==> {
                &&& plan@.len() == self.clients@.len()
                &&& forall|i: int|
                    0 <= i < plan@.len() ==> (#[trigger] plan@[i]).0 == self.clients@[i]
                        && plan@[i].1@ == padded_frame(msg@, MESSAGE_SIZE as nat)
            },
    {
        let frame = match encode_frame(msg, MESSAGE_SIZE) {
            Some(f) => f,
            None => {
                return None;
            },
        };
        let mut plan: Vec<(u64, Vec<u8>)> = Vec::new();
        let mut i: usize = 0;
        while i < self.clients.len()
            invariant
                i <= self.clients@.len(),
                plan@.len() == i,
                frame@ == padded_frame(msg@, MESSAGE_SIZE as nat),
                forall|k: int|
                    0 <= k < i ==> (#[trigger] plan@[k]).0 == self.clients@[k] && plan@[k].1@
                        == padded_frame(msg@, MESSAGE_SIZE as nat),
            decreases self.clients@.len() - i,
        {
            plan.push((self.clients[i], frame.clone()));
            i = i + 1;
        }
        Some(plan)
    }

    /// Prunes the registry after one fan-out: `ok[i]` says whether the
    /// write to the `i`-th client succeeded; exactly the clients whose
    /// write succeeded remain, in their original order.
    pub fn apply_write_results(&mut self, ok: &Vec<bool>)
        requires
            old(self).wf(),
            ok@.len() == old(self).clients@.len(),
        ensures
            final(self).wf(),
            final(self).clients@ == kept(old(self).clients@, ok@),
            final(self).next_id == old(self).next_id,
    {
        let mut out: Vec<u64> = Vec::new();
        let mut i: usize = 0;
        while i < self.clients.len()
            invariant
                i <= self.clients@.len(),
                ok@.len() == self.clients@.len(),
                out@ == kept(self.clients@.subrange(0, i as int), ok@.subrange(0, i as int)),
            decreases self.clients@.len() - i,
        {
            if ok[i] {
                out.push(self.clients[i]);
            }
            i = i + 1;
            proof {
                let c = self.clients@.subrange(0, i as int);
                let o = ok@.subrange(0, i as int);
                assert(c.drop_last() =~= self.clients@.subrange(0, i - 1));
                assert(o.drop_last() =~= ok@.subrange(0, i - 1));
            }
        }
        proof {
            assert(self.clients@.subrange(0, self.clients@.len() as int) =~= self.clients@);
            assert(ok@.subrange(0, ok@.len() as int) =~= ok@);
        }
        self.clients = out;
        proof {
            lemma_kept_wf(old(self).clients@, ok@, self.next_id);
        }
    }
}

/// Pruning keeps the registry well formed: every survivor was registered
/// before, and no id is duplicated by pruning.
proof fn lemma_kept_wf(clients: Seq<u64>, ok: Seq<bool>, bound: u64)
    requires
        ok.len() == clients.len(),
        forall|i: int| 0 <= i < clients.len() ==> #[trigger] clients[i] < bound,
        forall|i: int, k: int| 0 <= i < k < clients.len() ==> clients[i] != clients[k],
    ensures
        forall|i: int| 0 <= i < kept(clients, ok).len() ==> #[trigger] kept(clients, ok)[i] < bound,
        forall|i: int, k: int|
            0 <= i < k < kept(clients, ok).len() ==> kept(clients, ok)[i] != kept(clients, ok)[k],
    decreases clients.len(),
{
    if clients.len() > 0 {
        let n = clients.len() - 1;
        let c0 = clients.drop_last();
        let o0 = ok.drop_last();
        lemma_kept_wf(c0, o0, bound);
        lemma_kept_members(c0, o0);
        assert(forall|i: int| 0 <= i < c0.len() ==> #[trigger] c0[i] == clients[i]);
        let r = kept(clients, ok);
        if ok[n] {
            assert(r == kept(c0, o0).push(clients[n]));
            assert(clients[n] < bound);
            assert forall|i: int, k: int| 0 <= i < k < r.len() implies r[i] != r[k] by {
                if k == r.len() - 1 {
                    assert(r[i] == kept(c0, o0)[i]);
                    assert(c0.contains(kept(c0, o0)[i]));
                    let m = choose|m: int| 0 <= m < c0.len() && c0[m] == kept(c0, o0)[i];
                    assert(clients[m] == r[i]);
                    assert(clients[m] != clients[n]);
                } else {
                    assert(r[i] == kept(c0, o0)[i] && r[k] == kept(c0, o0)[k]);
                }
            }
        } else {
            assert(r == kept(c0, o0));
        }
    }
}

/// Every client kept after a prune stands somewhere in the old registry.
proof fn lemma_kept_members(clients: Seq<u64>, ok: Seq<bool>)
    requires
        ok.len() == clients.len(),
    ensures
        forall|i: int|
            0 <= i < kept(clients, ok).len() ==> clients.contains(#[trigger] kept(clients, ok)[i]),
    decreases clients.len(),
{
    if clients.len() > 0 {
        let c0 = clients.drop_last();
        let o0 = ok.drop_last();
        lemma_kept_members(c0, o0);
        assert forall|i: int| 0 <= i < kept(clients, ok).len() implies clients.contains(
            #[trigger] kept(clients, ok)[i],
        ) by {
            if i < kept(c0, o0).len() {
                assert(c0.contains(kept(c0, o0)[i]));
                let k = choose|k: int| 0 <= k < c0.len() && c0[k] == kept(c0, o0)[i];
                assert(clients[k] == kept(clients, ok)[i]);
            } else {
                assert(clients[clients.len() - 1] == kept(clients, ok)[i]);
            }
        }
    }
}

/// Dead-peer pruning: after one fan-out, a client whose write failed is
/// out of the registry — later broadcasts never try to reach it again —
/// and every client whose write succeeded is still there.
pub proof fn lemma_prune(clients: Seq<u64>, ok: Seq<bool>)
    requires
        ok.len() == clients.len(),
        forall|i: int, k: int| 0 <= i < k < clients.len() ==> clients[i] != clients[k],
    ensures
        forall|i: int|
            0 <= i < clients.len() && !ok[i] ==> !kept(clients, ok).contains(#[trigger] clients[i]),
        forall|i: int|
            0 <= i < clients.len() && ok[i] ==> kept(clients, ok).contains(#[trigger] clients[i]),
    decreases clients.len(),
{
    if clients.len() > 0 {
        let c0 = clients.drop_last();
        let o0 = ok.drop_last();
        lemma_prune(c0, o0);
        lemma_kept_members(c0, o0);
        let n = clients.len() - 1;
        assert(forall|i: int| 0 <= i < c0.len() ==> #[trigger] c0[i] == clients[i]);
        assert forall|i: int| 0 <= i < clients.len() && !ok[i] implies !kept(clients, ok).contains(
            #[trigger] clients[i],
        ) by {
            if i < n {
                assert(!kept(c0, o0).contains(clients[i]));
                if ok[n] {
                    if kept(clients, ok).contains(clients[i]) {
                        let k = choose|k: int|
                            0 <= k < kept(clients, ok).len() && kept(clients, ok)[k] == clients[i];
                        if k < kept(c0, o0).len() {
                            assert(kept(c0, o0)[k] == clients[i]);
                            assert(kept(c0, o0).contains(clients[i]));
                        } else {
                            assert(clients[i] == clients[n]);
                        }
                    }
                }
            } else {
                // the failed write was the last client's: were it kept,
                // it would stand in the old registry twice
                if kept(clients, ok).contains(clients[i]) {
                    assert(kept(clients, ok) == kept(c0, o0));
                    let k = choose|k: int|
                        0 <= k < kept(clients, ok).len() && kept(clients, ok)[k] == clients[i];
                    assert(kept(c0, o0)[k] == clients[n]);
                    assert(kept(c0, o0).contains(clients[n]));
                    let m = choose|m: int| 0 <= m < c0.len() && c0[m] == clients[n];
                    assert(clients[m] == clients[n]);
                }
            }
        }
        assert forall|i: int| 0 <= i < clients.len() && ok[i] implies kept(clients, ok).contains(
            #[trigger] clients[i],
        ) by {
            if i < n {
                assert(c0[i] == clients[i] && o0[i] == ok[i]);
                assert(kept(c0, o0).contains(c0[i]));
                let k = choose|k: int|
                    0 <= k < kept(c0, o0).len() && kept(c0, o0)[k] == clients[i];
                assert(kept(clients, ok)[k] == clients[i]);
            } else {
                assert(kept(clients, ok).last() == clients[n]);
            }
        }
    }
}

/// Broadcast fan-out: with `fan_out`'s contract, every registered client
/// is addressed with the same frame, and that frame decodes back to the
/// message sent — so all other connected clients (and the sender itself)
/// receive the message intact.
pub proof fn lemma_fanout_delivers(msg: Seq<u8>)
    requires
        encodable(msg, MESSAGE_SIZE as nat),
    ensures
        crate::frame::frame_payload(padded_frame(msg, MESSAGE_SIZE as nat)) == msg,
{
    crate::frame::lemma_frame_round_trip(msg, MESSAGE_SIZE as nat);
}

} // verus!
