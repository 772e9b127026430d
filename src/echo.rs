//! The echo correlation engine.
//!
//! A remote command echoes every byte it reads. The sender half writes one
//! frame per tick, tagged with the next sequence number, and records the send
//! time in the pending table; the receiver half reads frames back, looks their
//! sequence number up in that table, and turns a match into one round-trip
//! sample. Echoes may come back in any order, so matching goes by key, never by
//! position. An echo whose number is not pending (a duplicate, or corruption)
//! is reported and otherwise ignored.
//!
//! The caller owns the transport and the clock: it hands in the current time,
//! a whole number of microseconds on a monotonic clock, and the bytes that were
//! read, and it performs the sends and the teardown that the session asks for.

use crate::borrow_cell::BorrowCell;
use crate::frame::{be_value, decode_seq, frame_bytes, lemma_frame_round_trip, Frame};
use std::collections::HashMap;
use vstd::prelude::*;

verus! {

broadcast use vstd::std_specs::hash::group_hash_axioms;

/// Time from `sent_at` to `now`, or zero should the clock read earlier.
pub open spec fn rtt_of(sent_at: u64, now: u64) -> u64 {
    if now >= sent_at {
        (now - sent_at) as u64
    } else {
        0
    }
}

/// What the correlation of one run holds: the send time of each frame still in
/// flight, the samples in the order they were measured, and how many echoes
/// matched nothing.
pub struct Correlation {
    pub pending: Map<u64, u64>,
    pub samples: Seq<u64>,
    pub unexpected: nat,
}

/// The correlation after frame `seq` was sent at `now`.
pub open spec fn on_send(c: Correlation, seq: u64, now: u64) -> Correlation {
    Correlation { pending: c.pending.insert(seq, now), ..c }
}

/// The correlation after an echo carrying `seq` was read at `now`.
pub open spec fn on_echo(c: Correlation, seq: u64, now: u64) -> Correlation {
    if c.pending.contains_key(seq) {
        Correlation {
            pending: c.pending.remove(seq),
            samples: c.samples.push(rtt_of(c.pending[seq], now)),
            unexpected: c.unexpected,
        }
    } else {
        Correlation { unexpected: c.unexpected + 1, ..c }
    }
}

/// What reading one echo found.
#[derive(Debug, Clone, Copy, PartialEq, Eq, Structural)]
pub enum Reception {
    /// Frame `seq` was pending and came back after `rtt` microseconds.
    Matched { seq: u64, rtt: u64 },
    /// Frame `seq` was not pending: a duplicate or a corrupted echo.
    Unexpected { seq: u64 },
}

/// The report for an echo carrying `seq`, read at `now`.
pub open spec fn reception_of(c: Correlation, seq: u64, now: u64) -> Reception {
    if c.pending.contains_key(seq) {
        Reception::Matched { seq, rtt: rtt_of(c.pending[seq], now) }
    } else {
        Reception::Unexpected { seq }
    }
}

/// How to end the remote echo command.
#[derive(Debug, Clone, Copy, PartialEq, Eq, Structural)]
pub enum Teardown {
    /// Close its input so that it sees the end of it, then wait for its exit.
    CloseInputAndWait,
    /// Disconnect it at once, without waiting on pipes that may never close.
    Disconnect,
}

/// Echoes read in any order are each matched to their own send time: reading
/// two pending frames `a` and `b`, `a` first, removes both from the pending
/// table and appends exactly their two round-trip times, nothing else.
pub proof fn lemma_out_of_order_echoes(c: Correlation, a: u64, b: u64, t1: u64, t2: u64)
    requires
        a != b,
        c.pending.contains_key(a),
        c.pending.contains_key(b),
    ensures
        on_echo(on_echo(c, a, t1), b, t2).pending == c.pending.remove(a).remove(b),
        on_echo(on_echo(c, a, t1), b, t2).samples == c.samples.push(rtt_of(c.pending[a], t1)).push(
            rtt_of(c.pending[b], t2),
        ),
        on_echo(on_echo(c, a, t1), b, t2).unexpected == c.unexpected,
        reception_of(c, a, t1) == (Reception::Matched { seq: a, rtt: rtt_of(c.pending[a], t1) }),
        reception_of(on_echo(c, a, t1), b, t2) == (Reception::Matched {
            seq: b,
            rtt: rtt_of(c.pending[b], t2),
        }),
{
}

/// An echo whose frame was already matched is reported once as unexpected and
/// changes neither the samples nor the pending table.
pub proof fn lemma_duplicate_echo(c: Correlation, a: u64, t1: u64, t2: u64)
    requires
        c.pending.contains_key(a),
    ensures
        reception_of(on_echo(c, a, t1), a, t2) == (Reception::Unexpected { seq: a }),
        on_echo(on_echo(c, a, t1), a, t2).unexpected == c.unexpected + 1,
        on_echo(on_echo(c, a, t1), a, t2).samples == c.samples.push(rtt_of(c.pending[a], t1)),
        on_echo(on_echo(c, a, t1), a, t2).pending == c.pending.remove(a),
{
}

/// A frame sent at `t_send` and echoed back unchanged at `t_recv` is matched
/// to its own send time: it leaves the pending table and adds the one sample
/// `t_recv - t_send`.
pub proof fn lemma_echo_of_sent_frame(c: Correlation, seq: u64, p: nat, t_send: u64, t_recv: u64)
    requires
        p >= 1,
    ensures
        on_echo(on_send(c, seq, t_send), be_value(frame_bytes(seq, p)), t_recv) == (Correlation {
            pending: c.pending.insert(seq, t_send).remove(seq),
            samples: c.samples.push(rtt_of(t_send, t_recv)),
            unexpected: c.unexpected,
        }),
        reception_of(on_send(c, seq, t_send), be_value(frame_bytes(seq, p)), t_recv) == (
        Reception::Matched { seq, rtt: rtt_of(t_send, t_recv) }),
{
    lemma_frame_round_trip(seq, p);
}

/// The state of one echo run: the frame buffer and progress of the sender, the
/// progress of the receiver, and the correlation they share.
pub struct EchoSession {
    count: u64,
    frame: Frame,
    sent: u64,
    received: u64,
    pending: BorrowCell<HashMap<u64, u64>>,
    samples: Vec<u64>,
    unexpected: u64,
    cancelled: bool,
}

impl EchoSession {
    /// The correlation found so far.
    pub closed spec fn correlation(&self) -> Correlation {
        Correlation {
            pending: match self.pending@ {
                Some(t) => t@,
                None => Map::empty(),
            },
            samples: self.samples@,
            unexpected: self.unexpected as nat,
        }
    }

    /// Number of frames the run sends and reads back.
    pub closed spec fn count_spec(&self) -> u64 {
        self.count
    }

    /// Bytes per frame after the sequence field.
    pub closed spec fn payload_spec(&self) -> u64 {
        self.frame.payload_spec()
    }

    /// Frames sent so far; the next frame carries this sequence number.
    pub closed spec fn sent_spec(&self) -> u64 {
        self.sent
    }

    /// Echoes read so far.
    pub closed spec fn received_spec(&self) -> u64 {
        self.received
    }

    /// Whether the run was cancelled.
    pub closed spec fn cancelled_spec(&self) -> bool {
        self.cancelled
    }

    /// The bytes of the frame buffer.
    pub closed spec fn frame_view(&self) -> Seq<u8> {
        self.frame@
    }

    /// Every echo read either added one sample or one unexpected report, the
    /// pending table is back in its slot, and the frame buffer is whole.
    pub closed spec fn wf(&self) -> bool {
        &&& self.frame.wf()
        &&& self.pending@ is Some
        &&& self.sent <= self.count
        &&& self.received <= self.count
        &&& self.samples@.len() + self.unexpected == self.received
    }

    /// A run of `count` frames with `payload_size` bytes after the sequence
    /// field, nothing sent yet.
    pub fn new(count: u64, payload_size: u64) -> (s: EchoSession)
        requires
            payload_size >= 1,
            payload_size <= usize::MAX - 8,
        ensures
            s.wf(),
            s.count_spec() == count,
            s.payload_spec() == payload_size,
            s.sent_spec() == 0,
            s.received_spec() == 0,
            !s.cancelled_spec(),
            s.correlation() == (Correlation {
                pending: Map::empty(),
                samples: Seq::empty(),
                unexpected: 0,
            }),
    {
        EchoSession {
            count,
            frame: Frame::new(payload_size),
            sent: 0,
            received: 0,
            pending: BorrowCell::new(HashMap::new()),
            samples: Vec::new(),
            unexpected: 0,
            cancelled: false,
        }
    }

    /// Whether the sender has nothing more to send.
    pub fn sender_done(&self) -> (r: bool)
        ensures
            r == (self.cancelled_spec() || self.sent_spec() >= self.count_spec()),
    {
        self.cancelled || self.sent >= self.count
    }

    /// Whether the receiver has nothing more to read.
    pub fn receiver_done(&self) -> (r: bool)
        ensures
            r == (self.cancelled_spec() || self.received_spec() >= self.count_spec()),
    {
        self.cancelled || self.received >= self.count
    }

    /// Length of every frame, sent or echoed.
    pub fn frame_len(&self) -> (r: usize)
        requires
            self.wf(),
        ensures
            r == 8 + self.payload_spec(),
    {
        self.frame.len()
    }

    /// Prepares the next frame, sent at `now`: puts its sequence number into
    /// the frame buffer and records the send time as pending. Returns that
    /// sequence number, or `None` when the sender is done.
    pub fn send_next(&mut self, now: u64) -> (r: Option<u64>)
        requires
            old(self).wf(),
        ensures
            final(self).wf(),
            final(self).count_spec() == old(self).count_spec(),
            final(self).payload_spec() == old(self).payload_spec(),
            final(self).received_spec() == old(self).received_spec(),
            final(self).cancelled_spec() == old(self).cancelled_spec(),
            old(self).cancelled_spec() || old(self).sent_spec() >= old(self).count_spec() ==> {
                &&& r is None
                &&& final(self).sent_spec() == old(self).sent_spec()
                &&& final(self).correlation() == old(self).correlation()
                &&& final(self).frame_view() == old(self).frame_view()
            },
            !(old(self).cancelled_spec() || old(self).sent_spec() >= old(self).count_spec()) ==> {
                &&& r == Some(old(self).sent_spec())
                &&& final(self).sent_spec() == old(self).sent_spec() + 1
                &&& final(self).correlation() == on_send(
                    old(self).correlation(),
                    old(self).sent_spec(),
                    now,
                )
                &&& final(self).frame_view() == frame_bytes(
                    old(self).sent_spec(),
                    old(self).payload_spec() as nat,
                )
            },
    {
        if self.cancelled || self.sent >= self.count {
            return None;
        }
        let seq = self.sent;
        self.frame.set_seq(seq);
        let mut table = self.pending.borrow();
        table.get_mut().insert(seq, now);
        table.release(&mut self.pending);
        self.sent = seq + 1;
        Some(seq)
    }

    /// The frame buffer, to be written whole to the echo command.
    pub fn frame(&self) -> (r: &[u8])
        ensures
            r@ == self.frame_view(),
    {
        self.frame.as_slice()
    }

    /// Takes in one echoed frame, read at `now`: a pending sequence number
    /// becomes a sample and leaves the table; any other is reported as
    /// unexpected.
    pub fn receive(&mut self, echoed: &[u8], now: u64) -> (r: Reception)
        requires
            old(self).wf(),
            !old(self).cancelled_spec(),
            old(self).received_spec() < old(self).count_spec(),
            echoed@.len() == 8 + old(self).payload_spec(),
        ensures
            final(self).wf(),
            final(self).count_spec() == old(self).count_spec(),
            final(self).payload_spec() == old(self).payload_spec(),
            final(self).sent_spec() == old(self).sent_spec(),
            final(self).cancelled_spec() == old(self).cancelled_spec(),
            final(self).frame_view() == old(self).frame_view(),
            final(self).received_spec() == old(self).received_spec() + 1,
            r == reception_of(old(self).correlation(), be_value(echoed@), now),
            final(self).correlation() == on_echo(old(self).correlation(), be_value(echoed@), now),
    {
        let seq = decode_seq(echoed).unwrap();
        let ghost before = old(self).correlation().pending;
        let mut table = self.pending.borrow();
        let found = table.get_mut().remove(&seq);
        self.received = self.received + 1;
        let r = match found {
            Some(sent_at) => {
                let rtt = if now >= sent_at {
                    now - sent_at
                } else {
                    0
                };
                self.samples.push(rtt);
                Reception::Matched { seq, rtt }
            },
            None => {
                assert(before.remove(seq) =~= before);
                self.unexpected = self.unexpected + 1;
                Reception::Unexpected { seq }
            },
        };
        table.release(&mut self.pending);
        r
    }

    /// Stops both halves at once. What was measured is kept; the echo command
    /// is to be disconnected, not waited for.
    pub fn cancel(&mut self) -> (r: Teardown)
        requires
            old(self).wf(),
        ensures
            final(self).wf(),
            r == Teardown::Disconnect,
            final(self).cancelled_spec(),
            final(self).correlation() == old(self).correlation(),
            final(self).count_spec() == old(self).count_spec(),
            final(self).payload_spec() == old(self).payload_spec(),
            final(self).sent_spec() == old(self).sent_spec(),
            final(self).received_spec() == old(self).received_spec(),
    {
        self.cancelled = true;
        Teardown::Disconnect
    }

    /// How to end the echo command once both halves are done.
    pub fn teardown(&self) -> (r: Teardown)
        ensures
            r == if self.cancelled_spec() {
                Teardown::Disconnect
            } else {
                Teardown::CloseInputAndWait
            },
    {
        if self.cancelled {
            Teardown::Disconnect
        } else {
            Teardown::CloseInputAndWait
        }
    }

    /// The round-trip times measured so far, in microseconds, in the order
    /// they were measured.
    pub fn samples(&self) -> (r: &[u64])
        ensures
            r@ == self.correlation().samples,
    {
        self.samples.as_slice()
    }

    /// Number of echoes that matched no pending frame.
    pub fn unexpected(&self) -> (r: u64)
        ensures
            r == self.correlation().unexpected,
    {
        self.unexpected
    }

    /// Number of frames sent and not yet matched: at the end of a run, the
    /// frames that were lost.
    pub fn outstanding(&self) -> (r: usize)
        requires
            self.wf(),
        ensures
            r == self.correlation().pending.len(),
    {
        self.pending.get().len()
    }
}

} // verus!
