//! Deterministic test payload generation: a pure per-packet pattern and the
//! generator state that fills the write slot with it.
use vstd::prelude::*;
use vstd::pervasive::VecAdditionalExecFns;
use crate::double_buffer::{RawBuffer, CAPACITY};

verus! {

/// How many packets one server session produces in total.
pub const PACKETS_TO_SEND: u64 = 100_000;

/// The payload byte of packet `seq_no`: the ASCII digit of the sequence
/// number's last decimal digit.
pub open spec fn pattern_spec(seq_no: u64) -> u8 {
    (48 + seq_no % 10) as u8
}

/// The deterministic, inspectable pattern byte, callable identically from
/// the generator and from tests; no hidden state.
pub fn pattern(seq_no: u64) -> (b: u8)
    ensures
        b == pattern_spec(seq_no),
{
    48u8 + ((seq_no % 10) as u8)
}

/// Produces the test payload, one packet per call, up to a configured total.
#[derive(Clone, Copy, Debug, PartialEq, Eq)]
pub struct Generator {
    /// Sequence number of the next packet; the first packet is number 1.
    pub next_seq: u64,
    /// Packets still to produce before this session's budget is spent.
    pub remaining: u64,
}

impl Generator {
    pub fn new(total_packets: u64) -> (g: Generator)
        ensures
            g.next_seq == 1,
            g.remaining == total_packets,
    {
        Generator { next_seq: 1, remaining: total_packets }
    }

    /// Fill `slot` completely with this packet's pattern byte, mark the
    /// whole capacity valid, and consume one packet of the budget. Returns
    /// the length written.
    pub fn fill(&mut self, slot: &mut RawBuffer) -> (len: usize)
        requires
            old(slot).wf(),
            old(self).remaining > 0,
            old(self).next_seq < u64::MAX,
        ensures
            final(slot).wf(),
            len == CAPACITY,
            final(slot).len == CAPACITY,
            final(slot).valid_bytes() == Seq::new(
                CAPACITY as nat,
                |i: int| pattern_spec(old(self).next_seq),
            ),
            final(self).next_seq == old(self).next_seq + 1,
            final(self).remaining == old(self).remaining - 1,
    {
        let b: u8 = pattern(self.next_seq);
        let mut i: usize = 0;
        while i < CAPACITY
            invariant
                i <= CAPACITY,
                slot.buffer@.len() == CAPACITY,
                forall|j: int| 0 <= j < i ==> slot.buffer@[j] == b,
            decreases CAPACITY - i,
        {
            slot.buffer.set(i, b);
            i = i + 1;
        }
        slot.len = CAPACITY;
        self.next_seq = self.next_seq + 1;
        self.remaining = self.remaining - 1;
        proof {
            assert(slot.valid_bytes() =~= Seq::new(
                CAPACITY as nat,
                |j: int| pattern_spec(old(self).next_seq),
            ));
        }
        CAPACITY
    }
}

} // verus!
