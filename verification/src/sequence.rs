//! 802.11 sequence numbers: one independent 12-bit counter per traffic
//! identifier, wrapping modulo 4096.
//!
//! Traffic identifier 0 is the non-QoS counter; 1 to 16 stand for the
//! sixteen QoS traffic identifiers. Every counter starts at zero and is not
//! persisted. A call advances its counter and returns the new value, so the
//! first sequence number ever issued is 1.

use vstd::prelude::*;

verus! {

/// The modulus of an 802.11 sequence number.
pub const SEQ_NUM_MODULUS: u16 = 4096;

/// The number of independent counters: one non-QoS and sixteen QoS.
pub const NUM_TRAFFIC_IDS: usize = 17;

pub struct SequenceManager {
    counters: Vec<u16>,
}

/// The sequence number returned by the `k`-th call (counting from 1) on a
/// counter that currently holds `start`.
pub open spec fn nth_seq_num(start: u16, k: nat) -> u16 {
    (((start + k) % (SEQ_NUM_MODULUS as int)) as u16)
}

impl SequenceManager {
    /// Seventeen counters, each a value below 4096.
    pub open spec fn wf(&self) -> bool {
        self.counters_spec().len() == NUM_TRAFFIC_IDS
            && (forall|i: int| 0 <= i < self.counters_spec().len()
                ==> #[trigger] self.counters_spec()[i] < SEQ_NUM_MODULUS)
    }

    /// The current value of every counter.
    pub closed spec fn counters_spec(&self) -> Seq<u16> {
        self.counters@
    }

    /// All counters start at zero.
    pub fn new() -> (r: Self)
        ensures
            r.wf(),
            forall|i: int| 0 <= i < NUM_TRAFFIC_IDS ==> #[trigger] r.counters_spec()[i] == 0,
    {
        let mut counters: Vec<u16> = Vec::new();
        let mut i: usize = 0;
        while i < NUM_TRAFFIC_IDS
            invariant
                i <= NUM_TRAFFIC_IDS,
                counters@.len() == i,
                forall|j: int| 0 <= j < i ==> #[trigger] counters@[j] == 0,
            decreases NUM_TRAFFIC_IDS - i,
        {
            counters.push(0);
            i = i + 1;
        }
        SequenceManager { counters }
    }

    /// Advances the counter of the given traffic identifier modulo 4096 and
    /// returns the new value; every other counter is untouched.
    pub fn next(&mut self, tid: u8) -> (sn: u16)
        requires
            old(self).wf(),
            tid < NUM_TRAFFIC_IDS as u8,
        ensures
            final(self).wf(),
            sn == nth_seq_num(old(self).counters_spec()[tid as int], 1),
            sn < SEQ_NUM_MODULUS,
            final(self).counters_spec() == old(self).counters_spec().update(tid as int, sn),
    {
        let cur = self.counters[tid as usize];
        let sn = if cur >= SEQ_NUM_MODULUS - 1 {
            0
        } else {
            cur + 1
        };
        self.counters[tid as usize] = sn;
        sn
    }
}

/// Law: on one counter, no two of 4096 consecutive calls return the same
/// value, so the 4096 calls return each value in [0, 4095] exactly once.
pub proof fn lemma_seq_num_distinct(start: u16, i: nat, j: nat)
    requires
        start < SEQ_NUM_MODULUS,
        1 <= i < j <= SEQ_NUM_MODULUS,
    ensures
        nth_seq_num(start, i) != nth_seq_num(start, j),
{
    let m = SEQ_NUM_MODULUS as int;
    let a = (start + i) as int;
    let b = (start + j) as int;
    vstd::arithmetic::div_mod::lemma_fundamental_div_mod(a, m);
    vstd::arithmetic::div_mod::lemma_fundamental_div_mod(b, m);
    if a % m == b % m {
        let d = b / m - a / m;
        assert(b - a == m * d) by (nonlinear_arith)
            requires
                a == m * (a / m) + a % m,
                b == m * (b / m) + b % m,
                a % m == b % m,
                d == b / m - a / m,
        ;
        assert(d >= 1 ==> m * d >= m) by (nonlinear_arith)
            requires
                m > 0,
        ;
        assert(d <= 0 ==> m * d <= 0) by (nonlinear_arith)
            requires
                m > 0,
        ;
    }
}

/// Law: the 4096th call after a counter held `start` returns `start` again;
/// in particular a fresh counter, which holds 0, wraps back to 0.
pub proof fn lemma_seq_num_wraps(start: u16)
    requires
        start < SEQ_NUM_MODULUS,
    ensures
        nth_seq_num(start, SEQ_NUM_MODULUS as nat) == start,
{
}

/// Law: the counter value after a call is what the next call starts from,
/// so `nth_seq_num` chains: one more call advances by one, modulo 4096.
pub proof fn lemma_seq_num_step(start: u16, k: nat)
    requires
        start < SEQ_NUM_MODULUS,
        k >= 1,
    ensures
        nth_seq_num(start, k + 1) == nth_seq_num(nth_seq_num(start, k), 1),
{
    let m = SEQ_NUM_MODULUS as int;
    let a = start + k;
    assert((a + 1) % m == (a % m + 1) % m) by (nonlinear_arith)
        requires
            m > 0,
    ;
}

} // verus!
