//! Decisions of the test frame sender: which frame comes next, counting
//! written frames and advancing the generator after each full pass over the
//! frame set of the selected ECU.

use vstd::prelude::*;
use vstd::arithmetic::div_mod::{lemma_add_mod_noop, lemma_fundamental_div_mod, lemma_fundamental_div_mod_converse, lemma_mod_pos_bound};

use crate::constants::SCS_MESSAGE_IDS;
use crate::maxx::{maxx_frame, MaxxTestGenerator, MAXX_MESSAGE_IDS};
use crate::scs::{scs_frame, ScsTestGenerator};

verus! {

/// What became of one frame of the cycle.
#[derive(Clone, Copy, Debug, PartialEq, Eq, Structural)]
pub enum TxOutcome {
    /// The frame was queued for transmission.
    Sent,
    /// The transmit queue was full; the frame was dropped.
    QueueFull,
    /// The frame could not be built; the sender skips to the next id
    /// without reporting.
    Rejected,
}

/// Whether a written count is to be reported: a positive multiple of the
/// frame set size `n`.
pub open spec fn report_due(count: u32, n: int) -> bool {
    (count as int) % n == 0 && count > 0
}

/// Where a sender cycling over `n` ids stands after one more frame: the
/// next id, or, after the last id, the first id with the generator counter
/// advanced (wrapping at 256). Positions are (id index, counter).
pub open spec fn cycle_step(n: nat, p: (nat, nat)) -> (nat, nat) {
    if p.0 + 1 < n {
        (p.0 + 1, p.1)
    } else {
        (0, (p.1 + 1) % 256)
    }
}

/// Where a sender cycling over `n` ids stands after `k` frames from the start.
pub open spec fn cycle_after(n: nat, k: nat) -> (nat, nat)
    decreases k,
{
    if k == 0 {
        (0, 0)
    } else {
        cycle_step(n, cycle_after(n, (k - 1) as nat))
    }
}

/// The sender's rotation: after `k` frames, whatever became of each, it
/// stands at id index `k % n` with generator counter `(k / n) % 256`.
pub proof fn lemma_cycle_rotation(n: nat, k: nat)
    requires
        n > 0,
    ensures
        cycle_after(n, k) == ((k % n) as nat, ((k / n) % 256) as nat),
    decreases k,
{
    if k == 0 {
        lemma_fundamental_div_mod_converse(0, n as int, 0, 0);
    } else {
        let j = (k - 1) as int;
        let ni = n as int;
        lemma_cycle_rotation(n, (k - 1) as nat);
        lemma_fundamental_div_mod(j, ni);
        lemma_mod_pos_bound(j, ni);
        let q = j / ni;
        let r = j % ni;
        let prev = cycle_after(n, (k - 1) as nat);
        assert(prev == (r as nat, (q % 256) as nat));
        assert(cycle_after(n, k) == cycle_step(n, prev));
        if r + 1 < ni {
            lemma_fundamental_div_mod_converse(k as int, ni, q, r + 1);
        } else {
            assert(k as int == (q + 1) * ni + 0) by (nonlinear_arith)
                requires
                    j == ni * q + r,
                    r + 1 == ni,
                    k as int == j + 1,
            ;
            lemma_fundamental_div_mod_converse(k as int, ni, q + 1, 0);
            lemma_mod_pos_bound(q, 256);
            lemma_add_mod_noop(q, 1, 256);
            assert((q % 256 + 1) % 256 == (q + 1) % 256);
        }
    }
}

/// The frame the SCS sender sends as its `k`-th (counting from 0): the id at
/// index `k % 17` with the generator data for counter `(k / 17) % 256`.
pub proof fn lemma_scs_cycle_frames(k: nat)
    ensures
        ({
            let p = cycle_after(17, k);
            let id = SCS_MESSAGE_IDS@[(k % 17) as int];
            &&& p.0 == k % 17
            &&& SCS_MESSAGE_IDS@[p.0 as int] == id
            &&& scs_frame(p.1 as int, id) == scs_frame(((k / 17) % 256) as int, id)
        }),
{
    lemma_cycle_rotation(17, k);
}

/// The frame the MaxxECU sender sends as its `k`-th (counting from 0): the
/// id at index `k % 21` with the generator data for counter `(k / 21) % 256`.
pub proof fn lemma_maxx_cycle_frames(k: nat)
    ensures
        ({
            let p = cycle_after(21, k);
            let id = MAXX_MESSAGE_IDS@[(k % 21) as int];
            &&& p.0 == k % 21
            &&& MAXX_MESSAGE_IDS@[p.0 as int] == id
            &&& maxx_frame(p.1 as int, id) == maxx_frame(((k / 21) % 256) as int, id)
        }),
{
    lemma_cycle_rotation(21, k);
}

/// State of the SCS sender: position in `SCS_MESSAGE_IDS`, generator, and
/// the number of frames written.
pub struct ScsSendCycle {
    generator: ScsTestGenerator,
    index: usize,
    msg_count: u32,
}

impl ScsSendCycle {
    #[verifier::type_invariant]
    spec fn index_in_range(self) -> bool {
        self.index < 17
    }

    pub closed spec fn spec_index(self) -> nat {
        self.index as nat
    }

    pub closed spec fn spec_counter(self) -> u8 {
        self.generator.spec_counter()
    }

    pub closed spec fn spec_msg_count(self) -> u32 {
        self.msg_count
    }

    /// The position in the cycle: (id index, generator counter).
    pub open spec fn spec_position(self) -> (nat, nat) {
        (self.spec_index(), self.spec_counter() as nat)
    }

    /// Starts with the first id at counter 0.
    pub fn new() -> (r: Self)
        ensures
            r.spec_index() == 0,
            r.spec_counter() == 0,
            r.spec_msg_count() == 0,
            r.spec_position() == cycle_after(17, 0),
    {
        ScsSendCycle { generator: ScsTestGenerator::new(), index: 0, msg_count: 0 }
    }

    /// The next frame to send: the current id and its data.
    pub fn next_frame(&self) -> (r: (u32, [u8; 8]))
        ensures
            self.spec_index() < 17,
            r.0 == SCS_MESSAGE_IDS@[self.spec_index() as int],
            r.1@ == scs_frame(self.spec_counter() as int, r.0),
    {
        proof {
            use_type_invariant(self);
        }
        self.generator.generate_frame(SCS_MESSAGE_IDS[self.index])
    }

    /// The generator's counter.
    pub fn counter(&self) -> (r: u8)
        ensures
            r == self.spec_counter(),
    {
        self.generator.counter()
    }

    /// The number of frames written so far.
    pub fn msg_count(&self) -> (r: u32)
        ensures
            r == self.spec_msg_count(),
    {
        self.msg_count
    }

    /// Records the outcome of the current frame and moves to the next id;
    /// after the last id the generator advances. The answer is the number of
    /// completed passes to report: after a sent or dropped frame, when the
    /// written count is a positive multiple of the frame set size.
    pub fn advance(&mut self, outcome: TxOutcome) -> (report: Option<u32>)
        requires
            outcome == TxOutcome::Sent ==> old(self).spec_msg_count() < u32::MAX,
        ensures
            final(self).spec_msg_count() == if outcome == TxOutcome::Sent {
                old(self).spec_msg_count() + 1
            } else {
                old(self).spec_msg_count() as int
            },
            old(self).spec_index() + 1 < 17 ==> final(self).spec_index() == old(self).spec_index() + 1
                && final(self).spec_counter() == old(self).spec_counter(),
            old(self).spec_index() + 1 == 17 ==> final(self).spec_index() == 0
                && final(self).spec_counter() == (old(self).spec_counter() + 1) % 256,
            final(self).spec_position() == cycle_step(17, old(self).spec_position()),
            report == if outcome != TxOutcome::Rejected && report_due(final(self).spec_msg_count(), 17) {
                Some((final(self).spec_msg_count() / 17) as u32)
            } else {
                None
            },
    {
        proof {
            use_type_invariant(&*self);
        }
        if outcome == TxOutcome::Sent {
            self.msg_count = self.msg_count + 1;
        }
        if self.index + 1 < 17 {
            self.index = self.index + 1;
        } else {
            self.index = 0;
            self.generator.next_cycle();
        }
        if outcome != TxOutcome::Rejected && self.msg_count % 17 == 0 && self.msg_count > 0 {
            Some(self.msg_count / 17)
        } else {
            None
        }
    }
}

/// State of the MaxxECU sender: position in `MAXX_MESSAGE_IDS`, generator,
/// and the number of frames written.
pub struct MaxxSendCycle {
    generator: MaxxTestGenerator,
    index: usize,
    msg_count: u32,
}

impl MaxxSendCycle {
    #[verifier::type_invariant]
    spec fn index_in_range(self) -> bool {
        self.index < 21
    }

    pub closed spec fn spec_index(self) -> nat {
        self.index as nat
    }

    pub closed spec fn spec_counter(self) -> u8 {
        self.generator.spec_counter()
    }

    pub closed spec fn spec_msg_count(self) -> u32 {
        self.msg_count
    }

    /// The position in the cycle: (id index, generator counter).
    pub open spec fn spec_position(self) -> (nat, nat) {
        (self.spec_index(), self.spec_counter() as nat)
    }

    /// Starts with the first id at counter 0.
    pub fn new() -> (r: Self)
        ensures
            r.spec_index() == 0,
            r.spec_counter() == 0,
            r.spec_msg_count() == 0,
            r.spec_position() == cycle_after(21, 0),
    {
        MaxxSendCycle { generator: MaxxTestGenerator::new(), index: 0, msg_count: 0 }
    }

    /// The id of the next frame.
    pub fn next_id(&self) -> (id: u32)
        ensures
            self.spec_index() < 21,
            id == MAXX_MESSAGE_IDS@[self.spec_index() as int],
    {
        proof {
            use_type_invariant(self);
        }
        MAXX_MESSAGE_IDS[self.index]
    }

    /// The next frame to send: the current id and its data. Frame 0x540 at
    /// counter 255 overflows its 8-bit arithmetic and is excluded.
    pub fn next_frame(&self) -> (r: (u32, [u8; 8]))
        requires
            !(MAXX_MESSAGE_IDS@[self.spec_index() as int] == 0x540 && self.spec_counter() == 255),
        ensures
            self.spec_index() < 21,
            r.0 == MAXX_MESSAGE_IDS@[self.spec_index() as int],
            r.1@ == maxx_frame(self.spec_counter() as int, r.0),
    {
        proof {
            use_type_invariant(self);
        }
        self.generator.generate_frame(MAXX_MESSAGE_IDS[self.index])
    }

    /// The generator's counter.
    pub fn counter(&self) -> (r: u8)
        ensures
            r == self.spec_counter(),
    {
        self.generator.counter()
    }

    /// The number of frames written so far.
    pub fn msg_count(&self) -> (r: u32)
        ensures
            r == self.spec_msg_count(),
    {
        self.msg_count
    }

    /// Records the outcome of the current frame and moves to the next id;
    /// after the last id the generator advances. The answer is the number of
    /// completed passes to report, as for the SCS sender.
    pub fn advance(&mut self, outcome: TxOutcome) -> (report: Option<u32>)
        requires
            outcome == TxOutcome::Sent ==> old(self).spec_msg_count() < u32::MAX,
        ensures
            final(self).spec_msg_count() == if outcome == TxOutcome::Sent {
                old(self).spec_msg_count() + 1
            } else {
                old(self).spec_msg_count() as int
            },
            old(self).spec_index() + 1 < 21 ==> final(self).spec_index() == old(self).spec_index() + 1
                && final(self).spec_counter() == old(self).spec_counter(),
            old(self).spec_index() + 1 == 21 ==> final(self).spec_index() == 0
                && final(self).spec_counter() == (old(self).spec_counter() + 1) % 256,
            final(self).spec_position() == cycle_step(21, old(self).spec_position()),
            report == if outcome != TxOutcome::Rejected && report_due(final(self).spec_msg_count(), 21) {
                Some((final(self).spec_msg_count() / 21) as u32)
            } else {
                None
            },
    {
        proof {
            use_type_invariant(&*self);
        }
        if outcome == TxOutcome::Sent {
            self.msg_count = self.msg_count + 1;
        }
        if self.index + 1 < 21 {
            self.index = self.index + 1;
        } else {
            self.index = 0;
            self.generator.next_cycle();
        }
        if outcome != TxOutcome::Rejected && self.msg_count % 21 == 0 && self.msg_count > 0 {
            Some(self.msg_count / 21)
        } else {
            None
        }
    }
}

} // verus!
