use vstd::prelude::*;

use vstd::arithmetic::div_mod::{lemma_div_multiples_vanish_fancy, lemma_fundamental_div_mod};
use vstd::arithmetic::mul::lemma_mul_is_distributive_add;

verus! {

/// The Aura slot that a timestamp falls in: the number of whole slot
/// durations elapsed since the epoch, both in milliseconds.
pub open spec fn slot_of(timestamp_ms: int, slot_duration_ms: int) -> int {
    timestamp_ms / slot_duration_ms
}

/// The slot that the timestamp inherent of a block claims, as the Aura inherent
/// data provider derives it from the timestamp and the slot duration.
pub fn slot_at(timestamp_ms: u64, slot_duration_ms: u64) -> (slot: u64)
    requires
        slot_duration_ms > 0,
    ensures
        slot == slot_of(timestamp_ms as int, slot_duration_ms as int),
{
    timestamp_ms / slot_duration_ms
}

/// The timestamp of the pending block that Ethereum RPC calls are run
/// against: one slot duration after the current time.
pub fn pending_block_timestamp(now_ms: u64, slot_duration_ms: u64) -> (timestamp_ms: u64)
    requires
        now_ms + slot_duration_ms <= u64::MAX,
    ensures
        timestamp_ms == now_ms + slot_duration_ms,
{
    now_ms + slot_duration_ms
}

/// The slot of a timestamp is the one whose span holds it: the slot number
/// times the duration is at most the timestamp, and the next slot starts after
/// it; timestamp zero is in slot zero.
pub proof fn law_slot_holds_its_timestamp(t: int, slot_duration: int)
    requires
        t >= 0,
        slot_duration > 0,
    ensures
        slot_of(t, slot_duration) >= 0,
        slot_of(t, slot_duration) * slot_duration <= t,
        t < (slot_of(t, slot_duration) + 1) * slot_duration,
        slot_of(0, slot_duration) == 0,
{
    lemma_fundamental_div_mod(t, slot_duration);
    let q = t / slot_duration;
    let r = t % slot_duration;
    assert(q * slot_duration == slot_duration * q) by (nonlinear_arith);
    assert((q + 1) * slot_duration == slot_duration * q + slot_duration) by (nonlinear_arith);
    assert(q >= 0) by (nonlinear_arith)
        requires
            t == slot_duration * q + r,
            0 <= r < slot_duration,
            t >= 0,
            slot_duration > 0,
    ;
}

/// One slot duration after any time lies in the very next slot.
pub proof fn law_one_slot_later_is_next_slot(t: int, slot_duration: int)
    requires
        t >= 0,
        slot_duration > 0,
    ensures
        slot_of(t + slot_duration, slot_duration) == slot_of(t, slot_duration) + 1,
{
    lemma_fundamental_div_mod(t, slot_duration);
    let q = t / slot_duration;
    let r = t % slot_duration;
    assert(t + slot_duration == slot_duration * (q + 1) + r) by {
        lemma_mul_is_distributive_add(slot_duration, q, 1);
    }
    lemma_div_multiples_vanish_fancy(q + 1, r, slot_duration);
}

/// The pending block of the Ethereum RPC is always in the slot after the
/// current one.
pub proof fn law_pending_block_is_in_next_slot(now_ms: u64, slot_duration_ms: u64)
    requires
        slot_duration_ms > 0,
        now_ms + slot_duration_ms <= u64::MAX,
    ensures
        slot_of(now_ms + slot_duration_ms, slot_duration_ms as int) == slot_of(
            now_ms as int,
            slot_duration_ms as int,
        ) + 1,
{
    law_one_slot_later_is_next_slot(now_ms as int, slot_duration_ms as int);
}

/// The timestamp source of a manually sealed chain: it starts at zero and
/// every block it is asked for moves it one slot duration ahead, so that Aura
/// sees time pass from block to block.
pub struct MockTimestamp {
    now_ms: u64,
    slot_duration_ms: u64,
    blocks: Ghost<nat>,
}

impl MockTimestamp {
    /// The clock always reads as many slot durations as blocks were stamped.
    #[verifier::type_invariant]
    spec fn reads_blocks_times_step(self) -> bool {
        self.now_ms == self.blocks@ * self.slot_duration_ms
    }

    pub closed spec fn now(&self) -> u64 {
        self.now_ms
    }

    pub closed spec fn step(&self) -> u64 {
        self.slot_duration_ms
    }

    /// How many blocks the source has stamped.
    pub closed spec fn blocks(&self) -> nat {
        self.blocks@
    }

    /// A source at time zero that advances by `slot_duration_ms` per block.
    pub fn new(slot_duration_ms: u64) -> (source: MockTimestamp)
        ensures
            source.now() == 0,
            source.step() == slot_duration_ms,
            source.blocks() == 0,
    {
        MockTimestamp { now_ms: 0, slot_duration_ms, blocks: Ghost(0) }
    }

    /// The last timestamp handed out (zero before the first block): as many
    /// slot durations as blocks were stamped.
    pub fn now_ms(&self) -> (now: u64)
        ensures
            now == self.now(),
            now == self.blocks() * self.step(),
    {
        proof {
            use_type_invariant(self);
        }
        self.now_ms
    }

    /// How far each block moves the clock.
    pub fn slot_duration_ms(&self) -> (step: u64)
        ensures
            step == self.step(),
    {
        self.slot_duration_ms
    }

    /// Moves the clock one slot duration ahead and returns the timestamp for
    /// the block being stamped: the n-th call returns n slot durations, one
    /// slot duration after the timestamp before it.
    pub fn advance(&mut self) -> (timestamp_ms: u64)
        requires
            old(self).now() + old(self).step() <= u64::MAX,
        ensures
            timestamp_ms == old(self).now() + old(self).step(),
            final(self).blocks() == old(self).blocks() + 1,
            timestamp_ms == final(self).blocks() * final(self).step(),
            final(self).now() == timestamp_ms,
            final(self).step() == old(self).step(),
    {
        proof {
            use_type_invariant(&*self);
        }
        let next = self.now_ms + self.slot_duration_ms;
        let ghost blocks = (self.blocks@ + 1) as nat;
        assert(next == blocks * self.slot_duration_ms) by (nonlinear_arith)
            requires
                next == self.now_ms + self.slot_duration_ms,
                self.now_ms == self.blocks@ * self.slot_duration_ms,
                blocks == self.blocks@ + 1,
        ;
        *self = MockTimestamp {
            now_ms: next,
            slot_duration_ms: self.slot_duration_ms,
            blocks: Ghost(blocks),
        };
        self.now_ms
    }
}

/// The clock of a mock source, from its start at zero and after each block,
/// reads the multiples of its slot duration: after the k-th block it reads k
/// slot durations, which lie in slot k.
pub proof fn law_mock_timestamps_walk_the_slots(clock: Seq<int>, slot_duration: int)
    requires
        slot_duration > 0,
        clock.len() > 0,
        clock[0] == 0,
        forall|i: int|
            0 <= i < clock.len() - 1 ==> #[trigger] clock[i + 1] == clock[i]
                + slot_duration,
    ensures
        forall|k: int|
            0 <= k < clock.len() ==> #[trigger] clock[k] == k * slot_duration
                && slot_of(clock[k], slot_duration) == k,
    decreases clock.len(),
{
    if clock.len() > 1 {
        let prefix = clock.drop_last();
        assert forall|i: int| 0 <= i < prefix.len() - 1 implies #[trigger] prefix[i + 1]
            == prefix[i] + slot_duration by {
            assert(clock[i + 1] == clock[i] + slot_duration);
        }
        law_mock_timestamps_walk_the_slots(prefix, slot_duration);
        assert forall|k: int| 0 <= k < clock.len() implies #[trigger] clock[k] == k
            * slot_duration && slot_of(clock[k], slot_duration) == k by {
            if k < clock.len() - 1 {
                assert(prefix[k] == clock[k]);
            } else {
                let j = k - 1;
                assert(prefix[j] == clock[j]);
                assert(clock[j + 1] == clock[j] + slot_duration);
                assert(clock[j] == j * slot_duration);
                lemma_mul_is_distributive_add(slot_duration, j, 1);
                assert(clock[k] == k * slot_duration) by (nonlinear_arith)
                    requires
                        clock[k] == j * slot_duration + slot_duration,
                        k == j + 1,
                ;
                law_one_slot_later_is_next_slot(clock[j], slot_duration);
            }
        }
    } else {
        assert(slot_of(0, slot_duration) == 0);
    }
}

} // verus!
