//! What every reachable state satisfies: every step keeps [`Pipe::wf`].
//!
//! The counts of fulfilled slots come first, then the three changes that a
//! stream undergoes (a slot is reserved, settled, taken), then the steps and
//! the runs. The last lemmas say that a settled slot stays as it is.

use crate::cyclic_pipe::protocol::{Op, Pipe, Slot, Stream};
use vstd::prelude::*;

verus! {

/// Among the first `n` slots at most `n` are fulfilled.
pub proof fn lemma_ready_bound<T>(s: Stream<T>, n: nat)
    ensures
        s.ready_among(n) <= n,
    decreases n,
{
    if n > 0 {
        lemma_ready_bound(s, (n - 1) as nat);
    }
}

/// A longer prefix holds at least as many fulfilled slots.
pub proof fn lemma_ready_monotone<T>(s: Stream<T>, a: nat, b: nat)
    requires
        a <= b,
    ensures
        s.ready_among(a) <= s.ready_among(b),
    decreases b,
{
    if a < b {
        lemma_ready_monotone(s, a, (b - 1) as nat);
    }
}

/// Two streams that agree on their first `n` slots have as many fulfilled
/// among them.
pub proof fn lemma_ready_agree<T>(s: Stream<T>, t: Stream<T>, n: nat)
    requires
        forall|i: int| 0 <= i < n ==> #[trigger] s.slots[i] == t.slots[i],
    ensures
        s.ready_among(n) == t.ready_among(n),
    decreases n,
{
    if n > 0 {
        lemma_ready_agree(s, t, (n - 1) as nat);
        assert(s.slots[n - 1] == t.slots[n - 1]);
    }
}

/// Settling one slot changes the count of a prefix that holds it by what the
/// slot gains or loses.
pub proof fn lemma_ready_settle<T>(s: Stream<T>, slot: nat, outcome: Slot<T>, n: nat)
    requires
        slot < n <= s.slots.len(),
    ensures
        s.settle(slot, outcome).ready_among(n) + (if s.slots[slot as int] is Ready {
            1nat
        } else {
            0nat
        }) == s.ready_among(n) + (if outcome is Ready {
            1nat
        } else {
            0nat
        }),
    decreases n,
{
    let t = s.settle(slot, outcome);
    if n - 1 == slot {
        lemma_ready_agree(s, t, slot);
    } else {
        lemma_ready_settle(s, slot, outcome, (n - 1) as nat);
    }
}

/// Where none of the first `n` slots is abandoned, each of them is pending or
/// fulfilled.
pub proof fn lemma_pending_or_ready<T>(s: Stream<T>, n: nat)
    requires
        n <= s.slots.len(),
        forall|i: int| 0 <= i < s.slots.len() ==> !(#[trigger] s.slots[i] is Broken),
    ensures
        s.pending_among(n) + s.ready_among(n) == n,
    decreases n,
{
    if n > 0 {
        lemma_pending_or_ready(s, (n - 1) as nat);
        assert(!(s.slots[n - 1] is Broken));
    }
}

/// On a new pipe every seeded slot is fulfilled.
pub proof fn lemma_ready_seeded<T>(seeds: Seq<T>, n: nat)
    requires
        n <= seeds.len(),
    ensures
        Pipe::new(seeds).empty.ready_among(n) == n,
    decreases n,
{
    if n > 0 {
        lemma_ready_seeded(seeds, (n - 1) as nat);
    }
}

/// A live token's slot has not been taken: it lies at or behind the front.
pub proof fn lemma_live_not_taken<T>(s: Stream<T>, slot: nat)
    requires
        s.wf(),
        s.live(slot),
    ensures
        s.taken <= slot,
{
    if slot < s.taken {
        assert(!(s.slots[slot as int] is Pending));
    }
}

/// Reserving a slot keeps a stream well formed and its counts of fulfilled
/// slots.
pub proof fn lemma_reserve<T>(s: Stream<T>)
    requires
        s.wf(),
    ensures
        s.reserve().wf(),
        s.reserve().ready() == s.ready(),
        s.reserve().ready_among(s.taken) == s.ready_among(s.taken),
        s.reserve().slots.len() == s.slots.len() + 1,
        s.reserve().taken == s.taken,
{
    let t = s.reserve();
    lemma_ready_agree(s, t, s.slots.len());
    lemma_ready_agree(s, t, s.taken);
    assert forall|i: int| 0 <= i < t.taken implies !(#[trigger] t.slots[i] is Pending) by {
        assert(t.slots[i] == s.slots[i]);
    }
}

/// Settling a live slot keeps a stream well formed; the count of all
/// fulfilled slots grows by one if the slot was fulfilled, and the count among
/// the taken slots stays.
pub proof fn lemma_settle<T>(s: Stream<T>, slot: nat, outcome: Slot<T>)
    requires
        s.wf(),
        s.live(slot),
        !(outcome is Pending),
    ensures
        s.settle(slot, outcome).wf(),
        s.settle(slot, outcome).ready() == s.ready() + (if outcome is Ready {
            1nat
        } else {
            0nat
        }),
        s.settle(slot, outcome).ready_among(s.taken) == s.ready_among(s.taken),
        s.settle(slot, outcome).slots.len() == s.slots.len(),
        s.settle(slot, outcome).taken == s.taken,
{
    let t = s.settle(slot, outcome);
    lemma_live_not_taken(s, slot);
    lemma_ready_settle(s, slot, outcome, s.slots.len());
    lemma_ready_agree(s, t, s.taken);
    assert forall|i: int| 0 <= i < t.taken implies !(#[trigger] t.slots[i] is Pending) by {
        assert(t.slots[i] == s.slots[i]);
    }
}

/// Taking the front slot, once it is settled, keeps a stream well formed; the
/// count among the taken slots grows by one if the slot delivered a buffer.
pub proof fn lemma_take<T>(s: Stream<T>, alive: bool)
    requires
        s.wf(),
        s.observe(alive) is Some,
    ensures
        s.after(s.observe(alive)->0).wf(),
        s.after(s.observe(alive)->0).slots == s.slots,
        s.after(s.observe(alive)->0).ready() == s.ready(),
        s.after(s.observe(alive)->0).ready_among(s.after(s.observe(alive)->0).taken)
            == s.ready_among(s.taken) + (if s.observe(alive)->0 is Buffer {
            1nat
        } else {
            0nat
        }),
{
    let taken = s.observe(alive)->0;
    let t = s.after(taken);
    lemma_ready_agree(s, t, s.slots.len());
    if !(taken is Closed) {
        assert(t.taken == s.taken + 1);
        lemma_ready_agree(s, t, s.taken);
        assert forall|i: int| 0 <= i < t.taken implies !(#[trigger] t.slots[i] is Pending) by {
            if i < s.taken {
                assert(!(s.slots[i] is Pending));
            }
        }
    }
}

/// A new pipe of at least one buffer is well formed.
pub proof fn lemma_new_wf<T>(seeds: Seq<T>)
    requires
        seeds.len() >= 1,
    ensures
        Pipe::new(seeds).wf(),
{
    lemma_ready_seeded(seeds, seeds.len());
}

/// The producer's acquisition keeps the pipe well formed.
pub proof fn lemma_acquire_write_wf<T>(p: Pipe<T>)
    requires
        p.wf(),
    ensures
        p.acquire_write().0.wf(),
{
    if p.empty.observe(p.consumer) is Some {
        lemma_take(p.empty, p.consumer);
        lemma_reserve(p.full);
    }
}

/// The consumer's acquisition keeps the pipe well formed.
pub proof fn lemma_acquire_read_wf<T>(p: Pipe<T>)
    requires
        p.wf(),
    ensures
        p.acquire_read().0.wf(),
{
    if p.full.observe(p.producer) is Some {
        lemma_take(p.full, p.producer);
        lemma_reserve(p.empty);
    }
}

/// Every step keeps the pipe well formed.
pub proof fn lemma_step_wf<T>(p: Pipe<T>, op: Op<T>)
    requires
        p.wf(),
    ensures
        p.step(op).wf(),
{
    if p.enabled(op) {
        match op {
            Op::AcquireWrite => {
                lemma_acquire_write_wf(p);
            },
            Op::AcquireRead => {
                lemma_acquire_read_wf(p);
            },
            Op::CompleteWrite { slot, buf } => {
                lemma_settle(p.full, slot, Slot::Ready(buf));
            },
            Op::AbandonWrite { slot } => {
                lemma_settle(p.full, slot, Slot::Broken);
            },
            Op::CompleteRead { slot, buf } => {
                lemma_settle(p.empty, slot, Slot::Ready(buf));
            },
            Op::AbandonRead { slot } => {
                lemma_settle(p.empty, slot, Slot::Broken);
            },
            Op::DropProducer => {},
            Op::DropConsumer => {},
        }
    }
}

/// Every run keeps the pipe well formed.
pub proof fn lemma_run_wf<T>(p: Pipe<T>, ops: Seq<Op<T>>)
    requires
        p.wf(),
    ensures
        p.run(ops).wf(),
    decreases ops.len(),
{
    if ops.len() > 0 {
        lemma_run_wf(p, ops.drop_last());
        lemma_step_wf(p.run(ops.drop_last()), ops.last());
    }
}

/// No step changes the capacity.
pub proof fn lemma_run_capacity<T>(p: Pipe<T>, ops: Seq<Op<T>>)
    ensures
        p.run(ops).capacity == p.capacity,
    decreases ops.len(),
{
    if ops.len() > 0 {
        lemma_run_capacity(p, ops.drop_last());
    }
}

/// A run in two parts is the run of the second part after the first.
pub proof fn lemma_run_concat<T>(p: Pipe<T>, a: Seq<Op<T>>, b: Seq<Op<T>>)
    ensures
        p.run(a + b) == p.run(a).run(b),
    decreases b.len(),
{
    if b.len() == 0 {
        assert(a + b =~= a);
    } else {
        assert((a + b).drop_last() =~= a + b.drop_last());
        assert((a + b).last() == b.last());
        lemma_run_concat(p, a, b.drop_last());
    }
}

/// A settled slot of the full stream is never changed by a step, and no step
/// takes a slot away from the stream or moves its front back.
pub proof fn lemma_settled_stays_step<T>(p: Pipe<T>, op: Op<T>, slot: nat)
    requires
        slot < p.full.slots.len(),
        !(p.full.slots[slot as int] is Pending),
    ensures
        slot < p.step(op).full.slots.len(),
        p.step(op).full.slots[slot as int] == p.full.slots[slot as int],
        p.full.taken <= p.step(op).full.taken <= p.full.taken + 1,
{
}

/// A settled slot of the full stream is never changed by a run.
pub proof fn lemma_settled_stays<T>(p: Pipe<T>, ops: Seq<Op<T>>, slot: nat)
    requires
        slot < p.full.slots.len(),
        !(p.full.slots[slot as int] is Pending),
    ensures
        slot < p.run(ops).full.slots.len(),
        p.run(ops).full.slots[slot as int] == p.full.slots[slot as int],
        p.full.taken <= p.run(ops).full.taken,
    decreases ops.len(),
{
    if ops.len() > 0 {
        lemma_settled_stays(p, ops.drop_last(), slot);
        lemma_settled_stays_step(p.run(ops.drop_last()), ops.last(), slot);
    }
}

/// A settled slot of the empty stream is never changed by a run.
pub proof fn lemma_settled_empty_stays<T>(p: Pipe<T>, ops: Seq<Op<T>>, slot: nat)
    requires
        slot < p.empty.slots.len(),
        !(p.empty.slots[slot as int] is Pending),
    ensures
        slot < p.run(ops).empty.slots.len(),
        p.run(ops).empty.slots[slot as int] == p.empty.slots[slot as int],
        p.empty.taken <= p.run(ops).empty.taken,
    decreases ops.len(),
{
    if ops.len() > 0 {
        lemma_settled_empty_stays(p, ops.drop_last(), slot);
    }
}

} // verus!
