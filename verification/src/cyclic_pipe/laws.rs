//! What the protocol guarantees, proved over the state machine of module
//! `protocol`. Each law is stated for every pipe, every run of steps and every
//! buffer value that its conditions admit.

use crate::cyclic_pipe::builder::Builder;
use crate::cyclic_pipe::protocol::{Acquire, Op, Pipe, Slot};
use crate::cyclic_pipe::stream::Taken;
use crate::cyclic_pipe::well_formed::{
    lemma_new_wf, lemma_pending_or_ready, lemma_ready_bound, lemma_ready_monotone,
    lemma_run_capacity, lemma_run_concat, lemma_run_wf, lemma_settled_empty_stays,
    lemma_settled_stays, lemma_step_wf,
};
use vstd::prelude::*;

verus! {

/// The four counts of a reachable state, in their order.
///
/// A read token is completed after it was issued. It was issued for a buffer
/// that a completed write token had delivered. A write token is completed after
/// it was issued. It was issued for an empty buffer, of which there are the
/// seeded ones and one for each read token completed.
pub proof fn lemma_counts_ordered<T>(p: Pipe<T>)
    requires
        p.wf(),
    ensures
        p.reads_done <= p.reads_acquired,
        p.reads_acquired <= p.writes_done,
        p.writes_done <= p.writes_acquired,
        p.writes_acquired <= p.reads_done + p.capacity,
{
    lemma_ready_bound(p.empty, p.empty.slots.len());
    lemma_ready_monotone(p.full, p.full.taken, p.full.slots.len());
    lemma_ready_bound(p.full, p.full.slots.len());
    lemma_ready_monotone(p.empty, p.empty.taken, p.empty.slots.len());
}

/// Conservation: after any run of steps on a new pipe, the number of write
/// tokens completed exceeds the number of read tokens completed by no less
/// than 0 and no more than the capacity. This holds whether or not ends or
/// tokens are dropped on the way.
pub proof fn lemma_conservation<T>(seeds: Seq<T>, ops: Seq<Op<T>>)
    requires
        seeds.len() >= 1,
    ensures
        ({
            let p = Pipe::new(seeds).run(ops);
            0 <= p.writes_done - p.reads_done <= seeds.len()
        }),
{
    let p = Pipe::new(seeds);
    lemma_new_wf(seeds);
    lemma_run_wf(p, ops);
    lemma_run_capacity(p, ops);
    lemma_counts_ordered(p.run(ops));
}

/// A pipe in which nothing was dropped: both ends exist and no slot is
/// abandoned.
pub open spec fn nothing_dropped<T>(p: Pipe<T>) -> bool {
    &&& p.wf()
    &&& p.producer
    &&& p.consumer
    &&& forall|i: int| 0 <= i < p.empty.slots.len() ==> !(#[trigger] p.empty.slots[i] is Broken)
    &&& forall|i: int| 0 <= i < p.full.slots.len() ==> !(#[trigger] p.full.slots[i] is Broken)
}

/// Steps that drop nothing keep a pipe in which nothing was dropped.
pub proof fn lemma_nothing_dropped_step<T>(p: Pipe<T>, op: Op<T>)
    requires
        nothing_dropped(p),
        !op.drops(),
    ensures
        nothing_dropped(p.step(op)),
{
    lemma_step_wf(p, op);
    let q = p.step(op);
    assert forall|i: int| 0 <= i < q.empty.slots.len() implies !(
    #[trigger] q.empty.slots[i] is Broken) by {
        if i < p.empty.slots.len() {
            assert(!(p.empty.slots[i] is Broken));
        }
    }
    assert forall|i: int| 0 <= i < q.full.slots.len() implies !(
    #[trigger] q.full.slots[i] is Broken) by {
        if i < p.full.slots.len() {
            assert(!(p.full.slots[i] is Broken));
        }
    }
}

/// Runs of steps that drop nothing keep a pipe in which nothing was dropped.
pub proof fn lemma_nothing_dropped_run<T>(p: Pipe<T>, ops: Seq<Op<T>>)
    requires
        nothing_dropped(p),
        forall|i: int| 0 <= i < ops.len() ==> !(#[trigger] ops[i]).drops(),
    ensures
        nothing_dropped(p.run(ops)),
    decreases ops.len(),
{
    if ops.len() > 0 {
        let front = ops.drop_last();
        assert forall|i: int| 0 <= i < front.len() implies !(#[trigger] front[i]).drops() by {
            assert(front[i] == ops[i]);
        }
        lemma_nothing_dropped_run(p, front);
        lemma_nothing_dropped_step(p.run(front), ops.last());
    }
}

/// Every buffer is in one place. On a pipe built around `N` buffers, as long
/// as no token and no end is dropped, the live write tokens, the live read
/// tokens, the buffers that wait on the empty stream and those that wait on
/// the full stream are `N` together.
pub proof fn lemma_population<T>(seeds: Seq<T>, ops: Seq<Op<T>>)
    requires
        seeds.len() >= 1,
        forall|i: int| 0 <= i < ops.len() ==> !(#[trigger] ops[i]).drops(),
    ensures
        ({
            let p = Pipe::new(seeds).run(ops);
            &&& p.full.pending() == p.writes_acquired - p.writes_done
            &&& p.empty.pending() == p.reads_acquired - p.reads_done
            &&& p.empty.waiting() >= 0
            &&& p.full.waiting() >= 0
            &&& p.full.pending() + p.empty.pending() + p.empty.waiting() + p.full.waiting()
                == seeds.len()
        }),
{
    let start = Pipe::new(seeds);
    lemma_new_wf(seeds);
    lemma_nothing_dropped_run(start, ops);
    lemma_run_capacity(start, ops);
    let p = start.run(ops);
    lemma_pending_or_ready(p.full, p.full.slots.len());
    lemma_pending_or_ready(p.empty, p.empty.slots.len());
    lemma_ready_monotone(p.full, p.full.taken, p.full.slots.len());
    lemma_ready_monotone(p.empty, p.empty.taken, p.empty.slots.len());
}

/// Write tokens are numbered in the order of their acquisition: the token
/// that is granted when `n` were granted before it gets the slot at position
/// `n` of the full stream, which is then pending, and the number granted
/// becomes `n + 1`.
pub proof fn lemma_write_token_numbered<T>(p: Pipe<T>)
    requires
        p.wf(),
        p.acquire_write().1 is Granted,
    ensures
        p.acquire_write().1->slot == p.writes_acquired,
        p.acquire_write().0.writes_acquired == p.writes_acquired + 1,
        p.acquire_write().0.full.live(p.writes_acquired),
        p.acquire_write().0.full.taken == p.full.taken,
{
}

/// The consumer takes the slots of the full stream one by one from the front:
/// an acquisition that returns has looked at the slot at position
/// `full.taken` and at no other, and moves the front by one. It grants the
/// buffer found there, or fails if the slot was abandoned.
pub proof fn lemma_read_takes_front<T>(p: Pipe<T>)
    requires
        p.wf(),
        p.full.taken < p.full.slots.len(),
    ensures
        match p.full.slots[p.full.taken as int] {
            Slot::Pending => p.acquire_read() == (p, Acquire::<T>::Blocked),
            Slot::Broken => p.acquire_read().1 is Disconnected && p.acquire_read().0.full.taken
                == p.full.taken + 1,
            Slot::Ready(buf) => p.acquire_read().1 == (Acquire::Granted {
                buf,
                slot: p.empty.slots.len(),
            }) && p.acquire_read().0.full.taken == p.full.taken + 1,
        },
{
}

/// Acquisition-order delivery: once the write token for position `slot` is
/// completed with `buf`, then whatever is done afterwards, and in whatever
/// order other tokens are completed, the acquisition that the consumer makes
/// when it has reached position `slot` returns a read token that holds `buf`.
///
/// With `lemma_write_token_numbered` and `lemma_read_takes_front` this is the
/// order of delivery: positions are given out in the order in which write
/// tokens are acquired, and the consumer goes through them in that order.
pub proof fn lemma_delivery_in_acquisition_order<T>(
    p: Pipe<T>,
    slot: nat,
    buf: T,
    ops: Seq<Op<T>>,
)
    requires
        p.wf(),
        p.full.live(slot),
    ensures
        ({
            let q = p.complete_write(slot, buf).run(ops);
            &&& slot < q.full.slots.len()
            &&& q.full.slots[slot as int] == Slot::Ready(buf)
            &&& q.full.taken == slot ==> q.acquire_read().1 == Acquire::Granted {
                buf,
                slot: q.empty.slots.len(),
            }
        }),
{
    lemma_settled_stays(p.complete_write(slot, buf), ops, slot);
}

/// The producer asks for a write token `k` times.
pub open spec fn acquisitions<T>(k: nat) -> Seq<Op<T>> {
    Seq::new(k, |i: int| Op::AcquireWrite)
}

/// The write tokens are completed in the order that `order` lists their
/// positions, the token for position `i` with the buffer `bufs[i]`.
pub open spec fn completions<T>(order: Seq<nat>, bufs: Seq<T>) -> Seq<Op<T>> {
    Seq::new(
        order.len(),
        |i: int| Op::CompleteWrite { slot: order[i], buf: bufs[order[i] as int] },
    )
}

/// The consumer asks for a read token `j` times.
pub open spec fn reads<T>(j: nat) -> Seq<Op<T>> {
    Seq::new(j, |i: int| Op::AcquireRead)
}

/// A pipe whose consumer has read nothing and whose write tokens are those for
/// the positions of `bufs`, each either live or completed with its buffer.
pub open spec fn being_written<T>(p: Pipe<T>, bufs: Seq<T>) -> bool {
    &&& p.wf()
    &&& p.consumer
    &&& p.full.taken == 0
    &&& p.reads_acquired == 0
    &&& p.full.slots.len() == bufs.len()
    &&& forall|i: int|
        0 <= i < bufs.len() ==> #[trigger] p.full.slots[i] is Pending || p.full.slots[i]
            == Slot::Ready(bufs[i])
}

/// A pipe whose full stream holds exactly `bufs`, all fulfilled, of which the
/// consumer has taken the first `r`, each for a read token.
pub open spec fn being_read<T>(p: Pipe<T>, bufs: Seq<T>, r: nat) -> bool {
    &&& p.wf()
    &&& p.consumer
    &&& p.full.taken == r
    &&& p.reads_acquired == r
    &&& p.full.slots.len() == bufs.len()
    &&& forall|i: int| 0 <= i < bufs.len() ==> #[trigger] p.full.slots[i] == Slot::Ready(bufs[i])
}

/// On a new pipe, `k` acquisitions of the producer, for `k` up to the
/// capacity, are all granted and leave `k` live write tokens.
pub proof fn lemma_after_acquisitions<T>(seeds: Seq<T>, k: nat)
    requires
        seeds.len() >= 1,
        k <= seeds.len(),
    ensures
        ({
            let p = Pipe::new(seeds).run(acquisitions(k));
            &&& nothing_returned(p)
            &&& nothing_written(p)
            &&& p.capacity == seeds.len()
            &&& p.writes_acquired == k
            &&& p.reads_acquired == 0
        }),
    decreases k,
{
    let start = Pipe::new(seeds);
    lemma_new_wf(seeds);
    if k > 0 {
        let ops = acquisitions::<T>(k);
        assert(ops.drop_last() =~= acquisitions::<T>((k - 1) as nat));
        lemma_after_acquisitions(seeds, (k - 1) as nat);
        let p = start.run(ops.drop_last());
        lemma_nothing_returned_acquire(p);
        lemma_nothing_returned_step(p, ops.last());
        lemma_nothing_written_step(p, ops.last());
    }
}

/// Completing write tokens in any order leaves each of the completed ones
/// fulfilled with its own buffer.
pub proof fn lemma_after_completions<T>(p: Pipe<T>, order: Seq<nat>, bufs: Seq<T>)
    requires
        being_written(p, bufs),
        forall|j: int| 0 <= j < order.len() ==> #[trigger] order[j] < bufs.len(),
    ensures
        ({
            let q = p.run(completions(order, bufs));
            &&& being_written(q, bufs)
            &&& q.capacity == p.capacity
            &&& forall|j: int|
                0 <= j < order.len() ==> q.full.slots[#[trigger] order[j] as int] == Slot::Ready(
                    bufs[order[j] as int],
                )
        }),
    decreases order.len(),
{
    if order.len() > 0 {
        let ops = completions(order, bufs);
        let front = order.drop_last();
        assert(ops.drop_last() =~= completions(front, bufs));
        assert forall|j: int| 0 <= j < front.len() implies #[trigger] front[j] < bufs.len() by {
            assert(front[j] == order[j]);
        }
        lemma_after_completions(p, front, bufs);
        let m = p.run(completions(front, bufs));
        let op = ops.last();
        let last = order.last();
        assert(op == Op::CompleteWrite { slot: last, buf: bufs[last as int] });
        let q = m.step(op);
        lemma_step_wf(m, op);
        assert(m.full.slots[last as int] is Pending || m.full.slots[last as int] == Slot::Ready(
            bufs[last as int],
        ));
        assert forall|i: int| 0 <= i < bufs.len() implies #[trigger] q.full.slots[i] is Pending
            || q.full.slots[i] == Slot::Ready(bufs[i]) by {
            assert(m.full.slots[i] is Pending || m.full.slots[i] == Slot::Ready(bufs[i]));
        }
        assert forall|j: int| 0 <= j < order.len() implies q.full.slots[#[trigger] order[j] as int]
            == Slot::Ready(bufs[order[j] as int]) by {
            if j < front.len() {
                assert(front[j] == order[j]);
                assert(m.full.slots[front[j] as int] == Slot::Ready(bufs[front[j] as int]));
            }
        }
    }
}

/// Reading a full stream whose slots are all fulfilled grants them one by one
/// from the front.
pub proof fn lemma_after_reads<T>(p: Pipe<T>, bufs: Seq<T>, j: nat)
    requires
        being_read(p, bufs, 0),
        j <= bufs.len(),
    ensures
        being_read(p.run(reads(j)), bufs, j),
        p.run(reads(j)).capacity == p.capacity,
    decreases j,
{
    if j > 0 {
        let ops = reads::<T>(j);
        assert(ops.drop_last() =~= reads::<T>((j - 1) as nat));
        lemma_after_reads(p, bufs, (j - 1) as nat);
        let m = p.run(ops.drop_last());
        let q = m.step(ops.last());
        lemma_step_wf(m, ops.last());
        assert(m.full.slots[j - 1] == Slot::Ready(bufs[j - 1]));
        assert forall|i: int| 0 <= i < bufs.len() implies #[trigger] q.full.slots[i]
            == Slot::Ready(bufs[i]) by {
            assert(m.full.slots[i] == Slot::Ready(bufs[i]));
        }
    }
}

/// Unordered completion, ordered delivery. On a new pipe the producer
/// acquires as many write tokens as `bufs` is long, which the capacity
/// allows. They are completed in the order `order`, any order that names
/// every token, the token acquired `i`-th with the buffer `bufs[i]`. Then the
/// read tokens that the consumer acquires hold `bufs[0]`, `bufs[1]`, and so
/// on: after `j` of them the next one holds `bufs[j]`.
pub proof fn lemma_unordered_completion_ordered_delivery<T>(
    seeds: Seq<T>,
    bufs: Seq<T>,
    order: Seq<nat>,
    j: nat,
)
    requires
        seeds.len() >= 1,
        bufs.len() <= seeds.len(),
        forall|i: int| 0 <= i < order.len() ==> #[trigger] order[i] < bufs.len(),
        forall|i: nat| i < bufs.len() ==> order.contains(i),
        j < bufs.len(),
    ensures
        Pipe::new(seeds).run(
            acquisitions(bufs.len()) + completions(order, bufs) + reads(j),
        ).acquire_read().1 == (Acquire::Granted { buf: bufs[j as int], slot: seeds.len() + j }),
{
    let start = Pipe::new(seeds);
    let k = bufs.len();
    let a = start.run(acquisitions(k));
    lemma_after_acquisitions(seeds, k);
    lemma_nothing_written_acquire(a);
    assert(being_written(a, bufs));
    let b = a.run(completions(order, bufs));
    lemma_after_completions(a, order, bufs);
    assert forall|i: int| 0 <= i < bufs.len() implies #[trigger] b.full.slots[i] == Slot::Ready(
        bufs[i],
    ) by {
        assert(order.contains(i as nat));
        let at = choose|at: int| 0 <= at < order.len() && order[at] == i as nat;
        assert(b.full.slots[order[at] as int] == Slot::Ready(bufs[order[at] as int]));
    }
    assert(being_read(b, bufs, 0));
    let c = b.run(reads(j));
    lemma_after_reads(b, bufs, j);
    lemma_run_concat(start, acquisitions(k), completions(order, bufs));
    lemma_run_concat(start, acquisitions(k) + completions(order, bufs), reads(j));
    assert(c.full.slots[j as int] == Slot::Ready(bufs[j as int]));
}

/// The seeded buffers go out first and in their order: on a pipe built around
/// `seeds`, whatever was done since, the acquisition that the producer makes
/// when it has taken `i` slots, for `i` below the capacity, finds `seeds[i]`,
/// and returns a write token that holds it if the consumer exists.
pub proof fn lemma_seeds_first<T>(seeds: Seq<T>, ops: Seq<Op<T>>, i: nat)
    requires
        i < seeds.len(),
    ensures
        ({
            let p = Pipe::new(seeds).run(ops);
            p.empty.taken == i ==> {
                &&& p.empty.observe(p.consumer) == Some(Taken::Buffer(seeds[i as int]))
                &&& p.consumer ==> p.acquire_write().1 == Acquire::Granted {
                    buf: seeds[i as int],
                    slot: p.full.slots.len(),
                }
                &&& !p.consumer ==> p.acquire_write().1 is Disconnected
            }
        }),
{
    lemma_settled_empty_stays(Pipe::new(seeds), ops, i);
}

/// A pipe from which no buffer has come back: both ends exist, the seeded
/// slots are fulfilled, every slot behind them is pending, and the producer
/// has taken one slot for each write token.
pub open spec fn nothing_returned<T>(p: Pipe<T>) -> bool {
    &&& p.wf()
    &&& p.producer
    &&& p.consumer
    &&& p.empty.taken == p.writes_acquired
    &&& forall|i: int| 0 <= i < p.capacity ==> #[trigger] p.empty.slots[i] is Ready
    &&& forall|i: int|
        p.capacity <= i < p.empty.slots.len() ==> #[trigger] p.empty.slots[i] is Pending
}

/// Steps that return nothing keep a pipe from which nothing has come back.
pub proof fn lemma_nothing_returned_step<T>(p: Pipe<T>, op: Op<T>)
    requires
        nothing_returned(p),
        !op.returns_or_ends(),
    ensures
        nothing_returned(p.step(op)),
{
    lemma_step_wf(p, op);
    let q = p.step(op);
    if p.enabled(op) {
        match op {
            Op::AcquireWrite => {
                if p.empty.taken < p.empty.slots.len() {
                    let front = p.empty.slots[p.empty.taken as int];
                    if p.empty.taken >= p.capacity {
                        assert(front is Pending);
                    } else {
                        assert(front is Ready);
                    }
                }
            },
            Op::AcquireRead => {
                assert forall|i: int| 0 <= i < q.capacity implies #[trigger] q.empty.slots[i]
                    is Ready by {
                    assert(p.empty.slots[i] is Ready);
                }
                assert forall|i: int| q.capacity <= i < q.empty.slots.len() implies #[trigger]
                q.empty.slots[i] is Pending by {
                    if i < p.empty.slots.len() {
                        assert(p.empty.slots[i] is Pending);
                    }
                }
            },
            _ => {},
        }
    }
}

/// Runs of steps that return nothing keep a pipe from which nothing has come
/// back.
pub proof fn lemma_nothing_returned_run<T>(p: Pipe<T>, ops: Seq<Op<T>>)
    requires
        nothing_returned(p),
        forall|i: int| 0 <= i < ops.len() ==> !(#[trigger] ops[i]).returns_or_ends(),
    ensures
        nothing_returned(p.run(ops)),
    decreases ops.len(),
{
    if ops.len() > 0 {
        let front = ops.drop_last();
        assert forall|i: int| 0 <= i < front.len() implies !(#[trigger] front[i]).returns_or_ends() by {
            assert(front[i] == ops[i]);
        }
        lemma_nothing_returned_run(p, front);
        lemma_nothing_returned_step(p.run(front), ops.last());
    }
}

/// While nothing has come back, the producer gets a token as long as it has
/// acquired fewer than the capacity, and waits once it has acquired that many.
pub proof fn lemma_nothing_returned_acquire<T>(p: Pipe<T>)
    requires
        nothing_returned(p),
    ensures
        p.writes_acquired <= p.capacity,
        p.writes_acquired < p.capacity ==> p.acquire_write().1 is Granted,
        p.writes_acquired == p.capacity ==> p.acquire_write() == (p, Acquire::<T>::Blocked),
{
    if p.empty.taken > p.capacity {
        assert(p.empty.slots[p.capacity as int] is Pending);
        assert(!(p.empty.slots[p.capacity as int] is Pending));
    }
    if p.empty.taken < p.capacity {
        assert(p.empty.slots[p.empty.taken as int] is Ready);
    } else if p.empty.taken < p.empty.slots.len() {
        assert(p.empty.slots[p.empty.taken as int] is Pending);
    }
}

/// Capacity backpressure: on a pipe of capacity `N`, as long as no read token
/// is completed (nor dropped, nor an end), the producer is granted a token
/// while it has acquired fewer than `N`, can never have acquired more than `N`,
/// and once it has acquired `N` its next acquisition waits.
pub proof fn lemma_backpressure<T>(seeds: Seq<T>, ops: Seq<Op<T>>)
    requires
        seeds.len() >= 1,
        forall|i: int| 0 <= i < ops.len() ==> !(#[trigger] ops[i]).returns_or_ends(),
    ensures
        ({
            let p = Pipe::new(seeds).run(ops);
            &&& p.writes_acquired <= seeds.len()
            &&& p.writes_acquired < seeds.len() ==> p.acquire_write().1 is Granted
            &&& p.writes_acquired == seeds.len() ==> p.acquire_write() == (p, Acquire::<T>::Blocked)
        }),
{
    let p = Pipe::new(seeds);
    lemma_new_wf(seeds);
    lemma_nothing_returned_run(p, ops);
    lemma_run_capacity(p, ops);
    lemma_nothing_returned_acquire(p.run(ops));
}

/// The wait of the producer ends when the oldest read token is completed: in
/// the state that `lemma_backpressure` speaks of, with `N` write tokens
/// acquired, completing the first read token with `buf` lets the next
/// acquisition return a write token that holds `buf`.
pub proof fn lemma_backpressure_released<T>(seeds: Seq<T>, ops: Seq<Op<T>>, buf: T)
    requires
        seeds.len() >= 1,
        forall|i: int| 0 <= i < ops.len() ==> !(#[trigger] ops[i]).returns_or_ends(),
        Pipe::new(seeds).run(ops).writes_acquired == seeds.len(),
        Pipe::new(seeds).run(ops).reads_acquired >= 1,
    ensures
        ({
            let p = Pipe::new(seeds).run(ops);
            &&& p.empty.live(seeds.len())
            &&& p.complete_read(seeds.len(), buf).acquire_write().1 == Acquire::Granted {
                buf,
                slot: seeds.len(),
            }
        }),
{
    let p = Pipe::new(seeds);
    lemma_new_wf(seeds);
    lemma_nothing_returned_run(p, ops);
    lemma_run_capacity(p, ops);
    let q = p.run(ops);
    assert(q.empty.slots[seeds.len() as int] is Pending);
}

/// A pipe on which no write token has been settled: the producer exists and
/// every slot of the full stream is pending.
pub open spec fn nothing_written<T>(p: Pipe<T>) -> bool {
    &&& p.wf()
    &&& p.producer
    &&& forall|i: int| 0 <= i < p.full.slots.len() ==> #[trigger] p.full.slots[i] is Pending
}

/// Steps that settle no write token keep a pipe on which none is settled.
pub proof fn lemma_nothing_written_step<T>(p: Pipe<T>, op: Op<T>)
    requires
        nothing_written(p),
        !op.settles_write(),
    ensures
        nothing_written(p.step(op)),
{
    lemma_step_wf(p, op);
    let q = p.step(op);
    if p.enabled(op) {
        match op {
            Op::AcquireWrite => {
                assert forall|i: int| 0 <= i < q.full.slots.len() implies #[trigger]
                q.full.slots[i] is Pending by {
                    if i < p.full.slots.len() {
                        assert(p.full.slots[i] is Pending);
                    }
                }
            },
            Op::AcquireRead => {
                if p.full.taken < p.full.slots.len() {
                    assert(p.full.slots[p.full.taken as int] is Pending);
                }
            },
            _ => {},
        }
    }
}

/// Runs of steps that settle no write token keep a pipe on which none is
/// settled.
pub proof fn lemma_nothing_written_run<T>(p: Pipe<T>, ops: Seq<Op<T>>)
    requires
        nothing_written(p),
        forall|i: int| 0 <= i < ops.len() ==> !(#[trigger] ops[i]).settles_write(),
    ensures
        nothing_written(p.run(ops)),
    decreases ops.len(),
{
    if ops.len() > 0 {
        let front = ops.drop_last();
        assert forall|i: int| 0 <= i < front.len() implies !(#[trigger] front[i]).settles_write() by {
            assert(front[i] == ops[i]);
        }
        lemma_nothing_written_run(p, front);
        lemma_nothing_written_step(p.run(front), ops.last());
    }
}

/// While no write token is settled the consumer has taken nothing, and its
/// acquisition waits.
pub proof fn lemma_nothing_written_acquire<T>(p: Pipe<T>)
    requires
        nothing_written(p),
    ensures
        p.full.taken == 0,
        p.acquire_read() == (p, Acquire::<T>::Blocked),
{
    if p.full.taken > 0 {
        assert(p.full.slots[0] is Pending);
        assert(!(p.full.slots[0] is Pending));
    }
    if p.full.slots.len() > 0 {
        assert(p.full.slots[0] is Pending);
    }
}

/// Blocking symmetry: as long as no write token is completed (nor dropped, nor
/// the producer), the consumer's acquisition waits, whatever else was done.
pub proof fn lemma_blocking_symmetry<T>(seeds: Seq<T>, ops: Seq<Op<T>>)
    requires
        seeds.len() >= 1,
        forall|i: int| 0 <= i < ops.len() ==> !(#[trigger] ops[i]).settles_write(),
    ensures
        ({
            let p = Pipe::new(seeds).run(ops);
            p.acquire_read() == (p, Acquire::<T>::Blocked)
        }),
{
    let p = Pipe::new(seeds);
    lemma_new_wf(seeds);
    lemma_nothing_written_run(p, ops);
    lemma_nothing_written_acquire(p.run(ops));
}

/// The wait of the consumer ends when the oldest write token is completed: in
/// the state that `lemma_blocking_symmetry` speaks of, once a write token was
/// acquired, completing the first one with `buf` lets the acquisition return a
/// read token that holds `buf`.
pub proof fn lemma_blocking_released<T>(seeds: Seq<T>, ops: Seq<Op<T>>, buf: T)
    requires
        seeds.len() >= 1,
        forall|i: int| 0 <= i < ops.len() ==> !(#[trigger] ops[i]).settles_write(),
        Pipe::new(seeds).run(ops).writes_acquired >= 1,
    ensures
        ({
            let p = Pipe::new(seeds).run(ops);
            &&& p.full.live(0)
            &&& p.complete_write(0, buf).acquire_read().1 == Acquire::Granted {
                buf,
                slot: p.empty.slots.len(),
            }
        }),
{
    let p = Pipe::new(seeds);
    lemma_new_wf(seeds);
    lemma_nothing_written_run(p, ops);
    let q = p.run(ops);
    lemma_nothing_written_acquire(q);
    assert(q.full.slots[0] is Pending);
}

/// In every reachable state: a read token is granted only when more write
/// tokens were completed than read tokens issued, and a write token only when
/// fewer write tokens were issued than the capacity and the read tokens
/// completed allow.
pub proof fn lemma_grant_needs_buffer<T>(p: Pipe<T>)
    requires
        p.wf(),
    ensures
        p.acquire_read().1 is Granted ==> p.reads_acquired < p.writes_done,
        p.acquire_write().1 is Granted ==> p.writes_acquired < p.reads_done + p.capacity,
{
    if p.acquire_read().1 is Granted {
        lemma_ready_monotone(p.full, p.full.taken + 1, p.full.slots.len());
    }
    if p.acquire_write().1 is Granted {
        lemma_ready_monotone(p.empty, p.empty.taken + 1, p.empty.slots.len());
    }
}

/// Abandonment signal: once the write token for position `slot` is dropped
/// without being completed, then whatever is done afterwards, the acquisition
/// that the consumer makes when it has reached position `slot` fails with
/// `Disconnected`. If the token was the oldest one not yet read, that is the
/// consumer's next acquisition.
pub proof fn lemma_abandonment_signal<T>(p: Pipe<T>, slot: nat, ops: Seq<Op<T>>)
    requires
        p.wf(),
        p.full.live(slot),
    ensures
        p.full.taken == slot ==> p.abandon_write(slot).acquire_read().1 is Disconnected,
        ({
            let q = p.abandon_write(slot).run(ops);
            q.full.taken == slot ==> q.acquire_read().1 is Disconnected
        }),
{
    let a = p.abandon_write(slot);
    lemma_settled_stays(a, ops, slot);
    assert(a.run(Seq::<Op<T>>::empty()) == a);
}

/// The same signal towards the producer: when the read token for the slot at
/// the front of the empty stream is dropped, the producer's next acquisition
/// fails with `Disconnected`.
pub proof fn lemma_abandoned_read_signal<T>(p: Pipe<T>, slot: nat)
    requires
        p.wf(),
        p.empty.live(slot),
        p.empty.taken == slot,
    ensures
        p.abandon_read(slot).acquire_write().1 is Disconnected,
{
}

/// Completion never fails: a live token can be completed in every state of
/// the pipe, also when both ends are gone. The step is one of the protocol,
/// settles the token's own slot and changes no other.
pub proof fn lemma_complete_never_fails<T>(p: Pipe<T>, slot: nat, buf: T)
    requires
        p.wf(),
    ensures
        p.full.live(slot) ==> {
            let q = p.drop_producer().drop_consumer();
            &&& q.enabled(Op::CompleteWrite { slot, buf })
            &&& q.complete_write(slot, buf).wf()
            &&& q.complete_write(slot, buf).full.slots == p.full.slots.update(
                slot as int,
                Slot::Ready(buf),
            )
            &&& q.complete_write(slot, buf).empty == p.empty
        },
        p.empty.live(slot) ==> {
            let q = p.drop_producer().drop_consumer();
            &&& q.enabled(Op::CompleteRead { slot, buf })
            &&& q.complete_read(slot, buf).wf()
            &&& q.complete_read(slot, buf).empty.slots == p.empty.slots.update(
                slot as int,
                Slot::Ready(buf),
            )
            &&& q.complete_read(slot, buf).full == p.full
        },
{
    let q = p.drop_producer().drop_consumer();
    if p.full.live(slot) {
        lemma_step_wf(q, Op::CompleteWrite { slot, buf });
    }
    if p.empty.live(slot) {
        lemma_step_wf(q, Op::CompleteRead { slot, buf });
    }
}

/// The state in which a built pipe starts. Where `seeds` is what `build`
/// records on the ends it returns, the pipe `Pipe::new(seeds)` is well formed
/// and has the builder's size as its capacity. Its empty stream holds exactly
/// that many slots, all fulfilled, each with a clone of the template and none
/// taken; its full stream holds no slot; no token is live; both ends exist.
pub proof fn lemma_built_state<T: Clone>(builder: Builder<T>, seeds: Seq<T>)
    requires
        builder.seeds(seeds),
    ensures
        ({
            let p = Pipe::new(seeds);
            &&& p.wf()
            &&& p.capacity == builder.size()
            &&& p.producer && p.consumer
            &&& p.empty.slots.len() == builder.size()
            &&& p.empty.taken == 0
            &&& forall|i: int|
                0 <= i < builder.size() ==> #[trigger] p.empty.slots[i] == Slot::Ready(seeds[i])
                    && cloned(builder.template()->0, seeds[i])
            &&& p.empty.waiting() == builder.size()
            &&& p.empty.pending() == 0
            &&& p.full.slots.len() == 0
            &&& p.full.waiting() == 0
            &&& p.full.pending() == 0
        }),
{
    let p = Pipe::new(seeds);
    lemma_new_wf(seeds);
    assert forall|i: int| 0 <= i < p.empty.slots.len() implies !(
    #[trigger] p.empty.slots[i] is Broken) by {}
    lemma_pending_or_ready(p.empty, p.empty.slots.len());
}

/// A buffer that is lost is not replaced. On a new pipe, let the first write
/// token be completed, its buffer read, and the read token dropped. Then the
/// pipe holds one buffer less: with one seeded buffer the producer's next
/// acquisition fails on the abandoned slot, and with more it is granted the
/// second seeded buffer.
pub proof fn lemma_lost_buffer_is_not_replaced<T>(seeds: Seq<T>, buf: T)
    requires
        seeds.len() >= 1,
    ensures
        ({
            let written = Pipe::new(seeds).acquire_write().0.complete_write(0, buf);
            let read = written.acquire_read();
            let lost = read.0.abandon_read(seeds.len());
            &&& Pipe::new(seeds).acquire_write().1 == Acquire::Granted { buf: seeds[0], slot: 0 }
            &&& read.1 == Acquire::Granted { buf, slot: seeds.len() }
            &&& seeds.len() == 1 ==> lost.acquire_write().1 is Disconnected
            &&& seeds.len() >= 2 ==> lost.acquire_write().1 == Acquire::Granted {
                buf: seeds[1],
                slot: 1,
            }
        }),
{
}

} // verus!
