//! The pipe as a state machine.
//!
//! The executable ends share their state through channels that the verifier
//! cannot look into. This module writes down what those channels are taken to
//! do, as one value of type [`Pipe`] for the whole system, and one step for
//! each thing a party can do: acquire, complete or drop a token, drop an end.
//!
//! A stream is modelled as the list of all slots ever queued on it, oldest
//! first, with a count of how many its receiving end has taken. A token is
//! known by the position of the slot that was reserved for it, and it is live
//! exactly while that slot is [`Slot::Pending`].
//!
//! An acquisition that would wait is the outcome [`Acquire::Blocked`]: the
//! state does not change, and the call returns once another step has made
//! progress possible.

use crate::cyclic_pipe::stream::{Disconnected, Taken};
use vstd::prelude::*;

verus! {

/// A one-shot slot: the promise of one buffer.
pub enum Slot<T> {
    /// Reserved, and the token that will fulfil it is live.
    Pending,
    /// Fulfilled: the token was completed with this buffer, or the slot was
    /// seeded with it when the pipe was built.
    Ready(T),
    /// Abandoned: its token was dropped without being completed.
    Broken,
}

/// One direction of the pipe.
#[verifier::ext_equal]
pub struct Stream<T> {
    /// Every slot that was ever queued, in the order of queueing.
    pub slots: Seq<Slot<T>>,
    /// How many slots the receiving end has taken, from the front.
    pub taken: nat,
}

impl<T> Stream<T> {
    /// No slot is taken that was not queued, and none was taken while pending:
    /// a take waits for its slot.
    pub open spec fn wf(self) -> bool {
        &&& self.taken <= self.slots.len()
        &&& forall|i: int| 0 <= i < self.taken ==> !(#[trigger] self.slots[i] is Pending)
    }

    /// Whether `slot` is reserved for a token that is still live.
    pub open spec fn live(self, slot: nat) -> bool {
        slot < self.slots.len() && self.slots[slot as int] is Pending
    }

    /// How many of the first `n` slots are fulfilled.
    pub open spec fn ready_among(self, n: nat) -> nat
        decreases n,
    {
        if n == 0 {
            0
        } else {
            let rest = self.ready_among((n - 1) as nat);
            if self.slots[n - 1] is Ready {
                rest + 1
            } else {
                rest
            }
        }
    }

    /// How many slots are fulfilled, taken or not.
    pub open spec fn ready(self) -> nat {
        self.ready_among(self.slots.len())
    }

    /// How many buffers wait in the stream: the slots that are fulfilled and
    /// not yet taken.
    pub open spec fn waiting(self) -> int {
        self.ready() - self.ready_among(self.taken)
    }

    /// How many of the first `n` slots are pending.
    pub open spec fn pending_among(self, n: nat) -> nat
        decreases n,
    {
        if n == 0 {
            0
        } else {
            let rest = self.pending_among((n - 1) as nat);
            if self.slots[n - 1] is Pending {
                rest + 1
            } else {
                rest
            }
        }
    }

    /// How many tokens that reserved a slot on this stream are live.
    pub open spec fn pending(self) -> nat {
        self.pending_among(self.slots.len())
    }

    /// What a take finds, or `None` while it has to wait: for a slot to be
    /// queued by a sending end that is still `alive`, or for the next slot to
    /// be fulfilled or abandoned.
    pub open spec fn observe(self, alive: bool) -> Option<Taken<T>> {
        if self.taken >= self.slots.len() {
            if alive {
                None
            } else {
                Some(Taken::Closed)
            }
        } else {
            match self.slots[self.taken as int] {
                Slot::Pending => None,
                Slot::Broken => Some(Taken::Broken),
                Slot::Ready(buf) => Some(Taken::Buffer(buf)),
            }
        }
    }

    /// The stream after a take that found `taken`: the slot is gone from the
    /// front, unless there was none.
    pub open spec fn after(self, taken: Taken<T>) -> Self {
        if taken is Closed {
            self
        } else {
            Stream { taken: self.taken + 1, ..self }
        }
    }

    /// The stream with one more slot reserved at the back.
    pub open spec fn reserve(self) -> Self {
        Stream { slots: self.slots.push(Slot::Pending), ..self }
    }

    /// The stream with `slot` settled as `outcome`.
    pub open spec fn settle(self, slot: nat, outcome: Slot<T>) -> Self {
        Stream { slots: self.slots.update(slot as int, outcome), ..self }
    }
}

/// What the producer's acquisition returns when its take has found `taken`
/// and its slot on the full stream was `reserved` or not: the buffer of the
/// write token, or the failure. The executable `Producer::grant` decides by
/// this function.
pub open spec fn write_decision<T>(taken: Taken<T>, reserved: bool) -> Result<T, Disconnected> {
    match taken.buffer() {
        Some(buf) if reserved => Ok(buf),
        _ => Err(Disconnected),
    }
}

/// What the consumer's acquisition returns when its take has found `taken`:
/// the buffer of the read token, or the failure. The executable
/// `Consumer::grant` decides by this function.
pub open spec fn read_decision<T>(taken: Taken<T>) -> Result<T, Disconnected> {
    match taken.buffer() {
        Some(buf) => Ok(buf),
        None => Err(Disconnected),
    }
}

/// How an acquisition ends.
pub enum Acquire<T> {
    /// It waits; nothing has changed.
    Blocked,
    /// It fails.
    Disconnected,
    /// It returns a token with this buffer, whose way back is the slot at this
    /// position on the opposite stream.
    Granted { buf: T, slot: nat },
}

/// The whole pipe: both streams, which ends exist, and what has happened.
#[verifier::ext_equal]
pub struct Pipe<T> {
    /// The number of buffers the pipe was built with.
    pub capacity: nat,
    /// The stream of empty buffers, from the consumer to the producer.
    pub empty: Stream<T>,
    /// The stream of filled buffers, from the producer to the consumer.
    pub full: Stream<T>,
    /// Whether the producer end exists.
    pub producer: bool,
    /// Whether the consumer end exists.
    pub consumer: bool,
    /// How many write tokens were issued.
    pub writes_acquired: nat,
    /// How many write tokens were completed.
    pub writes_done: nat,
    /// How many read tokens were issued.
    pub reads_acquired: nat,
    /// How many read tokens were completed.
    pub reads_done: nat,
}

/// One thing that one party does.
pub enum Op<T> {
    /// The producer asks for a write token.
    AcquireWrite,
    /// The holder of the write token for `slot` completes it with `buf`.
    CompleteWrite { slot: nat, buf: T },
    /// The holder of the write token for `slot` drops it.
    AbandonWrite { slot: nat },
    /// The consumer asks for a read token.
    AcquireRead,
    /// The holder of the read token for `slot` completes it with `buf`.
    CompleteRead { slot: nat, buf: T },
    /// The holder of the read token for `slot` drops it.
    AbandonRead { slot: nat },
    /// The producer end is dropped.
    DropProducer,
    /// The consumer end is dropped.
    DropConsumer,
}

impl<T> Op<T> {
    /// Whether the step brings a buffer back from the consumer side, or ends
    /// the hope of one: a read token completed or dropped, an end dropped.
    pub open spec fn returns_or_ends(self) -> bool {
        self is CompleteRead || self is AbandonRead || self is DropProducer || self is DropConsumer
    }

    /// Whether the step drops a token or an end.
    pub open spec fn drops(self) -> bool {
        self is AbandonWrite || self is AbandonRead || self is DropProducer || self is DropConsumer
    }

    /// Whether the step settles a write token's slot or drops the producer.
    pub open spec fn settles_write(self) -> bool {
        self is CompleteWrite || self is AbandonWrite || self is DropProducer
    }
}

impl<T> Pipe<T> {
    /// A pipe as built around the buffers `seeds`: one slot for each on the
    /// empty stream, in their order, already fulfilled, and nothing on the full
    /// stream. The capacity is their number.
    pub open spec fn new(seeds: Seq<T>) -> Self {
        Pipe {
            capacity: seeds.len(),
            empty: Stream { slots: Seq::new(seeds.len(), |i: int| Slot::Ready(seeds[i])), taken: 0 },
            full: Stream { slots: Seq::empty(), taken: 0 },
            producer: true,
            consumer: true,
            writes_acquired: 0,
            writes_done: 0,
            reads_acquired: 0,
            reads_done: 0,
        }
    }

    /// What holds of every state that the steps can reach from a new pipe.
    pub open spec fn wf(self) -> bool {
        &&& self.capacity >= 1
        &&& self.empty.wf()
        &&& self.full.wf()
        // Each write token reserved one slot on the full stream,
        // each read token one on the empty stream, behind the seeded ones.
        &&& self.writes_acquired == self.full.slots.len()
        &&& self.reads_acquired + self.capacity == self.empty.slots.len()
        // A slot is fulfilled by the completion of its token, or by seeding.
        &&& self.writes_done == self.full.ready()
        &&& self.reads_done + self.capacity == self.empty.ready()
        // A token was issued for a buffer that was taken: every time on the
        // read side, and on the write side unless the consumer had gone.
        &&& self.reads_acquired == self.full.ready_among(self.full.taken)
        &&& self.writes_acquired <= self.empty.ready_among(self.empty.taken)
        &&& self.consumer ==> self.writes_acquired == self.empty.ready_among(self.empty.taken)
    }

    /// The producer's acquisition.
    ///
    /// It takes from the empty stream, whose sending end the consumer holds.
    /// With a buffer in hand it reserves a slot on the full stream, which
    /// fails if the consumer is gone: the buffer is then lost.
    pub open spec fn acquire_write(self) -> (Self, Acquire<T>) {
        match self.empty.observe(self.consumer) {
            None => (self, Acquire::Blocked),
            Some(taken) => {
                let next = Pipe { empty: self.empty.after(taken), ..self };
                match write_decision(taken, self.consumer) {
                    Ok(buf) => (
                        Pipe {
                            full: next.full.reserve(),
                            writes_acquired: next.writes_acquired + 1,
                            ..next
                        },
                        Acquire::Granted { buf, slot: self.full.slots.len() },
                    ),
                    Err(_) => (next, Acquire::Disconnected),
                }
            },
        }
    }

    /// The consumer's acquisition.
    ///
    /// It takes from the full stream, whose sending end the producer holds.
    /// With a buffer in hand it reserves a slot on the empty stream. If the
    /// producer is gone nobody will take that slot, and the token is issued
    /// all the same.
    pub open spec fn acquire_read(self) -> (Self, Acquire<T>) {
        match self.full.observe(self.producer) {
            None => (self, Acquire::Blocked),
            Some(taken) => {
                let next = Pipe { full: self.full.after(taken), ..self };
                match read_decision(taken) {
                    Ok(buf) => (
                        Pipe {
                            empty: next.empty.reserve(),
                            reads_acquired: next.reads_acquired + 1,
                            ..next
                        },
                        Acquire::Granted { buf, slot: self.empty.slots.len() },
                    ),
                    Err(_) => (next, Acquire::Disconnected),
                }
            },
        }
    }

    /// The write token for `slot` is completed with `buf`.
    pub open spec fn complete_write(self, slot: nat, buf: T) -> Self {
        Pipe {
            full: self.full.settle(slot, Slot::Ready(buf)),
            writes_done: self.writes_done + 1,
            ..self
        }
    }

    /// The write token for `slot` is dropped.
    pub open spec fn abandon_write(self, slot: nat) -> Self {
        Pipe { full: self.full.settle(slot, Slot::Broken), ..self }
    }

    /// The read token for `slot` is completed with `buf`.
    pub open spec fn complete_read(self, slot: nat, buf: T) -> Self {
        Pipe {
            empty: self.empty.settle(slot, Slot::Ready(buf)),
            reads_done: self.reads_done + 1,
            ..self
        }
    }

    /// The read token for `slot` is dropped.
    pub open spec fn abandon_read(self, slot: nat) -> Self {
        Pipe { empty: self.empty.settle(slot, Slot::Broken), ..self }
    }

    /// The producer end is dropped. Its tokens live on.
    pub open spec fn drop_producer(self) -> Self {
        Pipe { producer: false, ..self }
    }

    /// The consumer end is dropped. Its tokens live on.
    pub open spec fn drop_consumer(self) -> Self {
        Pipe { consumer: false, ..self }
    }

    /// Whether `op` can be done in this state: an end acts only while it
    /// exists, and a token only while it is live.
    pub open spec fn enabled(self, op: Op<T>) -> bool {
        match op {
            Op::AcquireWrite => self.producer,
            Op::AcquireRead => self.consumer,
            Op::CompleteWrite { slot, .. } => self.full.live(slot),
            Op::AbandonWrite { slot } => self.full.live(slot),
            Op::CompleteRead { slot, .. } => self.empty.live(slot),
            Op::AbandonRead { slot } => self.empty.live(slot),
            Op::DropProducer => true,
            Op::DropConsumer => true,
        }
    }

    /// The state after `op`. An `op` that cannot be done changes nothing, and
    /// neither does an acquisition that waits.
    pub open spec fn step(self, op: Op<T>) -> Self {
        if !self.enabled(op) {
            self
        } else {
            match op {
                Op::AcquireWrite => self.acquire_write().0,
                Op::AcquireRead => self.acquire_read().0,
                Op::CompleteWrite { slot, buf } => self.complete_write(slot, buf),
                Op::AbandonWrite { slot } => self.abandon_write(slot),
                Op::CompleteRead { slot, buf } => self.complete_read(slot, buf),
                Op::AbandonRead { slot } => self.abandon_read(slot),
                Op::DropProducer => self.drop_producer(),
                Op::DropConsumer => self.drop_consumer(),
            }
        }
    }

    /// The state after all of `ops`, in order.
    pub open spec fn run(self, ops: Seq<Op<T>>) -> Self
        decreases ops.len(),
    {
        if ops.len() == 0 {
            self
        } else {
            self.run(ops.drop_last()).step(ops.last())
        }
    }
}

} // verus!
