use crate::cyclic_pipe::channel::send;
use crate::cyclic_pipe::protocol::read_decision;
use crate::cyclic_pipe::stream::{take, Disconnected, Taken};
use crate::cyclic_pipe::token::Token;
use std::sync::mpsc::{channel, Receiver, Sender};
use vstd::prelude::*;

verus! {

/// The consumer end of a pipe.
#[verifier::reject_recursive_types(T)]
pub struct Consumer<T> where T: Clone {
    rx_full: Receiver<Receiver<T>>,
    tx_empty: Sender<Receiver<T>>,
    seeds: Ghost<Seq<T>>,
}

impl<T> Consumer<T> where T: Clone {
    /// The receiving end of the stream of filled buffers.
    pub closed spec fn full_stream(&self) -> Receiver<Receiver<T>> {
        self.rx_full
    }

    /// The sending end of the stream of empty buffers.
    pub closed spec fn empty_stream(&self) -> Sender<Receiver<T>> {
        self.tx_empty
    }

    /// The buffers that the builder seeded the pipe of this end with, in the
    /// order of seeding. It is empty for an end that was wired by hand.
    pub closed spec fn seeded(&self) -> Seq<T> {
        self.seeds@
    }

    /// A consumer that takes filled buffers from `rx_full` and reserves their
    /// way back on `tx_empty`.
    pub fn new(rx_full: Receiver<Receiver<T>>, tx_empty: Sender<Receiver<T>>) -> (consumer: Self)
        ensures
            consumer.full_stream() == rx_full,
            consumer.empty_stream() == tx_empty,
            consumer.seeded() == Seq::<T>::empty(),
    {
        Consumer { rx_full, tx_empty, seeds: Ghost(Seq::empty()) }
    }

    /// The consumer of a pipe that was seeded with `seeds`.
    pub(crate) fn of_seeded(
        rx_full: Receiver<Receiver<T>>,
        tx_empty: Sender<Receiver<T>>,
        seeds: Ghost<Seq<T>>,
    ) -> (consumer: Self)
        ensures
            consumer.full_stream() == rx_full,
            consumer.empty_stream() == tx_empty,
            consumer.seeded() == seeds@,
    {
        Consumer { rx_full, tx_empty, seeds }
    }

    /// Waits for the next filled buffer and returns a token to read it.
    ///
    /// Fails when the producer is gone and nothing is left to read, or when the
    /// producer dropped the write token whose turn it is.
    ///
    /// The call waits on the producer's side of the pipe, so its contract is
    /// empty; [`Consumer::grant`] states what it does with what it finds. In
    /// the protocol this is the step `Pipe::acquire_read`.
    pub fn get_read_token(&self) -> (r: Result<Token<T>, Disconnected>) {
        let taken = take(&self.rx_full);
        self.grant(taken)
    }

    /// Continues an acquisition after the take: a token for the buffer that
    /// was taken, and `Disconnected` if none was.
    ///
    /// The slot for the way back is queued on the empty stream. If the
    /// producer is gone that fails, which is ignored: the buffers that are
    /// still queued can be read to the end.
    pub fn grant(&self, taken: Taken<T>) -> (r: Result<Token<T>, Disconnected>)
        ensures
            Token::held(r) == read_decision(taken),
    {
        match taken {
            Taken::Buffer(buf) => {
                let (ret, slot) = channel::<T>();
                let _ = send(&self.tx_empty, slot);
                Ok(Token::new(buf, ret))
            },
            _ => Err(Disconnected),
        }
    }
}

} // verus!
