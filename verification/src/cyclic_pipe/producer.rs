use crate::cyclic_pipe::channel::send;
use crate::cyclic_pipe::protocol::write_decision;
use crate::cyclic_pipe::stream::{take, Disconnected, Taken};
use crate::cyclic_pipe::token::Token;
use std::sync::mpsc::{channel, Receiver, Sender};
use vstd::prelude::*;

verus! {

/// The producer end of a pipe.
#[verifier::reject_recursive_types(T)]
pub struct Producer<T> where T: Clone {
    rx_empty: Receiver<Receiver<T>>,
    tx_full: Sender<Receiver<T>>,
    seeds: Ghost<Seq<T>>,
}

impl<T> Producer<T> where T: Clone {
    /// The receiving end of the stream of empty buffers.
    pub closed spec fn empty_stream(&self) -> Receiver<Receiver<T>> {
        self.rx_empty
    }

    /// The sending end of the stream of filled buffers.
    pub closed spec fn full_stream(&self) -> Sender<Receiver<T>> {
        self.tx_full
    }

    /// The buffers that the builder seeded the pipe of this end with, in the
    /// order of seeding. It is empty for an end that was wired by hand, of
    /// which the builder seeded nothing. With `Pipe::new` it gives the state
    /// in which the protocol starts.
    pub closed spec fn seeded(&self) -> Seq<T> {
        self.seeds@
    }

    /// A producer that takes empty buffers from `rx_empty` and reserves their
    /// places on `tx_full`.
    pub fn new(rx_empty: Receiver<Receiver<T>>, tx_full: Sender<Receiver<T>>) -> (producer: Self)
        ensures
            producer.empty_stream() == rx_empty,
            producer.full_stream() == tx_full,
            producer.seeded() == Seq::<T>::empty(),
    {
        Producer { rx_empty, tx_full, seeds: Ghost(Seq::empty()) }
    }

    /// The producer of a pipe that was seeded with `seeds`.
    pub(crate) fn of_seeded(
        rx_empty: Receiver<Receiver<T>>,
        tx_full: Sender<Receiver<T>>,
        seeds: Ghost<Seq<T>>,
    ) -> (producer: Self)
        ensures
            producer.empty_stream() == rx_empty,
            producer.full_stream() == tx_full,
            producer.seeded() == seeds@,
    {
        Producer { rx_empty, tx_full, seeds }
    }

    /// Waits for an empty buffer and returns a token to write it.
    ///
    /// The buffer's place on the full stream is reserved here, before anything
    /// is written, so buffers reach the consumer in the order of these calls.
    /// Fails when the consumer is gone or dropped a read token.
    ///
    /// The call waits on the consumer's side of the pipe, so its contract is
    /// empty; [`Producer::grant`] states what it does with what it finds. In
    /// the protocol this is the step `Pipe::acquire_write`.
    pub fn get_write_token(&self) -> (r: Result<Token<T>, Disconnected>) {
        let taken = take(&self.rx_empty);
        self.grant(taken)
    }

    /// Continues an acquisition after the take: reserves a slot on the full
    /// stream for a buffer that was taken.
    ///
    /// Whether the reservation succeeds depends on the consumer still being
    /// there. Whichever it is, the result is what the protocol decides for it:
    /// no token is issued unless a buffer was taken, and an issued token holds
    /// exactly that buffer. [`Producer::issue`] says which result belongs to
    /// which outcome.
    pub fn grant(&self, taken: Taken<T>) -> (r: Result<Token<T>, Disconnected>)
        ensures
            Token::held(r) == write_decision(taken, true) || Token::held(r) == write_decision(
                taken,
                false,
            ),
    {
        match taken {
            Taken::Buffer(buf) => {
                let (ret, slot) = channel::<T>();
                let reserved = send(&self.tx_full, slot).is_ok();
                Self::issue(buf, ret, reserved)
            },
            _ => Err(Disconnected),
        }
    }

    /// Ends an acquisition: a token for `buf` if its slot was reserved on the
    /// full stream, and otherwise `Disconnected`, with the buffer lost.
    pub fn issue(buf: T, ret: Sender<T>, reserved: bool) -> (r: Result<Token<T>, Disconnected>)
        ensures
            Token::held(r) == write_decision(Taken::Buffer(buf), reserved),
            r matches Ok(token) ==> token.return_path() == ret,
    {
        if reserved {
            Ok(Token::new(buf, ret))
        } else {
            Err(Disconnected)
        }
    }
}

} // verus!
