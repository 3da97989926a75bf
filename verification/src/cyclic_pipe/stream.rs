//! Each direction of the pipe is a stream of slots. A slot is a one-shot
//! channel that will deliver one buffer; the stream fixes the order of the
//! slots. Taking from a stream means receiving the next slot and then waiting
//! for that slot's buffer.

use std::sync::mpsc::{Receiver, RecvError};
use vstd::prelude::*;

verus! {

/// The other end of the pipe is gone, or a token on the other side was dropped
/// without being completed.
#[derive(Debug, Clone, Copy, PartialEq, Eq, Structural)]
pub struct Disconnected;

/// What one take from a stream of slots found.
pub enum Taken<T> {
    /// The stream is empty and its sending end is gone.
    Closed,
    /// The next slot was abandoned: its token was dropped before completion.
    Broken,
    /// The next slot delivered this buffer.
    Buffer(T),
}

impl<T> Taken<T> {
    /// The buffer that the take delivered, if it delivered one.
    pub open spec fn buffer(self) -> Option<T> {
        match self {
            Taken::Buffer(buf) => Some(buf),
            _ => None,
        }
    }
}

/// Takes the next slot from `stream` and waits for its buffer.
///
/// Both receives wait on the other side of the pipe, so which outcome is
/// returned is not stated; [`Taken::from_received`] states it for each pair of
/// answers, and the protocol for each state of the stream (`Stream::observe`).
pub fn take<T>(stream: &Receiver<Receiver<T>>) -> (taken: Taken<T>) {
    let received = match stream.recv() {
        Ok(slot) => Ok(slot.recv()),
        Err(closed) => Err(closed),
    };
    Taken::from_received(received)
}

impl<T> Taken<T> {
    /// What the two receives of a take amount to. The outer result is that of
    /// receiving the next slot from the stream, the inner one that of
    /// receiving the buffer from that slot.
    pub open spec fn of(received: Result<Result<T, RecvError>, RecvError>) -> Self {
        match received {
            Err(_) => Taken::Closed,
            Ok(Err(_)) => Taken::Broken,
            Ok(Ok(buf)) => Taken::Buffer(buf),
        }
    }

    /// Tells what a take found from what its two receives returned.
    pub fn from_received(received: Result<Result<T, RecvError>, RecvError>) -> (taken: Self)
        ensures
            taken == Self::of(received),
    {
        match received {
            Err(_) => Taken::Closed,
            Ok(Err(_)) => Taken::Broken,
            Ok(Ok(buf)) => Taken::Buffer(buf),
        }
    }
}

} // verus!
