use crate::cyclic_pipe::channel::send;
use crate::cyclic_pipe::stream::Disconnected;
use std::sync::mpsc::Sender;
use vstd::prelude::*;

verus! {

/// Exclusive access to one buffer of the pipe.
///
/// The holder reads and writes `buf` and ends the access with [`Token::done`],
/// which consumes the token. A token that is dropped instead abandons its slot:
/// the other end of the pipe then gets [`Disconnected`] where it would have got
/// this buffer.
///
#[verifier::reject_recursive_types(T)]
pub struct Token<T> where T: Clone {
    /// The buffer from the pipe.
    pub buf: T,
    sender: Sender<T>,
}

impl<T> Token<T> where T: Clone {
    /// The buffer that the token holds.
    pub closed spec fn buffer(&self) -> T {
        self.buf
    }

    /// The sending end of the slot that was reserved for this buffer on the
    /// opposite stream when the token was issued.
    pub closed spec fn return_path(&self) -> Sender<T> {
        self.sender
    }

    /// What an acquisition returned, seen as the protocol sees it: the buffer
    /// of the token, or the failure. The return path of the token is left
    /// out: it is the sending end of a channel made during the acquisition,
    /// of which nothing can be said beforehand.
    pub open spec fn held(r: Result<Self, Disconnected>) -> Result<T, Disconnected> {
        match r {
            Ok(token) => Ok(token.buffer()),
            Err(e) => Err(e),
        }
    }

    /// A token for `buf` that returns it through `sender`.
    pub fn new(buf: T, sender: Sender<T>) -> (token: Self)
        ensures
            token.buffer() == buf,
            token.return_path() == sender,
    {
        Token { buf, sender }
    }

    /// The buffer, to read.
    pub fn buf_ref(&self) -> (buf: &T)
        ensures
            *buf == self.buffer(),
    {
        &self.buf
    }

    /// The buffer, to write in place. The return path stays as it is.
    pub fn buf_mut(&mut self) -> (buf: &mut T)
        ensures
            *buf == old(self).buffer(),
            final(self).buffer() == *final(buf),
            final(self).return_path() == old(self).return_path(),
    {
        &mut self.buf
    }

    /// Returns the buffer to the pipe by sending it into the reserved slot.
    ///
    /// This never fails: if the other end is gone the buffer is discarded. It
    /// has no precondition, so it may be called in any state of the pipe. In
    /// the protocol this is the step `Pipe::complete_write` for a write token
    /// and `Pipe::complete_read` for a read token; dropping the token instead
    /// is `Pipe::abandon_write` or `Pipe::abandon_read`.
    pub fn done(self) {
        let _ = self.try_done();
    }

    /// Returns the buffer to the pipe as [`Token::done`] does, and tells
    /// whether the slot was still open. If it was not, because the other end is
    /// gone, the buffer comes back as it was.
    pub fn try_done(self) -> (r: Result<(), T>)
        ensures
            r matches Err(buf) ==> buf == self.buffer(),
    {
        let Token { buf, sender } = self;
        send(&sender, buf)
    }
}

} // verus!
