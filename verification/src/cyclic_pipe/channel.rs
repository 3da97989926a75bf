//! The channels of `std::sync::mpsc`, as far as the pipe uses them.
//!
//! A channel is shared with another thread, so nothing here says whether a call
//! succeeds or delivers: every caller is verified for each outcome. What is
//! assumed is that the three functions return without panicking, and that a
//! failed `send` gives its value back. `recv` may wait for as long as its
//! channel is empty and a sender is alive.

use std::sync::mpsc::{Receiver, RecvError, Sender};
use vstd::prelude::*;

verus! {

/// `std::sync::mpsc::Sender`, the sending end of a channel. Opaque.
#[verifier::external_type_specification]
#[verifier::external_body]
#[verifier::reject_recursive_types(T)]
pub struct ExSender<T>(Sender<T>);

/// `std::sync::mpsc::Receiver`, the receiving end of a channel. Opaque.
#[verifier::external_type_specification]
#[verifier::external_body]
#[verifier::reject_recursive_types(T)]
pub struct ExReceiver<T>(Receiver<T>);

/// `std::sync::mpsc::RecvError`: the channel is empty and every sender is gone.
#[verifier::external_type_specification]
#[verifier::external_body]
pub struct ExRecvError(RecvError);

/// `std::sync::mpsc::channel`: a new channel. Nothing is claimed of its ends.
pub assume_specification<T>[ std::sync::mpsc::channel::<T> ]() -> (ends: (Sender<T>, Receiver<T>));

/// `Sender::send`: never waits. Nothing is claimed of whether the value was
/// accepted, which depends on whether the receiver still exists. If it was
/// not, `SendError` holds the value that was to be sent, which is handed back.
#[verifier::external_body]
pub(crate) fn send<T>(tx: &Sender<T>, value: T) -> (sent: Result<(), T>)
    ensures
        sent matches Err(unsent) ==> unsent == value,
{
    tx.send(value).map_err(|e| e.0)
}

/// `Receiver::recv`: waits for a value or for the last sender to go. Nothing is
/// claimed of the value, which is whatever the other side sent.
pub assume_specification<T>[ Receiver::<T>::recv ](rx: &Receiver<T>) -> (got: Result<T, RecvError>);

} // verus!
