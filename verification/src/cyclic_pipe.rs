/// Creates a pipe and returns its producer and consumer ends.
pub mod builder;

/// What is assumed of the `std::sync::mpsc` channels underneath.
pub mod channel;

/// The end that takes filled buffers and returns used ones.
pub mod consumer;

/// The guarantees of the protocol, proved over its state machine.
pub mod laws;

/// The end that takes empty buffers and queues filled ones.
pub mod producer;

/// The pipe as a state machine: what the channels are taken to do.
pub mod protocol;

/// One blocking take from a stream of slots, and what it can find.
pub mod stream;

/// Exclusive access to one buffer.
pub mod token;

/// What every reachable state of the protocol satisfies.
pub mod well_formed;
