//! A cyclic buffer pipe: a bounded, order-preserving channel between one
//! producer and one consumer that recycles a fixed population of buffers.
//!
//! A [`Builder`] clones a template into `N` buffers and hands out the two ends.
//! The [`Producer`] acquires write tokens, the [`Consumer`] read tokens; a
//! [`Token`] owns one buffer until [`Token::done`] passes it on to the other
//! side. The place of a buffer in the order of delivery is fixed when its write
//! token is acquired, not when it is completed.
//!
//! The executable ends run on `std::sync::mpsc` channels. What a channel does
//! depends on the thread at its other end, so the contracts of the executable
//! functions state what holds for every answer of a channel, and nothing about
//! which answer comes (module `channel` lists what is assumed).
//!
//! The guarantees of the design as a whole are proved over a model: module
//! `protocol` describes both streams and all tokens as one state machine whose
//! steps are the calls of this API, `well_formed` proves its invariant, and
//! `laws` proves conservation, delivery in the order of acquisition,
//! backpressure, the disconnection signals and that completion never fails.
//! The model and the code meet in two places. `Builder::build` records on the
//! ends what it seeded the pipe with, and `Pipe::new` of that record is the
//! state in which the model starts. [`Taken`] is the outcome of one take from
//! a stream: the code decides on it in `Producer::grant` and `Consumer::grant`
//! as the model does in `Pipe::acquire_write` and `Pipe::acquire_read`.

pub mod cyclic_pipe;

pub use cyclic_pipe::builder::BuildError;
pub use cyclic_pipe::builder::Builder;
pub use cyclic_pipe::consumer::Consumer;
pub use cyclic_pipe::producer::Producer;
pub use cyclic_pipe::stream::Disconnected;
pub use cyclic_pipe::stream::Taken;
pub use cyclic_pipe::token::Token;
