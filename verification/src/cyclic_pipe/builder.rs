use crate::cyclic_pipe::channel::send;
use crate::cyclic_pipe::consumer::Consumer;
use crate::cyclic_pipe::producer::Producer;
use std::sync::mpsc::{channel, Receiver, Sender};
use vstd::pervasive::runtime_assert;
use vstd::prelude::*;

verus! {

/// Why a pipe could not be built.
#[derive(Debug, Clone, Copy, PartialEq, Eq, Structural)]
pub enum BuildError {
    /// No template was set to clone the buffers from.
    TemplateMissing,
    /// The size is 0: a pipe has at least one buffer.
    ZeroCapacity,
}

/// Configures a pipe: how many buffers circulate, and what each starts as.
pub struct Builder<T> where T: Clone {
    size: usize,
    init_template: Option<T>,
}

/// Queues one more empty buffer: a new slot on `stream`, fulfilled with `buf`.
fn seed<T>(stream: &Sender<Receiver<T>>, buf: T) {
    let (tx, rx) = channel::<T>();
    let _ = send(stream, rx);
    let _ = send(&tx, buf);
}

impl<T> Builder<T> where T: Clone {
    /// The number of buffers the pipe will have.
    pub closed spec fn size(&self) -> usize {
        self.size
    }

    /// The value each buffer will start as, once set.
    pub closed spec fn template(&self) -> Option<T> {
        self.init_template
    }

    /// Whether `build` can go ahead, and if not, why.
    pub open spec fn validate(&self) -> Result<(), BuildError> {
        if self.template() is None {
            Err(BuildError::TemplateMissing)
        } else if self.size() == 0 {
            Err(BuildError::ZeroCapacity)
        } else {
            Ok(())
        }
    }

    /// A builder for a pipe of one buffer, with no template yet.
    pub fn new() -> (builder: Self)
        ensures
            builder.size() == 1,
            builder.template() is None,
    {
        Builder { size: 1, init_template: None }
    }

    /// Sets the number of buffers. With one buffer the two ends take strict
    /// turns.
    pub fn with_size(self, size: usize) -> (builder: Self)
        ensures
            builder.size() == size,
            builder.template() == self.template(),
    {
        Builder { size, init_template: self.init_template }
    }

    /// Sets the value that every buffer is cloned from.
    pub fn with_init_template(self, init_template: T) -> (builder: Self)
        ensures
            builder.size() == self.size(),
            builder.template() == Some(init_template),
    {
        Builder { size: self.size, init_template: Some(init_template) }
    }

    /// The buffers of the pipe, in the order in which they are seeded: `size`
    /// of them, each a clone of the template, the last one the template itself.
    fn buffers(self) -> (bufs: Vec<T>)
        requires
            self.validate() is Ok,
        ensures
            self.seeds(bufs@),
    {
        let template = self.init_template.expect("init_template is not set");
        runtime_assert(self.size >= 1);
        let mut bufs: Vec<T> = Vec::new();
        while bufs.len() + 1 < self.size
            invariant
                bufs@.len() < self.size,
                forall|i: int| 0 <= i < bufs@.len() ==> cloned(template, #[trigger] bufs@[i]),
            decreases self.size - bufs@.len(),
        {
            bufs.push(template.clone());
        }
        bufs.push(template);
        bufs
    }

    /// Wires a pipe around `bufs`: a slot for each on the empty stream, in
    /// their order and already fulfilled, and nothing on the full stream. Both
    /// ends record `bufs` as what the pipe was seeded with.
    fn assemble(bufs: Vec<T>) -> (ends: (Producer<T>, Consumer<T>))
        ensures
            ends.0.seeded() == bufs@,
            ends.1.seeded() == bufs@,
    {
        let ghost seeds = bufs@;
        let (tx_empty, rx_empty) = channel::<Receiver<T>>();
        let (tx_full, rx_full) = channel::<Receiver<T>>();
        for buf in it: bufs.into_iter() {
            seed(&tx_empty, buf);
        }
        (
            Producer::of_seeded(rx_empty, tx_full, Ghost(seeds)),
            Consumer::of_seeded(rx_full, tx_empty, Ghost(seeds)),
        )
    }

    /// Whether `seeds` is what a pipe of this builder is seeded with: `size`
    /// buffers, each a clone of the template, the last one the template itself.
    pub open spec fn seeds(&self, seeds: Seq<T>) -> bool {
        &&& self.template() is Some
        &&& seeds.len() == self.size()
        &&& seeds.len() >= 1
        &&& forall|i: int| 0 <= i < seeds.len() ==> cloned(self.template()->0, #[trigger] seeds[i])
        &&& seeds.last() == self.template()->0
    }

    /// Creates the pipe and returns its two ends.
    ///
    /// The pipe starts with `size` empty buffers ready for the producer, each
    /// a clone of the template, and with nothing for the consumer: in the
    /// terms of the protocol, in the state `Pipe::new(ends.0.seeded())`.
    /// Without a template, or with a size of 0, there is no pipe to build: the
    /// caller has to rule that out, or to call [`Builder::try_build`].
    pub fn build(self) -> (ends: (Producer<T>, Consumer<T>))
        requires
            self.validate() is Ok,
        ensures
            self.seeds(ends.0.seeded()),
            ends.1.seeded() == ends.0.seeded(),
    {
        Self::assemble(self.buffers())
    }

    /// As `build`, but reports a missing template or a size of 0 as an error.
    pub fn try_build(self) -> (r: Result<(Producer<T>, Consumer<T>), BuildError>)
        ensures
            r is Ok <==> self.validate() is Ok,
            r matches Err(e) ==> self.validate() == Err::<(), BuildError>(e),
            r matches Ok(ends) ==> self.seeds(ends.0.seeded()) && ends.1.seeded()
                == ends.0.seeded(),
    {
        if self.init_template.is_none() {
            Err(BuildError::TemplateMissing)
        } else if self.size == 0 {
            Err(BuildError::ZeroCapacity)
        } else {
            Ok(self.build())
        }
    }
}

} // verus!
