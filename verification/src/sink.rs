//! The push adapter: what the engine's output callback does to the channel.
use vstd::prelude::*;
use crate::chunk::copy_chunk;
use crate::context::{Channel, Context};

verus! {

impl Channel {
    /// The channel after the engine has handed `chunk` to the sink: an empty
    /// chunk marks the end of the output, any other is queued as it is.
    pub open spec fn relay(self, chunk: Seq<u8>) -> Channel {
        if chunk.len() == 0 {
            self.complete()
        } else {
            self.push(chunk)
        }
    }
}

/// The producer's end of the channel.
#[derive(Debug)]
pub struct RelaySink {}

impl RelaySink {
    /// A sink; it keeps nothing of its own, the channel is handed to each call.
    pub fn new() -> (sink: Self) {
        RelaySink {}
    }

    /// Takes one chunk from the engine. The bytes are copied, since the
    /// engine's buffer need not outlive the call. Either way the waiter is
    /// resumed.
    pub fn handle_chunk(&mut self, context: &mut Context, chunk: &[u8])
        ensures
            final(context)@ == old(context)@.relay(chunk@),
    {
        if chunk.len() == 0 {
            context.set_done();
        } else {
            let bytes = copy_chunk(chunk);
            context.push(bytes);
        }
    }

    /// What is owed when the sink goes away, on whatever path: the channel
    /// is marked complete and the waiter resumed, so that no consumer stays
    /// suspended behind a producer that is gone.
    pub fn close(&mut self, context: &mut Context)
        ensures
            final(context)@ == old(context)@.complete(),
    {
        context.set_done();
    }
}

} // verus!
