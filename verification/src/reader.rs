//! The pull adapter in its byte-stream shape.
use vstd::prelude::*;
use bytes::Bytes;
use std::task::Waker;
use crate::chunk::chunk_bytes;
use crate::context::{Context, Delivery};

verus! {

/// The result of one read.
#[derive(Debug)]
pub enum ReadStep {
    /// One whole chunk, never sliced and never handed out again.
    Data(Bytes),
    /// End of data.
    End,
    /// Nothing to read yet: the caller is suspended until the producer
    /// signals.
    Pending,
}

impl ReadStep {
    /// The read as the channel's model describes it.
    pub open spec fn delivery(self) -> Delivery {
        match self {
            ReadStep::Data(chunk) => Delivery::Chunk(chunk_bytes(chunk)),
            ReadStep::End => Delivery::End,
            ReadStep::Pending => Delivery::Suspend,
        }
    }
}

/// The consumer's end of the channel, read as a linear byte stream.
#[derive(Debug)]
pub struct ByteReader {}

impl ByteReader {
    /// A reader; it keeps nothing of its own, the channel is handed to each
    /// read.
    pub fn new() -> (reader: Self) {
        ByteReader {}
    }

    /// Reads once. A pending chunk is taken out and delivered whole. With
    /// nothing pending, a completed channel reads as end of data, for this
    /// and every later read; otherwise `waker` is stored in the waiter slot
    /// and the read is pending.
    pub fn poll_read(&mut self, context: &mut Context, waker: &Waker) -> (step: ReadStep)
        ensures
            step.delivery() == old(context)@.read(),
            final(context)@ == old(context)@.after_read(),
    {
        match context.pop() {
            Some(chunk) => ReadStep::Data(chunk),
            None => {
                if context.is_done() {
                    ReadStep::End
                } else {
                    context.register_waker(waker);
                    ReadStep::Pending
                }
            },
        }
    }
}

} // verus!
