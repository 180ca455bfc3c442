//! The shared channel state: pending chunks, completion flag, waiter slot.
use vstd::prelude::*;
use bytes::Bytes;
use atomic_waker::AtomicWaker;
use std::task::Waker;
use crate::ByteQueue;
use crate::chunk::{chunk_bytes, queued_chunks, new_queue, enqueue, dequeue};
use crate::waiter::{slot_occupied, new_slot, store_waiter, resume_waiter};

verus! {

/// The channel as a mathematical value.
pub struct Channel {
    /// The chunks not yet delivered, oldest first.
    pub chunks: Seq<Seq<u8>>,
    /// Whether the producer has signalled that nothing more will come.
    pub done: bool,
    /// Whether a consumer continuation is stored and not yet resumed.
    pub waiting: bool,
}

/// What one read of the channel hands to the consumer.
pub enum Delivery {
    /// The oldest pending chunk, whole.
    Chunk(Seq<u8>),
    /// Nothing is pending and nothing more will come.
    End,
    /// Nothing is pending yet; the consumer is suspended.
    Suspend,
}

impl Channel {
    /// A channel on which nothing has happened yet.
    pub open spec fn fresh() -> Channel {
        Channel { chunks: Seq::empty(), done: false, waiting: false }
    }

    /// Appends a chunk and resumes the waiter.
    pub open spec fn push(self, chunk: Seq<u8>) -> Channel {
        Channel { chunks: self.chunks.push(chunk), done: self.done, waiting: false }
    }

    /// Sets the completion flag and resumes the waiter.
    pub open spec fn complete(self) -> Channel {
        Channel { chunks: self.chunks, done: true, waiting: false }
    }

    /// What the next read delivers.
    pub open spec fn read(self) -> Delivery {
        if self.chunks.len() > 0 {
            Delivery::Chunk(self.chunks.first())
        } else if self.done {
            Delivery::End
        } else {
            Delivery::Suspend
        }
    }

    /// The channel after the next read: a delivered chunk has left the
    /// queue, an end changes nothing, a suspension fills the waiter slot.
    pub open spec fn after_read(self) -> Channel {
        if self.chunks.len() > 0 {
            Channel { chunks: self.chunks.drop_first(), done: self.done, waiting: self.waiting }
        } else if self.done {
            self
        } else {
            Channel { chunks: self.chunks, done: self.done, waiting: true }
        }
    }

    /// All pending bytes, in delivery order.
    pub open spec fn bytes(self) -> Seq<u8> {
        self.chunks.flatten()
    }
}

/// The channel state that producer and consumer act on.
#[derive(Debug)]
pub struct Context {
    queue: ByteQueue,
    waker: AtomicWaker,
    done: bool,
}

impl View for Context {
    type V = Channel;

    closed spec fn view(&self) -> Channel {
        Channel {
            chunks: queued_chunks(self.queue),
            done: self.done,
            waiting: slot_occupied(self.waker),
        }
    }
}

impl Default for Context {
    fn default() -> (context: Self)
        ensures
            context@ == Channel::fresh(),
    {
        Context { queue: new_queue(), waker: new_slot(), done: false }
    }
}

impl Context {
    /// Builds a channel from its three parts, taken as they are.
    pub fn new(queue: ByteQueue, waker: AtomicWaker, done: bool) -> (context: Self)
        ensures
            context@ == (Channel {
                chunks: queued_chunks(queue),
                done: done,
                waiting: slot_occupied(waker),
            }),
    {
        Context { queue, waker, done }
    }

    /// The queue of pending chunks.
    pub fn queue(&self) -> (queue: &ByteQueue)
        ensures
            queued_chunks(*queue) == self@.chunks,
    {
        &self.queue
    }

    /// Whether the completion flag is set.
    pub fn is_done(&self) -> (done: bool)
        ensures
            done == self@.done,
    {
        self.done
    }

    /// Sets the completion flag, for good, and resumes the waiter.
    pub fn set_done(&mut self)
        ensures
            final(self)@ == old(self)@.complete(),
    {
        self.done = true;
        resume_waiter(&mut self.waker);
    }

    /// Stores the consumer's continuation, replacing any stored before.
    pub fn register_waker(&mut self, waker: &Waker)
        ensures
            final(self)@ == (Channel { waiting: true, ..old(self)@ }),
    {
        store_waiter(&mut self.waker, waker);
    }

    /// Resumes the stored continuation, if there is one, and empties the slot.
    pub fn wake(&mut self)
        ensures
            final(self)@ == (Channel { waiting: false, ..old(self)@ }),
    {
        resume_waiter(&mut self.waker);
    }

    /// Appends a chunk behind all pending ones and resumes the waiter.
    pub fn push(&mut self, chunk: Bytes)
        ensures
            final(self)@ == old(self)@.push(chunk_bytes(chunk)),
    {
        enqueue(&mut self.queue, chunk);
        resume_waiter(&mut self.waker);
    }

    /// Takes the oldest pending chunk out, if there is one.
    pub fn pop(&mut self) -> (head: Option<Bytes>)
        ensures
            match head {
                Some(chunk) => old(self)@.chunks.len() > 0
                    && chunk_bytes(chunk) == old(self)@.chunks.first()
                    && final(self)@ == (Channel {
                        chunks: old(self)@.chunks.drop_first(),
                        ..old(self)@
                    }),
                None => old(self)@.chunks.len() == 0 && final(self)@ == old(self)@,
            },
    {
        dequeue(&mut self.queue)
    }
}

} // verus!
