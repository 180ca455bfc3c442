//! The pull adapter in its frame-stream shape.
use vstd::prelude::*;
use bytes::Bytes;
use http_body::Frame;
use std::task::Waker;
use crate::chunk::chunk_bytes;
use crate::context::{Context, Delivery};

verus! {

/// `http_body::Frame`, carried through as an opaque value.
#[verifier::external_type_specification]
#[verifier::external_body]
#[verifier::reject_recursive_types(T)]
pub struct ExFrame<T>(http_body::Frame<T>);

/// The bytes of a data frame; `None` for any other frame.
pub uninterp spec fn frame_payload(frame: Frame<Bytes>) -> Option<Seq<u8>>;

/// `Frame::data`: the result is a data frame that holds the chunk's bytes.
#[verifier::external_body]
fn data_frame(chunk: Bytes) -> (frame: Frame<Bytes>)
    ensures
        frame_payload(frame) == Some(chunk_bytes(chunk)),
{
    Frame::data(chunk)
}

/// The result of asking for the next frame.
#[derive(Debug)]
pub enum FrameStep {
    /// One data frame that wraps one whole chunk.
    Frame(Frame<Bytes>),
    /// No more frames.
    End,
    /// No frame yet: the caller is suspended until the producer signals.
    Pending,
}

/// The consumer's end of the channel, read as a stream of discrete frames.
#[derive(Debug)]
pub struct FrameStream {}

impl FrameStream {
    /// A stream; it keeps nothing of its own, the channel is handed to each
    /// call.
    pub fn new() -> (stream: Self) {
        FrameStream {}
    }

    /// Asks for the next frame. Suspends and resumes exactly as a byte read
    /// does; a pending chunk is delivered as one data frame.
    pub fn poll_next(&mut self, context: &mut Context, waker: &Waker) -> (step: FrameStep)
        ensures
            match step {
                FrameStep::Frame(frame) => old(context)@.chunks.len() > 0
                    && frame_payload(frame) == Some(old(context)@.chunks.first()),
                FrameStep::End => old(context)@.read() == Delivery::End,
                FrameStep::Pending => old(context)@.read() == Delivery::Suspend,
            },
            final(context)@ == old(context)@.after_read(),
    {
        match context.pop() {
            Some(chunk) => FrameStep::Frame(data_frame(chunk)),
            None => {
                if context.is_done() {
                    FrameStep::End
                } else {
                    context.register_waker(waker);
                    FrameStep::Pending
                }
            },
        }
    }

    /// The next frame of the body: the same as the next item of the stream.
    pub fn poll_frame(&mut self, context: &mut Context, waker: &Waker) -> (step: FrameStep)
        ensures
            match step {
                FrameStep::Frame(frame) => old(context)@.chunks.len() > 0
                    && frame_payload(frame) == Some(old(context)@.chunks.first()),
                FrameStep::End => old(context)@.read() == Delivery::End,
                FrameStep::Pending => old(context)@.read() == Delivery::Suspend,
            },
            final(context)@ == old(context)@.after_read(),
    {
        self.poll_next(context, waker)
    }
}

} // verus!
