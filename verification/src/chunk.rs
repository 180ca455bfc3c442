//! Chunks and the queue that carries them.
//!
//! `bytes::Bytes` and `crossbeam_queue::SegQueue` are opaque to the verifier.
//! This module names what they hold and states, for each call the library
//! makes, how those contents change. The queue functions take the queue by
//! unique reference: with no other party at work the queue is a plain
//! first-in, first-out sequence.
use vstd::prelude::*;
use bytes::Bytes;
use crossbeam_queue::SegQueue;

verus! {

/// `bytes::Bytes`, carried through as an opaque value.
#[verifier::external_type_specification]
#[verifier::external_body]
pub struct ExBytes(bytes::Bytes);

/// `crossbeam_queue::SegQueue`, carried through as an opaque value.
#[verifier::external_type_specification]
#[verifier::external_body]
#[verifier::reject_recursive_types(T)]
pub struct ExSegQueue<T>(crossbeam_queue::SegQueue<T>);

/// The bytes that a `Bytes` value holds, first to last.
pub uninterp spec fn chunk_bytes(chunk: Bytes) -> Seq<u8>;

/// The chunks waiting in a queue, oldest first, each as its bytes.
pub uninterp spec fn queued_chunks(queue: SegQueue<Bytes>) -> Seq<Seq<u8>>;

/// `Bytes::copy_from_slice`: the result holds a copy of exactly the bytes of
/// `data`, in the same order.
#[verifier::external_body]
pub(crate) fn copy_chunk(data: &[u8]) -> (chunk: Bytes)
    ensures
        chunk_bytes(chunk) == data@,
{
    Bytes::copy_from_slice(data)
}

/// `SegQueue::new`: the new queue holds nothing.
#[verifier::external_body]
pub(crate) fn new_queue() -> (queue: SegQueue<Bytes>)
    ensures
        queued_chunks(queue) == Seq::<Seq<u8>>::empty(),
{
    SegQueue::new()
}

/// `SegQueue::push`: the chunk is appended behind everything already queued;
/// nothing else changes.
#[verifier::external_body]
pub(crate) fn enqueue(queue: &mut SegQueue<Bytes>, chunk: Bytes)
    ensures
        queued_chunks(*final(queue)) == queued_chunks(*old(queue)).push(chunk_bytes(chunk)),
{
    queue.push(chunk)
}

/// `SegQueue::pop`: an empty queue yields `None` and stays as it is; any
/// other queue yields its oldest chunk and keeps the rest in order.
#[verifier::external_body]
pub(crate) fn dequeue(queue: &mut SegQueue<Bytes>) -> (head: Option<Bytes>)
    ensures
        match head {
            Some(chunk) => queued_chunks(*old(queue)).len() > 0
                && chunk_bytes(chunk) == queued_chunks(*old(queue)).first()
                && queued_chunks(*final(queue)) == queued_chunks(*old(queue)).drop_first(),
            None => queued_chunks(*old(queue)).len() == 0
                && queued_chunks(*final(queue)) == queued_chunks(*old(queue)),
        },
{
    queue.pop()
}

} // verus!
