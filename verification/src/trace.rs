//! What holds of the channel over whole runs, however producer and consumer
//! take turns.
//!
//! A run is a sequence of steps, each one operation of the sink or one read
//! of the consumer, applied to the channel in order.
use vstd::prelude::*;
use vstd::seq_lib::lemma_flatten_concat;
use crate::context::{Channel, Delivery};

verus! {

/// One operation on the channel.
pub enum Step {
    /// The engine hands a chunk to the sink.
    Emit(Seq<u8>),
    /// The sink is closed.
    Close,
    /// The consumer reads once.
    Read,
}

impl Channel {
    /// The channel after one step.
    pub open spec fn step(self, step: Step) -> Channel {
        match step {
            Step::Emit(chunk) => self.relay(chunk),
            Step::Close => self.complete(),
            Step::Read => self.after_read(),
        }
    }

    /// Every pending chunk holds at least one byte.
    pub open spec fn holds_no_empty_chunk(self) -> bool {
        forall|i: int| 0 <= i < self.chunks.len() ==> (#[trigger] self.chunks[i]).len() > 0
    }
}

/// The channel after all of `steps`, in order.
pub open spec fn run(start: Channel, steps: Seq<Step>) -> Channel
    decreases steps.len(),
{
    if steps.len() == 0 {
        start
    } else {
        run(start, steps.drop_last()).step(steps.last())
    }
}

/// The chunks that the reads among `steps` have handed to the consumer, one
/// for each read that found a chunk pending, in the order of the reads.
pub open spec fn delivered(start: Channel, steps: Seq<Step>) -> Seq<Seq<u8>>
    decreases steps.len(),
{
    if steps.len() == 0 {
        Seq::empty()
    } else {
        let earlier = delivered(start, steps.drop_last());
        match (steps.last(), run(start, steps.drop_last()).read()) {
            (Step::Read, Delivery::Chunk(chunk)) => earlier.push(chunk),
            _ => earlier,
        }
    }
}

/// The chunks of at least one byte that the engine has handed to the sink
/// during `steps`, in the order in which it emitted them.
pub open spec fn emitted(steps: Seq<Step>) -> Seq<Seq<u8>>
    decreases steps.len(),
{
    if steps.len() == 0 {
        Seq::empty()
    } else {
        let earlier = emitted(steps.drop_last());
        match steps.last() {
            Step::Emit(chunk) => if chunk.len() > 0 {
                earlier.push(chunk)
            } else {
                earlier
            },
            _ => earlier,
        }
    }
}

/// All bytes that the engine has handed to the sink during `steps`: its
/// chunks, empty ones included, one after the other.
pub open spec fn emitted_bytes(steps: Seq<Step>) -> Seq<u8>
    decreases steps.len(),
{
    if steps.len() == 0 {
        Seq::empty()
    } else {
        match steps.last() {
            Step::Emit(chunk) => emitted_bytes(steps.drop_last()) + chunk,
            _ => emitted_bytes(steps.drop_last()),
        }
    }
}

/// Whether every step is a read.
pub open spec fn only_reads(steps: Seq<Step>) -> bool {
    forall|i: int| 0 <= i < steps.len() ==> #[trigger] steps[i] is Read
}

/// No chunk is lost, repeated, split, merged or reordered, wherever the
/// reads fall among the emissions: at every point of every run, the chunks
/// delivered so far, followed by the chunks still pending, are the chunks
/// that were pending at the start followed by all chunks emitted since.
pub proof fn lemma_chunks_are_conserved(start: Channel, steps: Seq<Step>)
    ensures
        delivered(start, steps) + run(start, steps).chunks == start.chunks + emitted(steps),
    decreases steps.len(),
{
    if steps.len() == 0 {
        assert(delivered(start, steps) + run(start, steps).chunks =~= start.chunks + emitted(
            steps,
        ));
    } else {
        let earlier = steps.drop_last();
        let before = run(start, earlier);
        lemma_chunks_are_conserved(start, earlier);
        assert(delivered(start, earlier) + before.chunks == start.chunks + emitted(earlier));
        match steps.last() {
            Step::Emit(chunk) => {
                if chunk.len() > 0 {
                    assert(delivered(start, steps) + run(start, steps).chunks =~= (delivered(
                        start,
                        earlier,
                    ) + before.chunks).push(chunk));
                    assert(start.chunks + emitted(steps) =~= (start.chunks + emitted(
                        earlier,
                    )).push(chunk));
                }
            },
            Step::Close => {},
            Step::Read => {
                if before.chunks.len() > 0 {
                    assert(delivered(start, steps) + run(start, steps).chunks =~= delivered(
                        start,
                        earlier,
                    ) + before.chunks);
                }
            },
        }
    }
}

/// The same, byte for byte: the bytes delivered so far, followed by the
/// bytes still pending, are the bytes pending at the start followed by all
/// bytes emitted since.
pub proof fn lemma_bytes_are_conserved(start: Channel, steps: Seq<Step>)
    ensures
        delivered(start, steps).flatten() + run(start, steps).bytes() == start.bytes()
            + emitted_bytes(steps),
{
    lemma_chunks_are_conserved(start, steps);
    lemma_flatten_concat(delivered(start, steps), run(start, steps).chunks);
    lemma_flatten_concat(start.chunks, emitted(steps));
    lemma_emitted_bytes_are_the_emitted_chunks(steps);
}

/// Order and content are preserved: once a run that began on a fresh channel
/// has drained the queue, the consumer has received exactly the chunks that
/// the engine emitted, and so exactly its bytes, in the order of emission,
/// whether it read before, between or after the emissions.
pub proof fn lemma_drained_output_is_emitted_output(steps: Seq<Step>)
    requires
        run(Channel::fresh(), steps).chunks.len() == 0,
    ensures
        delivered(Channel::fresh(), steps) == emitted(steps),
        delivered(Channel::fresh(), steps).flatten() == emitted_bytes(steps),
{
    lemma_chunks_are_conserved(Channel::fresh(), steps);
    lemma_emitted_bytes_are_the_emitted_chunks(steps);
    assert(delivered(Channel::fresh(), steps) + run(Channel::fresh(), steps).chunks
        =~= delivered(Channel::fresh(), steps));
    assert(Channel::fresh().chunks + emitted(steps) =~= emitted(steps));
}

/// The interleaving does not matter: two runs on fresh channels in which the
/// engine emits the same chunks, each drained in the end, deliver the same
/// chunks in the same order, wherever their reads and the closing of the
/// sink fall.
pub proof fn lemma_interleaving_does_not_matter(first: Seq<Step>, second: Seq<Step>)
    requires
        emitted(first) == emitted(second),
        run(Channel::fresh(), first).chunks.len() == 0,
        run(Channel::fresh(), second).chunks.len() == 0,
    ensures
        delivered(Channel::fresh(), first) == delivered(Channel::fresh(), second),
{
    lemma_drained_output_is_emitted_output(first);
    lemma_drained_output_is_emitted_output(second);
}

/// Leaving out the empty chunks leaves out no byte.
pub proof fn lemma_emitted_bytes_are_the_emitted_chunks(steps: Seq<Step>)
    ensures
        emitted(steps).flatten() == emitted_bytes(steps),
    decreases steps.len(),
{
    if steps.len() > 0 {
        let earlier = steps.drop_last();
        lemma_emitted_bytes_are_the_emitted_chunks(earlier);
        match steps.last() {
            Step::Emit(chunk) => {
                if chunk.len() > 0 {
                    emitted(earlier).lemma_flatten_push(chunk);
                } else {
                    assert(emitted_bytes(earlier) + chunk =~= emitted_bytes(earlier));
                }
            },
            _ => {},
        }
    }
}

/// The completion flag never reverts: a channel that is complete stays
/// complete through every run.
pub proof fn lemma_completion_is_final(start: Channel, steps: Seq<Step>)
    requires
        start.done,
    ensures
        run(start, steps).done,
    decreases steps.len(),
{
    if steps.len() > 0 {
        lemma_completion_is_final(start, steps.drop_last());
    }
}

/// The sink stores no empty chunk: if none is pending at the start, none is
/// pending after any run.
pub proof fn lemma_no_empty_chunk_is_stored(start: Channel, steps: Seq<Step>)
    requires
        start.holds_no_empty_chunk(),
    ensures
        run(start, steps).holds_no_empty_chunk(),
    decreases steps.len(),
{
    if steps.len() > 0 {
        lemma_no_empty_chunk_is_stored(start, steps.drop_last());
    }
}

/// No suspension after completion: on a channel that is complete and empty,
/// every read, however many there are, yields end of data and changes
/// nothing.
pub proof fn lemma_end_of_data_persists(start: Channel, reads: Seq<Step>)
    requires
        start.done,
        start.chunks.len() == 0,
        only_reads(reads),
    ensures
        run(start, reads) == start,
        run(start, reads).read() == Delivery::End,
        delivered(start, reads) == Seq::<Seq<u8>>::empty(),
    decreases reads.len(),
{
    if reads.len() > 0 {
        lemma_earlier_reads(reads);
        lemma_end_of_data_persists(start, reads.drop_last());
    }
}

/// A consumer is never left suspended behind a closed sink: closing empties
/// the waiter slot, and from then on, whatever else happens, no read
/// suspends.
pub proof fn lemma_no_suspension_after_close(before: Channel, later: Seq<Step>)
    ensures
        !before.complete().waiting,
        run(before.complete(), later).read() != Delivery::Suspend,
{
    lemma_completion_is_final(before.complete(), later);
}

/// What was queued when the sink was closed is still delivered: reading as
/// many times as chunks are pending hands over all pending chunks, in order,
/// and the read after those yields end of data.
pub proof fn lemma_close_then_drain(before: Channel, reads: Seq<Step>)
    requires
        only_reads(reads),
        reads.len() == before.chunks.len(),
    ensures
        delivered(before.complete(), reads) == before.chunks,
        run(before.complete(), reads).read() == Delivery::End,
{
    let closed = before.complete();
    lemma_reads_take_from_the_front(closed, reads);
    lemma_completion_is_final(closed, reads);
    lemma_chunks_are_conserved(closed, reads);
    lemma_only_reads_emit_nothing(reads);
    let after = run(closed, reads);
    assert(after.chunks =~= Seq::<Seq<u8>>::empty());
    assert(delivered(closed, reads) + after.chunks =~= delivered(closed, reads));
    assert(closed.chunks + emitted(reads) =~= before.chunks);
}

/// A run without output ends at once: if the engine emitted no byte on a
/// fresh channel, nothing is pending and nothing was delivered, so the first
/// read after the sink is closed yields end of data.
pub proof fn lemma_empty_output_reads_as_end(steps: Seq<Step>)
    requires
        emitted_bytes(steps).len() == 0,
    ensures
        run(Channel::fresh(), steps).chunks.len() == 0,
        delivered(Channel::fresh(), steps).len() == 0,
        run(Channel::fresh(), steps).complete().read() == Delivery::End,
{
    lemma_chunks_are_conserved(Channel::fresh(), steps);
    lemma_emitted_bytes_are_the_emitted_chunks(steps);
    lemma_emitted_chunks_hold_bytes(steps);
    let all = emitted(steps);
    if all.len() > 0 {
        assert(all[0].len() > 0);
        assert(all.flatten().len() >= all.first().len());
    }
    assert(Channel::fresh().chunks + all =~= Seq::<Seq<u8>>::empty());
    assert((delivered(Channel::fresh(), steps) + run(Channel::fresh(), steps).chunks).len() == 0);
}

/// Every emitted chunk that counts holds at least one byte.
proof fn lemma_emitted_chunks_hold_bytes(steps: Seq<Step>)
    ensures
        forall|i: int| 0 <= i < emitted(steps).len() ==> (#[trigger] emitted(steps)[i]).len() > 0,
    decreases steps.len(),
{
    if steps.len() > 0 {
        let earlier = emitted(steps.drop_last());
        lemma_emitted_chunks_hold_bytes(steps.drop_last());
        assert forall|i: int| 0 <= i < emitted(steps).len() implies (#[trigger] emitted(
            steps,
        )[i]).len() > 0 by {
            if i < earlier.len() {
                assert(emitted(steps)[i] == earlier[i]);
            }
        }
    }
}

/// Without its last step, a run of reads is a run of reads.
proof fn lemma_earlier_reads(reads: Seq<Step>)
    requires
        only_reads(reads),
        reads.len() > 0,
    ensures
        only_reads(reads.drop_last()),
        reads.last() is Read,
{
    let earlier = reads.drop_last();
    assert forall|i: int| 0 <= i < earlier.len() implies #[trigger] earlier[i] is Read by {
        assert(earlier[i] == reads[i]);
    }
}

/// Reads alone take chunks from the front: after `reads`, no more numerous
/// than the pending chunks, exactly the later chunks are still pending.
proof fn lemma_reads_take_from_the_front(start: Channel, reads: Seq<Step>)
    requires
        only_reads(reads),
        reads.len() <= start.chunks.len(),
    ensures
        run(start, reads).chunks == start.chunks.skip(reads.len() as int),
    decreases reads.len(),
{
    if reads.len() == 0 {
        assert(start.chunks.skip(0) =~= start.chunks);
    } else {
        lemma_earlier_reads(reads);
        lemma_reads_take_from_the_front(start, reads.drop_last());
        assert(start.chunks.skip(reads.len() - 1).drop_first() =~= start.chunks.skip(
            reads.len() as int,
        ));
    }
}

/// Reads emit nothing.
proof fn lemma_only_reads_emit_nothing(reads: Seq<Step>)
    requires
        only_reads(reads),
    ensures
        emitted(reads) == Seq::<Seq<u8>>::empty(),
    decreases reads.len(),
{
    if reads.len() > 0 {
        lemma_earlier_reads(reads);
        lemma_only_reads_emit_nothing(reads.drop_last());
    }
}

} // verus!
