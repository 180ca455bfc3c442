//! What holds of a pump session over whole runs, whatever the source, the
//! engine and the consumer do and in whatever order.
use vstd::prelude::*;
use crate::context::{Channel, Delivery};
use crate::rewriter::{reader_action, stream_action, PumpAction, Session, SourceEvent};
use crate::trace::{delivered, emitted, lemma_chunks_are_conserved, run, Step};

verus! {

/// One thing that happens to a session.
pub enum PumpEvent {
    /// A buffered reader has answered.
    Reader(SourceEvent),
    /// A sequence of chunks, or a body, has answered.
    Stream(SourceEvent),
    /// The engine has answered a write: accepted or rejected.
    Written(bool),
    /// The engine has answered the end of the input: accepted or rejected.
    Ended(bool),
    /// The engine, the sink or the consumer has acted on the channel.
    Channel(Step),
}

impl Session {
    /// The session after one event.
    pub open spec fn next(self, event: PumpEvent) -> Session {
        match event {
            PumpEvent::Reader(answer) => self.after(reader_action(answer)),
            PumpEvent::Stream(answer) => self.after(stream_action(answer)),
            PumpEvent::Written(accepted) => self.after_write(accepted),
            PumpEvent::Ended(_) => self.after_end(),
            PumpEvent::Channel(step) => self.with_channel(self.channel.step(step)),
        }
    }

    /// A session in its terminal state has a completed channel.
    pub open spec fn closed_when_finalized(self) -> bool {
        !self.active ==> self.channel.done
    }
}

/// The session after all of `events`, in order.
pub open spec fn drive(start: Session, events: Seq<PumpEvent>) -> Session
    decreases events.len(),
{
    if events.len() == 0 {
        start
    } else {
        drive(start, events.drop_last()).next(events.last())
    }
}

/// What an event does to the channel, as a step of the channel, if it does
/// anything: the pump itself touches the channel only to close the sink
/// when it is finalized.
pub open spec fn channel_step(before: Session, event: PumpEvent) -> Option<Step> {
    match event {
        PumpEvent::Channel(step) => Some(step),
        _ => if before.active && !before.next(event).active {
            Some(Step::Close)
        } else {
            None
        },
    }
}

/// The steps that the channel goes through during `events`, in order.
pub open spec fn channel_steps(start: Session, events: Seq<PumpEvent>) -> Seq<Step>
    decreases events.len(),
{
    if events.len() == 0 {
        Seq::empty()
    } else {
        let earlier = channel_steps(start, events.drop_last());
        match channel_step(drive(start, events.drop_last()), events.last()) {
            Some(step) => earlier.push(step),
            None => earlier,
        }
    }
}

/// The pump's channel is the channel run through those steps and no others.
pub proof fn lemma_pump_runs_the_channel(start: Session, events: Seq<PumpEvent>)
    ensures
        drive(start, events).channel == run(start.channel, channel_steps(start, events)),
    decreases events.len(),
{
    if events.len() > 0 {
        let earlier = channel_steps(start, events.drop_last());
        lemma_pump_runs_the_channel(start, events.drop_last());
        match channel_step(drive(start, events.drop_last()), events.last()) {
            Some(step) => {
                assert(earlier.push(step).drop_last() =~= earlier);
            },
            None => {},
        }
    }
}

/// The pump neither drops, adds nor reorders output: throughout every run,
/// on every path including aborts, the chunks delivered to the consumer
/// followed by the chunks still pending are the chunks pending at the start
/// followed by the chunks that the engine emitted.
pub proof fn lemma_pump_conserves_output(start: Session, events: Seq<PumpEvent>)
    ensures
        delivered(start.channel, channel_steps(start, events)) + drive(
            start,
            events,
        ).channel.chunks == start.channel.chunks + emitted(channel_steps(start, events)),
{
    lemma_pump_runs_the_channel(start, events);
    lemma_chunks_are_conserved(start.channel, channel_steps(start, events));
}

/// The terminal state is terminal: a finalized pump stays finalized
/// whatever happens.
pub proof fn lemma_finalized_stays_finalized(start: Session, events: Seq<PumpEvent>)
    requires
        !start.active,
    ensures
        !drive(start, events).active,
    decreases events.len(),
{
    if events.len() > 0 {
        lemma_finalized_stays_finalized(start, events.drop_last());
    }
}

/// Every path into the terminal state closes the sink, and nothing opens it
/// again: in every run, a finalized pump has a completed channel.
pub proof fn lemma_finalized_pump_has_completed_channel(start: Session, events: Seq<PumpEvent>)
    requires
        start.closed_when_finalized(),
    ensures
        drive(start, events).closed_when_finalized(),
    decreases events.len(),
{
    if events.len() > 0 {
        lemma_finalized_pump_has_completed_channel(start, events.drop_last());
    }
}

/// No consumer is left suspended behind a pump that has stopped, normally
/// or by an abort: once a pump that was started active is finalized, a read
/// delivers a pending chunk or, with nothing pending, end of data.
pub proof fn lemma_finalized_pump_never_suspends(
    channel: Channel,
    buf_size: usize,
    events: Seq<PumpEvent>,
)
    ensures
        ({
            let session = drive(Session::start(channel, buf_size), events);
            !session.active ==> {
                &&& session.channel.read() != Delivery::Suspend
                &&& session.channel.chunks.len() == 0 ==> session.channel.read() == Delivery::End
            }
        }),
{
    lemma_finalized_pump_has_completed_channel(Session::start(channel, buf_size), events);
}

/// An abort wakes the consumer: the step that finalizes an active pump
/// leaves the waiter slot empty and the channel complete, with every
/// pending chunk still in place.
pub proof fn lemma_finalizing_event_resumes_waiter(before: Session, event: PumpEvent)
    requires
        before.active,
        !before.next(event).active,
    ensures
        before.next(event).channel == before.channel.complete(),
        !before.next(event).channel.waiting,
        before.next(event).channel.chunks == before.channel.chunks,
{
}

/// What the caller is told in answer to an event of the source; the
/// engine's answers and the channel's steps ask for nothing.
pub open spec fn asked(before: Session, event: PumpEvent) -> Option<PumpAction> {
    match event {
        PumpEvent::Reader(answer) => Some(before.answer(reader_action(answer))),
        PumpEvent::Stream(answer) => Some(before.answer(stream_action(answer))),
        _ => None,
    }
}

/// The lengths of the writes that the pump has asked for during `events`,
/// in order.
pub open spec fn writes(start: Session, events: Seq<PumpEvent>) -> Seq<usize>
    decreases events.len(),
{
    if events.len() == 0 {
        Seq::empty()
    } else {
        let earlier = writes(start, events.drop_last());
        match asked(drive(start, events.drop_last()), events.last()) {
            Some(PumpAction::Write(n)) => earlier.push(n),
            _ => earlier,
        }
    }
}

/// The lengths of the pieces of input that the source has produced during
/// `events`, in order: every item of a sequence of chunks, and every read
/// of a buffered reader that was not empty.
pub open spec fn produced(events: Seq<PumpEvent>) -> Seq<usize>
    decreases events.len(),
{
    if events.len() == 0 {
        Seq::empty()
    } else {
        let earlier = produced(events.drop_last());
        match events.last() {
            PumpEvent::Stream(SourceEvent::Data(n)) => earlier.push(n),
            PumpEvent::Reader(SourceEvent::Data(n)) => if n > 0 {
                earlier.push(n)
            } else {
                earlier
            },
            _ => earlier,
        }
    }
}

/// A pump that is active has been active all along.
pub proof fn lemma_active_pump_was_active(start: Session, events: Seq<PumpEvent>, k: int)
    requires
        drive(start, events).active,
        0 <= k <= events.len(),
    ensures
        drive(start, events.take(k)).active,
{
    if !drive(start, events.take(k)).active {
        lemma_drive_in_two(start, events.take(k), events.skip(k));
        assert(events.take(k) + events.skip(k) =~= events);
        lemma_finalized_stays_finalized(drive(start, events.take(k)), events.skip(k));
    }
}

/// Driving through two runs in a row is driving through both at once.
pub proof fn lemma_drive_in_two(start: Session, first: Seq<PumpEvent>, second: Seq<PumpEvent>)
    ensures
        drive(start, first + second) == drive(drive(start, first), second),
    decreases second.len(),
{
    if second.len() == 0 {
        assert(first + second =~= first);
    } else {
        lemma_drive_in_two(start, first, second.drop_last());
        assert((first + second).drop_last() =~= first + second.drop_last());
    }
}

/// Input reaches the engine whole and in order: as long as the pump is
/// active, it has asked for exactly one write for each piece of input that
/// the source produced, of that piece's length, in the order in which the
/// pieces came. Nothing is skipped, merged, split or reordered.
pub proof fn lemma_writes_follow_the_source(start: Session, events: Seq<PumpEvent>)
    requires
        drive(start, events).active,
    ensures
        writes(start, events) == produced(events),
    decreases events.len(),
{
    if events.len() > 0 {
        let earlier = events.drop_last();
        lemma_active_pump_was_active(start, events, events.len() - 1);
        assert(events.take(events.len() - 1) =~= earlier);
        lemma_writes_follow_the_source(start, earlier);
    }
}

/// A finalized pump asks for no further write.
pub proof fn lemma_finalized_pump_writes_nothing(start: Session, events: Seq<PumpEvent>)
    requires
        !start.active,
    ensures
        writes(start, events) == Seq::<usize>::empty(),
    decreases events.len(),
{
    if events.len() > 0 {
        lemma_finalized_stays_finalized(start, events.drop_last());
        lemma_finalized_pump_writes_nothing(start, events.drop_last());
    }
}

/// Empty input ends at once: a source that is exhausted when first asked
/// makes a new pump end the engine's input, and if the engine emits nothing
/// the first read of the output yields end of data.
pub proof fn lemma_empty_input_ends_at_once(buf_size: usize, accepted: bool)
    ensures
        ({
            let session = Session::start(Channel::fresh(), buf_size);
            &&& session.answer(reader_action(SourceEvent::Data(0))) == PumpAction::End
            &&& session.answer(reader_action(SourceEvent::Exhausted)) == PumpAction::End
            &&& session.answer(stream_action(SourceEvent::Exhausted)) == PumpAction::End
            &&& session.next(PumpEvent::Ended(accepted)).channel.chunks.len() == 0
            &&& session.next(PumpEvent::Ended(accepted)).channel.read() == Delivery::End
        }),
{
}

} // verus!
