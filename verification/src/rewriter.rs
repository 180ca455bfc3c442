//! The input pump: how the engine is driven from an asynchronous source.
//!
//! Waiting for the source and calling the engine are the caller's part. The
//! pump decides: the caller reports what the source or the engine did, and
//! is told what to do next. Whenever the pump reaches its terminal state,
//! on whatever path, it closes the sink, so the consumer is never left
//! suspended.
use vstd::prelude::*;
use crate::context::{Channel, Context};
use crate::reader::ByteReader;
use crate::settings::Settings;
use crate::sink::RelaySink;
use crate::stream::FrameStream;

verus! {

/// Why a pump did not run to its normal end.
#[derive(Debug, Clone, Copy, PartialEq, Eq, Structural)]
pub enum RewriterError {
    /// The input source failed to produce bytes.
    Source,
    /// The engine rejected a write or failed to finalize.
    Engine,
    /// The pump was driven after it had reached its terminal state.
    Misuse,
}

pub type RewriterResult<T> = Result<T, RewriterError>;

/// Whether the engine can still take input.
#[derive(Debug, Clone, Copy, PartialEq, Eq, Structural)]
pub enum PumpState {
    /// The engine is ready to accept writes.
    Active,
    /// The engine has been finalized or abandoned. Terminal.
    Finalized,
}

/// What the input source did when it was asked for more.
#[derive(Debug, Clone, Copy, PartialEq, Eq, Structural)]
pub enum SourceEvent {
    /// It produced this many bytes.
    Data(usize),
    /// It has nothing more to give.
    Exhausted,
    /// It failed.
    Failed,
}

/// What the caller does next.
#[derive(Debug, Clone, Copy, PartialEq, Eq, Structural)]
pub enum PumpAction {
    /// Hand the bytes just received, all of them (their number is given),
    /// to the engine in one write, before asking the source again.
    Write(usize),
    /// Tell the engine that the input has ended.
    End,
    /// Stop: the pump has failed with this error.
    Abort(RewriterError),
}

/// What a buffered reader's answer asks for while the pump is active: a read
/// of no bytes means that the reader is exhausted.
pub open spec fn reader_action(event: SourceEvent) -> PumpAction {
    match event {
        SourceEvent::Data(n) => if n == 0 {
            PumpAction::End
        } else {
            PumpAction::Write(n)
        },
        SourceEvent::Exhausted => PumpAction::End,
        SourceEvent::Failed => PumpAction::Abort(RewriterError::Source),
    }
}

/// What a chunk sequence's answer asks for while the pump is active: every
/// item is written, whatever its length; only the end of the sequence ends
/// the input.
pub open spec fn stream_action(event: SourceEvent) -> PumpAction {
    match event {
        SourceEvent::Data(n) => PumpAction::Write(n),
        SourceEvent::Exhausted => PumpAction::End,
        SourceEvent::Failed => PumpAction::Abort(RewriterError::Source),
    }
}

/// A pump session as a mathematical value.
pub struct Session {
    /// Whether the engine can still take input.
    pub active: bool,
    /// The channel that carries the engine's output.
    pub channel: Channel,
    /// The number of bytes to ask of a reader at a time.
    pub buf_size: usize,
}

impl Session {
    /// A new session on the given channel.
    pub open spec fn start(channel: Channel, buf_size: usize) -> Session {
        Session { active: true, channel, buf_size }
    }

    /// The session after it has reached its terminal state: the engine is
    /// gone and the sink is closed.
    pub open spec fn finalized(self) -> Session {
        Session { active: false, channel: self.channel.complete(), buf_size: self.buf_size }
    }

    /// What the caller is told when `wanted` is what an active pump would
    /// ask for: a pump in its terminal state reports misuse instead.
    pub open spec fn answer(self, wanted: PumpAction) -> PumpAction {
        if self.active {
            wanted
        } else {
            PumpAction::Abort(RewriterError::Misuse)
        }
    }

    /// The session after that answer: an active pump that aborts is
    /// finalized; nothing else changes.
    pub open spec fn after(self, wanted: PumpAction) -> Session {
        if self.active && wanted is Abort {
            self.finalized()
        } else {
            self
        }
    }

    /// What the pump reports once the engine has answered a write or an end.
    pub open spec fn report(self, accepted: bool) -> RewriterResult<()> {
        if !self.active {
            Err(RewriterError::Misuse)
        } else if accepted {
            Ok(())
        } else {
            Err(RewriterError::Engine)
        }
    }

    /// The session after the engine has answered a write: a rejected write
    /// finalizes an active pump.
    pub open spec fn after_write(self, accepted: bool) -> Session {
        if self.active && !accepted {
            self.finalized()
        } else {
            self
        }
    }

    /// The session after the engine has answered the end of the input: an
    /// active pump is finalized either way.
    pub open spec fn after_end(self) -> Session {
        if self.active {
            self.finalized()
        } else {
            self
        }
    }

    /// The session with its channel replaced.
    pub open spec fn with_channel(self, channel: Channel) -> Session {
        Session { active: self.active, channel, buf_size: self.buf_size }
    }
}

/// A pump session together with the channel its engine writes to.
#[derive(Debug)]
pub struct Rewriter {
    context: Context,
    sink: RelaySink,
    state: PumpState,
    reader_buf_size: usize,
}

impl View for Rewriter {
    type V = Session;

    closed spec fn view(&self) -> Session {
        Session {
            active: self.state == PumpState::Active,
            channel: self.context@,
            buf_size: self.reader_buf_size,
        }
    }
}

impl Rewriter {
    /// A new, active pump on a fresh channel.
    pub fn new(settings: Settings) -> (rewriter: Self)
        ensures
            rewriter@ == Session::start(Channel::fresh(), settings.reader_buf_size),
    {
        Rewriter::with_context(settings, Context::default())
    }

    /// A new, active pump on the given channel, which is taken as it is.
    pub fn with_context(settings: Settings, context: Context) -> (rewriter: Self)
        ensures
            rewriter@ == Session::start(context@, settings.reader_buf_size),
    {
        Rewriter {
            context,
            sink: RelaySink::new(),
            state: PumpState::Active,
            reader_buf_size: settings.reader_buf_size,
        }
    }

    /// A byte reader for the output.
    pub fn output_reader(&self) -> ByteReader {
        ByteReader::new()
    }

    /// A frame stream for the output.
    pub fn output_stream(&self) -> FrameStream {
        FrameStream::new()
    }

    /// Whether the pump can still be driven.
    pub fn state(&self) -> (state: PumpState)
        ensures
            (state == PumpState::Active) == self@.active,
    {
        self.state
    }

    /// The number of bytes to ask of a reader at a time.
    pub fn reader_buf_size(&self) -> (size: usize)
        ensures
            size == self@.buf_size,
    {
        self.reader_buf_size
    }

    /// The channel that carries the output.
    pub fn context(&self) -> (context: &Context)
        ensures
            context@ == self@.channel,
    {
        &self.context
    }

    /// The channel, for the readers of the output. The pump itself is left
    /// as it is.
    pub fn context_mut(&mut self) -> (context: &mut Context)
        ensures
            context@ == old(self)@.channel,
            final(self)@ == old(self)@.with_channel(final(context)@),
    {
        &mut self.context
    }

    /// Takes one chunk of output from the engine into the channel.
    pub fn handle_chunk(&mut self, chunk: &[u8])
        ensures
            final(self)@ == old(self)@.with_channel(old(self)@.channel.relay(chunk@)),
    {
        self.sink.handle_chunk(&mut self.context, chunk);
    }

    /// Abandons the engine: the session becomes terminal and the sink is
    /// closed.
    fn finalize(&mut self)
        ensures
            final(self)@ == old(self)@.finalized(),
    {
        self.state = PumpState::Finalized;
        self.sink.close(&mut self.context);
    }

    /// Decides on one answer of a buffered reader.
    pub fn rewrite_reader(&mut self, event: SourceEvent) -> (action: PumpAction)
        ensures
            action == old(self)@.answer(reader_action(event)),
            final(self)@ == old(self)@.after(reader_action(event)),
    {
        match self.state {
            PumpState::Finalized => PumpAction::Abort(RewriterError::Misuse),
            PumpState::Active => match event {
                SourceEvent::Data(n) => {
                    if n == 0 {
                        PumpAction::End
                    } else {
                        PumpAction::Write(n)
                    }
                },
                SourceEvent::Exhausted => PumpAction::End,
                SourceEvent::Failed => {
                    self.finalize();
                    PumpAction::Abort(RewriterError::Source)
                },
            },
        }
    }

    /// Decides on one answer of a sequence of chunks.
    pub fn rewrite_stream(&mut self, event: SourceEvent) -> (action: PumpAction)
        ensures
            action == old(self)@.answer(stream_action(event)),
            final(self)@ == old(self)@.after(stream_action(event)),
    {
        match self.state {
            PumpState::Finalized => PumpAction::Abort(RewriterError::Misuse),
            PumpState::Active => match event {
                SourceEvent::Data(n) => PumpAction::Write(n),
                SourceEvent::Exhausted => PumpAction::End,
                SourceEvent::Failed => {
                    self.finalize();
                    PumpAction::Abort(RewriterError::Source)
                },
            },
        }
    }

    /// Decides on one answer of a body, whose items may each be a failure:
    /// the same decisions as for a sequence of chunks.
    pub fn rewrite_body(&mut self, event: SourceEvent) -> (action: PumpAction)
        ensures
            action == old(self)@.answer(stream_action(event)),
            final(self)@ == old(self)@.after(stream_action(event)),
    {
        self.rewrite_stream(event)
    }

    /// Takes the engine's answer to a write. After an accepted write the
    /// pump goes on; a rejected one aborts it at once, and the engine is
    /// abandoned without being told that the input has ended.
    pub fn written(&mut self, accepted: bool) -> (result: RewriterResult<()>)
        ensures
            result == old(self)@.report(accepted),
            final(self)@ == old(self)@.after_write(accepted),
    {
        match self.state {
            PumpState::Finalized => Err(RewriterError::Misuse),
            PumpState::Active => {
                if accepted {
                    Ok(())
                } else {
                    self.finalize();
                    Err(RewriterError::Engine)
                }
            },
        }
    }

    /// Takes the engine's answer to the end of the input, which is the
    /// pump's own result. Either way the pump is finalized.
    pub fn ended(&mut self, accepted: bool) -> (result: RewriterResult<()>)
        ensures
            result == old(self)@.report(accepted),
            final(self)@ == old(self)@.after_end(),
    {
        match self.state {
            PumpState::Finalized => Err(RewriterError::Misuse),
            PumpState::Active => {
                self.finalize();
                if accepted {
                    Ok(())
                } else {
                    Err(RewriterError::Engine)
                }
            },
        }
    }
}

} // verus!
