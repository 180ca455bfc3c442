//! A bridge between a push-based rewriting engine and pull-based consumers.
//!
//! The engine hands transformed chunks to a [`sink::RelaySink`], which stores
//! them in the shared [`context::Context`]; a [`reader::ByteReader`] or a
//! [`stream::FrameStream`] takes them out again, one chunk per read, and a
//! [`rewriter::Rewriter`] decides how the engine is driven from its input.
//!
//! Every operation acts on the channel through a unique reference, so the
//! contracts describe the channel as a plain value: a sequence of chunks, a
//! completion flag and a waiter slot.
use vstd::prelude::*;

pub mod chunk;
pub mod context;
pub mod reader;
pub mod rewriter;
pub mod session;
pub mod settings;
pub mod sink;
pub mod stream;
pub mod trace;
pub mod waiter;

verus! {

/// The queue of chunks that travels from the engine to the consumer.
pub type ByteQueue = crossbeam_queue::SegQueue<bytes::Bytes>;

} // verus!
