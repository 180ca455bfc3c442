//! The waiter slot: where a suspended consumer leaves its continuation.
//!
//! `atomic_waker::AtomicWaker` and `std::task::Waker` are opaque to the
//! verifier. The one thing the library's contracts need of the slot is
//! whether a continuation is currently stored in it.
use vstd::prelude::*;
use atomic_waker::AtomicWaker;
use std::task::Waker;

verus! {

/// `atomic_waker::AtomicWaker`, carried through as an opaque value.
#[verifier::external_type_specification]
#[verifier::external_body]
pub struct ExAtomicWaker(atomic_waker::AtomicWaker);

/// `std::task::Waker`, carried through as an opaque value.
#[verifier::external_type_specification]
#[verifier::external_body]
pub struct ExWaker(std::task::Waker);

/// Whether the slot currently stores a continuation.
pub uninterp spec fn slot_occupied(slot: AtomicWaker) -> bool;

/// `AtomicWaker::new`: the new slot stores nothing.
#[verifier::external_body]
pub(crate) fn new_slot() -> (slot: AtomicWaker)
    ensures
        !slot_occupied(slot),
{
    AtomicWaker::new()
}

/// `AtomicWaker::register`: afterwards the slot stores a continuation
/// (the one given, in place of whatever was stored before).
#[verifier::external_body]
pub(crate) fn store_waiter(slot: &mut AtomicWaker, waker: &Waker)
    ensures
        slot_occupied(*final(slot)),
{
    slot.register(waker)
}

/// `AtomicWaker::wake`: the stored continuation, if there is one, is taken
/// out and resumed; afterwards the slot stores nothing.
#[verifier::external_body]
pub(crate) fn resume_waiter(slot: &mut AtomicWaker)
    ensures
        !slot_occupied(*final(slot)),
{
    slot.wake()
}

} // verus!
