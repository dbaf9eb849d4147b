//! The claim on the slot of a cell, and how it ends.
//!
//! A claim is taken when the state byte of a cell turns from `INCOMPLETE` into `RUNNING`, and ends
//! when its guard is dropped, by storing the end state into the byte. The guard's fields are
//! private to this module: the only way to make a claim end in anything but `INCOMPLETE` is
//! [`InitGuard::publish`], which needs the value itself and fills the slot with it first. So a
//! claim whose init function fails or unwinds, before any value exists, ends in `INCOMPLETE`,
//! and the cell can be initialized later.
use vstd::prelude::*;
use core::sync::atomic::{AtomicU8, Ordering};
use std::sync::OnceLock;

use crate::imp::{COMPLETE, INCOMPLETE, RUNNING};

verus! {

/// Calls `std::sync::OnceLock::get_or_init` with a closure that only hands over `value`, so the
/// closure never calls back into the slot. It fills an empty slot with `value` and returns a
/// reference to the slot's value. Nothing is claimed of the reference, since Verus cannot see what
/// the slot holds.
#[verifier::external_body]
pub(crate) fn fill_slot<T>(slot: &OnceLock<T>, value: T) -> &T {
    slot.get_or_init(move || value)
}

/// Calls `core::sync::atomic::AtomicU8::store`.
///
/// The contract states that the call does not unwind: the documentation of `store` lets it panic
/// only for the `Acquire` and `AcqRel` orderings, which `requires` leaves out. Nothing is claimed
/// of the byte afterwards, since other threads may store to it too.
#[verifier::external_body]
pub(crate) fn release_state(state: &AtomicU8, byte: u8, order: Ordering)
    requires
        !(order is Acquire),
        !(order is AcqRel),
    opens_invariants none
    no_unwind
{
    state.store(byte, order)
}

/// The exclusive claim on the slot of a cell.
///
/// While it exists, the state byte is `RUNNING` and nobody else may write the slot. Dropping it
/// ends the claim by storing its end state into the state byte: `COMPLETE` once a value was
/// published under it, `INCOMPLETE` otherwise.
pub struct InitGuard<'a> {
    state: &'a AtomicU8,
    published: bool,
}

impl<'a> InitGuard<'a> {
    /// Whether a value was published into the slot under this claim.
    pub closed spec fn is_published(self) -> bool {
        self.published
    }

    /// The state byte that dropping this claim stores.
    pub closed spec fn ends_in(self) -> u8 {
        if self.published {
            COMPLETE
        } else {
            INCOMPLETE
        }
    }

    /// The state byte that this claim ends by storing into.
    pub closed spec fn state_byte(self) -> AtomicU8 {
        *self.state
    }

    /// The guard of a claim just taken on `state`: nothing is published under it yet.
    pub fn claimed(state: &'a AtomicU8) -> (guard: InitGuard<'a>)
        ensures
            !guard.is_published(),
            guard.ends_in() == INCOMPLETE,
            guard.state_byte() == *state,
    {
        InitGuard { state, published: false }
    }

    /// Fills `slot` with `value` and makes the claim end in `COMPLETE`.
    ///
    /// The slot is written before the claim ends, so the `Release` store of `COMPLETE` publishes
    /// the value to every caller that reads that state.
    pub fn publish<T>(&mut self, slot: &'a OnceLock<T>, value: T) -> (stored: &'a T)
        ensures
            final(self).is_published(),
            final(self).ends_in() == COMPLETE,
            final(self).state_byte() == old(self).state_byte(),
    {
        let stored = fill_slot(slot, value);
        self.published = true;
        stored
    }

    /// The state byte that dropping this claim stores.
    fn end_state(&self) -> (byte: u8)
        ensures
            byte == self.ends_in(),
        opens_invariants none
        no_unwind
    {
        if self.published {
            COMPLETE
        } else {
            INCOMPLETE
        }
    }
}

impl<'a> Drop for InitGuard<'a> {
    fn drop(&mut self)
        opens_invariants none
        no_unwind
    {
        let byte = self.end_state();
        release_state(self.state, byte, Ordering::Release);
    }
}

/// A claim ends in `COMPLETE` exactly when a value was published under it, and in `INCOMPLETE`
/// otherwise; it never ends in `RUNNING`. So a claim that is dropped while its init function
/// fails or unwinds, with nothing published, leaves the cell uninitialized rather than
/// initializing forever, and a cell is only marked initialized once its slot was filled.
pub proof fn lemma_claim_ends_by_publication(guard: InitGuard)
    ensures
        guard.ends_in() == COMPLETE <==> guard.is_published(),
        !guard.is_published() ==> guard.ends_in() == INCOMPLETE,
        guard.ends_in() != RUNNING,
{
}

} // verus!
