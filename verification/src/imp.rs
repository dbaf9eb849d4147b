//! The state machine behind [`OnceCell`](crate::OnceCell).
//!
//! A cell is a state byte and a slot. The byte moves between three states:
//!
//! - `INCOMPLETE`: the slot is empty and nobody is filling it;
//! - `RUNNING`: one caller has claimed the slot and is running its init function;
//! - `COMPLETE`: the slot holds the value.
//!
//! The only way into `RUNNING` is the `INCOMPLETE` -> `RUNNING` compare-exchange in
//! [`OnceCell::claim`], so at most one caller at a time holds the claim and runs an init function.
//! The claim is an `InitGuard`: when it is dropped it stores `INCOMPLETE` back (the init
//! function failed or panicked), unless [`OnceCell::publish`] filled the slot first, in which case
//! it stores `COMPLETE`. That store is a `Release` store, and every read of the byte is an
//! `Acquire` load, so a caller that reads `COMPLETE` also sees the slot filled.
//!
//! The slot is a `std::sync::OnceLock`, which is written only by the caller that holds the claim,
//! and so never has to wait for another writer.
use vstd::prelude::*;
use core::sync::atomic::{AtomicU8, Ordering};
use std::sync::OnceLock;

use crate::CellState;
use crate::Insertion;
use crate::guard::{InitGuard, fill_slot, lemma_claim_ends_by_publication};
use crate::error::{InitError, InsertError};

verus! {

/// The state byte of an empty cell that nobody is initializing.
pub const INCOMPLETE: u8 = 0;

/// The state byte of a cell whose init function is running.
pub const RUNNING: u8 = 1;

/// The state byte of a cell that holds its value.
pub const COMPLETE: u8 = 2;

/// `std::sync::OnceLock`, the slot that holds the value of a cell.
///
/// Verus sees nothing inside it; the library only carries it and calls its methods.
#[verifier::external_type_specification]
#[verifier::external_body]
#[verifier::reject_recursive_types(T)]
pub struct ExOnceLock<T>(OnceLock<T>);

/// `std::sync::OnceLock::new`: an empty slot. Nothing is claimed of the result.
pub assume_specification<T>[ OnceLock::<T>::new ]() -> OnceLock<T>;

/// `std::sync::OnceLock::get`: a reference to the slot's value, or `None` while the slot is empty
/// or being filled. It never blocks. Nothing is claimed of the result, since Verus cannot see what
/// the slot holds.
pub assume_specification<T>[ OnceLock::<T>::get ](slot: &OnceLock<T>) -> Option<&T>;

/// `std::sync::OnceLock::get_mut`: a mutable reference to the slot's value, or `None` for an
/// empty slot. Nothing is claimed of the result.
pub assume_specification<T>[ OnceLock::<T>::get_mut ](slot: &mut OnceLock<T>) -> Option<&mut T>;

/// `std::sync::OnceLock::into_inner`: the slot's value, or `None` for an empty slot. Nothing is
/// claimed of the result.
pub assume_specification<T>[ OnceLock::<T>::into_inner ](slot: OnceLock<T>) -> Option<T>;

/// Calls `core::sync::atomic::AtomicU8::compare_exchange` (the strong one).
///
/// The contract states what the documentation of `compare_exchange` promises: an `Ok` carries the
/// previous value, which was `current` (and `new` was written), and an `Err` carries the
/// previous value, which was not `current` (and nothing was written). The documentation lets the
/// call panic when the failure ordering is `Release` or `AcqRel`, which `requires` leaves out.
#[verifier::external_body]
fn exchange_state(
    state: &AtomicU8,
    current: u8,
    new: u8,
    success: Ordering,
    failure: Ordering,
) -> (previous: Result<u8, u8>)
    requires
        !(failure is Release),
        !(failure is AcqRel),
    ensures
        previous matches Ok(byte) ==> byte == current,
        previous matches Err(byte) ==> byte != current,
{
    state.compare_exchange(current, new, success, failure)
}

/// Calls `Clone::clone_from` of `T`, which makes `target` a clone of `source`, possibly reusing
/// what `target` holds. Nothing is claimed of the result, since `T`'s implementation decides it.
#[verifier::external_body]
pub(crate) fn clone_into<T: Clone>(target: &mut T, source: &T) {
    target.clone_from(source)
}

/// The value that a read of the slot found, or `missing` when it found none.
pub fn value_or<'a, T, E>(found: Option<&'a T>, missing: E) -> (result: Result<&'a T, E>)
    ensures
        found matches Some(value) ==> result == Ok::<&'a T, E>(value),
        found is None ==> result == Err::<&'a T, E>(missing),
{
    match found {
        Some(value) => Ok(value),
        None => Err(missing),
    }
}

/// The success that a read which found a value hands on, or `None` when it found none.
pub fn found_success<'a, T, E>(found: Option<&'a T>) -> (result: Option<Result<&'a T, E>>)
    ensures
        found matches Some(value) ==> result == Some(Ok::<&'a T, E>(value)),
        found is None ==> result is None,
{
    match found {
        Some(value) => Some(Ok(value)),
        None => None,
    }
}

/// What an insertion of `value` gives when a read of the slot found `stored`: the stored value
/// next to `value`, which is handed back; when the read found nothing, `value` is handed back in
/// an error.
pub fn found_insertion<'a, T>(found: Option<&'a T>, value: T) -> (result: Result<
    Insertion<'a, T>,
    InsertError<T>,
>)
    ensures
        found matches Some(stored) ==> result == Ok::<Insertion<'a, T>, InsertError<T>>(
            Insertion::AlreadyInitialized { stored, rejected: value },
        ),
        found is None ==> (result matches Err(error) && error.rejected() == value),
{
    match found {
        Some(stored) => Ok(Insertion::AlreadyInitialized { stored, rejected: value }),
        None => Err(InsertError::new(value)),
    }
}

/// Maps a state byte onto the states of the public API.
///
/// This is the single place that maps the raw constants onto the state machine.
fn state_of(byte: u8) -> (state: CellState)
    ensures
        byte == COMPLETE ==> state == CellState::Initialized,
        byte == RUNNING ==> state == CellState::Initializing,
        byte != COMPLETE && byte != RUNNING ==> state == CellState::Uninitialized,
{
    if byte == COMPLETE {
        CellState::Initialized
    } else if byte == RUNNING {
        CellState::Initializing
    } else {
        CellState::Uninitialized
    }
}

/// Whether a state says that the cell holds a value.
pub fn initialized(state: CellState) -> (holds: bool)
    ensures
        holds == (state == CellState::Initialized),
{
    match state {
        CellState::Initialized => true,
        _ => false,
    }
}

/// What an attempt to claim the slot found.
#[derive(Debug, Clone, Copy, PartialEq, Eq, Structural)]
pub enum Exchange {
    /// The `INCOMPLETE` -> `RUNNING` exchange succeeded: this caller holds the claim.
    Claimed,
    /// The cell already holds its value.
    Complete,
    /// Another caller holds the claim.
    Contended,
}

/// Decides what the outcome of the `INCOMPLETE` -> `RUNNING` compare-exchange means.
///
/// Only a successful exchange gives the claim. A failed one found `COMPLETE` (the value is there)
/// or `RUNNING` (another caller holds the claim). A strong compare-exchange cannot fail on
/// `INCOMPLETE`, so no retry is needed; a byte outside the three states is treated as a claim held
/// by someone else, so that it never leads to touching the slot.
fn classify_exchange(previous: Result<u8, u8>) -> (exchange: Exchange)
    requires
        previous matches Err(byte) ==> byte != INCOMPLETE,
    ensures
        previous is Ok ==> exchange == Exchange::Claimed,
        previous == Err::<u8, u8>(COMPLETE) ==> exchange == Exchange::Complete,
        previous matches Err(byte) && byte != COMPLETE ==> exchange == Exchange::Contended,
{
    match previous {
        Ok(_) => Exchange::Claimed,
        Err(byte) => if byte == COMPLETE {
            Exchange::Complete
        } else {
            Exchange::Contended
        },
    }
}

/// What [`OnceCell::claim`] obtained.
pub enum Claim<'a> {
    /// This caller holds the claim on the slot.
    Won(InitGuard<'a>),
    /// The cell already holds its value.
    Complete,
    /// Another caller holds the claim.
    Contended,
}

/// The state byte and the slot of a cell.
#[verifier::reject_recursive_types(T)]
pub struct OnceCell<T> {
    state: AtomicU8,
    slot: OnceLock<T>,
}

impl<T> OnceCell<T> {
    /// An empty cell.
    pub fn new() -> OnceCell<T> {
        OnceCell { state: AtomicU8::new(INCOMPLETE), slot: OnceLock::new() }
    }

    /// A cell that holds `value`.
    pub fn with_value(value: T) -> OnceCell<T> {
        let slot = OnceLock::new();
        fill_slot(&slot, value);
        OnceCell { state: AtomicU8::new(COMPLETE), slot }
    }

    /// The current state of the cell.
    ///
    /// The `Acquire` load synchronizes with the `Release` store that ends a claim, so a caller
    /// that reads `COMPLETE` also sees the filled slot.
    pub fn state(&self) -> CellState {
        state_of(self.state.load(Ordering::Acquire))
    }

    /// Whether the cell holds a value.
    pub fn is_initialized(&self) -> bool {
        initialized(self.state())
    }

    /// The value, or the reason why there is none, given the state that a read of the cell found.
    ///
    /// Only a cell found `Initialized` is read from; every other state is the answer itself. The
    /// slot of a cell found `Initialized` is filled (it is filled before a claim ends in
    /// `COMPLETE`, and only `&mut` access empties it again); should its read still come back
    /// empty, the value is reported as not yet available: `Initializing`.
    pub fn value_or_reason(&self, state: CellState) -> (found: Result<&T, CellState>)
        ensures
            state != CellState::Initialized ==> found == Err::<&T, CellState>(state),
            found is Ok ==> state == CellState::Initialized,
            state == CellState::Initialized && found is Err ==> found == Err::<&T, CellState>(
                CellState::Initializing,
            ),
    {
        match state {
            CellState::Initialized => value_or(self.slot.get(), CellState::Initializing),
            _ => Err(state),
        }
    }

    /// Tries to take the claim on the slot.
    ///
    /// One strong compare-exchange decides: only the caller whose exchange turns `INCOMPLETE` into
    /// `RUNNING` gets the claim. Every other caller leaves without touching the slot.
    pub fn claim(&self) -> (claim: Claim<'_>)
        ensures
            claim matches Claim::Won(guard) ==> guard.ends_in() == INCOMPLETE,
    {
        let previous = exchange_state(
            &self.state,
            INCOMPLETE,
            RUNNING,
            Ordering::Acquire,
            Ordering::Acquire,
        );
        match classify_exchange(previous) {
            Exchange::Claimed => Claim::Won(InitGuard::claimed(&self.state)),
            Exchange::Complete => Claim::Complete,
            Exchange::Contended => Claim::Contended,
        }
    }

    /// Fills the claimed slot with `value` and sets the claim to end in `COMPLETE`.
    ///
    /// The slot is written before the claim ends, so the `Release` store of `COMPLETE` publishes
    /// the value to every caller that reads that state.
    pub fn publish<'a>(&'a self, guard: &mut InitGuard<'a>, value: T) -> (stored: &'a T)
        ensures
            final(guard).ends_in() == COMPLETE,
            final(guard).is_published(),
            final(guard).state_byte() == old(guard).state_byte(),
    {
        guard.publish(&self.slot, value)
    }

    /// Runs `f` under a claim, and stores its value when it succeeds.
    ///
    /// The claim ends in `COMPLETE` exactly when `f` returned a value, which is then in the slot;
    /// when `f` fails, the slot is not touched and the claim still ends in `INCOMPLETE`, so the
    /// cell can be initialized later. (If `f` panics, the claim is dropped while it still ends in
    /// `INCOMPLETE`.)
    pub fn initialize_claimed<'a, F, E>(&'a self, guard: &mut InitGuard<'a>, f: F) -> (result:
        Result<&'a T, E>)
        where
            F: FnOnce() -> Result<T, E>,
        requires
            f.requires(()),
            old(guard).ends_in() == INCOMPLETE,
        ensures
            final(guard).ends_in() == (if result is Ok {
                COMPLETE
            } else {
                INCOMPLETE
            }),
            final(guard).state_byte() == old(guard).state_byte(),
            final(guard).is_published() == result is Ok,
            result matches Err(error) ==> f.ensures((), Err(error)),
            result is Ok ==> exists|value: T| f.ensures((), Ok(value)),
    {
        proof {
            lemma_claim_ends_by_publication(*guard);
        }
        match f() {
            Ok(value) => Ok(self.publish(guard, value)),
            Err(error) => Err(error),
        }
    }

    /// Runs `f` to fill the slot if this caller gets the claim.
    ///
    /// `f` runs at most once, and only under the claim: when the cell is already initialized or
    /// another caller holds the claim, `f` is dropped without being called. If `f` fails or
    /// panics, the claim ends in `INCOMPLETE`, so the cell can be initialized later.
    pub fn try_initialize<F, E>(&self, f: F) -> (result: Result<&T, InitError<E>>)
        where
            F: FnOnce() -> Result<T, E>,
        requires
            f.requires(()),
        ensures
            result matches Err(InitError::InitFunctionFailed(error)) ==> f.ensures((), Err(error)),
    {
        self.initialize_under(self.claim(), f)
    }

    /// What an initialization with `f` returns, given what the attempt to claim the slot got.
    ///
    /// Only the holder of the claim calls `f` (see [`initialize_claimed`](Self::initialize_claimed)
    /// for how its claim ends); a cell found complete hands out its value, and a claim held by
    /// someone else is reported as a concurrent initialization. Should the slot of a cell found
    /// complete read back empty, its value is not available yet, which is reported as a concurrent
    /// initialization too.
    pub fn initialize_under<'a, F, E>(&'a self, claim: Claim<'a>, f: F) -> (result: Result<
        &'a T,
        InitError<E>,
    >)
        where
            F: FnOnce() -> Result<T, E>,
        requires
            f.requires(()),
            claim matches Claim::Won(guard) ==> guard.ends_in() == INCOMPLETE,
        ensures
            claim is Contended ==> result == Err::<&'a T, InitError<E>>(
                InitError::ConcurrentInitialization,
            ),
            claim is Complete ==> result is Ok || result == Err::<&'a T, InitError<E>>(
                InitError::ConcurrentInitialization,
            ),
            claim is Won && result is Ok ==> exists|value: T| f.ensures((), Ok(value)),
            claim is Won ==> result != Err::<&'a T, InitError<E>>(
                InitError::ConcurrentInitialization,
            ),
            result matches Err(InitError::InitFunctionFailed(error)) ==> f.ensures((), Err(error)),
    {
        match claim {
            Claim::Won(mut guard) => match self.initialize_claimed(&mut guard, f) {
                Ok(value) => Ok(value),
                Err(error) => Err(InitError::InitFunctionFailed(error)),
            },
            Claim::Complete => value_or(self.slot.get(), InitError::ConcurrentInitialization),
            Claim::Contended => Err(InitError::ConcurrentInitialization),
        }
    }

    /// What an insertion of `value` returns, given what the attempt to claim the slot got.
    ///
    /// The holder of the claim stores `value` (and its claim ends in `COMPLETE`, see
    /// [`publish`](Self::publish)); otherwise `value` comes back, next to the stored value of a
    /// complete cell, or in an error when someone else holds the claim. Should the slot of a cell
    /// found complete read back empty, its value is not available yet, which is reported like a
    /// concurrent initialization, with `value` handed back.
    pub fn insert_under<'a>(&'a self, claim: Claim<'a>, value: T) -> (result: Result<
        Insertion<'a, T>,
        InsertError<T>,
    >)
        ensures
            claim is Won ==> result matches Ok(Insertion::Inserted(_)),
            claim is Complete ==> (result matches Ok(Insertion::AlreadyInitialized { rejected, .. })
                && rejected == value) || (result matches Err(error) && error.rejected() == value),
            claim is Contended ==> (result matches Err(error) && error.rejected() == value),
    {
        match claim {
            Claim::Won(mut guard) => Ok(Insertion::Inserted(self.publish(&mut guard, value))),
            Claim::Complete => found_insertion(self.slot.get(), value),
            Claim::Contended => Err(InsertError::new(value)),
        }
    }

    /// A mutable reference to the value, or `None` for an empty slot.
    pub fn get_mut(&mut self) -> Option<&mut T> {
        self.slot.get_mut()
    }

    /// The value, or `None` for an empty slot.
    pub fn into_inner(self) -> Option<T> {
        self.slot.into_inner()
    }
}

} // verus!
