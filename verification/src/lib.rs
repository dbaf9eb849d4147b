//! # Overview
//!
//! This crate provides a [`OnceCell`] type that implements [`Sync`]. It does _not_ use spinlocks
//! or any other form of blocking. Instead, concurrent initialization is reported as an explicit
//! [`ConcurrentInitialization`](error::ConcurrentInitialization) error that the caller can handle
//! as it likes.
//!
//! `OnceCell` might store arbitrary non-`Copy` types, can be assigned to at most once and provides
//! direct access to the stored contents:
//!
//! ```rust,ignore
//! impl OnceCell<T> {
//!     fn new() -> OnceCell<T> { ... }
//!     fn set(&self, value: T) -> Result<(), SetError<T>> { ... }
//!     fn get(&self) -> Option<&T> { ... }
//! }
//! ```
//!
//! Note that the `set` method requires only a shared reference.
//!
//! # What is proved
//!
//! How each operation turns the outcome of its attempt into a result is verified: an init
//! function is called only by the caller whose compare-exchange took the claim, a claim ends in
//! `COMPLETE` exactly when its init function returned a value, a value that is not inserted
//! always comes back to the caller, and the error of a failed init function is reported as it was
//! returned. That the compare-exchange makes the claim exclusive, and what a cell holds from one
//! call to the next, are shared state that other callers change under a shared reference: they
//! rest on the atomic and on `std::sync::OnceLock`, and the contracts speak of what holds of
//! every outcome of a call, not of which outcome comes.
use vstd::prelude::*;

pub mod error;
mod guard;
mod imp;
mod show;

use vstd::std_specs::cmp::{PartialEqSpec, PartialEqSpecImpl};
use vstd::std_specs::convert::FromSpecImpl;
use crate::error::{ConcurrentInitialization, InitError, InsertError, SetError};

verus! {

/// The outcome of a successful [`OnceCell::get_or_insert`] call.
///
/// Either variant means the cell holds a value and that [`stored`](Self::stored) hands out a
/// reference to it. They differ only in _whose_ value that is: the one passed to `get_or_insert`,
/// or one that an earlier caller had already put there.
#[derive(Debug, Clone, Copy, PartialEq, Eq)]
pub enum Insertion<'a, T> {
    /// The cell was empty, so the value was inserted into it.
    Inserted(&'a T),
    /// The cell already held a value, which was left untouched.
    AlreadyInitialized {
        /// A reference to the value that is stored in the cell.
        stored: &'a T,
        /// The value that was not inserted.
        rejected: T,
    },
}

impl<'a, T> Insertion<'a, T> {
    /// The reference to the value that is stored in the cell.
    pub open spec fn spec_stored(self) -> &'a T {
        match self {
            Insertion::Inserted(stored) => stored,
            Insertion::AlreadyInitialized { stored, .. } => stored,
        }
    }

    /// The value that was not inserted, or `None` if it was.
    pub open spec fn spec_rejected(self) -> Option<T> {
        match self {
            Insertion::Inserted(_) => None,
            Insertion::AlreadyInitialized { rejected, .. } => Some(rejected),
        }
    }

    /// Returns a reference to the value that is stored in the cell.
    ///
    /// This is the value passed to [`get_or_insert`](OnceCell::get_or_insert) for
    /// [`Inserted`](Self::Inserted), and the value an earlier caller stored for
    /// [`AlreadyInitialized`](Self::AlreadyInitialized).
    pub fn stored(&self) -> (stored: &'a T)
        ensures
            stored == self.spec_stored(),
    {
        match self {
            Insertion::Inserted(stored) => stored,
            Insertion::AlreadyInitialized { stored, .. } => stored,
        }
    }

    /// Returns whether the value was inserted into the cell.
    pub fn was_inserted(&self) -> (inserted: bool)
        ensures
            inserted <==> self is Inserted,
    {
        match self {
            Insertion::Inserted(_) => true,
            Insertion::AlreadyInitialized { .. } => false,
        }
    }

    /// Returns the value that was not inserted, or `None` if it was.
    pub fn into_rejected_value(self) -> (rejected: Option<T>)
        ensures
            rejected == self.spec_rejected(),
    {
        match self {
            Insertion::Inserted(_) => None,
            Insertion::AlreadyInitialized { rejected, .. } => Some(rejected),
        }
    }
}

/// An insertion hands its value back exactly when it did not insert it.
pub proof fn lemma_rejected_exactly_when_not_inserted<'a, T>(insertion: Insertion<'a, T>)
    ensures
        insertion.spec_rejected() is None <==> insertion is Inserted,
{
}

/// A snapshot of the state of a [`OnceCell`], returned by [`OnceCell::state`].
///
/// The returned state describes the cell at the moment of the call and may have changed again by
/// the time it is inspected. It is meant for reporting: logging, diagnostics, health checks, and
/// tests.
///
/// - [`Uninitialized`](Self::Uninitialized) does not mean an initialization will succeed. Another
///   caller may start one before you do.
/// - [`Initializing`](Self::Initializing) does not mean an initialization will complete. The init
///   function may fail or panic and return the cell to `Uninitialized`.
///
/// [`Initialized`](Self::Initialized) is the one state that is stable: a cell only leaves it
/// through `&mut` access, which no other caller can hold at the same time.
#[derive(Debug, Clone, Copy, PartialEq, Eq, Hash, Structural)]
pub enum CellState {
    /// The cell is empty and no initialization function is currently running.
    ///
    /// The cell also returns to this state when an initialization function fails or panics.
    Uninitialized,
    /// Another caller is currently running an initialization function for this cell.
    Initializing,
    /// The cell holds a value.
    Initialized,
}

/// A thread-safe cell which can be written to only once.
///
/// `OnceCell` provides `&` references to the contents without RAII guards.
///
/// `OnceCell` guarantees that at most one initialization function runs at a time to compute the
/// value. If two callers run [`get_or_init`](Self::get_or_init) (or similar) concurrently, one of
/// them gets a [`ConcurrentInitialization`] error; it is up to that caller to decide how to handle
/// it (retry later, or give up).
#[verifier::reject_recursive_types(T)]
pub struct OnceCell<T>(imp::OnceCell<T>);

impl<T> Default for OnceCell<T> {
    /// An empty cell.
    fn default() -> OnceCell<T> {
        OnceCell::new()
    }
}

impl<T> From<T> for OnceCell<T> {
    /// A cell that holds `value`.
    fn from(value: T) -> OnceCell<T> {
        OnceCell::with_value(value)
    }
}

/// Nothing is claimed of what `from` returns at the level of specifications: what a cell holds
/// is not visible to them.
impl<T> FromSpecImpl<T> for OnceCell<T> {
    open spec fn obeys_from_spec() -> bool {
        false
    }

    open spec fn from_spec(value: T) -> OnceCell<T> {
        arbitrary()
    }
}

impl<T: Clone> Clone for OnceCell<T> {
    /// A new cell that holds a clone of the value of this one, or an empty cell if this one holds
    /// no value.
    fn clone(&self) -> OnceCell<T> {
        match self.get() {
            Some(value) => OnceCell::with_value(value.clone()),
            None => OnceCell::new(),
        }
    }

    /// Makes this cell hold a clone of the value of `source`, or no value: a value already held
    /// is overwritten in place, and otherwise this cell is replaced by a clone of `source`.
    fn clone_from(&mut self, source: &OnceCell<T>) {
        match source.get() {
            Some(theirs) => match self.get_mut() {
                Some(mine) => {
                    imp::clone_into(mine, theirs);
                },
                None => {
                    *self = OnceCell::with_value(theirs.clone());
                },
            },
            None => {
                *self = OnceCell::new();
            },
        }
    }
}

impl<T: PartialEq> PartialEq for OnceCell<T> {
    /// Two cells are equal when neither holds a value, or both hold equal values.
    fn eq(&self, other: &OnceCell<T>) -> bool {
        values_equal(self.get(), other.get())
    }
}

/// Whether two reads of cells found equal contents: both found no value, or both found values
/// that `T`'s equality calls equal.
fn values_equal<T: PartialEq>(mine: Option<&T>, theirs: Option<&T>) -> (equal: bool)
    ensures
        mine is None && theirs is None ==> equal,
        mine is None != theirs is None ==> !equal,
        mine is Some && theirs is Some && T::obeys_eq_spec() ==> equal == mine.unwrap().eq_spec(
            theirs.unwrap(),
        ),
{
    match (mine, theirs) {
        (Some(a), Some(b)) => a.eq(b),
        (None, None) => true,
        _ => false,
    }
}

/// Nothing is claimed of what `eq` returns at the level of specifications: it compares what the
/// cells hold at the moment of the call, which is not visible to them.
impl<T: PartialEq> PartialEqSpecImpl for OnceCell<T> {
    open spec fn obeys_eq_spec() -> bool {
        false
    }

    open spec fn eq_spec(&self, other: &OnceCell<T>) -> bool {
        arbitrary()
    }
}

impl<T: Eq> Eq for OnceCell<T> {

}

impl<T> OnceCell<T> {
    /// Creates a new empty cell.
    pub fn new() -> OnceCell<T> {
        OnceCell(imp::OnceCell::new())
    }

    /// Creates a new initialized cell.
    pub fn with_value(value: T) -> OnceCell<T> {
        OnceCell(imp::OnceCell::with_value(value))
    }

    /// Returns whether the cell is initialized.
    ///
    /// This method never blocks. It only reports a snapshot of the cell state, which might have
    /// changed again by the time the returned value is used.
    pub fn is_initialized(&self) -> bool {
        self.0.is_initialized()
    }

    /// Gets the reference to the underlying value.
    ///
    /// Returns `None` if the cell is empty, or being initialized. This method never blocks.
    pub fn get(&self) -> Option<&T> {
        match self.get_or_reason() {
            Ok(value) => Some(value),
            Err(_) => None,
        }
    }

    /// Gets the value, or the state that explains why it is not available.
    ///
    /// It answers from one load of the state, so that the reported state and the value cannot
    /// disagree. The `Err` value is never [`CellState::Initialized`].
    fn get_or_reason(&self) -> (value: Result<&T, CellState>)
        ensures
            value matches Err(state) ==> state != CellState::Initialized,
    {
        self.0.value_or_reason(self.0.state())
    }

    /// Returns a snapshot of the cell state.
    ///
    /// Unlike [`is_initialized`](Self::is_initialized), this distinguishes an empty cell from one
    /// that another caller is currently initializing. This method never blocks.
    pub fn state(&self) -> CellState {
        self.0.state()
    }

    /// Gets the mutable reference to the underlying value.
    ///
    /// Returns `None` if the cell is empty. Since this method requires `&mut` access, no
    /// initialization can be in progress.
    pub fn get_mut(&mut self) -> Option<&mut T> {
        self.0.get_mut()
    }

    /// Sets the contents of this cell to `value`.
    ///
    /// Returns `Ok(())` if the cell was empty. If the cell was already full, a
    /// [`SetError::AlreadyInitialized`] error is returned. If the cell is concurrently being
    /// initialized by another caller, a [`SetError::ConcurrentInitialization`] error is returned.
    ///
    /// Both error variants give `value` back to the caller.
    pub fn set(&self, value: T) -> (result: Result<(), SetError<T>>)
        ensures
            result matches Err(error) ==> error.rejected() == value,
    {
        set_result(self.get_or_insert(value))
    }

    /// Gets the contents of the cell, initializing it with `value` if the cell was empty.
    ///
    /// An already initialized cell is not an error: the returned [`Insertion`] hands out a
    /// reference to the stored value and gives `value` back. The only failure is a concurrent
    /// initialization by another caller; its [`InsertError`] gives `value` back as well.
    pub fn get_or_insert(&self, value: T) -> (result: Result<Insertion<'_, T>, InsertError<T>>)
        ensures
            result matches Err(error) ==> error.rejected() == value,
            result matches Ok(insertion) ==> (insertion.spec_rejected() matches Some(rejected)
                ==> rejected == value),
    {
        let found = self.get();
        if found.is_some() {
            return imp::found_insertion(found, value);
        }
        self.0.insert_under(self.0.claim(), value)
    }

    /// Gets the contents of the cell, initializing it with `f` if the cell was empty.
    ///
    /// At most one init function runs at a time; a caller that meets another one running gets a
    /// [`ConcurrentInitialization`] error and its `f` is dropped without being called.
    ///
    /// If `f` panics, the panic is propagated to the caller, and the cell remains uninitialized.
    /// Calling back into the same cell from `f` never deadlocks: the nested call reports
    /// [`ConcurrentInitialization`].
    pub fn get_or_init<F>(&self, f: F) -> (result: Result<&T, ConcurrentInitialization>)
        where
            F: FnOnce() -> T,
        requires
            f.requires(()),
    {
        let infallible = move || -> (made: Result<T, ()>)
            requires
                f.requires(()),
            ensures
                made is Ok,
            { Ok(f()) };
        match self.get_or_try_init(infallible) {
            Ok(value) => Ok(value),
            Err(InitError::ConcurrentInitialization) => Err(ConcurrentInitialization),
            Err(InitError::InitFunctionFailed(_)) => {
                // `infallible` always returns `Ok`, so it cannot have failed.
                proof {
                    assert(false);
                }
                Err(ConcurrentInitialization)
            },
        }
    }

    /// Gets the contents of the cell, initializing it with `f` if the cell was empty. If the cell
    /// was empty and `f` failed, the error of `f` is returned as
    /// [`InitError::InitFunctionFailed`].
    ///
    /// If the cell is concurrently being initialized by another caller, an
    /// [`InitError::ConcurrentInitialization`] error is returned. In that case `f` was _not_
    /// executed.
    ///
    /// If `f` panics, the panic is propagated to the caller, and the cell remains uninitialized.
    pub fn get_or_try_init<F, E>(&self, f: F) -> (result: Result<&T, InitError<E>>)
        where
            F: FnOnce() -> Result<T, E>,
        requires
            f.requires(()),
        ensures
            result matches Err(InitError::InitFunctionFailed(error)) ==> f.ensures((), Err(error)),
    {
        if let Some(found) = imp::found_success(self.get()) {
            return found;
        }
        self.0.try_initialize(f)
    }

    /// Takes the value out of this `OnceCell`, moving it back to an uninitialized state.
    ///
    /// Has no effect and returns `None` if the `OnceCell` hasn't been initialized.
    pub fn take(&mut self) -> Option<T> {
        let mut taken = OnceCell::new();
        core::mem::swap(self, &mut taken);
        taken.into_inner()
    }

    /// Consumes the `OnceCell`, returning the wrapped value. Returns `None` if the cell was
    /// empty.
    pub fn into_inner(self) -> Option<T> {
        self.0.into_inner()
    }
}

/// What `set` reports for the outcome of the insertion it makes: success when the value went in,
/// and otherwise the error that carries the value back.
fn set_result<T>(inserted: Result<Insertion<'_, T>, InsertError<T>>) -> (result: Result<
    (),
    SetError<T>,
>)
    ensures
        match inserted {
            Ok(Insertion::Inserted(_)) => result == Ok::<(), SetError<T>>(()),
            Ok(Insertion::AlreadyInitialized { rejected, .. }) => result == Err::<(), SetError<T>>(
                SetError::AlreadyInitialized(rejected),
            ),
            Err(error) => result == Err::<(), SetError<T>>(
                SetError::ConcurrentInitialization(error.rejected()),
            ),
        },
{
    match inserted {
        Ok(Insertion::Inserted(_)) => Ok(()),
        Ok(Insertion::AlreadyInitialized { rejected, .. }) => Err(
            SetError::AlreadyInitialized(rejected),
        ),
        Err(error) => Err(SetError::from(error)),
    }
}

impl<T: core::fmt::Debug> OnceCell<T> {
    /// The debugging text of the cell: `OnceCell(` and the value and `)` for a cell that holds a
    /// value, `OnceCell(Initializing)` while an init function runs, and `OnceCell(Uninit)`
    /// otherwise. `alternate` selects the multi-line form (`{:#?}`). Returns `None` when the
    /// `Debug` implementation of the value reports an error.
    pub fn to_debug_string(&self, alternate: bool) -> (text: Option<String>)
        ensures
            text is Some ==> {
                ||| text.unwrap()@ == "OnceCell(Initializing)"@
                ||| text.unwrap()@ == "OnceCell(Uninit)"@
                ||| holds_value_text(text.unwrap()@, alternate)
            },
    {
        debug_text(self.get_or_reason(), alternate)
    }
}

/// `text` is the debugging text of a cell that holds a value: `OnceCell(`, the value's one-line
/// `Debug` text and `)`, or, in the multi-line form, `OnceCell(` on a line of its own, the lines
/// of the value's multi-line `Debug` text followed by a comma, each indented by four spaces, and
/// `)`.
pub open spec fn holds_value_text(text: Seq<char>, alternate: bool) -> bool {
    if alternate {
        exists|shown: show::PrettyDebug, lines: Seq<Seq<char>>|
            {
                &&& show::lines_of(shown@ + ",\n"@, lines)
                &&& text == "OnceCell(\n"@ + show::indented(lines) + ")"@
            }
    } else {
        exists|shown: show::CompactDebug| text == "OnceCell("@ + shown@ + ")"@
    }
}

/// The debugging text for what a read of a cell found: the value, or the state that explains why
/// there is none.
fn debug_text<T: core::fmt::Debug>(found: Result<&T, CellState>, alternate: bool) -> (text: Option<
    String,
>)
    ensures
        found matches Err(state) ==> text matches Some(text) && text@ == (
        if state == CellState::Initializing {
            "OnceCell(Initializing)"@
        } else {
            "OnceCell(Uninit)"@
        }),
        found is Ok && text is Some ==> holds_value_text(text.unwrap()@, alternate),
{
    match found {
        Ok(value) => if alternate {
            match show::pretty_debug_of(value) {
                Some(shown) => Some(show::framed_pretty(&shown)),
                None => None,
            }
        } else {
            match show::debug_of(value) {
                Some(shown) => Some(show::framed(&shown)),
                None => None,
            }
        },
        Err(CellState::Initializing) => Some("OnceCell(Initializing)".to_owned()),
        Err(_) => Some("OnceCell(Uninit)".to_owned()),
    }
}

} // verus!
