//! The errors that the operations of [`OnceCell`](crate::OnceCell) report.
//!
//! Each error that rejects a value carries that value back to the caller, so that it can be
//! reused (for instance to retry once a concurrent initialization has finished) rather than
//! dropped.
use vstd::prelude::*;
use vstd::std_specs::convert::{FromSpec, FromSpecImpl};

verus! {

/// The text that every error reports for a concurrent initialization.
pub open spec fn concurrent_message() -> Seq<char> {
    "another init function is running concurrently"@
}

/// The text that [`SetError::AlreadyInitialized`] reports.
pub open spec fn already_initialized_message() -> Seq<char> {
    "the cell is already initialized"@
}

/// The text that introduces the error of a failed init function.
pub open spec fn init_failed_prefix() -> Seq<char> {
    "the init function failed: "@
}

/// There is another init function running concurrently for the same `OnceCell`.
///
/// Initialization functions write to the value wrapped by the `OnceCell` directly. Multiple
/// concurrent write operations would corrupt the value, so the `OnceCell` type guards against
/// this.
///
/// This error means that there is already another concurrent initialization function running that
/// has exclusive access to the wrapped value.
#[derive(Debug, Clone, Copy, PartialEq, Eq, Structural)]
pub struct ConcurrentInitialization;

impl ConcurrentInitialization {
    /// The human-readable description of this error.
    pub fn to_string(&self) -> (text: String)
        ensures
            text@ == concurrent_message(),
    {
        proof {
            reveal_strlit("another init function is running concurrently");
        }
        "another init function is running concurrently".to_owned()
    }
}

/// The cell could not be initialized.
///
/// Returned by [`OnceCell::get_or_try_init`](crate::OnceCell::get_or_try_init), which fails either
/// because the init function itself failed, or because another caller is already initializing the
/// cell.
#[derive(Debug, Clone, Copy, PartialEq, Eq)]
pub enum InitError<E> {
    /// The init function returned an error.
    ///
    /// The cell is left uninitialized, so the operation can be retried.
    InitFunctionFailed(E),
    /// There is another init function running concurrently for the same `OnceCell`.
    ///
    /// The init function of this call was _not_ executed. It is dropped together with everything
    /// that it captured, so it cannot be reused for a retry.
    ConcurrentInitialization,
}

impl<E> InitError<E> {
    /// The error of the init function, or `None` for a concurrent initialization.
    pub open spec fn spec_init_function_error(self) -> Option<E> {
        match self {
            InitError::InitFunctionFailed(error) => Some(error),
            InitError::ConcurrentInitialization => None,
        }
    }

    /// Returns the error of the init function, or `None` for a
    /// [`ConcurrentInitialization`](Self::ConcurrentInitialization) error.
    pub fn init_function_error(self) -> (error: Option<E>)
        ensures
            error == self.spec_init_function_error(),
    {
        match self {
            InitError::InitFunctionFailed(error) => Some(error),
            InitError::ConcurrentInitialization => None,
        }
    }
}

impl<E> From<ConcurrentInitialization> for InitError<E> {
    /// A concurrent initialization is reported as
    /// [`InitError::ConcurrentInitialization`].
    fn from(error: ConcurrentInitialization) -> (init_error: InitError<E>) {
        InitError::ConcurrentInitialization
    }
}

impl<E> FromSpecImpl<ConcurrentInitialization> for InitError<E> {
    open spec fn obeys_from_spec() -> bool {
        true
    }

    open spec fn from_spec(error: ConcurrentInitialization) -> InitError<E> {
        InitError::ConcurrentInitialization
    }
}

impl<E: core::fmt::Display> InitError<E> {
    /// The human-readable description of this error.
    ///
    /// For a failed init function, this is the fixed introduction followed by the text that the
    /// `Display` implementation of the init function's error writes.
    pub fn to_string(&self) -> (text: String)
        ensures
            match self {
                InitError::InitFunctionFailed(error) => exists|shown: String|
                    {
                        &&& vstd::string::to_string_from_display_ensures::<E>(error, shown)
                        &&& text@ == init_failed_prefix() + shown@
                    },
                InitError::ConcurrentInitialization => text@ == concurrent_message(),
            },
    {
        match self {
            InitError::InitFunctionFailed(error) => {
                let shown = error.to_string();
                proof {
                    reveal_strlit("the init function failed: ");
                }
                let text = "the init function failed: ".to_owned().concat(shown.as_str());
                assert(vstd::string::to_string_from_display_ensures::<E>(error, shown));
                text
            },
            InitError::ConcurrentInitialization => ConcurrentInitialization.to_string(),
        }
    }
}

/// The value could not be written to the `OnceCell`.
///
/// Returned by [`OnceCell::set`](crate::OnceCell::set). Every variant carries the value that was
/// _not_ written back to the caller, so that it can be reused (e.g. to retry after a
/// [`ConcurrentInitialization`](Self::ConcurrentInitialization) error) instead of being dropped.
#[derive(Debug, Clone, Copy, PartialEq, Eq)]
pub enum SetError<T> {
    /// The cell was already initialized with a different value.
    ///
    /// Contains the value that was not written to the cell.
    AlreadyInitialized(T),
    /// There is another init function running concurrently for the same `OnceCell`.
    ///
    /// Contains the value that was not written to the cell, so that the operation can be retried
    /// once the concurrent initialization is finished.
    ConcurrentInitialization(T),
}

impl<T> SetError<T> {
    /// The value that was not written to the cell.
    pub open spec fn rejected(self) -> T {
        match self {
            SetError::AlreadyInitialized(value) => value,
            SetError::ConcurrentInitialization(value) => value,
        }
    }

    /// Returns the value that was not written to the cell.
    ///
    /// This is the value that was handed to [`OnceCell::set`](crate::OnceCell::set), never the one
    /// stored in the cell: a `OnceCell` does not give up a value it has accepted.
    pub fn into_rejected_value(self) -> (value: T)
        ensures
            value == self.rejected(),
    {
        match self {
            SetError::AlreadyInitialized(value) => value,
            SetError::ConcurrentInitialization(value) => value,
        }
    }

    /// The debugging text of this error, which does not show the rejected value, so that it
    /// exists for every `T`.
    pub fn to_debug_string(&self) -> (text: String)
        ensures
            text@ == match self {
                SetError::AlreadyInitialized(_) => "SetError::AlreadyInitialized(..)"@,
                SetError::ConcurrentInitialization(_) => "SetError::ConcurrentInitialization(..)"@,
            },
    {
        match self {
            SetError::AlreadyInitialized(_) => "SetError::AlreadyInitialized(..)".to_owned(),
            SetError::ConcurrentInitialization(_) => "SetError::ConcurrentInitialization(..)".to_owned(),
        }
    }

    /// The human-readable description of this error; it does not show the rejected value.
    pub fn to_string(&self) -> (text: String)
        ensures
            text@ == match self {
                SetError::AlreadyInitialized(_) => already_initialized_message(),
                SetError::ConcurrentInitialization(_) => concurrent_message(),
            },
    {
        match self {
            SetError::AlreadyInitialized(_) => {
                proof {
                    reveal_strlit("the cell is already initialized");
                }
                "the cell is already initialized".to_owned()
            },
            SetError::ConcurrentInitialization(_) => ConcurrentInitialization.to_string(),
        }
    }
}

impl<T> From<InsertError<T>> for SetError<T> {
    /// An insertion that met a concurrent initialization becomes
    /// [`SetError::ConcurrentInitialization`], carrying the same rejected value.
    fn from(error: InsertError<T>) -> (set_error: SetError<T>) {
        SetError::ConcurrentInitialization(error.into_rejected_value())
    }
}

impl<T> FromSpecImpl<InsertError<T>> for SetError<T> {
    open spec fn obeys_from_spec() -> bool {
        true
    }

    open spec fn from_spec(error: InsertError<T>) -> SetError<T> {
        SetError::ConcurrentInitialization(error.rejected())
    }
}

/// The value could not be inserted into the `OnceCell`.
///
/// Returned by [`OnceCell::get_or_insert`](crate::OnceCell::get_or_insert), which fails only
/// because another caller is initializing the cell. An already initialized cell is _not_ an error
/// there: the caller still ends up with a reference to a stored value, which
/// [`Insertion`](crate::Insertion) reports instead.
///
/// Carries the value that was not inserted back to the caller, so that it can be reused to retry
/// once the concurrent initialization has finished, instead of being dropped.
#[derive(Debug, Clone, Copy, PartialEq, Eq)]
pub struct InsertError<T>(pub(crate) T);

impl<T> InsertError<T> {
    /// The value that was not inserted.
    pub closed spec fn rejected(self) -> T {
        self.0
    }

    /// The error for a value that met a concurrent initialization.
    pub(crate) fn new(value: T) -> (error: InsertError<T>)
        ensures
            error.rejected() == value,
    {
        InsertError(value)
    }

    /// Returns the value that was not inserted into the cell.
    pub fn into_rejected_value(self) -> (value: T)
        ensures
            value == self.rejected(),
    {
        self.0
    }

    /// The debugging text of this error, which does not show the rejected value, so that it
    /// exists for every `T`.
    pub fn to_debug_string(&self) -> (text: String)
        ensures
            text@ == "InsertError(..)"@,
    {
        "InsertError(..)".to_owned()
    }

    /// The human-readable description of this error; it does not show the rejected value.
    pub fn to_string(&self) -> (text: String)
        ensures
            text@ == concurrent_message(),
    {
        ConcurrentInitialization.to_string()
    }
}

/// Converting an insertion error into a set error keeps the value that was not written: both
/// hand back the same value.
pub proof fn lemma_set_error_from_insert_error_keeps_the_value<T>(error: InsertError<T>)
    ensures
        <SetError<T> as FromSpec<InsertError<T>>>::from_spec(error).rejected()
            == error.rejected(),
        <SetError<T> as FromSpec<InsertError<T>>>::from_spec(error) is ConcurrentInitialization,
{
}

/// A concurrent initialization, converted into an init error, carries no error of an init
/// function: the init function did not run.
pub proof fn lemma_concurrent_init_error_has_no_init_function_error<E>(
    error: ConcurrentInitialization,
)
    ensures
        <InitError<E> as FromSpec<ConcurrentInitialization>>::from_spec(
            error,
        ).spec_init_function_error() is None,
{
}

} // verus!
