use std::cell::Cell;

use once_cell_no_std::error::{ConcurrentInitialization, InitError, InsertError, SetError};
use once_cell_no_std::{CellState, Insertion, OnceCell};

#[test]
fn a_new_cell_is_uninitialized() {
    let cell: OnceCell<u32> = OnceCell::new();
    assert_eq!(cell.state(), CellState::Uninitialized);
    assert!(!cell.is_initialized());
    assert_eq!(cell.get(), None);
    let default: OnceCell<u32> = OnceCell::default();
    assert_eq!(default.state(), CellState::Uninitialized);
}

#[test]
fn a_set_cell_is_initialized_and_keeps_its_value() {
    let cell = OnceCell::new();
    assert_eq!(cell.set(92), Ok(()));
    assert_eq!(cell.state(), CellState::Initialized);
    assert!(cell.is_initialized());
    assert_eq!(cell.get(), Some(&92));
    assert_eq!(cell.set(62), Err(SetError::AlreadyInitialized(62)));
    assert_eq!(cell.get(), Some(&92));
}

#[test]
fn the_cell_is_initializing_while_its_init_function_runs() {
    let cell: OnceCell<u32> = OnceCell::new();
    let seen = Cell::new(None);
    let debug = Cell::new(String::new());
    let value = cell
        .get_or_init(|| {
            seen.set(Some((cell.state(), cell.get().is_none(), cell.is_initialized())));
            debug.set(cell.to_debug_string(false).unwrap());
            7
        })
        .unwrap();
    assert_eq!(*value, 7);
    assert_eq!(seen.get(), Some((CellState::Initializing, true, false)));
    assert_eq!(debug.take(), "OnceCell(Initializing)");
    assert_eq!(cell.to_debug_string(false).unwrap(), "OnceCell(7)");
}

#[test]
fn a_reentrant_set_hands_the_value_back_as_contention() {
    let cell: OnceCell<String> = OnceCell::new();
    let error = Cell::new(None);
    cell.get_or_init(|| {
        error.set(Some(cell.set("inner".to_string()).unwrap_err()));
        "outer".to_string()
    })
    .unwrap();
    let error = error.take().unwrap();
    assert_eq!(error, SetError::ConcurrentInitialization("inner".to_string()));
    assert_eq!(error.into_rejected_value(), "inner");
    assert_eq!(cell.get(), Some(&"outer".to_string()));
}

#[test]
fn a_reentrant_try_init_reports_contention_without_running() {
    let cell: OnceCell<u32> = OnceCell::new();
    let ran = Cell::new(false);
    let nested = Cell::new(None);
    cell.get_or_try_init(|| -> Result<u32, ()> {
        nested.set(Some(cell.get_or_try_init(|| -> Result<u32, ()> {
            ran.set(true);
            Ok(1)
        })
        .map(|value| *value)));
        Ok(2)
    })
    .unwrap();
    assert_eq!(nested.get(), Some(Err(InitError::ConcurrentInitialization)));
    assert!(!ran.get());
    assert_eq!(cell.get(), Some(&2));
}

#[test]
fn an_initialized_cell_does_not_run_the_init_function() {
    let cell = OnceCell::with_value(5u8);
    assert_eq!(cell.get_or_init(|| unreachable!()), Ok(&5));
    assert_eq!(cell.get_or_try_init(|| -> Result<u8, ()> { unreachable!() }), Ok(&5));
}

#[test]
fn a_failed_init_reports_its_error_and_leaves_the_cell_usable() {
    let cell: OnceCell<u32> = OnceCell::new();
    let error = cell.get_or_try_init(|| Err("no")).unwrap_err();
    assert_eq!(error, InitError::InitFunctionFailed("no"));
    assert_eq!(error.init_function_error(), Some("no"));
    assert_eq!(cell.get(), None);
    assert_eq!(cell.get_or_try_init(|| Ok::<u32, &str>(3)), Ok(&3));
    assert_eq!(cell.get(), Some(&3));
}

#[test]
fn get_or_insert_on_a_full_cell_hands_the_value_back() {
    let cell = OnceCell::with_value("first".to_string());
    let insertion = cell.get_or_insert("second".to_string()).unwrap();
    assert_eq!(
        insertion,
        Insertion::AlreadyInitialized {
            stored: &"first".to_string(),
            rejected: "second".to_string()
        }
    );
    assert!(!insertion.was_inserted());
    assert_eq!(insertion.stored(), "first");
    assert_eq!(insertion.into_rejected_value(), Some("second".to_string()));
}

#[test]
fn take_empties_the_cell() {
    let mut cell: OnceCell<String> = OnceCell::new();
    assert_eq!(cell.take(), None);
    cell.set("hello".to_string()).unwrap();
    assert_eq!(cell.take(), Some("hello".to_string()));
    assert_eq!(cell.get(), None);
    assert_eq!(cell.state(), CellState::Uninitialized);
    assert_eq!(cell.set("again".to_string()), Ok(()));
    assert_eq!(cell.get(), Some(&"again".to_string()));
}

#[test]
fn clone_of_a_full_cell_is_equal_and_independent() {
    let cell = OnceCell::with_value(vec![1, 2]);
    let mut copy = cell.clone();
    assert!(copy == cell);
    copy.get_mut().unwrap().push(3);
    assert!(copy != cell);
    assert_eq!(cell.get(), Some(&vec![1, 2]));
}

#[test]
fn debug_text_of_a_full_cell() {
    let cell = OnceCell::with_value(92);
    assert_eq!(cell.to_debug_string(false).unwrap(), "OnceCell(92)");
    assert_eq!(cell.to_debug_string(true).unwrap(), "OnceCell(\n    92,\n)");
    let empty: OnceCell<i32> = OnceCell::new();
    assert_eq!(empty.to_debug_string(false).unwrap(), "OnceCell(Uninit)");
    let nested = OnceCell::with_value(("a\nb", vec![(1, 2)]));
    assert_eq!(
        nested.to_debug_string(true).unwrap(),
        "OnceCell(\n    (\n        \"a\\nb\",\n        [\n            (\n                1,\n                2,\n            ),\n        ],\n    ),\n)"
    );
    assert_eq!(nested.to_debug_string(true).unwrap(), format!("{:#?}", Wrapped(&nested.get().unwrap())));
}

#[test]
fn error_texts() {
    assert_eq!(
        ConcurrentInitialization.to_string(),
        "another init function is running concurrently"
    );
    assert_eq!(
        InitError::<u32>::ConcurrentInitialization.to_string(),
        "another init function is running concurrently"
    );
    assert_eq!(
        InitError::InitFunctionFailed(42).to_string(),
        "the init function failed: 42"
    );
    assert_eq!(SetError::AlreadyInitialized(1).to_string(), "the cell is already initialized");
    assert_eq!(
        SetError::ConcurrentInitialization(1).to_string(),
        "another init function is running concurrently"
    );
    let insert_error: InsertError<u8> = contended_insert_error();
    assert_eq!(insert_error.to_string(), "another init function is running concurrently");
}

fn contended_insert_error() -> InsertError<u8> {
    let cell: OnceCell<u8> = OnceCell::new();
    let error = Cell::new(None);
    cell.get_or_init(|| {
        error.set(cell.get_or_insert(9).err());
        1
    })
    .unwrap();
    error.take().unwrap()
}

#[test]
fn error_conversions() {
    let init_error: InitError<u8> = InitError::from(ConcurrentInitialization);
    assert_eq!(init_error, InitError::ConcurrentInitialization);
    assert_eq!(init_error.init_function_error(), None);

    let insert_error = contended_insert_error();
    assert_eq!(insert_error, contended_insert_error());
    let set_error = SetError::from(insert_error);
    assert_eq!(set_error, SetError::ConcurrentInitialization(9));
    assert_eq!(set_error.into_rejected_value(), 9);
    assert_eq!(SetError::AlreadyInitialized(4).into_rejected_value(), 4);
}

#[test]
fn a_dropped_value_in_an_empty_cell_is_not_stored() {
    let cell: OnceCell<u32> = OnceCell::new();
    assert_eq!(cell.into_inner(), None);
    let cell = OnceCell::from(8u32);
    assert_eq!(cell.into_inner(), Some(8));
}

/// Formats like a tuple struct named `OnceCell`, for comparing debugging texts.
struct Wrapped<'a, T>(&'a T);

impl<'a, T: std::fmt::Debug> std::fmt::Debug for Wrapped<'a, T> {
    fn fmt(&self, f: &mut std::fmt::Formatter<'_>) -> std::fmt::Result {
        f.debug_tuple("OnceCell").field(self.0).finish()
    }
}

/// A value whose `Debug` implementation always reports an error.
struct Unprintable;

impl std::fmt::Debug for Unprintable {
    fn fmt(&self, _: &mut std::fmt::Formatter<'_>) -> std::fmt::Result {
        Err(std::fmt::Error)
    }
}

#[test]
fn debug_text_reports_a_failing_value() {
    let cell = OnceCell::with_value(Unprintable);
    assert!(cell.to_debug_string(false).is_none());
    assert!(cell.to_debug_string(true).is_none());
    let empty: OnceCell<Unprintable> = OnceCell::new();
    assert_eq!(empty.to_debug_string(true).unwrap(), "OnceCell(Uninit)");
}

#[test]
fn error_debug_texts() {
    assert_eq!(SetError::AlreadyInitialized(1).to_debug_string(), "SetError::AlreadyInitialized(..)");
    assert_eq!(
        SetError::ConcurrentInitialization(Unprintable).to_debug_string(),
        "SetError::ConcurrentInitialization(..)"
    );
    assert_eq!(contended_insert_error().to_debug_string(), "InsertError(..)");
}

#[test]
fn clone_from_copies_the_value_or_its_absence() {
    let source = OnceCell::with_value("source".to_string());
    let mut full = OnceCell::with_value("old".to_string());
    full.clone_from(&source);
    assert_eq!(full.get(), Some(&"source".to_string()));
    let mut empty: OnceCell<String> = OnceCell::new();
    empty.clone_from(&source);
    assert_eq!(empty.get(), Some(&"source".to_string()));
    let mut cleared = OnceCell::with_value("old".to_string());
    cleared.clone_from(&OnceCell::new());
    assert_eq!(cleared.get(), None);
    assert_eq!(cleared.state(), CellState::Uninitialized);
}
