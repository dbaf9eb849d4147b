use std::cell::Cell;

use once_cell_no_std::error::InitError;
use once_cell_no_std::{CellState, Insertion, OnceCell};

#[test]
fn once_cell_with_value() {
    let cell: OnceCell<i32> = OnceCell::with_value(12);
    assert_eq!(cell.get(), Some(&12));
}

#[test]
fn once_cell_get_mut() {
    let mut c = OnceCell::new();
    assert!(c.get_mut().is_none());
    c.set(90).unwrap();
    *c.get_mut().unwrap() += 2;
    assert_eq!(c.get_mut(), Some(&mut 92));
}

#[test]
fn once_cell_drop_empty() {
    let x = OnceCell::<String>::new();
    drop(x);
}

#[test]
fn clone() {
    let s = OnceCell::new();
    let c = s.clone();
    assert!(c.get().is_none());

    s.set("hello".to_string()).unwrap();
    let c = s.clone();
    assert_eq!(c.get().map(String::as_str), Some("hello"));
}

#[test]
fn from_impl() {
    assert_eq!(OnceCell::from("value").get(), Some(&"value"));
    assert_ne!(OnceCell::from("foo").get(), Some(&"bar"));
}

#[test]
fn partialeq_impl() {
    assert!(OnceCell::from("value") == OnceCell::from("value"));
    assert!(OnceCell::from("foo") != OnceCell::from("bar"));

    assert!(OnceCell::<String>::new() == OnceCell::new());
    assert!(OnceCell::<String>::new() != OnceCell::from("value".to_owned()));
}

#[test]
fn into_inner() {
    let cell: OnceCell<String> = OnceCell::new();
    assert_eq!(cell.into_inner(), None);
    let cell = OnceCell::new();
    cell.set("hello".to_string()).unwrap();
    assert_eq!(cell.into_inner(), Some("hello".to_string()));
}

#[test]
fn debug_impl() {
    let cell = OnceCell::new();
    assert_eq!(cell.to_debug_string(true).unwrap(), "OnceCell(Uninit)");
    cell.set(vec!["hello", "world"]).unwrap();
    assert_eq!(
        cell.to_debug_string(true).unwrap(),
        r#"OnceCell(
    [
        "hello",
        "world",
    ],
)"#
    );
}

#[test]
#[should_panic(expected = "concurrent initialization detected: ConcurrentInitialization")]
fn reentrant_init_no_std() {
    let x: OnceCell<Box<i32>> = OnceCell::new();
    let dangling_ref: Cell<Option<&i32>> = Cell::new(None);
    x.get_or_init(|| {
        let r = x.get_or_init(|| Box::new(92)).expect("concurrent initialization detected");
        dangling_ref.set(Some(r));
        Box::new(62)
    })
    .unwrap();
    println!("use after free: {:?}", dangling_ref.get().unwrap());
}

fn fibonacci() -> Vec<i32> {
    let mut res = vec![1, 1];
    for i in 0..10 {
        let next = res[i] + res[i + 1];
        res.push(next);
    }
    res
}

fn fibonacci_once(cell: &OnceCell<Vec<i32>>) -> &Vec<i32> {
    cell.get_or_init(fibonacci).unwrap()
}

#[test]
fn eval_once_macro() {
    let once_cell: OnceCell<Vec<i32>> = OnceCell::new();
    let fib: &Vec<i32> = fibonacci_once(&once_cell);
    assert_eq!(fib[5], 8)
}

#[test]
fn repeated_set_keeps_the_first_value() {
    const MSG: &str = "Hello, World";
    let cell: OnceCell<String> = OnceCell::new();
    for _ in 0..3 {
        let _ = cell.set(MSG.to_owned());
    }
    assert_eq!(cell.get().map(String::as_str), Some(MSG));
}

#[test]
fn state_returns_to_uninitialized_after_a_failed_init() {
    let cell: OnceCell<String> = OnceCell::new();
    assert_eq!(cell.get_or_try_init(|| Err(())), Err(InitError::InitFunctionFailed(())));
    // a failed init leaves no trace: the cell is indistinguishable from one never written to
    assert_eq!(cell.state(), CellState::Uninitialized);
}

#[test]
fn get_or_insert_reports_an_inserted_value() {
    let cell = OnceCell::new();
    let insertion = cell.get_or_insert("hello".to_string()).unwrap();
    assert_eq!(insertion, Insertion::Inserted(&"hello".to_string()));
    assert!(insertion.was_inserted());
    assert_eq!(insertion.stored(), "hello");
    assert_eq!(insertion.into_rejected_value(), None);
}

#[test]
fn get_or_insert_reports_contention_when_called_reentrantly() {
    let cell: OnceCell<String> = OnceCell::new();
    let reentrant = cell
        .get_or_init(|| {
            let error = cell
                .get_or_insert("inner".to_string())
                .expect_err("a reentrant insert must report contention");
            // the closure never ran, so the value comes back intact
            assert_eq!(error.into_rejected_value(), "inner");
            "outer".to_string()
        })
        .unwrap();
    assert_eq!(reentrant, "outer");
    assert_eq!(cell.get(), Some(&"outer".to_string()));
}

#[test]
fn get_or_insert_works_like_get_or_init_without_a_closure() {
    let cell = OnceCell::new();
    assert_eq!(cell.get_or_insert(92).unwrap().stored(), &92);
    // the cell keeps the first value, and later callers still get a reference to it
    assert_eq!(cell.get_or_insert(62).unwrap().stored(), &92);
    assert_eq!(cell.get(), Some(&92));
}

#[test]
// A cell may outlive a value that it borrows, as long as it is not used after that value is
// dropped.
fn arrrrrrrrrrrrrrrrrrrrrr() {
    let cell = OnceCell::new();
    {
        let s = String::new();
        cell.set(&s).unwrap();
    }
}

#[test]
fn once_cell_is_sync_send() {
    fn assert_traits<T: Send + Sync>() {}
    assert_traits::<OnceCell<String>>();
}
