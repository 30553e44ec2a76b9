use std::cell::Cell;

use rotor_tools::future::{delivery, new, Future, FutureImpl, MakeFuture, WakeHandle};

struct Wake {
    alive: bool,
    calls: Cell<u32>,
}

impl WakeHandle for Wake {
    fn wake(&self) -> bool {
        self.calls.set(self.calls.get() + 1);
        self.alive
    }
}

fn live() -> Wake {
    Wake { alive: true, calls: Cell::new(0) }
}

fn take<T>(f: Future<T>) -> T {
    match f.consume() {
        Ok(v) => v,
        Err(_) => panic!("no value stored"),
    }
}

#[test]
fn test_int() {
    let writer = new(live(), |x: &str| -> u64 { x.parse().unwrap() });
    let future: Future<u64> = writer.make_future();
    let value: String = String::from("10");
    writer.put(&value[..]);
    assert_eq!(take(future), 10);
}

#[test]
fn consume_before_put_returns_the_future() {
    let writer = FutureImpl::new(|x: u32| x, live());
    let future = writer.future();
    assert!(!future.is_done());
    let again = match future.consume() {
        Ok(_) => panic!("nothing was put"),
        Err(f) => f,
    };
    assert!(!again.is_done());
    assert!(writer.put(7));
    assert!(again.is_done());
    assert_eq!(take(again), 7);
}

#[test]
fn consume_takes_the_value_once() {
    let writer = FutureImpl::new(|x: u32| x, live());
    let first = writer.future();
    let second = writer.make_future();
    assert!(writer.put(3));
    assert_eq!(take(first), 3);
    assert!(!second.is_done());
    assert!(second.consume().is_err());
}

#[test]
fn transform_is_applied_before_storing() {
    let writer = FutureImpl::new(|x: u32| (x as u64) * 3 + 1, live());
    let future = writer.future();
    assert!(writer.put(5));
    assert_eq!(take(future), 16);
}

#[test]
fn put_stores_the_transformed_string() {
    let wake = live();
    let writer = FutureImpl::new(|s: String| s.len(), wake);
    let future = writer.future();
    assert!(writer.put(String::from("four")));
    assert_eq!(take(future), 4);
}

#[test]
fn put_without_a_reader_reports_failure() {
    let writer = FutureImpl::new(|x: i32| -x, live());
    assert!(!writer.put(2));
}

#[test]
fn put_with_failed_wakeup_still_stores() {
    let writer = FutureImpl::new(|x: i32| -x, Wake { alive: false, calls: Cell::new(0) });
    let future = writer.future();
    assert!(!writer.put(2));
    assert!(future.is_done());
    assert_eq!(take(future), -2);
}

#[test]
fn describe_shows_the_stored_value() {
    let writer = FutureImpl::new(|x: u32| x + 1, live());
    let future = writer.future();
    assert_eq!(future.describe(), "Future(<Waiting>)");
    assert!(writer.put(41));
    assert_eq!(future.describe(), "Future(42)");
}

#[test]
fn delivery_needs_a_reader_and_a_wakeup() {
    assert!(delivery(2, true));
    assert!(!delivery(1, true));
    assert!(!delivery(2, false));
    assert!(!delivery(0, false));
}
