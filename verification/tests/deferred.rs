use std::cell::Cell;

use deferred_vec::DeferredVec;

#[test]
fn it_works() {
    let mut tst = DeferredVec::new(|| vec![1, 2, 3]);
    assert_eq!(tst.is_deferred(), true);
    let v = tst.get();
    assert_eq!(tst.is_deferred(), false);
    assert_eq!(v, vec![1, 2, 3]);
}

#[test]
fn construction_does_not_run_producer() {
    let calls = Cell::new(0u32);
    let tst = DeferredVec::new(|| {
        calls.set(calls.get() + 1);
        vec![1u16]
    });
    assert_eq!(calls.get(), 0);
    assert!(tst.is_deferred());
}

#[test]
fn empty_producer_len_is_zero() {
    let mut tst = DeferredVec::new(|| Vec::<u8>::new());
    assert_eq!(tst.len(), 0);
    assert_eq!(tst.is_deferred(), false);
}

#[test]
fn producer_runs_once_across_len_then_get() {
    let calls = Cell::new(0u32);
    let mut tst = DeferredVec::new(|| {
        calls.set(calls.get() + 1);
        vec!["a".to_string(), "b".to_string()]
    });
    assert_eq!(tst.len(), 2);
    assert_eq!(tst.get(), vec!["a".to_string(), "b".to_string()]);
    assert_eq!(calls.get(), 1);
    assert_eq!(tst.is_deferred(), false);
}

#[test]
fn observer_does_not_trigger_production() {
    let calls = Cell::new(0u32);
    let tst = DeferredVec::new(|| {
        calls.set(calls.get() + 1);
        vec![7i64]
    });
    assert_eq!(tst.is_deferred(), true);
    assert_eq!(tst.is_deferred(), true);
    assert_eq!(tst.is_deferred(), true);
    assert_eq!(calls.get(), 0);
}

#[test]
fn repeated_gets_agree_and_produce_once() {
    let calls = Cell::new(0u32);
    let mut tst = DeferredVec::new(|| {
        calls.set(calls.get() + 1);
        vec![4u8, 5, 6]
    });
    let first = tst.get();
    let second = tst.get();
    assert_eq!(first, second);
    assert_eq!(first, vec![4u8, 5, 6]);
    assert_eq!(tst.len(), 3);
    assert_eq!(calls.get(), 1);
}

#[test]
fn len_matches_get_count() {
    let mut tst = DeferredVec::new(|| vec![10i32, 20, 30, 40]);
    let v = tst.get();
    assert_eq!(tst.len(), v.len());
    assert_eq!(v, vec![10i32, 20, 30, 40]);
}
