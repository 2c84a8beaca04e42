use spinsync::cell::OnceCell;
use spinsync::lock::SpinLock;
use spinsync::ready::Ready;

#[test]
fn set_then_set_keeps_first() {
    let mut cell: OnceCell<u64> = OnceCell::new();
    assert_eq!(cell.set(1), Some(&1));
    assert_eq!(cell.set(2), None);
    assert_eq!(cell.get(), Some(&1));
}

#[test]
fn get_before_set_is_none() {
    let cell: OnceCell<u64> = OnceCell::new();
    assert_eq!(cell.get(), None);
}

#[test]
fn set_or_get_agrees_on_one_value() {
    let mut cell: OnceCell<u64> = OnceCell::new();
    let first = *cell.set_or_get(10);
    let second = *cell.set_or_get(20);
    assert_eq!(first, 10);
    assert_eq!(second, first);
    assert_eq!(cell.get(), Some(&10));
}

#[test]
fn do_or_get_runs_every_candidate_eagerly() {
    let mut cell: OnceCell<u64> = OnceCell::new();
    assert_eq!(*cell.do_or_get(|| 7), 7);
    let mut computed = false;
    let loser = *cell.do_or_get(|| {
        computed = true;
        8
    });
    assert_eq!(loser, 7);
    assert!(computed);
}

#[test]
fn step_succeeds_once_per_edge() {
    let mut r = Ready::new();
    assert!(!r.is());
    assert!(r.step(0));
    assert!(!r.step(0));
    assert!(!r.is());
    assert!(r.step(1));
    assert!(!r.step(1));
    assert!(r.is());
}

#[test]
fn is_false_before_set_true_after() {
    let mut cell: OnceCell<u64> = OnceCell::new();
    assert_eq!(cell.get(), None);
    cell.set(5);
    assert_eq!(cell.get(), Some(&5));
    cell.set(6);
    cell.set_or_get(7);
    assert_eq!(cell.get(), Some(&5));
}

#[test]
fn try_lock_window() {
    let mut lock = SpinLock::new();
    assert!(lock.try_lock());
    assert!(!lock.try_lock());
    lock.unlock();
    assert!(lock.try_lock());
}

#[test]
fn lock_then_unlock() {
    let mut lock = SpinLock::new();
    lock.lock();
    assert!(!lock.try_lock());
    lock.unlock();
    assert!(lock.try_lock());
}
