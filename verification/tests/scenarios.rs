use syncell::BorrowError;
use syncell::SynCell;
use syncell::word::SHARED_MASK;
use syncell::word::WRITE_BIT;

#[test]
fn increment_then_shared_sum() {
    let mut sc = SynCell::new(0u32);
    let g = sc.borrow_mut().unwrap();
    let v = *sc.read_mut(&g);
    sc.write(&g, v + 1);
    sc.release_mut(g);
    let a = sc.borrow().unwrap();
    let b = sc.borrow().unwrap();
    assert_eq!(*sc.read(&a), 1);
    assert_eq!(*sc.read(&b), 1);
    assert_eq!(*sc.read(&a) + *sc.read(&b), 2);
    sc.release(a);
    sc.release(b);
    assert_eq!(sc.state_word(), 0);
}

#[test]
fn second_exclusive_is_refused() {
    let mut sc = SynCell::new(5u32);
    let g = sc.borrow_mut().unwrap();
    let r = sc.borrow_mut();
    assert_eq!(r.unwrap_err(), BorrowError::WriteConflict);
    assert_eq!(*sc.read_mut(&g), 5);
    sc.release_mut(g);
    assert_eq!(sc.into_inner(), 5);
}

#[test]
fn exclusive_refused_while_shared_live() {
    let mut sc = SynCell::new(8u32);
    let a = sc.borrow().unwrap();
    let r = sc.borrow_mut();
    assert_eq!(r.unwrap_err(), BorrowError::ReadConflict);
    let b = sc.borrow().unwrap();
    assert_eq!(*sc.read(&b), 8);
    sc.release(a);
    sc.release(b);
    assert_eq!(sc.state_word(), 0);
}

#[test]
fn shared_refused_while_exclusive_live() {
    let mut sc = SynCell::new(8u32);
    let g = sc.borrow_mut().unwrap();
    let r = sc.borrow();
    assert_eq!(r.unwrap_err(), BorrowError::WriteConflict);
    sc.release_mut(g);
    assert_eq!(sc.state_word(), 0);
}

#[test]
fn failed_attempts_restore_word() {
    let mut sc = SynCell::new(0u8);
    let a = sc.borrow().unwrap();
    let before = sc.state_word();
    assert!(sc.borrow_mut().is_err());
    assert_eq!(sc.state_word(), before);
    sc.release(a);
    let g = sc.borrow_mut().unwrap();
    let during = sc.state_word();
    assert!(sc.borrow().is_err());
    assert_eq!(sc.state_word(), during);
    assert!(sc.borrow_mut().is_err());
    assert_eq!(sc.state_word(), during);
    sc.release_mut(g);
    assert_eq!(sc.state_word(), 0);
}

#[test]
fn release_leaves_no_trace() {
    let mut sc = SynCell::new(0u8);
    let a = sc.borrow().unwrap();
    let one_reader = sc.state_word();
    let b = sc.borrow().unwrap();
    sc.release(b);
    assert_eq!(sc.state_word(), one_reader);
    sc.release(a);
    assert_eq!(sc.state_word(), 0);
    let g = sc.borrow_mut().unwrap();
    sc.release_mut(g);
    assert_eq!(sc.state_word(), 0);
}

#[test]
fn word_layout() {
    let mut sc = SynCell::new(0u8);
    let g = sc.borrow_mut().unwrap();
    assert_eq!(sc.state_word(), WRITE_BIT);
    assert_eq!(sc.state_word(), 1u64 << 63);
    sc.release_mut(g);
    let a = sc.borrow().unwrap();
    let b = sc.borrow().unwrap();
    let c = sc.borrow().unwrap();
    assert_eq!(sc.state_word(), 3);
    sc.release(a);
    sc.release(b);
    sc.release(c);
    assert_eq!(sc.state_word(), 0);
    assert_eq!(WRITE_BIT - 1, SHARED_MASK);
}

#[test]
fn quiescence_after_full_release() {
    let mut sc = SynCell::new(7u16);
    let a = sc.borrow().unwrap();
    let b = sc.borrow().unwrap();
    sc.release(a);
    sc.release(b);
    let g = sc.borrow_mut().unwrap();
    sc.release_mut(g);
    let c = sc.borrow().unwrap();
    sc.release(c);
    assert_eq!(sc.state_word(), 0);
    assert_eq!(sc.into_inner(), 7);
}

#[test]
fn get_mut_direct_access() {
    let mut sc = SynCell::new(10u8);
    *sc.get_mut() += 5;
    assert_eq!(sc.state_word(), 0);
    assert_eq!(sc.into_inner(), 15);
}

#[test]
fn new_starts_quiescent() {
    let sc = SynCell::new(42u8);
    assert_eq!(sc.state_word(), 0);
    assert_eq!(sc.into_inner(), 42);
}

#[test]
fn holds_owned_values() {
    let mut sc = SynCell::new(String::from("abc"));
    let g = sc.borrow_mut().unwrap();
    assert_eq!(sc.read_mut(&g).as_str(), "abc");
    sc.write(&g, String::from("xyz"));
    sc.release_mut(g);
    let a = sc.borrow().unwrap();
    assert_eq!(sc.read(&a).as_str(), "xyz");
    sc.release(a);
    assert_eq!(sc.into_inner(), "xyz");
}
