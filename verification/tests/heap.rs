use lumen::error::ReceiveError;
use lumen::heap::Heap;
use lumen::term::Term;

#[test]
fn new_heap_is_empty() {
    let heap = Heap::new(10);
    assert_eq!(heap.used(), 0);
    assert_eq!(heap.capacity(), 0);
    assert_eq!(heap.limit(), 10);
    assert_eq!(heap.len(), 0);
    assert!(heap.get(0).is_none());
}

#[test]
fn relocate_copies_the_term_and_counts_its_words() {
    let mut heap = Heap::new(10);
    let term = Term::cons(Term::integer(1), Term::cons(Term::integer(2), Term::Nil));
    assert_eq!(heap.relocate(&term), Ok(()));
    assert_eq!(heap.used(), 4);
    assert_eq!(heap.capacity(), 4);
    assert_eq!(heap.len(), 1);
    assert_eq!(heap.get(0), Some(&term));
    let tuple = Term::tuple(vec![Term::integer(1), Term::integer(2)]);
    assert_eq!(heap.relocate(&tuple), Ok(()));
    assert_eq!(heap.used(), 7);
    assert_eq!(heap.capacity(), 7);
    assert_eq!(heap.get(0), Some(&term));
    assert_eq!(heap.get(1), Some(&tuple));
}

#[test]
fn relocate_fills_the_heap_to_its_limit() {
    let mut heap = Heap::new(2);
    assert_eq!(heap.relocate(&Term::cons(Term::integer(1), Term::Nil)), Ok(()));
    assert_eq!(heap.used(), 2);
    // an immediate takes no word and still fits
    assert_eq!(heap.relocate(&Term::integer(1)), Ok(()));
    assert_eq!(heap.len(), 2);
    assert_eq!(heap.used(), 2);
}

#[test]
fn relocate_beyond_the_limit_fails_and_changes_nothing() {
    let mut heap = Heap::new(3);
    assert_eq!(heap.relocate(&Term::cons(Term::integer(1), Term::Nil)), Ok(()));
    let term = Term::cons(Term::integer(2), Term::Nil);
    assert_eq!(heap.relocate(&term), Err(ReceiveError::RelocationFailure));
    assert_eq!(heap.used(), 2);
    assert_eq!(heap.capacity(), 2);
    assert_eq!(heap.len(), 1);
    heap.raise_limit(4);
    assert_eq!(heap.limit(), 4);
    assert_eq!(heap.relocate(&term), Ok(()));
    assert_eq!(heap.used(), 4);
    assert_eq!(heap.get(1), Some(&term));
}

#[test]
fn raise_limit_ignores_a_lower_limit() {
    let mut heap = Heap::new(8);
    heap.raise_limit(3);
    assert_eq!(heap.limit(), 8);
    heap.raise_limit(8);
    assert_eq!(heap.limit(), 8);
    heap.raise_limit(9);
    assert_eq!(heap.limit(), 9);
}
