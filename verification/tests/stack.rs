use tlist::tstack::TStack;

#[test]
fn new_stack_is_empty() {
    let mut s: TStack<i32> = TStack::default();
    assert!(s.is_empty());
    assert_eq!(s.len(), 0);
    assert_eq!(s.peek(), None);
    assert_eq!(s.pop(), None);
    assert!(s.is_empty());
}

#[test]
fn last_in_first_out() {
    let mut s: TStack<i32> = TStack::default();
    s.push(1);
    s.push(2);
    s.push(3);
    assert_eq!(s.len(), 3);
    assert!(!s.is_empty());
    assert_eq!(s.peek(), Some(&3));
    assert_eq!(s.len(), 3);
    assert_eq!(s.pop(), Some(3));
    assert_eq!(s.pop(), Some(2));
    assert_eq!(s.peek(), Some(&1));
    assert_eq!(s.pop(), Some(1));
    assert_eq!(s.pop(), None);
    assert_eq!(s.len(), 0);
}
