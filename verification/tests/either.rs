use tlist::teither::Either;

#[test]
fn left_alternative() {
    let mut e: Either<i32, String> = Either::Left(5);
    assert!(e.is_left());
    assert!(!e.is_right());
    assert_eq!(e.left(), Some(&5));
    assert_eq!(e.right(), None);
    assert!(e.right_mut().is_none());
    *e.left_mut().unwrap() = 6;
    assert_eq!(e.left(), Some(&6));
}

#[test]
fn right_alternative() {
    let mut e: Either<i32, String> = Either::Right(String::from("a"));
    assert!(e.is_right());
    assert!(!e.is_left());
    assert_eq!(e.left(), None);
    assert_eq!(e.right(), Some(&String::from("a")));
    assert!(e.left_mut().is_none());
    e.right_mut().unwrap().push('b');
    assert_eq!(e.right(), Some(&String::from("ab")));
}
