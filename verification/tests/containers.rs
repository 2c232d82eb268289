use tlist::tarray::TArray;
use tlist::tarray::TList;
use tlist::tarray::TVector;

fn arr(a: [i32; 3]) -> TArray<i32, 3> {
    TArray::from(a)
}

fn list(v: &[i32]) -> TVector<i32> {
    TVector::from(v.to_vec())
}

#[test]
fn fixed_size_scenario() {
    let a = arr([1, 2, 3]);
    assert_eq!(*(-a).get(), [-1, -2, -3]);
    assert_eq!(*(a + 10).get(), [11, 12, 13]);
    assert_eq!(*(a + arr([10, 20, 30])).get(), [11, 22, 33]);
}

#[test]
fn variable_size_and_truncates() {
    let r = list(&[1, 2, 3, 4]) & list(&[6, 6]);
    assert_eq!(*r.get(), vec![0, 2]);
    assert_eq!(r.get().len(), 2);
}

#[test]
fn variable_size_sum_of_three_and_five() {
    let a = list(&[1, 2, 3]);
    let b = list(&[10, 20, 30, 40, 50]);
    let sum = a.clone() + b.clone();
    assert_eq!(*sum.get(), vec![11, 22, 33]);
    let mut c = a;
    c += b;
    assert_eq!(*c.get(), vec![11, 22, 33]);
    assert_eq!(c.get().len(), 3);
}

#[test]
fn variable_size_assign_keeps_the_tail() {
    let mut a = list(&[1, 2, 3, 4, 5]);
    a += list(&[10, 20, 30]);
    assert_eq!(*a.get(), vec![11, 22, 33, 4, 5]);
    let mut b = list(&[8, 9]);
    b *= list(&[]);
    assert_eq!(*b.get(), vec![8, 9]);
}

#[test]
fn variable_size_with_an_empty_operand_is_empty() {
    assert_eq!(*(list(&[1, 2, 3]) + list(&[])).get(), Vec::<i32>::new());
    assert_eq!(*(list(&[]) + list(&[1, 2, 3])).get(), Vec::<i32>::new());
    assert_eq!(*(list(&[]) - list(&[])).get(), Vec::<i32>::new());
}

#[test]
fn fixed_size_read_after_write() {
    let mut a = arr([1, 2, 3]);
    a[1] = 42;
    assert_eq!(a[1], 42);
    assert_eq!(a[0], 1);
    assert_eq!(a[2], 3);
    assert_eq!(*a.get(), [1, 42, 3]);
}

#[test]
fn variable_size_read_after_write() {
    let mut a = list(&[1, 2, 3, 4]);
    a[3] = -7;
    assert_eq!(a[3], -7);
    assert_eq!(*a.get(), vec![1, 2, 3, -7]);
}

#[test]
fn raw_sequence_access() {
    let mut a = arr([1, 2, 3]);
    a.get_mut()[0] = 9;
    assert_eq!(*a.get(), [9, 2, 3]);
    a.set([4, 5, 6]);
    assert_eq!(*a.get(), [4, 5, 6]);
    let mut v = list(&[1]);
    v.get_mut().push(2);
    assert_eq!(*v.get(), vec![1, 2]);
    v.set(vec![7, 8, 9]);
    assert_eq!(*v.get(), vec![7, 8, 9]);
}

#[test]
fn fixed_size_unary() {
    let a = arr([1, -2, 0]);
    assert_eq!(*(-a).get(), [-1, 2, 0]);
    assert_eq!(*(!a).get(), [-2, 1, -1]);
    assert_eq!(*(-(-a)).get(), [1, -2, 0]);
    assert_eq!(*(!(!a)).get(), [1, -2, 0]);
}

#[test]
fn variable_size_unary() {
    let a = list(&[1, -2, 0, 5]);
    assert_eq!(*(-a.clone()).get(), vec![-1, 2, 0, -5]);
    assert_eq!(*(!a.clone()).get(), vec![-2, 1, -1, -6]);
    assert_eq!(*(-(-a.clone())).get(), vec![1, -2, 0, 5]);
    assert_eq!(*(!(!a)).get(), vec![1, -2, 0, 5]);
    assert_eq!(*(-list(&[])).get(), Vec::<i32>::new());
}

#[test]
fn fixed_size_scalar_operators() {
    let a = arr([12, -7, 5]);
    assert_eq!(*(a + 3).get(), [15, -4, 8]);
    assert_eq!(*(a - 3).get(), [9, -10, 2]);
    assert_eq!(*(a * 3).get(), [36, -21, 15]);
    assert_eq!(*(a / 3).get(), [4, -2, 1]);
    assert_eq!(*(a % 3).get(), [0, -1, 2]);
    assert_eq!(*(a << 2).get(), [48, -28, 20]);
    assert_eq!(*(a >> 1).get(), [6, -4, 2]);
    assert_eq!(*(a & 6).get(), [4, 0, 4]);
    assert_eq!(*(a | 6).get(), [14, -1, 7]);
    assert_eq!(*(a ^ 6).get(), [10, -1, 3]);
}

#[test]
fn fixed_size_scalar_assignments() {
    let start = arr([12, -7, 5]);
    let mut a = start;
    a += 3;
    assert_eq!(*a.get(), *(start + 3).get());
    let mut a = start;
    a -= 3;
    assert_eq!(*a.get(), [9, -10, 2]);
    let mut a = start;
    a *= 3;
    assert_eq!(*a.get(), [36, -21, 15]);
    let mut a = start;
    a /= 3;
    assert_eq!(*a.get(), [4, -2, 1]);
    let mut a = start;
    a %= 3;
    assert_eq!(*a.get(), [0, -1, 2]);
    let mut a = start;
    a <<= 2;
    assert_eq!(*a.get(), [48, -28, 20]);
    let mut a = start;
    a >>= 1;
    assert_eq!(*a.get(), [6, -4, 2]);
    let mut a = start;
    a &= 6;
    assert_eq!(*a.get(), [4, 0, 4]);
    let mut a = start;
    a |= 6;
    assert_eq!(*a.get(), [14, -1, 7]);
    let mut a = start;
    a ^= 6;
    assert_eq!(*a.get(), [10, -1, 3]);
}

#[test]
fn fixed_size_pair_operators() {
    let a = arr([12, -7, 5]);
    let b = arr([5, 2, 1]);
    assert_eq!(*(a + b).get(), [17, -5, 6]);
    assert_eq!(*(a - b).get(), [7, -9, 4]);
    assert_eq!(*(a * b).get(), [60, -14, 5]);
    assert_eq!(*(a / b).get(), [2, -3, 5]);
    assert_eq!(*(a % b).get(), [2, -1, 0]);
    assert_eq!(*(a << b).get(), [384, -28, 10]);
    assert_eq!(*(a >> b).get(), [0, -2, 2]);
    assert_eq!(*(a & b).get(), [4, 0, 1]);
    assert_eq!(*(a | b).get(), [13, -5, 5]);
    assert_eq!(*(a ^ b).get(), [9, -5, 4]);
}

#[test]
fn fixed_size_pair_assignments_equal_the_operators() {
    let start = arr([12, -7, 5]);
    let b = arr([5, 2, 1]);
    let mut a = start;
    a += b;
    assert_eq!(*a.get(), *(start + b).get());
    let mut a = start;
    a -= b;
    assert_eq!(*a.get(), *(start - b).get());
    let mut a = start;
    a *= b;
    assert_eq!(*a.get(), *(start * b).get());
    let mut a = start;
    a /= b;
    assert_eq!(*a.get(), *(start / b).get());
    let mut a = start;
    a %= b;
    assert_eq!(*a.get(), *(start % b).get());
    let mut a = start;
    a <<= b;
    assert_eq!(*a.get(), *(start << b).get());
    let mut a = start;
    a >>= b;
    assert_eq!(*a.get(), *(start >> b).get());
    let mut a = start;
    a &= b;
    assert_eq!(*a.get(), *(start & b).get());
    let mut a = start;
    a |= b;
    assert_eq!(*a.get(), *(start | b).get());
    let mut a = start;
    a ^= b;
    assert_eq!(*a.get(), [9, -5, 4]);
}

#[test]
fn variable_size_scalar_operators() {
    let a = list(&[12, -7, 5, 0]);
    assert_eq!(*(a.clone() + 3).get(), vec![15, -4, 8, 3]);
    assert_eq!(*(a.clone() - 3).get(), vec![9, -10, 2, -3]);
    assert_eq!(*(a.clone() * 3).get(), vec![36, -21, 15, 0]);
    assert_eq!(*(a.clone() / 3).get(), vec![4, -2, 1, 0]);
    assert_eq!(*(a.clone() % 3).get(), vec![0, -1, 2, 0]);
    assert_eq!(*(a.clone() << 2).get(), vec![48, -28, 20, 0]);
    assert_eq!(*(a.clone() >> 1).get(), vec![6, -4, 2, 0]);
    assert_eq!(*(a.clone() & 6).get(), vec![4, 0, 4, 0]);
    assert_eq!(*(a.clone() | 6).get(), vec![14, -1, 7, 6]);
    assert_eq!(*(a ^ 6).get(), vec![10, -1, 3, 6]);
}

#[test]
fn variable_size_scalar_assignments() {
    let start = list(&[12, -7, 5, 0]);
    let mut a = start.clone();
    a += 3;
    assert_eq!(*a.get(), vec![15, -4, 8, 3]);
    let mut a = start.clone();
    a -= 3;
    assert_eq!(*a.get(), vec![9, -10, 2, -3]);
    let mut a = start.clone();
    a *= 3;
    assert_eq!(*a.get(), vec![36, -21, 15, 0]);
    let mut a = start.clone();
    a /= 3;
    assert_eq!(*a.get(), vec![4, -2, 1, 0]);
    let mut a = start.clone();
    a %= 3;
    assert_eq!(*a.get(), vec![0, -1, 2, 0]);
    let mut a = start.clone();
    a <<= 2;
    assert_eq!(*a.get(), vec![48, -28, 20, 0]);
    let mut a = start.clone();
    a >>= 1;
    assert_eq!(*a.get(), vec![6, -4, 2, 0]);
    let mut a = start.clone();
    a &= 6;
    assert_eq!(*a.get(), vec![4, 0, 4, 0]);
    let mut a = start.clone();
    a |= 6;
    assert_eq!(*a.get(), vec![14, -1, 7, 6]);
    let mut a = start;
    a ^= 6;
    assert_eq!(*a.get(), vec![10, -1, 3, 6]);
}

#[test]
fn variable_size_pair_operators() {
    let a = list(&[12, -7, 5, 99]);
    let b = list(&[5, 2, 1]);
    assert_eq!(*(a.clone() + b.clone()).get(), vec![17, -5, 6]);
    assert_eq!(*(a.clone() - b.clone()).get(), vec![7, -9, 4]);
    assert_eq!(*(a.clone() * b.clone()).get(), vec![60, -14, 5]);
    assert_eq!(*(a.clone() / b.clone()).get(), vec![2, -3, 5]);
    assert_eq!(*(a.clone() % b.clone()).get(), vec![2, -1, 0]);
    assert_eq!(*(a.clone() << b.clone()).get(), vec![384, -28, 10]);
    assert_eq!(*(a.clone() >> b.clone()).get(), vec![0, -2, 2]);
    assert_eq!(*(a.clone() & b.clone()).get(), vec![4, 0, 1]);
    assert_eq!(*(a.clone() | b.clone()).get(), vec![13, -5, 5]);
    assert_eq!(*(a ^ b).get(), vec![9, -5, 4]);
}

#[test]
fn variable_size_pair_assignments() {
    let start = list(&[12, -7, 5, 99]);
    let b = list(&[5, 2, 1]);
    let mut a = start.clone();
    a += b.clone();
    assert_eq!(*a.get(), vec![17, -5, 6, 99]);
    let mut a = start.clone();
    a -= b.clone();
    assert_eq!(*a.get(), vec![7, -9, 4, 99]);
    let mut a = start.clone();
    a *= b.clone();
    assert_eq!(*a.get(), vec![60, -14, 5, 99]);
    let mut a = start.clone();
    a /= b.clone();
    assert_eq!(*a.get(), vec![2, -3, 5, 99]);
    let mut a = start.clone();
    a %= b.clone();
    assert_eq!(*a.get(), vec![2, -1, 0, 99]);
    let mut a = start.clone();
    a <<= b.clone();
    assert_eq!(*a.get(), vec![384, -28, 10, 99]);
    let mut a = start.clone();
    a >>= b.clone();
    assert_eq!(*a.get(), vec![0, -2, 2, 99]);
    let mut a = start.clone();
    a &= b.clone();
    assert_eq!(*a.get(), vec![4, 0, 1, 99]);
    let mut a = start.clone();
    a |= b.clone();
    assert_eq!(*a.get(), vec![13, -5, 5, 99]);
    let mut a = start;
    a ^= b;
    assert_eq!(*a.get(), vec![9, -5, 4, 99]);
}

#[test]
fn variable_size_assign_with_a_longer_operand_equals_the_operator() {
    let start = list(&[3, 4]);
    let b = list(&[10, 20, 30]);
    let mut a = start.clone();
    a -= b.clone();
    assert_eq!(*a.get(), *(start - b).get());
    assert_eq!(*a.get(), vec![-7, -16]);
}

#[test]
fn fixed_size_to_variable_size() {
    let a = arr([7, 8, 9]);
    let v: TVector<i32> = TVector::from(a);
    assert_eq!(v.get().len(), 3);
    assert_eq!(*v.get(), vec![7, 8, 9]);
    let none: TArray<i32, 0> = TArray::from([]);
    let v: TVector<i32> = TVector::from(none);
    assert_eq!(v.get().len(), 0);
}

#[test]
fn raw_sequence_to_container() {
    let a: TArray<u8, 2> = TArray::from([1, 2]);
    assert_eq!(*a.get(), [1, 2]);
    let v: TVector<u8> = TVector::from(Vec::new());
    assert_eq!(v.get().len(), 0);
    let v: TVector<u8> = TVector::from(vec![5, 6, 7]);
    assert_eq!(*v.get(), vec![5, 6, 7]);
}

#[test]
fn copies_are_independent() {
    let a = arr([1, 2, 3]);
    let mut b = a;
    b[0] = 100;
    assert_eq!(*a.get(), [1, 2, 3]);
    assert_eq!(*a.clone().get(), [1, 2, 3]);
    let v = list(&[1, 2, 3]);
    let mut w = v.clone();
    w[0] = 100;
    assert_eq!(*v.get(), vec![1, 2, 3]);
    assert_eq!(*w.get(), vec![100, 2, 3]);
}

#[test]
fn element_arithmetic_is_that_of_the_element_type() {
    let a: TArray<u8, 2> = TArray::from([200, 1]);
    assert_eq!(*(a & 0x0f).get(), [8, 1]);
    let w: TArray<std::num::Wrapping<u8>, 2> =
        TArray::from([std::num::Wrapping(250), std::num::Wrapping(1)]);
    let s = w + std::num::Wrapping(10);
    assert_eq!(s.get()[0].0, 4);
    assert_eq!(s.get()[1].0, 11);
}
