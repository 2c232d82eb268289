use vstd::prelude::*;
use vstd::std_specs::ops::NegSpec;
use vstd::std_specs::ops::NotSpec;
use crate::elementwise::each_allowed;
use crate::elementwise::each_from;
use crate::elementwise::map_array;
use crate::elementwise::map_each;
use crate::elementwise::map_vec;
use core::ops::Index;
use core::ops::IndexMut;
use core::ops::Neg;
use core::ops::Not;

verus! {

/// A container that wraps one raw sequence of type `T`.
pub trait TList<T> {
    /// The raw sequence that the container wraps.
    spec fn raw(&self) -> T;

    /// The raw sequence.
    fn get(&self) -> (res: &T)
        ensures
            *res == self.raw(),
    ;

    /// The raw sequence, to be changed in place: what the caller leaves in it
    /// is what the container wraps afterwards.
    fn get_mut(&mut self) -> (res: &mut T)
        ensures
            *res == old(self).raw(),
            final(self).raw() == *final(res),
    ;

    /// Replaces the raw sequence by `val`.
    fn set(&mut self, val: T)
        ensures
            final(self).raw() == val,
    ;
}

/// A list of exactly `N` elements.
pub struct TArray<T: Copy + Clone, const N: usize>([T; N]);

impl<T: Copy, const N: usize> Clone for TArray<T, N> {
    /// The same list.
    fn clone(&self) -> (res: Self)
        ensures
            res == *self,
    {
        *self
    }
}

impl<T: Copy, const N: usize> Copy for TArray<T, N> {

}

impl<T: Copy + Clone, const N: usize> View for TArray<T, N> {
    type V = Seq<T>;

    /// The `N` elements in order.
    open spec fn view(&self) -> Seq<T> {
        self.raw()@
    }
}

impl<T: Copy + Clone, const N: usize> TList<[T; N]> for TArray<T, N> {
    closed spec fn raw(&self) -> [T; N] {
        self.0
    }

    fn get(&self) -> (res: &[T; N]) {
        &self.0
    }

    fn get_mut(&mut self) -> (res: &mut [T; N]) {
        &mut self.0
    }

    fn set(&mut self, val: [T; N]) {
        self.0 = val;
    }
}

impl<T: Copy, const N: usize> vstd::std_specs::core::IndexSpecImpl<usize> for TArray<T, N> {
    /// The position lies inside the list.
    open spec fn index_req(&self, index: &usize) -> bool {
        *index < N
    }
}

impl<T: Copy, const N: usize> Index<usize> for TArray<T, N> {
    type Output = T;

    /// The element at position `index`.
    fn index(&self, index: usize) -> (res: &T)
        ensures
            *res == self@[index as int],
    {
        &self.0[index]
    }
}

impl<T: Copy, const N: usize> IndexMut<usize> for TArray<T, N> {
    /// The element at position `index`, to be changed in place: what the
    /// caller leaves in it is the element at that position afterwards, and
    /// every other element stays.
    fn index_mut(&mut self, index: usize) -> (res: &mut T)
        requires
            index < N,
        ensures
            *res == old(self)@[index as int],
            final(self)@ == old(self)@.update(index as int, *final(res)),
    {
        &mut self.0[index]
    }
}

/// The negation of a list is stated element by element in the contract of
/// `neg`; no value of the list's type is named for it.
impl<T: Neg<Output = T> + Copy, const N: usize> vstd::std_specs::ops::NegSpecImpl for TArray<T, N> {
    open spec fn obeys_neg_spec() -> bool {
        false
    }

    /// Every element can take the operator.
    open spec fn neg_req(self) -> bool {
        each_allowed(self@, T::neg)
    }

    open spec fn neg_spec(self) -> Self {
        arbitrary()
    }
}

impl<T: Neg<Output = T> + Copy, const N: usize> Neg for TArray<T, N> {
    type Output = Self;

    /// The list of the negations of the elements, in the same order.
    fn neg(self) -> (res: Self)
        ensures
            each_from(self@, T::neg, res@),
            T::obeys_neg_spec() ==> res@ == map_each(self@, |x: T| x.neg_spec()),
    {
        let mut res = self;
        map_array(&mut res.0, T::neg);
        assert(T::obeys_neg_spec() ==> res@ =~= map_each(self@, |x: T| x.neg_spec()));
        res
    }
}

/// The complement of a list is stated element by element in the contract of
/// `not`; no value of the list's type is named for it.
impl<T: Not<Output = T> + Copy, const N: usize> vstd::std_specs::ops::NotSpecImpl for TArray<T, N> {
    open spec fn obeys_not_spec() -> bool {
        false
    }

    /// Every element can take the operator.
    open spec fn not_req(self) -> bool {
        each_allowed(self@, T::not)
    }

    open spec fn not_spec(self) -> Self {
        arbitrary()
    }
}

impl<T: Not<Output = T> + Copy, const N: usize> Not for TArray<T, N> {
    type Output = Self;

    /// The list of the complements of the elements, in the same order.
    fn not(self) -> (res: Self)
        ensures
            each_from(self@, T::not, res@),
            T::obeys_not_spec() ==> res@ == map_each(self@, |x: T| x.not_spec()),
    {
        let mut res = self;
        map_array(&mut res.0, T::not);
        assert(T::obeys_not_spec() ==> res@ =~= map_each(self@, |x: T| x.not_spec()));
        res
    }
}

/// A list of any length.
pub struct TVector<T: Copy + Clone>(Vec<T>);

impl<T: Copy + Clone> View for TVector<T> {
    type V = Seq<T>;

    /// The elements in order.
    open spec fn view(&self) -> Seq<T> {
        self.raw()@
    }
}

impl<T: Copy + Clone> TList<Vec<T>> for TVector<T> {
    closed spec fn raw(&self) -> Vec<T> {
        self.0
    }

    fn get(&self) -> (res: &Vec<T>) {
        &self.0
    }

    fn get_mut(&mut self) -> (res: &mut Vec<T>) {
        &mut self.0
    }

    fn set(&mut self, val: Vec<T>) {
        self.0 = val;
    }
}

impl<T: Copy> vstd::std_specs::core::IndexSpecImpl<usize> for TVector<T> {
    /// The position lies inside the list.
    open spec fn index_req(&self, index: &usize) -> bool {
        *index < self@.len()
    }
}

impl<T: Copy> Index<usize> for TVector<T> {
    type Output = T;

    /// The element at position `index`.
    fn index(&self, index: usize) -> (res: &T)
        ensures
            *res == self@[index as int],
    {
        &self.0[index]
    }
}

impl<T: Copy> IndexMut<usize> for TVector<T> {
    /// The element at position `index`, to be changed in place: what the
    /// caller leaves in it is the element at that position afterwards, and
    /// every other element stays.
    fn index_mut(&mut self, index: usize) -> (res: &mut T)
        requires
            index < old(self)@.len(),
        ensures
            *res == old(self)@[index as int],
            final(self)@ == old(self)@.update(index as int, *final(res)),
    {
        &mut self.0[index]
    }
}

/// The negation of a list is stated element by element in the contract of
/// `neg`; no value of the list's type is named for it.
impl<T: Neg<Output = T> + Copy> vstd::std_specs::ops::NegSpecImpl for TVector<T> {
    open spec fn obeys_neg_spec() -> bool {
        false
    }

    /// Every element can take the operator.
    open spec fn neg_req(self) -> bool {
        each_allowed(self@, T::neg)
    }

    open spec fn neg_spec(self) -> Self {
        arbitrary()
    }
}

impl<T: Neg<Output = T> + Copy> Neg for TVector<T> {
    type Output = Self;

    /// The list of the negations of the elements, in the same order.
    fn neg(self) -> (res: Self)
        ensures
            each_from(self@, T::neg, res@),
            T::obeys_neg_spec() ==> res@ == map_each(self@, |x: T| x.neg_spec()),
    {
        let mut res = self;
        map_vec(&mut res.0, T::neg);
        assert(T::obeys_neg_spec() ==> res@ =~= map_each(self@, |x: T| x.neg_spec()));
        res
    }
}

/// The complement of a list is stated element by element in the contract of
/// `not`; no value of the list's type is named for it.
impl<T: Not<Output = T> + Copy> vstd::std_specs::ops::NotSpecImpl for TVector<T> {
    open spec fn obeys_not_spec() -> bool {
        false
    }

    /// Every element can take the operator.
    open spec fn not_req(self) -> bool {
        each_allowed(self@, T::not)
    }

    open spec fn not_spec(self) -> Self {
        arbitrary()
    }
}

impl<T: Not<Output = T> + Copy> Not for TVector<T> {
    type Output = Self;

    /// The list of the complements of the elements, in the same order.
    fn not(self) -> (res: Self)
        ensures
            each_from(self@, T::not, res@),
            T::obeys_not_spec() ==> res@ == map_each(self@, |x: T| x.not_spec()),
    {
        let mut res = self;
        map_vec(&mut res.0, T::not);
        assert(T::obeys_not_spec() ==> res@ =~= map_each(self@, |x: T| x.not_spec()));
        res
    }
}

impl<T: Copy, const N: usize> vstd::std_specs::convert::FromSpecImpl<[T; N]> for TArray<T, N> {
    open spec fn obeys_from_spec() -> bool {
        true
    }

    /// The list that wraps `v`.
    closed spec fn from_spec(v: [T; N]) -> Self {
        TArray(v)
    }
}

impl<T: Copy, const N: usize> From<[T; N]> for TArray<T, N> {
    /// Wraps `rhs` as it is.
    fn from(rhs: [T; N]) -> (res: Self)
        ensures
            res.raw() == rhs,
            res@ == rhs@,
    {
        TArray(rhs)
    }
}

impl<T: Copy> vstd::std_specs::convert::FromSpecImpl<Vec<T>> for TVector<T> {
    open spec fn obeys_from_spec() -> bool {
        true
    }

    /// The list that wraps `v`.
    closed spec fn from_spec(v: Vec<T>) -> Self {
        TVector(v)
    }
}

impl<T: Copy> From<Vec<T>> for TVector<T> {
    /// Wraps `rhs` as it is, whatever its length.
    fn from(rhs: Vec<T>) -> (res: Self)
        ensures
            res.raw() == rhs,
            res@ == rhs@,
    {
        TVector(rhs)
    }
}

/// The conversion of a fixed-size list is stated over the elements in the
/// contract of `from`; no value of the list's type is named for it.
impl<T: Copy, const N: usize> vstd::std_specs::convert::FromSpecImpl<TArray<T, N>> for TVector<T> {
    open spec fn obeys_from_spec() -> bool {
        false
    }

    open spec fn from_spec(v: TArray<T, N>) -> Self {
        arbitrary()
    }
}

impl<T: Copy, const N: usize> From<TArray<T, N>> for TVector<T> {
    /// A list of length `N` with the elements of `rhs` in the same order.
    fn from(rhs: TArray<T, N>) -> (res: Self)
        ensures
            res@ == rhs@,
            res@.len() == N,
    {
        let mut data: Vec<T> = Vec::new();
        let mut i: usize = 0;
        while i < N
            invariant
                i <= N,
                data@.len() == i,
                forall|j: int| 0 <= j < i ==> data@[j] == rhs@[j],
            decreases N - i,
        {
            data.push(rhs.0[i]);
            i += 1;
        }
        assert(data@ =~= rhs@);
        TVector(data)
    }
}

impl<T: Copy> Clone for TVector<T> {
    /// A list with the same elements in the same order.
    fn clone(&self) -> (res: Self)
        ensures
            res@ == self@,
    {
        let mut data: Vec<T> = Vec::new();
        let mut i: usize = 0;
        while i < self.0.len()
            invariant
                i <= self@.len(),
                data@.len() == i,
                forall|j: int| 0 <= j < i ==> data@[j] == self@[j],
            decreases self@.len() - i,
        {
            data.push(self.0[i]);
            i += 1;
        }
        assert(data@ =~= self@);
        TVector(data)
    }
}

/// A list of the fixed size `N` holds exactly `N` elements.
pub proof fn lemma_fixed_len<T: Copy, const N: usize>(a: TArray<T, N>)
    ensures
        a@.len() == N,
{
}

/// An element written at a position inside a list is the one read there
/// afterwards; the length and every other element stay.
pub proof fn lemma_read_after_write<T>(a: Seq<T>, i: int, v: T)
    requires
        0 <= i < a.len(),
    ensures
        a.update(i, v)[i] == v,
        a.update(i, v).len() == a.len(),
        forall|j: int| 0 <= j < a.len() && j != i ==> a.update(i, v)[j] == a[j],
{
}

} // verus!
