use vstd::prelude::*;
use vstd::std_specs::ops::AddSpec;
use vstd::std_specs::ops::SubSpec;
use vstd::std_specs::ops::MulSpec;
use vstd::std_specs::ops::DivSpec;
use vstd::std_specs::ops::RemSpec;
use vstd::std_specs::ops::ShlSpec;
use vstd::std_specs::ops::ShrSpec;
use vstd::std_specs::ops::BitAndSpec;
use vstd::std_specs::ops::BitOrSpec;
use vstd::std_specs::ops::BitXorSpec;
use crate::elementwise::each_from_pair;
use crate::elementwise::each_from_scalar;
use crate::elementwise::pair_allowed;
use crate::elementwise::pair_array;
use crate::elementwise::scalar_allowed;
use crate::elementwise::scalar_array;
use crate::elementwise::with_scalar;
use crate::elementwise::zip_with;
use crate::tarray::TList;
use crate::tarray::TArray;
use core::ops::Add;
use core::ops::AddAssign;
use core::ops::Sub;
use core::ops::SubAssign;
use core::ops::Mul;
use core::ops::MulAssign;
use core::ops::Div;
use core::ops::DivAssign;
use core::ops::Rem;
use core::ops::RemAssign;
use core::ops::Shl;
use core::ops::ShlAssign;
use core::ops::Shr;
use core::ops::ShrAssign;
use core::ops::BitAnd;
use core::ops::BitAndAssign;
use core::ops::BitOr;
use core::ops::BitOrAssign;
use core::ops::BitXor;
use core::ops::BitXorAssign;

verus! {

/// What `+` with a scalar gives is stated element by element in the
/// contract of `add`; no value of the list's type is named for it.
impl<T: Add<Output = T> + Copy, const N: usize> vstd::std_specs::ops::AddSpecImpl<T> for TArray<T, N> {
    open spec fn obeys_add_spec() -> bool {
        false
    }

    /// Every element can take `+` with `rhs` on the right.
    open spec fn add_req(self, rhs: T) -> bool {
        scalar_allowed(self@, rhs, T::add)
    }

    open spec fn add_spec(self, rhs: T) -> Self {
        arbitrary()
    }
}

impl<T: Add<Output = T> + Copy, const N: usize> Add<T> for TArray<T, N> {
    type Output = Self;

    /// The list of `x + rhs` for every element `x`, in the same order.
    fn add(self, rhs: T) -> (res: Self)
        ensures
            each_from_scalar(self@, rhs, T::add, res@),
            T::obeys_add_spec() ==> res@ == with_scalar(self@, rhs, |x: T, y: T| x.add_spec(y)),
    {
        let mut res = self;
        scalar_array(res.get_mut(), rhs, T::add);
        assert(T::obeys_add_spec() ==> res@ =~= with_scalar(
            self@,
            rhs,
            |x: T, y: T| x.add_spec(y),
        ));
        res
    }
}

impl<T: Add<Output = T> + Copy, const N: usize> AddAssign<T> for TArray<T, N> {
    /// Replaces every element `x` by `x + rhs`.
    fn add_assign(&mut self, rhs: T)
        requires
            scalar_allowed(old(self)@, rhs, T::add),
        ensures
            each_from_scalar(old(self)@, rhs, T::add, final(self)@),
            T::obeys_add_spec() ==> final(self)@ == with_scalar(
                old(self)@,
                rhs,
                |x: T, y: T| x.add_spec(y),
            ),
    {
        scalar_array(self.get_mut(), rhs, T::add);
        assert(T::obeys_add_spec() ==> self@ =~= with_scalar(
            old(self)@,
            rhs,
            |x: T, y: T| x.add_spec(y),
        ));
    }
}

/// What `+` with a list of the same size gives is stated element by
/// element in the contract of `add`; no value of the list's type is named
/// for it.
impl<T: Add<Output = T> + Copy, const N: usize> vstd::std_specs::ops::AddSpecImpl<TArray<T, N>> for TArray<T, N> {
    open spec fn obeys_add_spec() -> bool {
        false
    }

    /// Every element can take `+` with the element of `rhs` at its
    /// position on the right.
    open spec fn add_req(self, rhs: TArray<T, N>) -> bool {
        pair_allowed(self@, rhs@, T::add)
    }

    open spec fn add_spec(self, rhs: TArray<T, N>) -> Self {
        arbitrary()
    }
}

impl<T: Add<Output = T> + Copy, const N: usize> Add<TArray<T, N>> for TArray<T, N> {
    type Output = Self;

    /// The list of `x + y` for every element `x` and the element `y` of
    /// `rhs` at the same position.
    fn add(self, rhs: TArray<T, N>) -> (res: Self)
        ensures
            each_from_pair(self@, rhs@, T::add, res@),
            T::obeys_add_spec() ==> res@ == zip_with(self@, rhs@, |x: T, y: T| x.add_spec(y)),
    {
        let mut res = self;
        pair_array(res.get_mut(), rhs.get(), T::add);
        assert(T::obeys_add_spec() ==> res@ =~= zip_with(self@, rhs@, |x: T, y: T| x.add_spec(y)));
        res
    }
}

impl<T: Add<Output = T> + Copy, const N: usize> AddAssign<TArray<T, N>> for TArray<T, N> {
    /// Replaces every element `x` by `x + y`, where `y` is the element of
    /// `rhs` at the same position.
    fn add_assign(&mut self, rhs: TArray<T, N>)
        requires
            pair_allowed(old(self)@, rhs@, T::add),
        ensures
            each_from_pair(old(self)@, rhs@, T::add, final(self)@),
            T::obeys_add_spec() ==> final(self)@ == zip_with(
                old(self)@,
                rhs@,
                |x: T, y: T| x.add_spec(y),
            ),
    {
        pair_array(self.get_mut(), rhs.get(), T::add);
        assert(T::obeys_add_spec() ==> self@ =~= zip_with(
            old(self)@,
            rhs@,
            |x: T, y: T| x.add_spec(y),
        ));
    }
}

/// What `-` with a scalar gives is stated element by element in the
/// contract of `sub`; no value of the list's type is named for it.
impl<T: Sub<Output = T> + Copy, const N: usize> vstd::std_specs::ops::SubSpecImpl<T> for TArray<T, N> {
    open spec fn obeys_sub_spec() -> bool {
        false
    }

    /// Every element can take `-` with `rhs` on the right.
    open spec fn sub_req(self, rhs: T) -> bool {
        scalar_allowed(self@, rhs, T::sub)
    }

    open spec fn sub_spec(self, rhs: T) -> Self {
        arbitrary()
    }
}

impl<T: Sub<Output = T> + Copy, const N: usize> Sub<T> for TArray<T, N> {
    type Output = Self;

    /// The list of `x - rhs` for every element `x`, in the same order.
    fn sub(self, rhs: T) -> (res: Self)
        ensures
            each_from_scalar(self@, rhs, T::sub, res@),
            T::obeys_sub_spec() ==> res@ == with_scalar(self@, rhs, |x: T, y: T| x.sub_spec(y)),
    {
        let mut res = self;
        scalar_array(res.get_mut(), rhs, T::sub);
        assert(T::obeys_sub_spec() ==> res@ =~= with_scalar(
            self@,
            rhs,
            |x: T, y: T| x.sub_spec(y),
        ));
        res
    }
}

impl<T: Sub<Output = T> + Copy, const N: usize> SubAssign<T> for TArray<T, N> {
    /// Replaces every element `x` by `x - rhs`.
    fn sub_assign(&mut self, rhs: T)
        requires
            scalar_allowed(old(self)@, rhs, T::sub),
        ensures
            each_from_scalar(old(self)@, rhs, T::sub, final(self)@),
            T::obeys_sub_spec() ==> final(self)@ == with_scalar(
                old(self)@,
                rhs,
                |x: T, y: T| x.sub_spec(y),
            ),
    {
        scalar_array(self.get_mut(), rhs, T::sub);
        assert(T::obeys_sub_spec() ==> self@ =~= with_scalar(
            old(self)@,
            rhs,
            |x: T, y: T| x.sub_spec(y),
        ));
    }
}

/// What `-` with a list of the same size gives is stated element by
/// element in the contract of `sub`; no value of the list's type is named
/// for it.
impl<T: Sub<Output = T> + Copy, const N: usize> vstd::std_specs::ops::SubSpecImpl<TArray<T, N>> for TArray<T, N> {
    open spec fn obeys_sub_spec() -> bool {
        false
    }

    /// Every element can take `-` with the element of `rhs` at its
    /// position on the right.
    open spec fn sub_req(self, rhs: TArray<T, N>) -> bool {
        pair_allowed(self@, rhs@, T::sub)
    }

    open spec fn sub_spec(self, rhs: TArray<T, N>) -> Self {
        arbitrary()
    }
}

impl<T: Sub<Output = T> + Copy, const N: usize> Sub<TArray<T, N>> for TArray<T, N> {
    type Output = Self;

    /// The list of `x - y` for every element `x` and the element `y` of
    /// `rhs` at the same position.
    fn sub(self, rhs: TArray<T, N>) -> (res: Self)
        ensures
            each_from_pair(self@, rhs@, T::sub, res@),
            T::obeys_sub_spec() ==> res@ == zip_with(self@, rhs@, |x: T, y: T| x.sub_spec(y)),
    {
        let mut res = self;
        pair_array(res.get_mut(), rhs.get(), T::sub);
        assert(T::obeys_sub_spec() ==> res@ =~= zip_with(self@, rhs@, |x: T, y: T| x.sub_spec(y)));
        res
    }
}

impl<T: Sub<Output = T> + Copy, const N: usize> SubAssign<TArray<T, N>> for TArray<T, N> {
    /// Replaces every element `x` by `x - y`, where `y` is the element of
    /// `rhs` at the same position.
    fn sub_assign(&mut self, rhs: TArray<T, N>)
        requires
            pair_allowed(old(self)@, rhs@, T::sub),
        ensures
            each_from_pair(old(self)@, rhs@, T::sub, final(self)@),
            T::obeys_sub_spec() ==> final(self)@ == zip_with(
                old(self)@,
                rhs@,
                |x: T, y: T| x.sub_spec(y),
            ),
    {
        pair_array(self.get_mut(), rhs.get(), T::sub);
        assert(T::obeys_sub_spec() ==> self@ =~= zip_with(
            old(self)@,
            rhs@,
            |x: T, y: T| x.sub_spec(y),
        ));
    }
}

/// What `*` with a scalar gives is stated element by element in the
/// contract of `mul`; no value of the list's type is named for it.
impl<T: Mul<Output = T> + Copy, const N: usize> vstd::std_specs::ops::MulSpecImpl<T> for TArray<T, N> {
    open spec fn obeys_mul_spec() -> bool {
        false
    }

    /// Every element can take `*` with `rhs` on the right.
    open spec fn mul_req(self, rhs: T) -> bool {
        scalar_allowed(self@, rhs, T::mul)
    }

    open spec fn mul_spec(self, rhs: T) -> Self {
        arbitrary()
    }
}

impl<T: Mul<Output = T> + Copy, const N: usize> Mul<T> for TArray<T, N> {
    type Output = Self;

    /// The list of `x * rhs` for every element `x`, in the same order.
    fn mul(self, rhs: T) -> (res: Self)
        ensures
            each_from_scalar(self@, rhs, T::mul, res@),
            T::obeys_mul_spec() ==> res@ == with_scalar(self@, rhs, |x: T, y: T| x.mul_spec(y)),
    {
        let mut res = self;
        scalar_array(res.get_mut(), rhs, T::mul);
        assert(T::obeys_mul_spec() ==> res@ =~= with_scalar(
            self@,
            rhs,
            |x: T, y: T| x.mul_spec(y),
        ));
        res
    }
}

impl<T: Mul<Output = T> + Copy, const N: usize> MulAssign<T> for TArray<T, N> {
    /// Replaces every element `x` by `x * rhs`.
    fn mul_assign(&mut self, rhs: T)
        requires
            scalar_allowed(old(self)@, rhs, T::mul),
        ensures
            each_from_scalar(old(self)@, rhs, T::mul, final(self)@),
            T::obeys_mul_spec() ==> final(self)@ == with_scalar(
                old(self)@,
                rhs,
                |x: T, y: T| x.mul_spec(y),
            ),
    {
        scalar_array(self.get_mut(), rhs, T::mul);
        assert(T::obeys_mul_spec() ==> self@ =~= with_scalar(
            old(self)@,
            rhs,
            |x: T, y: T| x.mul_spec(y),
        ));
    }
}

/// What `*` with a list of the same size gives is stated element by
/// element in the contract of `mul`; no value of the list's type is named
/// for it.
impl<T: Mul<Output = T> + Copy, const N: usize> vstd::std_specs::ops::MulSpecImpl<TArray<T, N>> for TArray<T, N> {
    open spec fn obeys_mul_spec() -> bool {
        false
    }

    /// Every element can take `*` with the element of `rhs` at its
    /// position on the right.
    open spec fn mul_req(self, rhs: TArray<T, N>) -> bool {
        pair_allowed(self@, rhs@, T::mul)
    }

    open spec fn mul_spec(self, rhs: TArray<T, N>) -> Self {
        arbitrary()
    }
}

impl<T: Mul<Output = T> + Copy, const N: usize> Mul<TArray<T, N>> for TArray<T, N> {
    type Output = Self;

    /// The list of `x * y` for every element `x` and the element `y` of
    /// `rhs` at the same position.
    fn mul(self, rhs: TArray<T, N>) -> (res: Self)
        ensures
            each_from_pair(self@, rhs@, T::mul, res@),
            T::obeys_mul_spec() ==> res@ == zip_with(self@, rhs@, |x: T, y: T| x.mul_spec(y)),
    {
        let mut res = self;
        pair_array(res.get_mut(), rhs.get(), T::mul);
        assert(T::obeys_mul_spec() ==> res@ =~= zip_with(self@, rhs@, |x: T, y: T| x.mul_spec(y)));
        res
    }
}

impl<T: Mul<Output = T> + Copy, const N: usize> MulAssign<TArray<T, N>> for TArray<T, N> {
    /// Replaces every element `x` by `x * y`, where `y` is the element of
    /// `rhs` at the same position.
    fn mul_assign(&mut self, rhs: TArray<T, N>)
        requires
            pair_allowed(old(self)@, rhs@, T::mul),
        ensures
            each_from_pair(old(self)@, rhs@, T::mul, final(self)@),
            T::obeys_mul_spec() ==> final(self)@ == zip_with(
                old(self)@,
                rhs@,
                |x: T, y: T| x.mul_spec(y),
            ),
    {
        pair_array(self.get_mut(), rhs.get(), T::mul);
        assert(T::obeys_mul_spec() ==> self@ =~= zip_with(
            old(self)@,
            rhs@,
            |x: T, y: T| x.mul_spec(y),
        ));
    }
}

/// What `/` with a scalar gives is stated element by element in the
/// contract of `div`; no value of the list's type is named for it.
impl<T: Div<Output = T> + Copy, const N: usize> vstd::std_specs::ops::DivSpecImpl<T> for TArray<T, N> {
    open spec fn obeys_div_spec() -> bool {
        false
    }

    /// Every element can take `/` with `rhs` on the right.
    open spec fn div_req(self, rhs: T) -> bool {
        scalar_allowed(self@, rhs, T::div)
    }

    open spec fn div_spec(self, rhs: T) -> Self {
        arbitrary()
    }
}

impl<T: Div<Output = T> + Copy, const N: usize> Div<T> for TArray<T, N> {
    type Output = Self;

    /// The list of `x / rhs` for every element `x`, in the same order.
    fn div(self, rhs: T) -> (res: Self)
        ensures
            each_from_scalar(self@, rhs, T::div, res@),
            T::obeys_div_spec() ==> res@ == with_scalar(self@, rhs, |x: T, y: T| x.div_spec(y)),
    {
        let mut res = self;
        scalar_array(res.get_mut(), rhs, T::div);
        assert(T::obeys_div_spec() ==> res@ =~= with_scalar(
            self@,
            rhs,
            |x: T, y: T| x.div_spec(y),
        ));
        res
    }
}

impl<T: Div<Output = T> + Copy, const N: usize> DivAssign<T> for TArray<T, N> {
    /// Replaces every element `x` by `x / rhs`.
    fn div_assign(&mut self, rhs: T)
        requires
            scalar_allowed(old(self)@, rhs, T::div),
        ensures
            each_from_scalar(old(self)@, rhs, T::div, final(self)@),
            T::obeys_div_spec() ==> final(self)@ == with_scalar(
                old(self)@,
                rhs,
                |x: T, y: T| x.div_spec(y),
            ),
    {
        scalar_array(self.get_mut(), rhs, T::div);
        assert(T::obeys_div_spec() ==> self@ =~= with_scalar(
            old(self)@,
            rhs,
            |x: T, y: T| x.div_spec(y),
        ));
    }
}

/// What `/` with a list of the same size gives is stated element by
/// element in the contract of `div`; no value of the list's type is named
/// for it.
impl<T: Div<Output = T> + Copy, const N: usize> vstd::std_specs::ops::DivSpecImpl<TArray<T, N>> for TArray<T, N> {
    open spec fn obeys_div_spec() -> bool {
        false
    }

    /// Every element can take `/` with the element of `rhs` at its
    /// position on the right.
    open spec fn div_req(self, rhs: TArray<T, N>) -> bool {
        pair_allowed(self@, rhs@, T::div)
    }

    open spec fn div_spec(self, rhs: TArray<T, N>) -> Self {
        arbitrary()
    }
}

impl<T: Div<Output = T> + Copy, const N: usize> Div<TArray<T, N>> for TArray<T, N> {
    type Output = Self;

    /// The list of `x / y` for every element `x` and the element `y` of
    /// `rhs` at the same position.
    fn div(self, rhs: TArray<T, N>) -> (res: Self)
        ensures
            each_from_pair(self@, rhs@, T::div, res@),
            T::obeys_div_spec() ==> res@ == zip_with(self@, rhs@, |x: T, y: T| x.div_spec(y)),
    {
        let mut res = self;
        pair_array(res.get_mut(), rhs.get(), T::div);
        assert(T::obeys_div_spec() ==> res@ =~= zip_with(self@, rhs@, |x: T, y: T| x.div_spec(y)));
        res
    }
}

impl<T: Div<Output = T> + Copy, const N: usize> DivAssign<TArray<T, N>> for TArray<T, N> {
    /// Replaces every element `x` by `x / y`, where `y` is the element of
    /// `rhs` at the same position.
    fn div_assign(&mut self, rhs: TArray<T, N>)
        requires
            pair_allowed(old(self)@, rhs@, T::div),
        ensures
            each_from_pair(old(self)@, rhs@, T::div, final(self)@),
            T::obeys_div_spec() ==> final(self)@ == zip_with(
                old(self)@,
                rhs@,
                |x: T, y: T| x.div_spec(y),
            ),
    {
        pair_array(self.get_mut(), rhs.get(), T::div);
        assert(T::obeys_div_spec() ==> self@ =~= zip_with(
            old(self)@,
            rhs@,
            |x: T, y: T| x.div_spec(y),
        ));
    }
}

/// What `%` with a scalar gives is stated element by element in the
/// contract of `rem`; no value of the list's type is named for it.
impl<T: Rem<Output = T> + Copy, const N: usize> vstd::std_specs::ops::RemSpecImpl<T> for TArray<T, N> {
    open spec fn obeys_rem_spec() -> bool {
        false
    }

    /// Every element can take `%` with `rhs` on the right.
    open spec fn rem_req(self, rhs: T) -> bool {
        scalar_allowed(self@, rhs, T::rem)
    }

    open spec fn rem_spec(self, rhs: T) -> Self {
        arbitrary()
    }
}

impl<T: Rem<Output = T> + Copy, const N: usize> Rem<T> for TArray<T, N> {
    type Output = Self;

    /// The list of `x % rhs` for every element `x`, in the same order.
    fn rem(self, rhs: T) -> (res: Self)
        ensures
            each_from_scalar(self@, rhs, T::rem, res@),
            T::obeys_rem_spec() ==> res@ == with_scalar(self@, rhs, |x: T, y: T| x.rem_spec(y)),
    {
        let mut res = self;
        scalar_array(res.get_mut(), rhs, T::rem);
        assert(T::obeys_rem_spec() ==> res@ =~= with_scalar(
            self@,
            rhs,
            |x: T, y: T| x.rem_spec(y),
        ));
        res
    }
}

impl<T: Rem<Output = T> + Copy, const N: usize> RemAssign<T> for TArray<T, N> {
    /// Replaces every element `x` by `x % rhs`.
    fn rem_assign(&mut self, rhs: T)
        requires
            scalar_allowed(old(self)@, rhs, T::rem),
        ensures
            each_from_scalar(old(self)@, rhs, T::rem, final(self)@),
            T::obeys_rem_spec() ==> final(self)@ == with_scalar(
                old(self)@,
                rhs,
                |x: T, y: T| x.rem_spec(y),
            ),
    {
        scalar_array(self.get_mut(), rhs, T::rem);
        assert(T::obeys_rem_spec() ==> self@ =~= with_scalar(
            old(self)@,
            rhs,
            |x: T, y: T| x.rem_spec(y),
        ));
    }
}

/// What `%` with a list of the same size gives is stated element by
/// element in the contract of `rem`; no value of the list's type is named
/// for it.
impl<T: Rem<Output = T> + Copy, const N: usize> vstd::std_specs::ops::RemSpecImpl<TArray<T, N>> for TArray<T, N> {
    open spec fn obeys_rem_spec() -> bool {
        false
    }

    /// Every element can take `%` with the element of `rhs` at its
    /// position on the right.
    open spec fn rem_req(self, rhs: TArray<T, N>) -> bool {
        pair_allowed(self@, rhs@, T::rem)
    }

    open spec fn rem_spec(self, rhs: TArray<T, N>) -> Self {
        arbitrary()
    }
}

impl<T: Rem<Output = T> + Copy, const N: usize> Rem<TArray<T, N>> for TArray<T, N> {
    type Output = Self;

    /// The list of `x % y` for every element `x` and the element `y` of
    /// `rhs` at the same position.
    fn rem(self, rhs: TArray<T, N>) -> (res: Self)
        ensures
            each_from_pair(self@, rhs@, T::rem, res@),
            T::obeys_rem_spec() ==> res@ == zip_with(self@, rhs@, |x: T, y: T| x.rem_spec(y)),
    {
        let mut res = self;
        pair_array(res.get_mut(), rhs.get(), T::rem);
        assert(T::obeys_rem_spec() ==> res@ =~= zip_with(self@, rhs@, |x: T, y: T| x.rem_spec(y)));
        res
    }
}

impl<T: Rem<Output = T> + Copy, const N: usize> RemAssign<TArray<T, N>> for TArray<T, N> {
    /// Replaces every element `x` by `x % y`, where `y` is the element of
    /// `rhs` at the same position.
    fn rem_assign(&mut self, rhs: TArray<T, N>)
        requires
            pair_allowed(old(self)@, rhs@, T::rem),
        ensures
            each_from_pair(old(self)@, rhs@, T::rem, final(self)@),
            T::obeys_rem_spec() ==> final(self)@ == zip_with(
                old(self)@,
                rhs@,
                |x: T, y: T| x.rem_spec(y),
            ),
    {
        pair_array(self.get_mut(), rhs.get(), T::rem);
        assert(T::obeys_rem_spec() ==> self@ =~= zip_with(
            old(self)@,
            rhs@,
            |x: T, y: T| x.rem_spec(y),
        ));
    }
}

/// What `<<` with a scalar gives is stated element by element in the
/// contract of `shl`; no value of the list's type is named for it.
impl<T: Shl<Output = T> + Copy, const N: usize> vstd::std_specs::ops::ShlSpecImpl<T> for TArray<T, N> {
    open spec fn obeys_shl_spec() -> bool {
        false
    }

    /// Every element can take `<<` with `rhs` on the right.
    open spec fn shl_req(self, rhs: T) -> bool {
        scalar_allowed(self@, rhs, T::shl)
    }

    open spec fn shl_spec(self, rhs: T) -> Self {
        arbitrary()
    }
}

impl<T: Shl<Output = T> + Copy, const N: usize> Shl<T> for TArray<T, N> {
    type Output = Self;

    /// The list of `x << rhs` for every element `x`, in the same order.
    fn shl(self, rhs: T) -> (res: Self)
        ensures
            each_from_scalar(self@, rhs, T::shl, res@),
            T::obeys_shl_spec() ==> res@ == with_scalar(self@, rhs, |x: T, y: T| x.shl_spec(y)),
    {
        let mut res = self;
        scalar_array(res.get_mut(), rhs, T::shl);
        assert(T::obeys_shl_spec() ==> res@ =~= with_scalar(
            self@,
            rhs,
            |x: T, y: T| x.shl_spec(y),
        ));
        res
    }
}

impl<T: Shl<Output = T> + Copy, const N: usize> ShlAssign<T> for TArray<T, N> {
    /// Replaces every element `x` by `x << rhs`.
    fn shl_assign(&mut self, rhs: T)
        requires
            scalar_allowed(old(self)@, rhs, T::shl),
        ensures
            each_from_scalar(old(self)@, rhs, T::shl, final(self)@),
            T::obeys_shl_spec() ==> final(self)@ == with_scalar(
                old(self)@,
                rhs,
                |x: T, y: T| x.shl_spec(y),
            ),
    {
        scalar_array(self.get_mut(), rhs, T::shl);
        assert(T::obeys_shl_spec() ==> self@ =~= with_scalar(
            old(self)@,
            rhs,
            |x: T, y: T| x.shl_spec(y),
        ));
    }
}

/// What `<<` with a list of the same size gives is stated element by
/// element in the contract of `shl`; no value of the list's type is named
/// for it.
impl<T: Shl<Output = T> + Copy, const N: usize> vstd::std_specs::ops::ShlSpecImpl<TArray<T, N>> for TArray<T, N> {
    open spec fn obeys_shl_spec() -> bool {
        false
    }

    /// Every element can take `<<` with the element of `rhs` at its
    /// position on the right.
    open spec fn shl_req(self, rhs: TArray<T, N>) -> bool {
        pair_allowed(self@, rhs@, T::shl)
    }

    open spec fn shl_spec(self, rhs: TArray<T, N>) -> Self {
        arbitrary()
    }
}

impl<T: Shl<Output = T> + Copy, const N: usize> Shl<TArray<T, N>> for TArray<T, N> {
    type Output = Self;

    /// The list of `x << y` for every element `x` and the element `y` of
    /// `rhs` at the same position.
    fn shl(self, rhs: TArray<T, N>) -> (res: Self)
        ensures
            each_from_pair(self@, rhs@, T::shl, res@),
            T::obeys_shl_spec() ==> res@ == zip_with(self@, rhs@, |x: T, y: T| x.shl_spec(y)),
    {
        let mut res = self;
        pair_array(res.get_mut(), rhs.get(), T::shl);
        assert(T::obeys_shl_spec() ==> res@ =~= zip_with(self@, rhs@, |x: T, y: T| x.shl_spec(y)));
        res
    }
}

impl<T: Shl<Output = T> + Copy, const N: usize> ShlAssign<TArray<T, N>> for TArray<T, N> {
    /// Replaces every element `x` by `x << y`, where `y` is the element of
    /// `rhs` at the same position.
    fn shl_assign(&mut self, rhs: TArray<T, N>)
        requires
            pair_allowed(old(self)@, rhs@, T::shl),
        ensures
            each_from_pair(old(self)@, rhs@, T::shl, final(self)@),
            T::obeys_shl_spec() ==> final(self)@ == zip_with(
                old(self)@,
                rhs@,
                |x: T, y: T| x.shl_spec(y),
            ),
    {
        pair_array(self.get_mut(), rhs.get(), T::shl);
        assert(T::obeys_shl_spec() ==> self@ =~= zip_with(
            old(self)@,
            rhs@,
            |x: T, y: T| x.shl_spec(y),
        ));
    }
}

/// What `>>` with a scalar gives is stated element by element in the
/// contract of `shr`; no value of the list's type is named for it.
impl<T: Shr<Output = T> + Copy, const N: usize> vstd::std_specs::ops::ShrSpecImpl<T> for TArray<T, N> {
    open spec fn obeys_shr_spec() -> bool {
        false
    }

    /// Every element can take `>>` with `rhs` on the right.
    open spec fn shr_req(self, rhs: T) -> bool {
        scalar_allowed(self@, rhs, T::shr)
    }

    open spec fn shr_spec(self, rhs: T) -> Self {
        arbitrary()
    }
}

impl<T: Shr<Output = T> + Copy, const N: usize> Shr<T> for TArray<T, N> {
    type Output = Self;

    /// The list of `x >> rhs` for every element `x`, in the same order.
    fn shr(self, rhs: T) -> (res: Self)
        ensures
            each_from_scalar(self@, rhs, T::shr, res@),
            T::obeys_shr_spec() ==> res@ == with_scalar(self@, rhs, |x: T, y: T| x.shr_spec(y)),
    {
        let mut res = self;
        scalar_array(res.get_mut(), rhs, T::shr);
        assert(T::obeys_shr_spec() ==> res@ =~= with_scalar(
            self@,
            rhs,
            |x: T, y: T| x.shr_spec(y),
        ));
        res
    }
}

impl<T: Shr<Output = T> + Copy, const N: usize> ShrAssign<T> for TArray<T, N> {
    /// Replaces every element `x` by `x >> rhs`.
    fn shr_assign(&mut self, rhs: T)
        requires
            scalar_allowed(old(self)@, rhs, T::shr),
        ensures
            each_from_scalar(old(self)@, rhs, T::shr, final(self)@),
            T::obeys_shr_spec() ==> final(self)@ == with_scalar(
                old(self)@,
                rhs,
                |x: T, y: T| x.shr_spec(y),
            ),
    {
        scalar_array(self.get_mut(), rhs, T::shr);
        assert(T::obeys_shr_spec() ==> self@ =~= with_scalar(
            old(self)@,
            rhs,
            |x: T, y: T| x.shr_spec(y),
        ));
    }
}

/// What `>>` with a list of the same size gives is stated element by
/// element in the contract of `shr`; no value of the list's type is named
/// for it.
impl<T: Shr<Output = T> + Copy, const N: usize> vstd::std_specs::ops::ShrSpecImpl<TArray<T, N>> for TArray<T, N> {
    open spec fn obeys_shr_spec() -> bool {
        false
    }

    /// Every element can take `>>` with the element of `rhs` at its
    /// position on the right.
    open spec fn shr_req(self, rhs: TArray<T, N>) -> bool {
        pair_allowed(self@, rhs@, T::shr)
    }

    open spec fn shr_spec(self, rhs: TArray<T, N>) -> Self {
        arbitrary()
    }
}

impl<T: Shr<Output = T> + Copy, const N: usize> Shr<TArray<T, N>> for TArray<T, N> {
    type Output = Self;

    /// The list of `x >> y` for every element `x` and the element `y` of
    /// `rhs` at the same position.
    fn shr(self, rhs: TArray<T, N>) -> (res: Self)
        ensures
            each_from_pair(self@, rhs@, T::shr, res@),
            T::obeys_shr_spec() ==> res@ == zip_with(self@, rhs@, |x: T, y: T| x.shr_spec(y)),
    {
        let mut res = self;
        pair_array(res.get_mut(), rhs.get(), T::shr);
        assert(T::obeys_shr_spec() ==> res@ =~= zip_with(self@, rhs@, |x: T, y: T| x.shr_spec(y)));
        res
    }
}

impl<T: Shr<Output = T> + Copy, const N: usize> ShrAssign<TArray<T, N>> for TArray<T, N> {
    /// Replaces every element `x` by `x >> y`, where `y` is the element of
    /// `rhs` at the same position.
    fn shr_assign(&mut self, rhs: TArray<T, N>)
        requires
            pair_allowed(old(self)@, rhs@, T::shr),
        ensures
            each_from_pair(old(self)@, rhs@, T::shr, final(self)@),
            T::obeys_shr_spec() ==> final(self)@ == zip_with(
                old(self)@,
                rhs@,
                |x: T, y: T| x.shr_spec(y),
            ),
    {
        pair_array(self.get_mut(), rhs.get(), T::shr);
        assert(T::obeys_shr_spec() ==> self@ =~= zip_with(
            old(self)@,
            rhs@,
            |x: T, y: T| x.shr_spec(y),
        ));
    }
}

/// What `&` with a scalar gives is stated element by element in the
/// contract of `bitand`; no value of the list's type is named for it.
impl<T: BitAnd<Output = T> + Copy, const N: usize> vstd::std_specs::ops::BitAndSpecImpl<T> for TArray<T, N> {
    open spec fn obeys_bitand_spec() -> bool {
        false
    }

    /// Every element can take `&` with `rhs` on the right.
    open spec fn bitand_req(self, rhs: T) -> bool {
        scalar_allowed(self@, rhs, T::bitand)
    }

    open spec fn bitand_spec(self, rhs: T) -> Self {
        arbitrary()
    }
}

impl<T: BitAnd<Output = T> + Copy, const N: usize> BitAnd<T> for TArray<T, N> {
    type Output = Self;

    /// The list of `x & rhs` for every element `x`, in the same order.
    fn bitand(self, rhs: T) -> (res: Self)
        ensures
            each_from_scalar(self@, rhs, T::bitand, res@),
            T::obeys_bitand_spec() ==> res@ == with_scalar(self@, rhs, |x: T, y: T| x.bitand_spec(y)),
    {
        let mut res = self;
        scalar_array(res.get_mut(), rhs, T::bitand);
        assert(T::obeys_bitand_spec() ==> res@ =~= with_scalar(
            self@,
            rhs,
            |x: T, y: T| x.bitand_spec(y),
        ));
        res
    }
}

impl<T: BitAnd<Output = T> + Copy, const N: usize> BitAndAssign<T> for TArray<T, N> {
    /// Replaces every element `x` by `x & rhs`.
    fn bitand_assign(&mut self, rhs: T)
        requires
            scalar_allowed(old(self)@, rhs, T::bitand),
        ensures
            each_from_scalar(old(self)@, rhs, T::bitand, final(self)@),
            T::obeys_bitand_spec() ==> final(self)@ == with_scalar(
                old(self)@,
                rhs,
                |x: T, y: T| x.bitand_spec(y),
            ),
    {
        scalar_array(self.get_mut(), rhs, T::bitand);
        assert(T::obeys_bitand_spec() ==> self@ =~= with_scalar(
            old(self)@,
            rhs,
            |x: T, y: T| x.bitand_spec(y),
        ));
    }
}

/// What `&` with a list of the same size gives is stated element by
/// element in the contract of `bitand`; no value of the list's type is named
/// for it.
impl<T: BitAnd<Output = T> + Copy, const N: usize> vstd::std_specs::ops::BitAndSpecImpl<TArray<T, N>> for TArray<T, N> {
    open spec fn obeys_bitand_spec() -> bool {
        false
    }

    /// Every element can take `&` with the element of `rhs` at its
    /// position on the right.
    open spec fn bitand_req(self, rhs: TArray<T, N>) -> bool {
        pair_allowed(self@, rhs@, T::bitand)
    }

    open spec fn bitand_spec(self, rhs: TArray<T, N>) -> Self {
        arbitrary()
    }
}

impl<T: BitAnd<Output = T> + Copy, const N: usize> BitAnd<TArray<T, N>> for TArray<T, N> {
    type Output = Self;

    /// The list of `x & y` for every element `x` and the element `y` of
    /// `rhs` at the same position.
    fn bitand(self, rhs: TArray<T, N>) -> (res: Self)
        ensures
            each_from_pair(self@, rhs@, T::bitand, res@),
            T::obeys_bitand_spec() ==> res@ == zip_with(self@, rhs@, |x: T, y: T| x.bitand_spec(y)),
    {
        let mut res = self;
        pair_array(res.get_mut(), rhs.get(), T::bitand);
        assert(T::obeys_bitand_spec() ==> res@ =~= zip_with(
            self@,
            rhs@,
            |x: T, y: T| x.bitand_spec(y),
        ));
        res
    }
}

impl<T: BitAnd<Output = T> + Copy, const N: usize> BitAndAssign<TArray<T, N>> for TArray<T, N> {
    /// Replaces every element `x` by `x & y`, where `y` is the element of
    /// `rhs` at the same position.
    fn bitand_assign(&mut self, rhs: TArray<T, N>)
        requires
            pair_allowed(old(self)@, rhs@, T::bitand),
        ensures
            each_from_pair(old(self)@, rhs@, T::bitand, final(self)@),
            T::obeys_bitand_spec() ==> final(self)@ == zip_with(
                old(self)@,
                rhs@,
                |x: T, y: T| x.bitand_spec(y),
            ),
    {
        pair_array(self.get_mut(), rhs.get(), T::bitand);
        assert(T::obeys_bitand_spec() ==> self@ =~= zip_with(
            old(self)@,
            rhs@,
            |x: T, y: T| x.bitand_spec(y),
        ));
    }
}

/// What `|` with a scalar gives is stated element by element in the
/// contract of `bitor`; no value of the list's type is named for it.
impl<T: BitOr<Output = T> + Copy, const N: usize> vstd::std_specs::ops::BitOrSpecImpl<T> for TArray<T, N> {
    open spec fn obeys_bitor_spec() -> bool {
        false
    }

    /// Every element can take `|` with `rhs` on the right.
    open spec fn bitor_req(self, rhs: T) -> bool {
        scalar_allowed(self@, rhs, T::bitor)
    }

    open spec fn bitor_spec(self, rhs: T) -> Self {
        arbitrary()
    }
}

impl<T: BitOr<Output = T> + Copy, const N: usize> BitOr<T> for TArray<T, N> {
    type Output = Self;

    /// The list of `x | rhs` for every element `x`, in the same order.
    fn bitor(self, rhs: T) -> (res: Self)
        ensures
            each_from_scalar(self@, rhs, T::bitor, res@),
            T::obeys_bitor_spec() ==> res@ == with_scalar(self@, rhs, |x: T, y: T| x.bitor_spec(y)),
    {
        let mut res = self;
        scalar_array(res.get_mut(), rhs, T::bitor);
        assert(T::obeys_bitor_spec() ==> res@ =~= with_scalar(
            self@,
            rhs,
            |x: T, y: T| x.bitor_spec(y),
        ));
        res
    }
}

impl<T: BitOr<Output = T> + Copy, const N: usize> BitOrAssign<T> for TArray<T, N> {
    /// Replaces every element `x` by `x | rhs`.
    fn bitor_assign(&mut self, rhs: T)
        requires
            scalar_allowed(old(self)@, rhs, T::bitor),
        ensures
            each_from_scalar(old(self)@, rhs, T::bitor, final(self)@),
            T::obeys_bitor_spec() ==> final(self)@ == with_scalar(
                old(self)@,
                rhs,
                |x: T, y: T| x.bitor_spec(y),
            ),
    {
        scalar_array(self.get_mut(), rhs, T::bitor);
        assert(T::obeys_bitor_spec() ==> self@ =~= with_scalar(
            old(self)@,
            rhs,
            |x: T, y: T| x.bitor_spec(y),
        ));
    }
}

/// What `|` with a list of the same size gives is stated element by
/// element in the contract of `bitor`; no value of the list's type is named
/// for it.
impl<T: BitOr<Output = T> + Copy, const N: usize> vstd::std_specs::ops::BitOrSpecImpl<TArray<T, N>> for TArray<T, N> {
    open spec fn obeys_bitor_spec() -> bool {
        false
    }

    /// Every element can take `|` with the element of `rhs` at its
    /// position on the right.
    open spec fn bitor_req(self, rhs: TArray<T, N>) -> bool {
        pair_allowed(self@, rhs@, T::bitor)
    }

    open spec fn bitor_spec(self, rhs: TArray<T, N>) -> Self {
        arbitrary()
    }
}

impl<T: BitOr<Output = T> + Copy, const N: usize> BitOr<TArray<T, N>> for TArray<T, N> {
    type Output = Self;

    /// The list of `x | y` for every element `x` and the element `y` of
    /// `rhs` at the same position.
    fn bitor(self, rhs: TArray<T, N>) -> (res: Self)
        ensures
            each_from_pair(self@, rhs@, T::bitor, res@),
            T::obeys_bitor_spec() ==> res@ == zip_with(self@, rhs@, |x: T, y: T| x.bitor_spec(y)),
    {
        let mut res = self;
        pair_array(res.get_mut(), rhs.get(), T::bitor);
        assert(T::obeys_bitor_spec() ==> res@ =~= zip_with(
            self@,
            rhs@,
            |x: T, y: T| x.bitor_spec(y),
        ));
        res
    }
}

impl<T: BitOr<Output = T> + Copy, const N: usize> BitOrAssign<TArray<T, N>> for TArray<T, N> {
    /// Replaces every element `x` by `x | y`, where `y` is the element of
    /// `rhs` at the same position.
    fn bitor_assign(&mut self, rhs: TArray<T, N>)
        requires
            pair_allowed(old(self)@, rhs@, T::bitor),
        ensures
            each_from_pair(old(self)@, rhs@, T::bitor, final(self)@),
            T::obeys_bitor_spec() ==> final(self)@ == zip_with(
                old(self)@,
                rhs@,
                |x: T, y: T| x.bitor_spec(y),
            ),
    {
        pair_array(self.get_mut(), rhs.get(), T::bitor);
        assert(T::obeys_bitor_spec() ==> self@ =~= zip_with(
            old(self)@,
            rhs@,
            |x: T, y: T| x.bitor_spec(y),
        ));
    }
}

/// What `^` with a scalar gives is stated element by element in the
/// contract of `bitxor`; no value of the list's type is named for it.
impl<T: BitXor<Output = T> + Copy, const N: usize> vstd::std_specs::ops::BitXorSpecImpl<T> for TArray<T, N> {
    open spec fn obeys_bitxor_spec() -> bool {
        false
    }

    /// Every element can take `^` with `rhs` on the right.
    open spec fn bitxor_req(self, rhs: T) -> bool {
        scalar_allowed(self@, rhs, T::bitxor)
    }

    open spec fn bitxor_spec(self, rhs: T) -> Self {
        arbitrary()
    }
}

impl<T: BitXor<Output = T> + Copy, const N: usize> BitXor<T> for TArray<T, N> {
    type Output = Self;

    /// The list of `x ^ rhs` for every element `x`, in the same order.
    fn bitxor(self, rhs: T) -> (res: Self)
        ensures
            each_from_scalar(self@, rhs, T::bitxor, res@),
            T::obeys_bitxor_spec() ==> res@ == with_scalar(self@, rhs, |x: T, y: T| x.bitxor_spec(y)),
    {
        let mut res = self;
        scalar_array(res.get_mut(), rhs, T::bitxor);
        assert(T::obeys_bitxor_spec() ==> res@ =~= with_scalar(
            self@,
            rhs,
            |x: T, y: T| x.bitxor_spec(y),
        ));
        res
    }
}

impl<T: BitXor<Output = T> + Copy, const N: usize> BitXorAssign<T> for TArray<T, N> {
    /// Replaces every element `x` by `x ^ rhs`.
    fn bitxor_assign(&mut self, rhs: T)
        requires
            scalar_allowed(old(self)@, rhs, T::bitxor),
        ensures
            each_from_scalar(old(self)@, rhs, T::bitxor, final(self)@),
            T::obeys_bitxor_spec() ==> final(self)@ == with_scalar(
                old(self)@,
                rhs,
                |x: T, y: T| x.bitxor_spec(y),
            ),
    {
        scalar_array(self.get_mut(), rhs, T::bitxor);
        assert(T::obeys_bitxor_spec() ==> self@ =~= with_scalar(
            old(self)@,
            rhs,
            |x: T, y: T| x.bitxor_spec(y),
        ));
    }
}

/// What `^` with a list of the same size gives is stated element by
/// element in the contract of `bitxor`; no value of the list's type is named
/// for it.
impl<T: BitXor<Output = T> + Copy, const N: usize> vstd::std_specs::ops::BitXorSpecImpl<TArray<T, N>> for TArray<T, N> {
    open spec fn obeys_bitxor_spec() -> bool {
        false
    }

    /// Every element can take `^` with the element of `rhs` at its
    /// position on the right.
    open spec fn bitxor_req(self, rhs: TArray<T, N>) -> bool {
        pair_allowed(self@, rhs@, T::bitxor)
    }

    open spec fn bitxor_spec(self, rhs: TArray<T, N>) -> Self {
        arbitrary()
    }
}

impl<T: BitXor<Output = T> + Copy, const N: usize> BitXor<TArray<T, N>> for TArray<T, N> {
    type Output = Self;

    /// The list of `x ^ y` for every element `x` and the element `y` of
    /// `rhs` at the same position.
    fn bitxor(self, rhs: TArray<T, N>) -> (res: Self)
        ensures
            each_from_pair(self@, rhs@, T::bitxor, res@),
            T::obeys_bitxor_spec() ==> res@ == zip_with(self@, rhs@, |x: T, y: T| x.bitxor_spec(y)),
    {
        let mut res = self;
        pair_array(res.get_mut(), rhs.get(), T::bitxor);
        assert(T::obeys_bitxor_spec() ==> res@ =~= zip_with(
            self@,
            rhs@,
            |x: T, y: T| x.bitxor_spec(y),
        ));
        res
    }
}

impl<T: BitXor<Output = T> + Copy, const N: usize> BitXorAssign<TArray<T, N>> for TArray<T, N> {
    /// Replaces every element `x` by `x ^ y`, where `y` is the element of
    /// `rhs` at the same position.
    fn bitxor_assign(&mut self, rhs: TArray<T, N>)
        requires
            pair_allowed(old(self)@, rhs@, T::bitxor),
        ensures
            each_from_pair(old(self)@, rhs@, T::bitxor, final(self)@),
            T::obeys_bitxor_spec() ==> final(self)@ == zip_with(
                old(self)@,
                rhs@,
                |x: T, y: T| x.bitxor_spec(y),
            ),
    {
        pair_array(self.get_mut(), rhs.get(), T::bitxor);
        assert(T::obeys_bitxor_spec() ==> self@ =~= zip_with(
            old(self)@,
            rhs@,
            |x: T, y: T| x.bitxor_spec(y),
        ));
    }
}

} // verus!
