use vstd::prelude::*;
use vstd::std_specs::ops::AddSpec;
use vstd::std_specs::ops::SubSpec;
use vstd::std_specs::ops::MulSpec;
use vstd::std_specs::ops::DivSpec;
use vstd::std_specs::ops::RemSpec;
use vstd::std_specs::ops::ShlSpec;
use vstd::std_specs::ops::ShrSpec;
use vstd::std_specs::ops::BitAndSpec;
use vstd::std_specs::ops::BitOrSpec;
use vstd::std_specs::ops::BitXorSpec;
use crate::elementwise::each_from_pair;
use crate::elementwise::each_from_scalar;
use crate::elementwise::each_onto;
use crate::elementwise::pair_allowed;
use crate::elementwise::pair_vec;
use crate::elementwise::pair_vec_onto;
use crate::elementwise::scalar_allowed;
use crate::elementwise::scalar_vec;
use crate::elementwise::with_scalar;
use crate::elementwise::zip_onto;
use crate::elementwise::zip_with;
use crate::tarray::TList;
use crate::tarray::TVector;
use core::ops::Add;
use core::ops::AddAssign;
use core::ops::Sub;
use core::ops::SubAssign;
use core::ops::Mul;
use core::ops::MulAssign;
use core::ops::Div;
use core::ops::DivAssign;
use core::ops::Rem;
use core::ops::RemAssign;
use core::ops::Shl;
use core::ops::ShlAssign;
use core::ops::Shr;
use core::ops::ShrAssign;
use core::ops::BitAnd;
use core::ops::BitAndAssign;
use core::ops::BitOr;
use core::ops::BitOrAssign;
use core::ops::BitXor;
use core::ops::BitXorAssign;

verus! {

/// What `+` with a scalar gives is stated element by element in the
/// contract of `add`; no value of the list's type is named for it.
impl<T: Add<Output = T> + Copy> vstd::std_specs::ops::AddSpecImpl<T> for TVector<T> {
    open spec fn obeys_add_spec() -> bool {
        false
    }

    /// Every element can take `+` with `rhs` on the right.
    open spec fn add_req(self, rhs: T) -> bool {
        scalar_allowed(self@, rhs, T::add)
    }

    open spec fn add_spec(self, rhs: T) -> Self {
        arbitrary()
    }
}

impl<T: Add<Output = T> + Copy> Add<T> for TVector<T> {
    type Output = Self;

    /// The list of `x + rhs` for every element `x`, in the same order.
    fn add(self, rhs: T) -> (res: Self)
        ensures
            each_from_scalar(self@, rhs, T::add, res@),
            T::obeys_add_spec() ==> res@ == with_scalar(self@, rhs, |x: T, y: T| x.add_spec(y)),
    {
        let mut res = self;
        scalar_vec(res.get_mut(), rhs, T::add);
        assert(T::obeys_add_spec() ==> res@ =~= with_scalar(
            self@,
            rhs,
            |x: T, y: T| x.add_spec(y),
        ));
        res
    }
}

impl<T: Add<Output = T> + Copy> AddAssign<T> for TVector<T> {
    /// Replaces every element `x` by `x + rhs`; the length stays.
    fn add_assign(&mut self, rhs: T)
        requires
            scalar_allowed(old(self)@, rhs, T::add),
        ensures
            each_from_scalar(old(self)@, rhs, T::add, final(self)@),
            T::obeys_add_spec() ==> final(self)@ == with_scalar(
                old(self)@,
                rhs,
                |x: T, y: T| x.add_spec(y),
            ),
    {
        scalar_vec(self.get_mut(), rhs, T::add);
        assert(T::obeys_add_spec() ==> self@ =~= with_scalar(
            old(self)@,
            rhs,
            |x: T, y: T| x.add_spec(y),
        ));
    }
}

/// What `+` with another list gives is stated element by element in the
/// contract of `add`; no value of the list's type is named for it.
impl<T: Add<Output = T> + Copy> vstd::std_specs::ops::AddSpecImpl<TVector<T>> for TVector<T> {
    open spec fn obeys_add_spec() -> bool {
        false
    }

    /// At every position that both lists reach, the element can take `+`
    /// with the element of `rhs` on the right.
    open spec fn add_req(self, rhs: TVector<T>) -> bool {
        pair_allowed(self@, rhs@, T::add)
    }

    open spec fn add_spec(self, rhs: TVector<T>) -> Self {
        arbitrary()
    }
}

impl<T: Add<Output = T> + Copy> Add<TVector<T>> for TVector<T> {
    type Output = Self;

    /// A new list, as long as the shorter of the two, of `x + y` for the
    /// elements `x` and `y` of the two at each position. What the longer one
    /// holds beyond that is dropped; with an empty operand the result is
    /// empty.
    fn add(self, rhs: TVector<T>) -> (res: Self)
        ensures
            each_from_pair(self@, rhs@, T::add, res@),
            T::obeys_add_spec() ==> res@ == zip_with(self@, rhs@, |x: T, y: T| x.add_spec(y)),
    {
        let data = pair_vec(self.get(), rhs.get(), T::add);
        assert(T::obeys_add_spec() ==> data@ =~= zip_with(self@, rhs@, |x: T, y: T| x.add_spec(y)));
        TVector::from(data)
    }
}

impl<T: Add<Output = T> + Copy> AddAssign<TVector<T>> for TVector<T> {
    /// Replaces every element `x` that `rhs` reaches by `x + y`, where `y`
    /// is the element of `rhs` at the same position. The length stays, and
    /// so do the elements beyond the length of `rhs`.
    fn add_assign(&mut self, rhs: TVector<T>)
        requires
            pair_allowed(old(self)@, rhs@, T::add),
        ensures
            each_onto(old(self)@, rhs@, T::add, final(self)@),
            T::obeys_add_spec() ==> final(self)@ == zip_onto(
                old(self)@,
                rhs@,
                |x: T, y: T| x.add_spec(y),
            ),
    {
        pair_vec_onto(self.get_mut(), rhs.get(), T::add);
        assert(T::obeys_add_spec() ==> self@ =~= zip_onto(
            old(self)@,
            rhs@,
            |x: T, y: T| x.add_spec(y),
        ));
    }
}

/// What `-` with a scalar gives is stated element by element in the
/// contract of `sub`; no value of the list's type is named for it.
impl<T: Sub<Output = T> + Copy> vstd::std_specs::ops::SubSpecImpl<T> for TVector<T> {
    open spec fn obeys_sub_spec() -> bool {
        false
    }

    /// Every element can take `-` with `rhs` on the right.
    open spec fn sub_req(self, rhs: T) -> bool {
        scalar_allowed(self@, rhs, T::sub)
    }

    open spec fn sub_spec(self, rhs: T) -> Self {
        arbitrary()
    }
}

impl<T: Sub<Output = T> + Copy> Sub<T> for TVector<T> {
    type Output = Self;

    /// The list of `x - rhs` for every element `x`, in the same order.
    fn sub(self, rhs: T) -> (res: Self)
        ensures
            each_from_scalar(self@, rhs, T::sub, res@),
            T::obeys_sub_spec() ==> res@ == with_scalar(self@, rhs, |x: T, y: T| x.sub_spec(y)),
    {
        let mut res = self;
        scalar_vec(res.get_mut(), rhs, T::sub);
        assert(T::obeys_sub_spec() ==> res@ =~= with_scalar(
            self@,
            rhs,
            |x: T, y: T| x.sub_spec(y),
        ));
        res
    }
}

impl<T: Sub<Output = T> + Copy> SubAssign<T> for TVector<T> {
    /// Replaces every element `x` by `x - rhs`; the length stays.
    fn sub_assign(&mut self, rhs: T)
        requires
            scalar_allowed(old(self)@, rhs, T::sub),
        ensures
            each_from_scalar(old(self)@, rhs, T::sub, final(self)@),
            T::obeys_sub_spec() ==> final(self)@ == with_scalar(
                old(self)@,
                rhs,
                |x: T, y: T| x.sub_spec(y),
            ),
    {
        scalar_vec(self.get_mut(), rhs, T::sub);
        assert(T::obeys_sub_spec() ==> self@ =~= with_scalar(
            old(self)@,
            rhs,
            |x: T, y: T| x.sub_spec(y),
        ));
    }
}

/// What `-` with another list gives is stated element by element in the
/// contract of `sub`; no value of the list's type is named for it.
impl<T: Sub<Output = T> + Copy> vstd::std_specs::ops::SubSpecImpl<TVector<T>> for TVector<T> {
    open spec fn obeys_sub_spec() -> bool {
        false
    }

    /// At every position that both lists reach, the element can take `-`
    /// with the element of `rhs` on the right.
    open spec fn sub_req(self, rhs: TVector<T>) -> bool {
        pair_allowed(self@, rhs@, T::sub)
    }

    open spec fn sub_spec(self, rhs: TVector<T>) -> Self {
        arbitrary()
    }
}

impl<T: Sub<Output = T> + Copy> Sub<TVector<T>> for TVector<T> {
    type Output = Self;

    /// A new list, as long as the shorter of the two, of `x - y` for the
    /// elements `x` and `y` of the two at each position. What the longer one
    /// holds beyond that is dropped; with an empty operand the result is
    /// empty.
    fn sub(self, rhs: TVector<T>) -> (res: Self)
        ensures
            each_from_pair(self@, rhs@, T::sub, res@),
            T::obeys_sub_spec() ==> res@ == zip_with(self@, rhs@, |x: T, y: T| x.sub_spec(y)),
    {
        let data = pair_vec(self.get(), rhs.get(), T::sub);
        assert(T::obeys_sub_spec() ==> data@ =~= zip_with(self@, rhs@, |x: T, y: T| x.sub_spec(y)));
        TVector::from(data)
    }
}

impl<T: Sub<Output = T> + Copy> SubAssign<TVector<T>> for TVector<T> {
    /// Replaces every element `x` that `rhs` reaches by `x - y`, where `y`
    /// is the element of `rhs` at the same position. The length stays, and
    /// so do the elements beyond the length of `rhs`.
    fn sub_assign(&mut self, rhs: TVector<T>)
        requires
            pair_allowed(old(self)@, rhs@, T::sub),
        ensures
            each_onto(old(self)@, rhs@, T::sub, final(self)@),
            T::obeys_sub_spec() ==> final(self)@ == zip_onto(
                old(self)@,
                rhs@,
                |x: T, y: T| x.sub_spec(y),
            ),
    {
        pair_vec_onto(self.get_mut(), rhs.get(), T::sub);
        assert(T::obeys_sub_spec() ==> self@ =~= zip_onto(
            old(self)@,
            rhs@,
            |x: T, y: T| x.sub_spec(y),
        ));
    }
}

/// What `*` with a scalar gives is stated element by element in the
/// contract of `mul`; no value of the list's type is named for it.
impl<T: Mul<Output = T> + Copy> vstd::std_specs::ops::MulSpecImpl<T> for TVector<T> {
    open spec fn obeys_mul_spec() -> bool {
        false
    }

    /// Every element can take `*` with `rhs` on the right.
    open spec fn mul_req(self, rhs: T) -> bool {
        scalar_allowed(self@, rhs, T::mul)
    }

    open spec fn mul_spec(self, rhs: T) -> Self {
        arbitrary()
    }
}

impl<T: Mul<Output = T> + Copy> Mul<T> for TVector<T> {
    type Output = Self;

    /// The list of `x * rhs` for every element `x`, in the same order.
    fn mul(self, rhs: T) -> (res: Self)
        ensures
            each_from_scalar(self@, rhs, T::mul, res@),
            T::obeys_mul_spec() ==> res@ == with_scalar(self@, rhs, |x: T, y: T| x.mul_spec(y)),
    {
        let mut res = self;
        scalar_vec(res.get_mut(), rhs, T::mul);
        assert(T::obeys_mul_spec() ==> res@ =~= with_scalar(
            self@,
            rhs,
            |x: T, y: T| x.mul_spec(y),
        ));
        res
    }
}

impl<T: Mul<Output = T> + Copy> MulAssign<T> for TVector<T> {
    /// Replaces every element `x` by `x * rhs`; the length stays.
    fn mul_assign(&mut self, rhs: T)
        requires
            scalar_allowed(old(self)@, rhs, T::mul),
        ensures
            each_from_scalar(old(self)@, rhs, T::mul, final(self)@),
            T::obeys_mul_spec() ==> final(self)@ == with_scalar(
                old(self)@,
                rhs,
                |x: T, y: T| x.mul_spec(y),
            ),
    {
        scalar_vec(self.get_mut(), rhs, T::mul);
        assert(T::obeys_mul_spec() ==> self@ =~= with_scalar(
            old(self)@,
            rhs,
            |x: T, y: T| x.mul_spec(y),
        ));
    }
}

/// What `*` with another list gives is stated element by element in the
/// contract of `mul`; no value of the list's type is named for it.
impl<T: Mul<Output = T> + Copy> vstd::std_specs::ops::MulSpecImpl<TVector<T>> for TVector<T> {
    open spec fn obeys_mul_spec() -> bool {
        false
    }

    /// At every position that both lists reach, the element can take `*`
    /// with the element of `rhs` on the right.
    open spec fn mul_req(self, rhs: TVector<T>) -> bool {
        pair_allowed(self@, rhs@, T::mul)
    }

    open spec fn mul_spec(self, rhs: TVector<T>) -> Self {
        arbitrary()
    }
}

impl<T: Mul<Output = T> + Copy> Mul<TVector<T>> for TVector<T> {
    type Output = Self;

    /// A new list, as long as the shorter of the two, of `x * y` for the
    /// elements `x` and `y` of the two at each position. What the longer one
    /// holds beyond that is dropped; with an empty operand the result is
    /// empty.
    fn mul(self, rhs: TVector<T>) -> (res: Self)
        ensures
            each_from_pair(self@, rhs@, T::mul, res@),
            T::obeys_mul_spec() ==> res@ == zip_with(self@, rhs@, |x: T, y: T| x.mul_spec(y)),
    {
        let data = pair_vec(self.get(), rhs.get(), T::mul);
        assert(T::obeys_mul_spec() ==> data@ =~= zip_with(self@, rhs@, |x: T, y: T| x.mul_spec(y)));
        TVector::from(data)
    }
}

impl<T: Mul<Output = T> + Copy> MulAssign<TVector<T>> for TVector<T> {
    /// Replaces every element `x` that `rhs` reaches by `x * y`, where `y`
    /// is the element of `rhs` at the same position. The length stays, and
    /// so do the elements beyond the length of `rhs`.
    fn mul_assign(&mut self, rhs: TVector<T>)
        requires
            pair_allowed(old(self)@, rhs@, T::mul),
        ensures
            each_onto(old(self)@, rhs@, T::mul, final(self)@),
            T::obeys_mul_spec() ==> final(self)@ == zip_onto(
                old(self)@,
                rhs@,
                |x: T, y: T| x.mul_spec(y),
            ),
    {
        pair_vec_onto(self.get_mut(), rhs.get(), T::mul);
        assert(T::obeys_mul_spec() ==> self@ =~= zip_onto(
            old(self)@,
            rhs@,
            |x: T, y: T| x.mul_spec(y),
        ));
    }
}

/// What `/` with a scalar gives is stated element by element in the
/// contract of `div`; no value of the list's type is named for it.
impl<T: Div<Output = T> + Copy> vstd::std_specs::ops::DivSpecImpl<T> for TVector<T> {
    open spec fn obeys_div_spec() -> bool {
        false
    }

    /// Every element can take `/` with `rhs` on the right.
    open spec fn div_req(self, rhs: T) -> bool {
        scalar_allowed(self@, rhs, T::div)
    }

    open spec fn div_spec(self, rhs: T) -> Self {
        arbitrary()
    }
}

impl<T: Div<Output = T> + Copy> Div<T> for TVector<T> {
    type Output = Self;

    /// The list of `x / rhs` for every element `x`, in the same order.
    fn div(self, rhs: T) -> (res: Self)
        ensures
            each_from_scalar(self@, rhs, T::div, res@),
            T::obeys_div_spec() ==> res@ == with_scalar(self@, rhs, |x: T, y: T| x.div_spec(y)),
    {
        let mut res = self;
        scalar_vec(res.get_mut(), rhs, T::div);
        assert(T::obeys_div_spec() ==> res@ =~= with_scalar(
            self@,
            rhs,
            |x: T, y: T| x.div_spec(y),
        ));
        res
    }
}

impl<T: Div<Output = T> + Copy> DivAssign<T> for TVector<T> {
    /// Replaces every element `x` by `x / rhs`; the length stays.
    fn div_assign(&mut self, rhs: T)
        requires
            scalar_allowed(old(self)@, rhs, T::div),
        ensures
            each_from_scalar(old(self)@, rhs, T::div, final(self)@),
            T::obeys_div_spec() ==> final(self)@ == with_scalar(
                old(self)@,
                rhs,
                |x: T, y: T| x.div_spec(y),
            ),
    {
        scalar_vec(self.get_mut(), rhs, T::div);
        assert(T::obeys_div_spec() ==> self@ =~= with_scalar(
            old(self)@,
            rhs,
            |x: T, y: T| x.div_spec(y),
        ));
    }
}

/// What `/` with another list gives is stated element by element in the
/// contract of `div`; no value of the list's type is named for it.
impl<T: Div<Output = T> + Copy> vstd::std_specs::ops::DivSpecImpl<TVector<T>> for TVector<T> {
    open spec fn obeys_div_spec() -> bool {
        false
    }

    /// At every position that both lists reach, the element can take `/`
    /// with the element of `rhs` on the right.
    open spec fn div_req(self, rhs: TVector<T>) -> bool {
        pair_allowed(self@, rhs@, T::div)
    }

    open spec fn div_spec(self, rhs: TVector<T>) -> Self {
        arbitrary()
    }
}

impl<T: Div<Output = T> + Copy> Div<TVector<T>> for TVector<T> {
    type Output = Self;

    /// A new list, as long as the shorter of the two, of `x / y` for the
    /// elements `x` and `y` of the two at each position. What the longer one
    /// holds beyond that is dropped; with an empty operand the result is
    /// empty.
    fn div(self, rhs: TVector<T>) -> (res: Self)
        ensures
            each_from_pair(self@, rhs@, T::div, res@),
            T::obeys_div_spec() ==> res@ == zip_with(self@, rhs@, |x: T, y: T| x.div_spec(y)),
    {
        let data = pair_vec(self.get(), rhs.get(), T::div);
        assert(T::obeys_div_spec() ==> data@ =~= zip_with(self@, rhs@, |x: T, y: T| x.div_spec(y)));
        TVector::from(data)
    }
}

impl<T: Div<Output = T> + Copy> DivAssign<TVector<T>> for TVector<T> {
    /// Replaces every element `x` that `rhs` reaches by `x / y`, where `y`
    /// is the element of `rhs` at the same position. The length stays, and
    /// so do the elements beyond the length of `rhs`.
    fn div_assign(&mut self, rhs: TVector<T>)
        requires
            pair_allowed(old(self)@, rhs@, T::div),
        ensures
            each_onto(old(self)@, rhs@, T::div, final(self)@),
            T::obeys_div_spec() ==> final(self)@ == zip_onto(
                old(self)@,
                rhs@,
                |x: T, y: T| x.div_spec(y),
            ),
    {
        pair_vec_onto(self.get_mut(), rhs.get(), T::div);
        assert(T::obeys_div_spec() ==> self@ =~= zip_onto(
            old(self)@,
            rhs@,
            |x: T, y: T| x.div_spec(y),
        ));
    }
}

/// What `%` with a scalar gives is stated element by element in the
/// contract of `rem`; no value of the list's type is named for it.
impl<T: Rem<Output = T> + Copy> vstd::std_specs::ops::RemSpecImpl<T> for TVector<T> {
    open spec fn obeys_rem_spec() -> bool {
        false
    }

    /// Every element can take `%` with `rhs` on the right.
    open spec fn rem_req(self, rhs: T) -> bool {
        scalar_allowed(self@, rhs, T::rem)
    }

    open spec fn rem_spec(self, rhs: T) -> Self {
        arbitrary()
    }
}

impl<T: Rem<Output = T> + Copy> Rem<T> for TVector<T> {
    type Output = Self;

    /// The list of `x % rhs` for every element `x`, in the same order.
    fn rem(self, rhs: T) -> (res: Self)
        ensures
            each_from_scalar(self@, rhs, T::rem, res@),
            T::obeys_rem_spec() ==> res@ == with_scalar(self@, rhs, |x: T, y: T| x.rem_spec(y)),
    {
        let mut res = self;
        scalar_vec(res.get_mut(), rhs, T::rem);
        assert(T::obeys_rem_spec() ==> res@ =~= with_scalar(
            self@,
            rhs,
            |x: T, y: T| x.rem_spec(y),
        ));
        res
    }
}

impl<T: Rem<Output = T> + Copy> RemAssign<T> for TVector<T> {
    /// Replaces every element `x` by `x % rhs`; the length stays.
    fn rem_assign(&mut self, rhs: T)
        requires
            scalar_allowed(old(self)@, rhs, T::rem),
        ensures
            each_from_scalar(old(self)@, rhs, T::rem, final(self)@),
            T::obeys_rem_spec() ==> final(self)@ == with_scalar(
                old(self)@,
                rhs,
                |x: T, y: T| x.rem_spec(y),
            ),
    {
        scalar_vec(self.get_mut(), rhs, T::rem);
        assert(T::obeys_rem_spec() ==> self@ =~= with_scalar(
            old(self)@,
            rhs,
            |x: T, y: T| x.rem_spec(y),
        ));
    }
}

/// What `%` with another list gives is stated element by element in the
/// contract of `rem`; no value of the list's type is named for it.
impl<T: Rem<Output = T> + Copy> vstd::std_specs::ops::RemSpecImpl<TVector<T>> for TVector<T> {
    open spec fn obeys_rem_spec() -> bool {
        false
    }

    /// At every position that both lists reach, the element can take `%`
    /// with the element of `rhs` on the right.
    open spec fn rem_req(self, rhs: TVector<T>) -> bool {
        pair_allowed(self@, rhs@, T::rem)
    }

    open spec fn rem_spec(self, rhs: TVector<T>) -> Self {
        arbitrary()
    }
}

impl<T: Rem<Output = T> + Copy> Rem<TVector<T>> for TVector<T> {
    type Output = Self;

    /// A new list, as long as the shorter of the two, of `x % y` for the
    /// elements `x` and `y` of the two at each position. What the longer one
    /// holds beyond that is dropped; with an empty operand the result is
    /// empty.
    fn rem(self, rhs: TVector<T>) -> (res: Self)
        ensures
            each_from_pair(self@, rhs@, T::rem, res@),
            T::obeys_rem_spec() ==> res@ == zip_with(self@, rhs@, |x: T, y: T| x.rem_spec(y)),
    {
        let data = pair_vec(self.get(), rhs.get(), T::rem);
        assert(T::obeys_rem_spec() ==> data@ =~= zip_with(self@, rhs@, |x: T, y: T| x.rem_spec(y)));
        TVector::from(data)
    }
}

impl<T: Rem<Output = T> + Copy> RemAssign<TVector<T>> for TVector<T> {
    /// Replaces every element `x` that `rhs` reaches by `x % y`, where `y`
    /// is the element of `rhs` at the same position. The length stays, and
    /// so do the elements beyond the length of `rhs`.
    fn rem_assign(&mut self, rhs: TVector<T>)
        requires
            pair_allowed(old(self)@, rhs@, T::rem),
        ensures
            each_onto(old(self)@, rhs@, T::rem, final(self)@),
            T::obeys_rem_spec() ==> final(self)@ == zip_onto(
                old(self)@,
                rhs@,
                |x: T, y: T| x.rem_spec(y),
            ),
    {
        pair_vec_onto(self.get_mut(), rhs.get(), T::rem);
        assert(T::obeys_rem_spec() ==> self@ =~= zip_onto(
            old(self)@,
            rhs@,
            |x: T, y: T| x.rem_spec(y),
        ));
    }
}

/// What `<<` with a scalar gives is stated element by element in the
/// contract of `shl`; no value of the list's type is named for it.
impl<T: Shl<Output = T> + Copy> vstd::std_specs::ops::ShlSpecImpl<T> for TVector<T> {
    open spec fn obeys_shl_spec() -> bool {
        false
    }

    /// Every element can take `<<` with `rhs` on the right.
    open spec fn shl_req(self, rhs: T) -> bool {
        scalar_allowed(self@, rhs, T::shl)
    }

    open spec fn shl_spec(self, rhs: T) -> Self {
        arbitrary()
    }
}

impl<T: Shl<Output = T> + Copy> Shl<T> for TVector<T> {
    type Output = Self;

    /// The list of `x << rhs` for every element `x`, in the same order.
    fn shl(self, rhs: T) -> (res: Self)
        ensures
            each_from_scalar(self@, rhs, T::shl, res@),
            T::obeys_shl_spec() ==> res@ == with_scalar(self@, rhs, |x: T, y: T| x.shl_spec(y)),
    {
        let mut res = self;
        scalar_vec(res.get_mut(), rhs, T::shl);
        assert(T::obeys_shl_spec() ==> res@ =~= with_scalar(
            self@,
            rhs,
            |x: T, y: T| x.shl_spec(y),
        ));
        res
    }
}

impl<T: Shl<Output = T> + Copy> ShlAssign<T> for TVector<T> {
    /// Replaces every element `x` by `x << rhs`; the length stays.
    fn shl_assign(&mut self, rhs: T)
        requires
            scalar_allowed(old(self)@, rhs, T::shl),
        ensures
            each_from_scalar(old(self)@, rhs, T::shl, final(self)@),
            T::obeys_shl_spec() ==> final(self)@ == with_scalar(
                old(self)@,
                rhs,
                |x: T, y: T| x.shl_spec(y),
            ),
    {
        scalar_vec(self.get_mut(), rhs, T::shl);
        assert(T::obeys_shl_spec() ==> self@ =~= with_scalar(
            old(self)@,
            rhs,
            |x: T, y: T| x.shl_spec(y),
        ));
    }
}

/// What `<<` with another list gives is stated element by element in the
/// contract of `shl`; no value of the list's type is named for it.
impl<T: Shl<Output = T> + Copy> vstd::std_specs::ops::ShlSpecImpl<TVector<T>> for TVector<T> {
    open spec fn obeys_shl_spec() -> bool {
        false
    }

    /// At every position that both lists reach, the element can take `<<`
    /// with the element of `rhs` on the right.
    open spec fn shl_req(self, rhs: TVector<T>) -> bool {
        pair_allowed(self@, rhs@, T::shl)
    }

    open spec fn shl_spec(self, rhs: TVector<T>) -> Self {
        arbitrary()
    }
}

impl<T: Shl<Output = T> + Copy> Shl<TVector<T>> for TVector<T> {
    type Output = Self;

    /// A new list, as long as the shorter of the two, of `x << y` for the
    /// elements `x` and `y` of the two at each position. What the longer one
    /// holds beyond that is dropped; with an empty operand the result is
    /// empty.
    fn shl(self, rhs: TVector<T>) -> (res: Self)
        ensures
            each_from_pair(self@, rhs@, T::shl, res@),
            T::obeys_shl_spec() ==> res@ == zip_with(self@, rhs@, |x: T, y: T| x.shl_spec(y)),
    {
        let data = pair_vec(self.get(), rhs.get(), T::shl);
        assert(T::obeys_shl_spec() ==> data@ =~= zip_with(self@, rhs@, |x: T, y: T| x.shl_spec(y)));
        TVector::from(data)
    }
}

impl<T: Shl<Output = T> + Copy> ShlAssign<TVector<T>> for TVector<T> {
    /// Replaces every element `x` that `rhs` reaches by `x << y`, where `y`
    /// is the element of `rhs` at the same position. The length stays, and
    /// so do the elements beyond the length of `rhs`.
    fn shl_assign(&mut self, rhs: TVector<T>)
        requires
            pair_allowed(old(self)@, rhs@, T::shl),
        ensures
            each_onto(old(self)@, rhs@, T::shl, final(self)@),
            T::obeys_shl_spec() ==> final(self)@ == zip_onto(
                old(self)@,
                rhs@,
                |x: T, y: T| x.shl_spec(y),
            ),
    {
        pair_vec_onto(self.get_mut(), rhs.get(), T::shl);
        assert(T::obeys_shl_spec() ==> self@ =~= zip_onto(
            old(self)@,
            rhs@,
            |x: T, y: T| x.shl_spec(y),
        ));
    }
}

/// What `>>` with a scalar gives is stated element by element in the
/// contract of `shr`; no value of the list's type is named for it.
impl<T: Shr<Output = T> + Copy> vstd::std_specs::ops::ShrSpecImpl<T> for TVector<T> {
    open spec fn obeys_shr_spec() -> bool {
        false
    }

    /// Every element can take `>>` with `rhs` on the right.
    open spec fn shr_req(self, rhs: T) -> bool {
        scalar_allowed(self@, rhs, T::shr)
    }

    open spec fn shr_spec(self, rhs: T) -> Self {
        arbitrary()
    }
}

impl<T: Shr<Output = T> + Copy> Shr<T> for TVector<T> {
    type Output = Self;

    /// The list of `x >> rhs` for every element `x`, in the same order.
    fn shr(self, rhs: T) -> (res: Self)
        ensures
            each_from_scalar(self@, rhs, T::shr, res@),
            T::obeys_shr_spec() ==> res@ == with_scalar(self@, rhs, |x: T, y: T| x.shr_spec(y)),
    {
        let mut res = self;
        scalar_vec(res.get_mut(), rhs, T::shr);
        assert(T::obeys_shr_spec() ==> res@ =~= with_scalar(
            self@,
            rhs,
            |x: T, y: T| x.shr_spec(y),
        ));
        res
    }
}

impl<T: Shr<Output = T> + Copy> ShrAssign<T> for TVector<T> {
    /// Replaces every element `x` by `x >> rhs`; the length stays.
    fn shr_assign(&mut self, rhs: T)
        requires
            scalar_allowed(old(self)@, rhs, T::shr),
        ensures
            each_from_scalar(old(self)@, rhs, T::shr, final(self)@),
            T::obeys_shr_spec() ==> final(self)@ == with_scalar(
                old(self)@,
                rhs,
                |x: T, y: T| x.shr_spec(y),
            ),
    {
        scalar_vec(self.get_mut(), rhs, T::shr);
        assert(T::obeys_shr_spec() ==> self@ =~= with_scalar(
            old(self)@,
            rhs,
            |x: T, y: T| x.shr_spec(y),
        ));
    }
}

/// What `>>` with another list gives is stated element by element in the
/// contract of `shr`; no value of the list's type is named for it.
impl<T: Shr<Output = T> + Copy> vstd::std_specs::ops::ShrSpecImpl<TVector<T>> for TVector<T> {
    open spec fn obeys_shr_spec() -> bool {
        false
    }

    /// At every position that both lists reach, the element can take `>>`
    /// with the element of `rhs` on the right.
    open spec fn shr_req(self, rhs: TVector<T>) -> bool {
        pair_allowed(self@, rhs@, T::shr)
    }

    open spec fn shr_spec(self, rhs: TVector<T>) -> Self {
        arbitrary()
    }
}

impl<T: Shr<Output = T> + Copy> Shr<TVector<T>> for TVector<T> {
    type Output = Self;

    /// A new list, as long as the shorter of the two, of `x >> y` for the
    /// elements `x` and `y` of the two at each position. What the longer one
    /// holds beyond that is dropped; with an empty operand the result is
    /// empty.
    fn shr(self, rhs: TVector<T>) -> (res: Self)
        ensures
            each_from_pair(self@, rhs@, T::shr, res@),
            T::obeys_shr_spec() ==> res@ == zip_with(self@, rhs@, |x: T, y: T| x.shr_spec(y)),
    {
        let data = pair_vec(self.get(), rhs.get(), T::shr);
        assert(T::obeys_shr_spec() ==> data@ =~= zip_with(self@, rhs@, |x: T, y: T| x.shr_spec(y)));
        TVector::from(data)
    }
}

impl<T: Shr<Output = T> + Copy> ShrAssign<TVector<T>> for TVector<T> {
    /// Replaces every element `x` that `rhs` reaches by `x >> y`, where `y`
    /// is the element of `rhs` at the same position. The length stays, and
    /// so do the elements beyond the length of `rhs`.
    fn shr_assign(&mut self, rhs: TVector<T>)
        requires
            pair_allowed(old(self)@, rhs@, T::shr),
        ensures
            each_onto(old(self)@, rhs@, T::shr, final(self)@),
            T::obeys_shr_spec() ==> final(self)@ == zip_onto(
                old(self)@,
                rhs@,
                |x: T, y: T| x.shr_spec(y),
            ),
    {
        pair_vec_onto(self.get_mut(), rhs.get(), T::shr);
        assert(T::obeys_shr_spec() ==> self@ =~= zip_onto(
            old(self)@,
            rhs@,
            |x: T, y: T| x.shr_spec(y),
        ));
    }
}

/// What `&` with a scalar gives is stated element by element in the
/// contract of `bitand`; no value of the list's type is named for it.
impl<T: BitAnd<Output = T> + Copy> vstd::std_specs::ops::BitAndSpecImpl<T> for TVector<T> {
    open spec fn obeys_bitand_spec() -> bool {
        false
    }

    /// Every element can take `&` with `rhs` on the right.
    open spec fn bitand_req(self, rhs: T) -> bool {
        scalar_allowed(self@, rhs, T::bitand)
    }

    open spec fn bitand_spec(self, rhs: T) -> Self {
        arbitrary()
    }
}

impl<T: BitAnd<Output = T> + Copy> BitAnd<T> for TVector<T> {
    type Output = Self;

    /// The list of `x & rhs` for every element `x`, in the same order.
    fn bitand(self, rhs: T) -> (res: Self)
        ensures
            each_from_scalar(self@, rhs, T::bitand, res@),
            T::obeys_bitand_spec() ==> res@ == with_scalar(self@, rhs, |x: T, y: T| x.bitand_spec(y)),
    {
        let mut res = self;
        scalar_vec(res.get_mut(), rhs, T::bitand);
        assert(T::obeys_bitand_spec() ==> res@ =~= with_scalar(
            self@,
            rhs,
            |x: T, y: T| x.bitand_spec(y),
        ));
        res
    }
}

impl<T: BitAnd<Output = T> + Copy> BitAndAssign<T> for TVector<T> {
    /// Replaces every element `x` by `x & rhs`; the length stays.
    fn bitand_assign(&mut self, rhs: T)
        requires
            scalar_allowed(old(self)@, rhs, T::bitand),
        ensures
            each_from_scalar(old(self)@, rhs, T::bitand, final(self)@),
            T::obeys_bitand_spec() ==> final(self)@ == with_scalar(
                old(self)@,
                rhs,
                |x: T, y: T| x.bitand_spec(y),
            ),
    {
        scalar_vec(self.get_mut(), rhs, T::bitand);
        assert(T::obeys_bitand_spec() ==> self@ =~= with_scalar(
            old(self)@,
            rhs,
            |x: T, y: T| x.bitand_spec(y),
        ));
    }
}

/// What `&` with another list gives is stated element by element in the
/// contract of `bitand`; no value of the list's type is named for it.
impl<T: BitAnd<Output = T> + Copy> vstd::std_specs::ops::BitAndSpecImpl<TVector<T>> for TVector<T> {
    open spec fn obeys_bitand_spec() -> bool {
        false
    }

    /// At every position that both lists reach, the element can take `&`
    /// with the element of `rhs` on the right.
    open spec fn bitand_req(self, rhs: TVector<T>) -> bool {
        pair_allowed(self@, rhs@, T::bitand)
    }

    open spec fn bitand_spec(self, rhs: TVector<T>) -> Self {
        arbitrary()
    }
}

impl<T: BitAnd<Output = T> + Copy> BitAnd<TVector<T>> for TVector<T> {
    type Output = Self;

    /// A new list, as long as the shorter of the two, of `x & y` for the
    /// elements `x` and `y` of the two at each position. What the longer one
    /// holds beyond that is dropped; with an empty operand the result is
    /// empty.
    fn bitand(self, rhs: TVector<T>) -> (res: Self)
        ensures
            each_from_pair(self@, rhs@, T::bitand, res@),
            T::obeys_bitand_spec() ==> res@ == zip_with(self@, rhs@, |x: T, y: T| x.bitand_spec(y)),
    {
        let data = pair_vec(self.get(), rhs.get(), T::bitand);
        assert(T::obeys_bitand_spec() ==> data@ =~= zip_with(
            self@,
            rhs@,
            |x: T, y: T| x.bitand_spec(y),
        ));
        TVector::from(data)
    }
}

impl<T: BitAnd<Output = T> + Copy> BitAndAssign<TVector<T>> for TVector<T> {
    /// Replaces every element `x` that `rhs` reaches by `x & y`, where `y`
    /// is the element of `rhs` at the same position. The length stays, and
    /// so do the elements beyond the length of `rhs`.
    fn bitand_assign(&mut self, rhs: TVector<T>)
        requires
            pair_allowed(old(self)@, rhs@, T::bitand),
        ensures
            each_onto(old(self)@, rhs@, T::bitand, final(self)@),
            T::obeys_bitand_spec() ==> final(self)@ == zip_onto(
                old(self)@,
                rhs@,
                |x: T, y: T| x.bitand_spec(y),
            ),
    {
        pair_vec_onto(self.get_mut(), rhs.get(), T::bitand);
        assert(T::obeys_bitand_spec() ==> self@ =~= zip_onto(
            old(self)@,
            rhs@,
            |x: T, y: T| x.bitand_spec(y),
        ));
    }
}

/// What `|` with a scalar gives is stated element by element in the
/// contract of `bitor`; no value of the list's type is named for it.
impl<T: BitOr<Output = T> + Copy> vstd::std_specs::ops::BitOrSpecImpl<T> for TVector<T> {
    open spec fn obeys_bitor_spec() -> bool {
        false
    }

    /// Every element can take `|` with `rhs` on the right.
    open spec fn bitor_req(self, rhs: T) -> bool {
        scalar_allowed(self@, rhs, T::bitor)
    }

    open spec fn bitor_spec(self, rhs: T) -> Self {
        arbitrary()
    }
}

impl<T: BitOr<Output = T> + Copy> BitOr<T> for TVector<T> {
    type Output = Self;

    /// The list of `x | rhs` for every element `x`, in the same order.
    fn bitor(self, rhs: T) -> (res: Self)
        ensures
            each_from_scalar(self@, rhs, T::bitor, res@),
            T::obeys_bitor_spec() ==> res@ == with_scalar(self@, rhs, |x: T, y: T| x.bitor_spec(y)),
    {
        let mut res = self;
        scalar_vec(res.get_mut(), rhs, T::bitor);
        assert(T::obeys_bitor_spec() ==> res@ =~= with_scalar(
            self@,
            rhs,
            |x: T, y: T| x.bitor_spec(y),
        ));
        res
    }
}

impl<T: BitOr<Output = T> + Copy> BitOrAssign<T> for TVector<T> {
    /// Replaces every element `x` by `x | rhs`; the length stays.
    fn bitor_assign(&mut self, rhs: T)
        requires
            scalar_allowed(old(self)@, rhs, T::bitor),
        ensures
            each_from_scalar(old(self)@, rhs, T::bitor, final(self)@),
            T::obeys_bitor_spec() ==> final(self)@ == with_scalar(
                old(self)@,
                rhs,
                |x: T, y: T| x.bitor_spec(y),
            ),
    {
        scalar_vec(self.get_mut(), rhs, T::bitor);
        assert(T::obeys_bitor_spec() ==> self@ =~= with_scalar(
            old(self)@,
            rhs,
            |x: T, y: T| x.bitor_spec(y),
        ));
    }
}

/// What `|` with another list gives is stated element by element in the
/// contract of `bitor`; no value of the list's type is named for it.
impl<T: BitOr<Output = T> + Copy> vstd::std_specs::ops::BitOrSpecImpl<TVector<T>> for TVector<T> {
    open spec fn obeys_bitor_spec() -> bool {
        false
    }

    /// At every position that both lists reach, the element can take `|`
    /// with the element of `rhs` on the right.
    open spec fn bitor_req(self, rhs: TVector<T>) -> bool {
        pair_allowed(self@, rhs@, T::bitor)
    }

    open spec fn bitor_spec(self, rhs: TVector<T>) -> Self {
        arbitrary()
    }
}

impl<T: BitOr<Output = T> + Copy> BitOr<TVector<T>> for TVector<T> {
    type Output = Self;

    /// A new list, as long as the shorter of the two, of `x | y` for the
    /// elements `x` and `y` of the two at each position. What the longer one
    /// holds beyond that is dropped; with an empty operand the result is
    /// empty.
    fn bitor(self, rhs: TVector<T>) -> (res: Self)
        ensures
            each_from_pair(self@, rhs@, T::bitor, res@),
            T::obeys_bitor_spec() ==> res@ == zip_with(self@, rhs@, |x: T, y: T| x.bitor_spec(y)),
    {
        let data = pair_vec(self.get(), rhs.get(), T::bitor);
        assert(T::obeys_bitor_spec() ==> data@ =~= zip_with(
            self@,
            rhs@,
            |x: T, y: T| x.bitor_spec(y),
        ));
        TVector::from(data)
    }
}

impl<T: BitOr<Output = T> + Copy> BitOrAssign<TVector<T>> for TVector<T> {
    /// Replaces every element `x` that `rhs` reaches by `x | y`, where `y`
    /// is the element of `rhs` at the same position. The length stays, and
    /// so do the elements beyond the length of `rhs`.
    fn bitor_assign(&mut self, rhs: TVector<T>)
        requires
            pair_allowed(old(self)@, rhs@, T::bitor),
        ensures
            each_onto(old(self)@, rhs@, T::bitor, final(self)@),
            T::obeys_bitor_spec() ==> final(self)@ == zip_onto(
                old(self)@,
                rhs@,
                |x: T, y: T| x.bitor_spec(y),
            ),
    {
        pair_vec_onto(self.get_mut(), rhs.get(), T::bitor);
        assert(T::obeys_bitor_spec() ==> self@ =~= zip_onto(
            old(self)@,
            rhs@,
            |x: T, y: T| x.bitor_spec(y),
        ));
    }
}

/// What `^` with a scalar gives is stated element by element in the
/// contract of `bitxor`; no value of the list's type is named for it.
impl<T: BitXor<Output = T> + Copy> vstd::std_specs::ops::BitXorSpecImpl<T> for TVector<T> {
    open spec fn obeys_bitxor_spec() -> bool {
        false
    }

    /// Every element can take `^` with `rhs` on the right.
    open spec fn bitxor_req(self, rhs: T) -> bool {
        scalar_allowed(self@, rhs, T::bitxor)
    }

    open spec fn bitxor_spec(self, rhs: T) -> Self {
        arbitrary()
    }
}

impl<T: BitXor<Output = T> + Copy> BitXor<T> for TVector<T> {
    type Output = Self;

    /// The list of `x ^ rhs` for every element `x`, in the same order.
    fn bitxor(self, rhs: T) -> (res: Self)
        ensures
            each_from_scalar(self@, rhs, T::bitxor, res@),
            T::obeys_bitxor_spec() ==> res@ == with_scalar(self@, rhs, |x: T, y: T| x.bitxor_spec(y)),
    {
        let mut res = self;
        scalar_vec(res.get_mut(), rhs, T::bitxor);
        assert(T::obeys_bitxor_spec() ==> res@ =~= with_scalar(
            self@,
            rhs,
            |x: T, y: T| x.bitxor_spec(y),
        ));
        res
    }
}

impl<T: BitXor<Output = T> + Copy> BitXorAssign<T> for TVector<T> {
    /// Replaces every element `x` by `x ^ rhs`; the length stays.
    fn bitxor_assign(&mut self, rhs: T)
        requires
            scalar_allowed(old(self)@, rhs, T::bitxor),
        ensures
            each_from_scalar(old(self)@, rhs, T::bitxor, final(self)@),
            T::obeys_bitxor_spec() ==> final(self)@ == with_scalar(
                old(self)@,
                rhs,
                |x: T, y: T| x.bitxor_spec(y),
            ),
    {
        scalar_vec(self.get_mut(), rhs, T::bitxor);
        assert(T::obeys_bitxor_spec() ==> self@ =~= with_scalar(
            old(self)@,
            rhs,
            |x: T, y: T| x.bitxor_spec(y),
        ));
    }
}

/// What `^` with another list gives is stated element by element in the
/// contract of `bitxor`; no value of the list's type is named for it.
impl<T: BitXor<Output = T> + Copy> vstd::std_specs::ops::BitXorSpecImpl<TVector<T>> for TVector<T> {
    open spec fn obeys_bitxor_spec() -> bool {
        false
    }

    /// At every position that both lists reach, the element can take `^`
    /// with the element of `rhs` on the right.
    open spec fn bitxor_req(self, rhs: TVector<T>) -> bool {
        pair_allowed(self@, rhs@, T::bitxor)
    }

    open spec fn bitxor_spec(self, rhs: TVector<T>) -> Self {
        arbitrary()
    }
}

impl<T: BitXor<Output = T> + Copy> BitXor<TVector<T>> for TVector<T> {
    type Output = Self;

    /// A new list, as long as the shorter of the two, of `x ^ y` for the
    /// elements `x` and `y` of the two at each position. What the longer one
    /// holds beyond that is dropped; with an empty operand the result is
    /// empty.
    fn bitxor(self, rhs: TVector<T>) -> (res: Self)
        ensures
            each_from_pair(self@, rhs@, T::bitxor, res@),
            T::obeys_bitxor_spec() ==> res@ == zip_with(self@, rhs@, |x: T, y: T| x.bitxor_spec(y)),
    {
        let data = pair_vec(self.get(), rhs.get(), T::bitxor);
        assert(T::obeys_bitxor_spec() ==> data@ =~= zip_with(
            self@,
            rhs@,
            |x: T, y: T| x.bitxor_spec(y),
        ));
        TVector::from(data)
    }
}

impl<T: BitXor<Output = T> + Copy> BitXorAssign<TVector<T>> for TVector<T> {
    /// Replaces every element `x` that `rhs` reaches by `x ^ y`, where `y`
    /// is the element of `rhs` at the same position. The length stays, and
    /// so do the elements beyond the length of `rhs`.
    fn bitxor_assign(&mut self, rhs: TVector<T>)
        requires
            pair_allowed(old(self)@, rhs@, T::bitxor),
        ensures
            each_onto(old(self)@, rhs@, T::bitxor, final(self)@),
            T::obeys_bitxor_spec() ==> final(self)@ == zip_onto(
                old(self)@,
                rhs@,
                |x: T, y: T| x.bitxor_spec(y),
            ),
    {
        pair_vec_onto(self.get_mut(), rhs.get(), T::bitxor);
        assert(T::obeys_bitxor_spec() ==> self@ =~= zip_onto(
            old(self)@,
            rhs@,
            |x: T, y: T| x.bitxor_spec(y),
        ));
    }
}

} // verus!
