use core::fmt::Debug;
use core::hash::{Hash, Hasher};
use core::marker::PhantomData;
use core::ops::{
    Add, AddAssign, BitAnd, BitOr, BitXor, Div, DivAssign, Index, IndexMut, Mul, MulAssign, Neg, Not,
    Rem, RemAssign, Shl, Shr, Sub, SubAssign,
};
use vstd::prelude::*;
use vstd::std_specs::cmp::PartialEqSpec;
use vstd::std_specs::cmp::PartialEqSpecImpl;
use vstd::std_specs::ops::{
    AddSpec, BitAndSpec, BitOrSpec, BitXorSpec, DivSpec, MulSpec, NegSpec, NotSpec, RemSpec, ShlSpec,
    ShrSpec, SubSpec,
};

pub(crate) mod backing_vec;

verus! {

/// A concrete numeric vector that a flavor can wrap: a plain value with equality, a
/// default and a debug form, whose elements are read and written by index as values of
/// its own shape. Only this crate can add one.
pub trait BackingVec:
    backing_vec::Sealed + Debug + Copy + PartialEq + Default + Index<usize, Output = Self> + IndexMut<
    usize,
> {

}

/// A compile-time tag for one semantic kind of vector, with the backing vector that
/// holds its values.
pub trait VecFlavor {
    type Backing: BackingVec;
}

/// A conversion rule: how a value of type `O` becomes a backing value of this flavor.
pub trait FlavorConvertFrom<O>: VecFlavor {
    /// The backing value that the rule gives for `other`. An implementor states its rule
    /// here; while a rule is left unstated, nothing can be proved of what it returns.
    open spec fn backing_from_spec(other: O) -> Self::Backing {
        arbitrary()
    }

    /// Applies the rule.
    fn vec_backing_from(other: O) -> (r: Self::Backing)
        ensures
            r == Self::backing_from_spec(other),
    ;
}

/// The rule that every flavor has: a wrapper of the flavor converts to its own backing
/// value unchanged.
impl<F: VecFlavor> FlavorConvertFrom<NewTypeVector<F>> for F {
    open spec fn backing_from_spec(other: NewTypeVector<F>) -> Self::Backing {
        other@
    }

    fn vec_backing_from(other: NewTypeVector<F>) -> (r: Self::Backing) {
        other.into_raw()
    }
}

/// The wrapper of flavor `F`.
pub type NewTypeVector<F> = NewTypeVectorImpl<<F as VecFlavor>::Backing, F>;

/// A backing vector `B` tagged with the flavor `F`. The tag takes no storage; the only
/// well-formed pairs are those of [`NewTypeVector`].
#[verifier::reject_recursive_types(B)]
#[verifier::reject_recursive_types(F)]
pub struct NewTypeVectorImpl<B: BackingVec, F: VecFlavor<Backing = B>> {
    _flavor: PhantomData<F>,
    vec: B,
}

impl<B: BackingVec, F: VecFlavor<Backing = B>> View for NewTypeVectorImpl<B, F> {
    type V = B;

    /// The backing value that the wrapper holds.
    closed spec fn view(&self) -> B {
        self.vec
    }
}

impl<F: VecFlavor> NewTypeVector<F> {
    /// The wrapper that holds `vec`.
    pub closed spec fn spec_from_raw(vec: F::Backing) -> Self {
        NewTypeVectorImpl { _flavor: PhantomData, vec }
    }

    /// The wrapper that the flavor's rule for `O` gives for `other`.
    pub open spec fn spec_from<O>(other: O) -> Self where F: FlavorConvertFrom<O> {
        Self::spec_from_raw(F::backing_from_spec(other))
    }

    /// The wrapper of flavor `T` that `T`'s rule for this flavor gives for `self`.
    pub open spec fn spec_into<T: FlavorConvertFrom<Self>>(self) -> NewTypeVector<T> {
        NewTypeVector::<T>::spec_from(self)
    }

    /// The backing value that the wrapper holds.
    pub open spec fn spec_into_raw(self) -> F::Backing {
        self@
    }

    /// The backing value that the wrapper holds, behind a shared borrow.
    pub open spec fn spec_raw(&self) -> &F::Backing {
        &self@
    }

    /// Wraps a backing value as it is.
    #[verifier::when_used_as_spec(spec_from_raw)]
    pub fn from_raw(vec: F::Backing) -> (r: Self)
        ensures
            r == Self::spec_from_raw(vec),
            r@ == vec,
    {
        Self { _flavor: PhantomData, vec }
    }

    /// Builds a wrapper from any value that the flavor has a conversion rule for.
    #[verifier::when_used_as_spec(spec_from)]
    pub fn from<O>(other: O) -> (r: Self) where F: FlavorConvertFrom<O>
        ensures
            r == Self::spec_from(other),
            r@ == F::backing_from_spec(other),
    {
        Self::from_raw(F::vec_backing_from(other))
    }

    /// Converts to the flavor `T` by `T`'s rule for this flavor.
    #[verifier::when_used_as_spec(spec_into)]
    pub fn into<T: FlavorConvertFrom<Self>>(self) -> (r: NewTypeVector<T>)
        ensures
            r == self.spec_into::<T>(),
            r@ == T::backing_from_spec(self),
    {
        NewTypeVector::<T>::from(self)
    }

    /// Wraps a copy of the backing value behind `vec`.
    pub fn from_raw_ref(vec: &F::Backing) -> (r: Self)
        ensures
            r == Self::spec_from_raw(*vec),
            r@ == *vec,
    {
        Self::from_raw(*vec)
    }

    /// Reads the element at `index` and wraps a copy of it, so that the element keeps the
    /// flavor. The index must be one that the backing vector accepts.
    pub fn index(&self, index: usize) -> (r: Self)
        requires
            call_requires(F::Backing::index, (&self@, index)),
        ensures
            call_ensures(F::Backing::index, (&self@, index), &r@),
    {
        Self::from_raw(self.vec[index])
    }

    /// Gives the backing value back.
    #[verifier::when_used_as_spec(spec_into_raw)]
    pub fn into_raw(self) -> (r: F::Backing)
        ensures
            r == self@,
    {
        self.vec
    }

    /// Borrows the backing value.
    #[verifier::when_used_as_spec(spec_raw)]
    pub fn raw(&self) -> (r: &F::Backing)
        ensures
            *r == self@,
    {
        &self.vec
    }

    /// Borrows the backing value for writing: what is written through the borrow is what
    /// the wrapper holds afterwards.
    pub fn raw_mut(&mut self) -> (r: &mut F::Backing)
        ensures
            *r == old(self)@,
            final(self)@ == *final(r),
            *final(self) == Self::spec_from_raw(*final(r)),
    {
        &mut self.vec
    }

    /// Applies `f` to the backing value and wraps what it returns, in the same flavor.
    pub fn map_raw<C>(self, f: C) -> (r: Self) where C: FnOnce(F::Backing) -> F::Backing
        requires
            f.requires((self@,)),
        ensures
            f.ensures((self@,), r@),
    {
        Self::from_raw(f(self.into_raw()))
    }
}

impl<F: VecFlavor> Clone for NewTypeVector<F> {
    /// A copy of the wrapper.
    fn clone(&self) -> (r: Self)
        ensures
            r == *self,
    {
        Self { _flavor: self._flavor, vec: self.vec }
    }
}

impl<F: VecFlavor> Copy for NewTypeVector<F> {

}

impl<F: VecFlavor> PartialEq for NewTypeVector<F> {
    /// Two wrappers are equal when the backing vector's own `==` says that the values they
    /// hold are.
    fn eq(&self, other: &Self) -> (r: bool)
        ensures
            call_ensures(F::Backing::eq, (&self@, &other@), r),
    {
        self.vec == other.vec
    }
}

impl<F: VecFlavor> PartialEqSpecImpl for NewTypeVector<F> {
    open spec fn obeys_eq_spec() -> bool {
        F::Backing::obeys_eq_spec()
    }

    open spec fn eq_spec(&self, other: &Self) -> bool {
        PartialEqSpec::eq_spec(&self@, &other@)
    }
}

impl<F: VecFlavor> Eq for NewTypeVector<F> where F::Backing: Eq {

}

impl<F: VecFlavor> Hash for NewTypeVector<F> where F::Backing: Hash {
    /// Hashes the backing value as the backing vector hashes itself; the flavor adds nothing.
    fn hash<H: Hasher>(&self, state: &mut H) {
        hash_backing(&self.vec, state)
    }
}

/// Feeds `vec` to `state` by `B`'s `Hash::hash`. Nothing is claimed of the state that the
/// hasher is left in.
#[verifier::external_body]
fn hash_backing<B: Hash, H: Hasher>(vec: &B, state: &mut H) {
    vec.hash(state)
}

impl<F: VecFlavor> Default for NewTypeVector<F> {
    /// The wrapper of the backing vector's default value.
    fn default() -> (r: Self)
        ensures
            call_ensures(F::Backing::default, (), r@),
    {
        Self::from_raw(Default::default())
    }
}

impl<F, R> vstd::std_specs::ops::AddSpecImpl<R> for NewTypeVector<F> where
    F: FlavorConvertFrom<R>,
    F::Backing: Add<F::Backing, Output = F::Backing>,
 {
    open spec fn obeys_add_spec() -> bool {
        F::Backing::obeys_add_spec()
    }

    open spec fn add_req(self, rhs: R) -> bool {
        self@.add_req(F::backing_from_spec(rhs))
    }

    open spec fn add_spec(self, rhs: R) -> Self {
        Self::spec_from_raw(self@.add_spec(F::backing_from_spec(rhs)))
    }
}

impl<F, R> Add<R> for NewTypeVector<F> where
    F: FlavorConvertFrom<R>,
    F::Backing: Add<F::Backing, Output = F::Backing>,
 {
    type Output = Self;

    /// `self + rhs` on the backing values, by the backing vector's own `+`. The
    /// right operand first goes through the flavor's rule for `R`.
    fn add(self, rhs: R) -> (r: Self)
        ensures
            F::Backing::obeys_add_spec() ==> r@ == self@.add_spec(F::backing_from_spec(rhs)),
            call_ensures(F::Backing::add, (self@, F::backing_from_spec(rhs)), r@),
    {
        let rhs = F::vec_backing_from(rhs);
        let sum = |lhs: F::Backing| -> (out: F::Backing)
            requires
                lhs.add_req(rhs),
            ensures
                F::Backing::obeys_add_spec() ==> out == lhs.add_spec(rhs),
                call_ensures(F::Backing::add, (lhs, rhs), out),
            {
                lhs + rhs
            };
        self.map_raw(sum)
    }
}

impl<F, R> AddAssign<R> for NewTypeVector<F> where
    F: FlavorConvertFrom<R>,
    F::Backing: Add<F::Backing, Output = F::Backing>,
 {
    /// The in-place form of `+`: the wrapper then holds what `self + rhs` gives.
    fn add_assign(&mut self, rhs: R)
        requires
            old(self).add_req(rhs),
        ensures
            F::Backing::obeys_add_spec() ==> *final(self) == old(self).add_spec(rhs),
            F::Backing::obeys_add_spec() ==> final(self)@ == old(self)@.add_spec(
                F::backing_from_spec(rhs),
            ),
            call_ensures(F::Backing::add, (old(self)@, F::backing_from_spec(rhs)), final(self)@),
    {
        *self = *self + rhs;
    }
}

impl<F, R> vstd::std_specs::ops::SubSpecImpl<R> for NewTypeVector<F> where
    F: FlavorConvertFrom<R>,
    F::Backing: Sub<F::Backing, Output = F::Backing>,
 {
    open spec fn obeys_sub_spec() -> bool {
        F::Backing::obeys_sub_spec()
    }

    open spec fn sub_req(self, rhs: R) -> bool {
        self@.sub_req(F::backing_from_spec(rhs))
    }

    open spec fn sub_spec(self, rhs: R) -> Self {
        Self::spec_from_raw(self@.sub_spec(F::backing_from_spec(rhs)))
    }
}

impl<F, R> Sub<R> for NewTypeVector<F> where
    F: FlavorConvertFrom<R>,
    F::Backing: Sub<F::Backing, Output = F::Backing>,
 {
    type Output = Self;

    /// `self - rhs` on the backing values, by the backing vector's own `-`. The
    /// right operand first goes through the flavor's rule for `R`.
    fn sub(self, rhs: R) -> (r: Self)
        ensures
            F::Backing::obeys_sub_spec() ==> r@ == self@.sub_spec(F::backing_from_spec(rhs)),
            call_ensures(F::Backing::sub, (self@, F::backing_from_spec(rhs)), r@),
    {
        let rhs = F::vec_backing_from(rhs);
        let difference = |lhs: F::Backing| -> (out: F::Backing)
            requires
                lhs.sub_req(rhs),
            ensures
                F::Backing::obeys_sub_spec() ==> out == lhs.sub_spec(rhs),
                call_ensures(F::Backing::sub, (lhs, rhs), out),
            {
                lhs - rhs
            };
        self.map_raw(difference)
    }
}

impl<F, R> SubAssign<R> for NewTypeVector<F> where
    F: FlavorConvertFrom<R>,
    F::Backing: Sub<F::Backing, Output = F::Backing>,
 {
    /// The in-place form of `-`: the wrapper then holds what `self - rhs` gives.
    fn sub_assign(&mut self, rhs: R)
        requires
            old(self).sub_req(rhs),
        ensures
            F::Backing::obeys_sub_spec() ==> *final(self) == old(self).sub_spec(rhs),
            F::Backing::obeys_sub_spec() ==> final(self)@ == old(self)@.sub_spec(
                F::backing_from_spec(rhs),
            ),
            call_ensures(F::Backing::sub, (old(self)@, F::backing_from_spec(rhs)), final(self)@),
    {
        *self = *self - rhs;
    }
}

impl<F, R> vstd::std_specs::ops::MulSpecImpl<R> for NewTypeVector<F> where
    F: FlavorConvertFrom<R>,
    F::Backing: Mul<F::Backing, Output = F::Backing>,
 {
    open spec fn obeys_mul_spec() -> bool {
        F::Backing::obeys_mul_spec()
    }

    open spec fn mul_req(self, rhs: R) -> bool {
        self@.mul_req(F::backing_from_spec(rhs))
    }

    open spec fn mul_spec(self, rhs: R) -> Self {
        Self::spec_from_raw(self@.mul_spec(F::backing_from_spec(rhs)))
    }
}

impl<F, R> Mul<R> for NewTypeVector<F> where
    F: FlavorConvertFrom<R>,
    F::Backing: Mul<F::Backing, Output = F::Backing>,
 {
    type Output = Self;

    /// `self * rhs` on the backing values, by the backing vector's own `*`. The
    /// right operand first goes through the flavor's rule for `R`.
    fn mul(self, rhs: R) -> (r: Self)
        ensures
            F::Backing::obeys_mul_spec() ==> r@ == self@.mul_spec(F::backing_from_spec(rhs)),
            call_ensures(F::Backing::mul, (self@, F::backing_from_spec(rhs)), r@),
    {
        let rhs = F::vec_backing_from(rhs);
        let product = |lhs: F::Backing| -> (out: F::Backing)
            requires
                lhs.mul_req(rhs),
            ensures
                F::Backing::obeys_mul_spec() ==> out == lhs.mul_spec(rhs),
                call_ensures(F::Backing::mul, (lhs, rhs), out),
            {
                lhs * rhs
            };
        self.map_raw(product)
    }
}

impl<F, R> MulAssign<R> for NewTypeVector<F> where
    F: FlavorConvertFrom<R>,
    F::Backing: Mul<F::Backing, Output = F::Backing>,
 {
    /// The in-place form of `*`: the wrapper then holds what `self * rhs` gives.
    fn mul_assign(&mut self, rhs: R)
        requires
            old(self).mul_req(rhs),
        ensures
            F::Backing::obeys_mul_spec() ==> *final(self) == old(self).mul_spec(rhs),
            F::Backing::obeys_mul_spec() ==> final(self)@ == old(self)@.mul_spec(
                F::backing_from_spec(rhs),
            ),
            call_ensures(F::Backing::mul, (old(self)@, F::backing_from_spec(rhs)), final(self)@),
    {
        *self = *self * rhs;
    }
}

impl<F, R> vstd::std_specs::ops::DivSpecImpl<R> for NewTypeVector<F> where
    F: FlavorConvertFrom<R>,
    F::Backing: Div<F::Backing, Output = F::Backing>,
 {
    open spec fn obeys_div_spec() -> bool {
        F::Backing::obeys_div_spec()
    }

    open spec fn div_req(self, rhs: R) -> bool {
        self@.div_req(F::backing_from_spec(rhs))
    }

    open spec fn div_spec(self, rhs: R) -> Self {
        Self::spec_from_raw(self@.div_spec(F::backing_from_spec(rhs)))
    }
}

impl<F, R> Div<R> for NewTypeVector<F> where
    F: FlavorConvertFrom<R>,
    F::Backing: Div<F::Backing, Output = F::Backing>,
 {
    type Output = Self;

    /// `self / rhs` on the backing values, by the backing vector's own `/`. The
    /// right operand first goes through the flavor's rule for `R`.
    fn div(self, rhs: R) -> (r: Self)
        ensures
            F::Backing::obeys_div_spec() ==> r@ == self@.div_spec(F::backing_from_spec(rhs)),
            call_ensures(F::Backing::div, (self@, F::backing_from_spec(rhs)), r@),
    {
        let rhs = F::vec_backing_from(rhs);
        let quotient = |lhs: F::Backing| -> (out: F::Backing)
            requires
                lhs.div_req(rhs),
            ensures
                F::Backing::obeys_div_spec() ==> out == lhs.div_spec(rhs),
                call_ensures(F::Backing::div, (lhs, rhs), out),
            {
                lhs / rhs
            };
        self.map_raw(quotient)
    }
}

impl<F, R> DivAssign<R> for NewTypeVector<F> where
    F: FlavorConvertFrom<R>,
    F::Backing: Div<F::Backing, Output = F::Backing>,
 {
    /// The in-place form of `/`: the wrapper then holds what `self / rhs` gives.
    fn div_assign(&mut self, rhs: R)
        requires
            old(self).div_req(rhs),
        ensures
            F::Backing::obeys_div_spec() ==> *final(self) == old(self).div_spec(rhs),
            F::Backing::obeys_div_spec() ==> final(self)@ == old(self)@.div_spec(
                F::backing_from_spec(rhs),
            ),
            call_ensures(F::Backing::div, (old(self)@, F::backing_from_spec(rhs)), final(self)@),
    {
        *self = *self / rhs;
    }
}

impl<F, R> vstd::std_specs::ops::RemSpecImpl<R> for NewTypeVector<F> where
    F: FlavorConvertFrom<R>,
    F::Backing: Rem<F::Backing, Output = F::Backing>,
 {
    open spec fn obeys_rem_spec() -> bool {
        F::Backing::obeys_rem_spec()
    }

    open spec fn rem_req(self, rhs: R) -> bool {
        self@.rem_req(F::backing_from_spec(rhs))
    }

    open spec fn rem_spec(self, rhs: R) -> Self {
        Self::spec_from_raw(self@.rem_spec(F::backing_from_spec(rhs)))
    }
}

impl<F, R> Rem<R> for NewTypeVector<F> where
    F: FlavorConvertFrom<R>,
    F::Backing: Rem<F::Backing, Output = F::Backing>,
 {
    type Output = Self;

    /// `self % rhs` on the backing values, by the backing vector's own `%`. The
    /// right operand first goes through the flavor's rule for `R`.
    fn rem(self, rhs: R) -> (r: Self)
        ensures
            F::Backing::obeys_rem_spec() ==> r@ == self@.rem_spec(F::backing_from_spec(rhs)),
            call_ensures(F::Backing::rem, (self@, F::backing_from_spec(rhs)), r@),
    {
        let rhs = F::vec_backing_from(rhs);
        let remainder = |lhs: F::Backing| -> (out: F::Backing)
            requires
                lhs.rem_req(rhs),
            ensures
                F::Backing::obeys_rem_spec() ==> out == lhs.rem_spec(rhs),
                call_ensures(F::Backing::rem, (lhs, rhs), out),
            {
                lhs % rhs
            };
        self.map_raw(remainder)
    }
}

impl<F, R> RemAssign<R> for NewTypeVector<F> where
    F: FlavorConvertFrom<R>,
    F::Backing: Rem<F::Backing, Output = F::Backing>,
 {
    /// The in-place form of `%`: the wrapper then holds what `self % rhs` gives.
    fn rem_assign(&mut self, rhs: R)
        requires
            old(self).rem_req(rhs),
        ensures
            F::Backing::obeys_rem_spec() ==> *final(self) == old(self).rem_spec(rhs),
            F::Backing::obeys_rem_spec() ==> final(self)@ == old(self)@.rem_spec(
                F::backing_from_spec(rhs),
            ),
            call_ensures(F::Backing::rem, (old(self)@, F::backing_from_spec(rhs)), final(self)@),
    {
        *self = *self % rhs;
    }
}

impl<F, R> vstd::std_specs::ops::BitAndSpecImpl<R> for NewTypeVector<F> where
    F: FlavorConvertFrom<R>,
    F::Backing: BitAnd<F::Backing, Output = F::Backing>,
 {
    open spec fn obeys_bitand_spec() -> bool {
        F::Backing::obeys_bitand_spec()
    }

    open spec fn bitand_req(self, rhs: R) -> bool {
        self@.bitand_req(F::backing_from_spec(rhs))
    }

    open spec fn bitand_spec(self, rhs: R) -> Self {
        Self::spec_from_raw(self@.bitand_spec(F::backing_from_spec(rhs)))
    }
}

impl<F, R> BitAnd<R> for NewTypeVector<F> where
    F: FlavorConvertFrom<R>,
    F::Backing: BitAnd<F::Backing, Output = F::Backing>,
 {
    type Output = Self;

    /// `self & rhs` on the backing values, by the backing vector's own `&`. The
    /// right operand first goes through the flavor's rule for `R`.
    fn bitand(self, rhs: R) -> (r: Self)
        ensures
            F::Backing::obeys_bitand_spec() ==> r@ == self@.bitand_spec(F::backing_from_spec(rhs)),
            call_ensures(F::Backing::bitand, (self@, F::backing_from_spec(rhs)), r@),
    {
        let rhs = F::vec_backing_from(rhs);
        let conjunction = |lhs: F::Backing| -> (out: F::Backing)
            requires
                lhs.bitand_req(rhs),
            ensures
                F::Backing::obeys_bitand_spec() ==> out == lhs.bitand_spec(rhs),
                call_ensures(F::Backing::bitand, (lhs, rhs), out),
            {
                lhs & rhs
            };
        self.map_raw(conjunction)
    }
}

impl<F, R> vstd::std_specs::ops::BitOrSpecImpl<R> for NewTypeVector<F> where
    F: FlavorConvertFrom<R>,
    F::Backing: BitOr<F::Backing, Output = F::Backing>,
 {
    open spec fn obeys_bitor_spec() -> bool {
        F::Backing::obeys_bitor_spec()
    }

    open spec fn bitor_req(self, rhs: R) -> bool {
        self@.bitor_req(F::backing_from_spec(rhs))
    }

    open spec fn bitor_spec(self, rhs: R) -> Self {
        Self::spec_from_raw(self@.bitor_spec(F::backing_from_spec(rhs)))
    }
}

impl<F, R> BitOr<R> for NewTypeVector<F> where
    F: FlavorConvertFrom<R>,
    F::Backing: BitOr<F::Backing, Output = F::Backing>,
 {
    type Output = Self;

    /// `self | rhs` on the backing values, by the backing vector's own `|`. The
    /// right operand first goes through the flavor's rule for `R`.
    fn bitor(self, rhs: R) -> (r: Self)
        ensures
            F::Backing::obeys_bitor_spec() ==> r@ == self@.bitor_spec(F::backing_from_spec(rhs)),
            call_ensures(F::Backing::bitor, (self@, F::backing_from_spec(rhs)), r@),
    {
        let rhs = F::vec_backing_from(rhs);
        let disjunction = |lhs: F::Backing| -> (out: F::Backing)
            requires
                lhs.bitor_req(rhs),
            ensures
                F::Backing::obeys_bitor_spec() ==> out == lhs.bitor_spec(rhs),
                call_ensures(F::Backing::bitor, (lhs, rhs), out),
            {
                lhs | rhs
            };
        self.map_raw(disjunction)
    }
}

impl<F, R> vstd::std_specs::ops::BitXorSpecImpl<R> for NewTypeVector<F> where
    F: FlavorConvertFrom<R>,
    F::Backing: BitXor<F::Backing, Output = F::Backing>,
 {
    open spec fn obeys_bitxor_spec() -> bool {
        F::Backing::obeys_bitxor_spec()
    }

    open spec fn bitxor_req(self, rhs: R) -> bool {
        self@.bitxor_req(F::backing_from_spec(rhs))
    }

    open spec fn bitxor_spec(self, rhs: R) -> Self {
        Self::spec_from_raw(self@.bitxor_spec(F::backing_from_spec(rhs)))
    }
}

impl<F, R> BitXor<R> for NewTypeVector<F> where
    F: FlavorConvertFrom<R>,
    F::Backing: BitXor<F::Backing, Output = F::Backing>,
 {
    type Output = Self;

    /// `self ^ rhs` on the backing values, by the backing vector's own `^`. The
    /// right operand first goes through the flavor's rule for `R`.
    fn bitxor(self, rhs: R) -> (r: Self)
        ensures
            F::Backing::obeys_bitxor_spec() ==> r@ == self@.bitxor_spec(F::backing_from_spec(rhs)),
            call_ensures(F::Backing::bitxor, (self@, F::backing_from_spec(rhs)), r@),
    {
        let rhs = F::vec_backing_from(rhs);
        let exclusive_or = |lhs: F::Backing| -> (out: F::Backing)
            requires
                lhs.bitxor_req(rhs),
            ensures
                F::Backing::obeys_bitxor_spec() ==> out == lhs.bitxor_spec(rhs),
                call_ensures(F::Backing::bitxor, (lhs, rhs), out),
            {
                lhs ^ rhs
            };
        self.map_raw(exclusive_or)
    }
}

impl<F, R> vstd::std_specs::ops::ShlSpecImpl<R> for NewTypeVector<F> where
    F: FlavorConvertFrom<R>,
    F::Backing: Shl<F::Backing, Output = F::Backing>,
 {
    open spec fn obeys_shl_spec() -> bool {
        F::Backing::obeys_shl_spec()
    }

    open spec fn shl_req(self, rhs: R) -> bool {
        self@.shl_req(F::backing_from_spec(rhs))
    }

    open spec fn shl_spec(self, rhs: R) -> Self {
        Self::spec_from_raw(self@.shl_spec(F::backing_from_spec(rhs)))
    }
}

impl<F, R> Shl<R> for NewTypeVector<F> where
    F: FlavorConvertFrom<R>,
    F::Backing: Shl<F::Backing, Output = F::Backing>,
 {
    type Output = Self;

    /// `self << rhs` on the backing values, by the backing vector's own `<<`. The
    /// right operand first goes through the flavor's rule for `R`.
    fn shl(self, rhs: R) -> (r: Self)
        ensures
            F::Backing::obeys_shl_spec() ==> r@ == self@.shl_spec(F::backing_from_spec(rhs)),
            call_ensures(F::Backing::shl, (self@, F::backing_from_spec(rhs)), r@),
    {
        let rhs = F::vec_backing_from(rhs);
        let shifted = |lhs: F::Backing| -> (out: F::Backing)
            requires
                lhs.shl_req(rhs),
            ensures
                F::Backing::obeys_shl_spec() ==> out == lhs.shl_spec(rhs),
                call_ensures(F::Backing::shl, (lhs, rhs), out),
            {
                lhs << rhs
            };
        self.map_raw(shifted)
    }
}

impl<F, R> vstd::std_specs::ops::ShrSpecImpl<R> for NewTypeVector<F> where
    F: FlavorConvertFrom<R>,
    F::Backing: Shr<F::Backing, Output = F::Backing>,
 {
    open spec fn obeys_shr_spec() -> bool {
        F::Backing::obeys_shr_spec()
    }

    open spec fn shr_req(self, rhs: R) -> bool {
        self@.shr_req(F::backing_from_spec(rhs))
    }

    open spec fn shr_spec(self, rhs: R) -> Self {
        Self::spec_from_raw(self@.shr_spec(F::backing_from_spec(rhs)))
    }
}

impl<F, R> Shr<R> for NewTypeVector<F> where
    F: FlavorConvertFrom<R>,
    F::Backing: Shr<F::Backing, Output = F::Backing>,
 {
    type Output = Self;

    /// `self >> rhs` on the backing values, by the backing vector's own `>>`. The
    /// right operand first goes through the flavor's rule for `R`.
    fn shr(self, rhs: R) -> (r: Self)
        ensures
            F::Backing::obeys_shr_spec() ==> r@ == self@.shr_spec(F::backing_from_spec(rhs)),
            call_ensures(F::Backing::shr, (self@, F::backing_from_spec(rhs)), r@),
    {
        let rhs = F::vec_backing_from(rhs);
        let shifted = |lhs: F::Backing| -> (out: F::Backing)
            requires
                lhs.shr_req(rhs),
            ensures
                F::Backing::obeys_shr_spec() ==> out == lhs.shr_spec(rhs),
                call_ensures(F::Backing::shr, (lhs, rhs), out),
            {
                lhs >> rhs
            };
        self.map_raw(shifted)
    }
}

impl<F> vstd::std_specs::ops::NotSpecImpl for NewTypeVector<F> where
    F: VecFlavor,
    F::Backing: Not<Output = F::Backing>,
 {
    open spec fn obeys_not_spec() -> bool {
        F::Backing::obeys_not_spec()
    }

    open spec fn not_req(self) -> bool {
        self@.not_req()
    }

    open spec fn not_spec(self) -> Self {
        Self::spec_from_raw(self@.not_spec())
    }
}

impl<F> Not for NewTypeVector<F> where
    F: VecFlavor,
    F::Backing: Not<Output = F::Backing>,
 {
    type Output = Self;

    /// Complements the backing value with the backing vector's own `!`.
    fn not(self) -> (r: Self)
        ensures
            F::Backing::obeys_not_spec() ==> r@ == self@.not_spec(),
            call_ensures(F::Backing::not, (self@,), r@),
    {
        let complement = |lhs: F::Backing| -> (out: F::Backing)
            requires
                lhs.not_req(),
            ensures
                F::Backing::obeys_not_spec() ==> out == lhs.not_spec(),
                call_ensures(F::Backing::not, (lhs,), out),
            {
                !lhs
            };
        self.map_raw(complement)
    }
}

impl<F> vstd::std_specs::ops::NegSpecImpl for NewTypeVector<F> where
    F: VecFlavor,
    F::Backing: Neg<Output = F::Backing>,
 {
    open spec fn obeys_neg_spec() -> bool {
        F::Backing::obeys_neg_spec()
    }

    open spec fn neg_req(self) -> bool {
        self@.neg_req()
    }

    open spec fn neg_spec(self) -> Self {
        Self::spec_from_raw(self@.neg_spec())
    }
}

impl<F> Neg for NewTypeVector<F> where
    F: VecFlavor,
    F::Backing: Neg<Output = F::Backing>,
 {
    type Output = Self;

    /// Negates the backing value with the backing vector's own unary `-`.
    fn neg(self) -> (r: Self)
        ensures
            F::Backing::obeys_neg_spec() ==> r@ == self@.neg_spec(),
            call_ensures(F::Backing::neg, (self@,), r@),
    {
        let negation = |lhs: F::Backing| -> (out: F::Backing)
            requires
                lhs.neg_req(),
            ensures
                F::Backing::obeys_neg_spec() ==> out == lhs.neg_spec(),
                call_ensures(F::Backing::neg, (lhs,), out),
            {
                lhs.neg()
            };
        self.map_raw(negation)
    }
}

/// A wrapper holds exactly the backing value it was made from, and is made again from
/// the value it holds.
pub broadcast proof fn lemma_round_trip<F: VecFlavor>(vec: F::Backing, wrapper: NewTypeVector<F>)
    ensures
        (#[trigger] NewTypeVector::<F>::spec_from_raw(vec))@ == vec,
        NewTypeVector::<F>::spec_from_raw(#[trigger] wrapper@) == wrapper,
{
}

/// Addition on wrappers is addition on the backing values: it is allowed on the same
/// operands, and the sum of two wrappers holds the sum of what they hold.
pub proof fn lemma_add_forwards<F>(a: F::Backing, b: F::Backing) where
    F: VecFlavor,
    F::Backing: Add<F::Backing, Output = F::Backing>,

    ensures
        NewTypeVector::<F>::from_raw(a).add_req(NewTypeVector::<F>::from_raw(b)) == a.add_req(b),
        NewTypeVector::<F>::from_raw(a).add_spec(NewTypeVector::<F>::from_raw(b)).into_raw()
            == a.add_spec(b),
{
}

/// Converting a wrapper to its own flavor gives the wrapper back.
pub proof fn lemma_identity_conversion<F: VecFlavor>(wrapper: NewTypeVector<F>)
    ensures
        wrapper.spec_into::<F>() == wrapper,
{
}

} // verus!
