use crate::newtype::backing_vec::Sealed;
use crate::newtype::BackingVec;
use core::ops::{
    Add, BitAnd, BitOr, BitXor, Div, Index, IndexMut, Mul, Neg, Not, Rem, Shl, Shr, Sub,
};
use vstd::prelude::*;
use vstd::std_specs::cmp::PartialEqSpecImpl;
use vstd::std_specs::ops::{
    AddSpec, BitAndSpec, BitOrSpec, BitXorSpec, DivSpec, MulSpec, NegSpec, NotSpec, RemSpec, SubSpec,
};

verus! {

/// A vector of four signed 32-bit lanes. Its operators work lane by lane and are allowed
/// exactly where the same operator on `i32` is allowed in every lane.
#[derive(Clone, Copy, Debug, Hash)]
pub struct IVec4 {
    pub x: i32,
    pub y: i32,
    pub z: i32,
    pub w: i32,
}

impl IVec4 {
    /// The vector with the given lanes.
    pub fn new(x: i32, y: i32, z: i32, w: i32) -> (r: Self)
        ensures
            r == (IVec4 { x, y, z, w }),
    {
        IVec4 { x, y, z, w }
    }

    /// The vector with `v` in every lane.
    pub fn splat(v: i32) -> (r: Self)
        ensures
            r == (IVec4 { x: v, y: v, z: v, w: v }),
    {
        IVec4 { x: v, y: v, z: v, w: v }
    }
}

impl Sealed for IVec4 {

}

impl BackingVec for IVec4 {

}

impl vstd::std_specs::core::IndexSpecImpl<usize> for IVec4 {
    open spec fn index_req(&self, index: &usize) -> bool {
        *index == 0
    }
}

impl Index<usize> for IVec4 {
    type Output = Self;

    /// Taken as a sequence of values of its own shape, a vector has one element, itself:
    /// the only index is 0.
    fn index(&self, index: usize) -> (r: &Self)
        ensures
            *r == *self,
    {
        self
    }
}

impl IndexMut<usize> for IVec4 {
    /// The one element, the vector itself, for writing: what is written through the
    /// borrow is what the vector holds afterwards.
    fn index_mut(&mut self, index: usize) -> (r: &mut Self)
        requires
            index == 0,
        ensures
            *r == *old(self),
            *final(self) == *final(r),
    {
        self
    }
}

impl Default for IVec4 {
    /// The vector of four zeros.
    fn default() -> (r: Self)
        ensures
            r == (IVec4 { x: 0, y: 0, z: 0, w: 0 }),
    {
        IVec4 { x: 0, y: 0, z: 0, w: 0 }
    }
}

impl PartialEq for IVec4 {
    /// Two vectors are equal when all four lanes are.
    fn eq(&self, other: &Self) -> (r: bool) {
        self.x == other.x && self.y == other.y && self.z == other.z && self.w == other.w
    }
}

impl PartialEqSpecImpl for IVec4 {
    open spec fn obeys_eq_spec() -> bool {
        true
    }

    open spec fn eq_spec(&self, other: &Self) -> bool {
        *self == *other
    }
}

impl Eq for IVec4 {

}

impl vstd::std_specs::ops::AddSpecImpl for IVec4 {
    open spec fn obeys_add_spec() -> bool {
        true
    }

    open spec fn add_req(self, rhs: Self) -> bool {
        &&& AddSpec::add_req(self.x, rhs.x)
        &&& AddSpec::add_req(self.y, rhs.y)
        &&& AddSpec::add_req(self.z, rhs.z)
        &&& AddSpec::add_req(self.w, rhs.w)
    }

    open spec fn add_spec(self, rhs: Self) -> Self {
        IVec4 {
            x: AddSpec::add_spec(self.x, rhs.x),
            y: AddSpec::add_spec(self.y, rhs.y),
            z: AddSpec::add_spec(self.z, rhs.z),
            w: AddSpec::add_spec(self.w, rhs.w),
        }
    }
}

impl Add for IVec4 {
    type Output = Self;

    /// Lane-wise sum. No lane may overflow.
    fn add(self, rhs: Self) -> (r: Self) {
        IVec4 { x: self.x + rhs.x, y: self.y + rhs.y, z: self.z + rhs.z, w: self.w + rhs.w }
    }
}

impl vstd::std_specs::ops::SubSpecImpl for IVec4 {
    open spec fn obeys_sub_spec() -> bool {
        true
    }

    open spec fn sub_req(self, rhs: Self) -> bool {
        &&& SubSpec::sub_req(self.x, rhs.x)
        &&& SubSpec::sub_req(self.y, rhs.y)
        &&& SubSpec::sub_req(self.z, rhs.z)
        &&& SubSpec::sub_req(self.w, rhs.w)
    }

    open spec fn sub_spec(self, rhs: Self) -> Self {
        IVec4 {
            x: SubSpec::sub_spec(self.x, rhs.x),
            y: SubSpec::sub_spec(self.y, rhs.y),
            z: SubSpec::sub_spec(self.z, rhs.z),
            w: SubSpec::sub_spec(self.w, rhs.w),
        }
    }
}

impl Sub for IVec4 {
    type Output = Self;

    /// Lane-wise difference. No lane may overflow.
    fn sub(self, rhs: Self) -> (r: Self) {
        IVec4 { x: self.x - rhs.x, y: self.y - rhs.y, z: self.z - rhs.z, w: self.w - rhs.w }
    }
}

impl vstd::std_specs::ops::MulSpecImpl for IVec4 {
    open spec fn obeys_mul_spec() -> bool {
        true
    }

    open spec fn mul_req(self, rhs: Self) -> bool {
        &&& MulSpec::mul_req(self.x, rhs.x)
        &&& MulSpec::mul_req(self.y, rhs.y)
        &&& MulSpec::mul_req(self.z, rhs.z)
        &&& MulSpec::mul_req(self.w, rhs.w)
    }

    open spec fn mul_spec(self, rhs: Self) -> Self {
        IVec4 {
            x: MulSpec::mul_spec(self.x, rhs.x),
            y: MulSpec::mul_spec(self.y, rhs.y),
            z: MulSpec::mul_spec(self.z, rhs.z),
            w: MulSpec::mul_spec(self.w, rhs.w),
        }
    }
}

impl Mul for IVec4 {
    type Output = Self;

    /// Lane-wise product. No lane may overflow.
    fn mul(self, rhs: Self) -> (r: Self) {
        IVec4 { x: self.x * rhs.x, y: self.y * rhs.y, z: self.z * rhs.z, w: self.w * rhs.w }
    }
}

impl vstd::std_specs::ops::DivSpecImpl for IVec4 {
    open spec fn obeys_div_spec() -> bool {
        true
    }

    open spec fn div_req(self, rhs: Self) -> bool {
        &&& DivSpec::div_req(self.x, rhs.x)
        &&& DivSpec::div_req(self.y, rhs.y)
        &&& DivSpec::div_req(self.z, rhs.z)
        &&& DivSpec::div_req(self.w, rhs.w)
    }

    open spec fn div_spec(self, rhs: Self) -> Self {
        IVec4 {
            x: DivSpec::div_spec(self.x, rhs.x),
            y: DivSpec::div_spec(self.y, rhs.y),
            z: DivSpec::div_spec(self.z, rhs.z),
            w: DivSpec::div_spec(self.w, rhs.w),
        }
    }
}

impl Div for IVec4 {
    type Output = Self;

    /// Lane-wise quotient, rounded towards zero. No lane of `rhs` may be zero, and no lane
    /// may overflow.
    fn div(self, rhs: Self) -> (r: Self) {
        IVec4 { x: self.x / rhs.x, y: self.y / rhs.y, z: self.z / rhs.z, w: self.w / rhs.w }
    }
}

impl vstd::std_specs::ops::RemSpecImpl for IVec4 {
    open spec fn obeys_rem_spec() -> bool {
        true
    }

    open spec fn rem_req(self, rhs: Self) -> bool {
        &&& RemSpec::rem_req(self.x, rhs.x)
        &&& RemSpec::rem_req(self.y, rhs.y)
        &&& RemSpec::rem_req(self.z, rhs.z)
        &&& RemSpec::rem_req(self.w, rhs.w)
    }

    open spec fn rem_spec(self, rhs: Self) -> Self {
        IVec4 {
            x: RemSpec::rem_spec(self.x, rhs.x),
            y: RemSpec::rem_spec(self.y, rhs.y),
            z: RemSpec::rem_spec(self.z, rhs.z),
            w: RemSpec::rem_spec(self.w, rhs.w),
        }
    }
}

impl Rem for IVec4 {
    type Output = Self;

    /// Lane-wise remainder of the division that rounds towards zero. No lane of `rhs` may
    /// be zero, and no lane's division may overflow.
    fn rem(self, rhs: Self) -> (r: Self) {
        IVec4 { x: self.x % rhs.x, y: self.y % rhs.y, z: self.z % rhs.z, w: self.w % rhs.w }
    }
}

impl vstd::std_specs::ops::BitAndSpecImpl for IVec4 {
    open spec fn obeys_bitand_spec() -> bool {
        true
    }

    open spec fn bitand_req(self, rhs: Self) -> bool {
        &&& BitAndSpec::bitand_req(self.x, rhs.x)
        &&& BitAndSpec::bitand_req(self.y, rhs.y)
        &&& BitAndSpec::bitand_req(self.z, rhs.z)
        &&& BitAndSpec::bitand_req(self.w, rhs.w)
    }

    open spec fn bitand_spec(self, rhs: Self) -> Self {
        IVec4 {
            x: BitAndSpec::bitand_spec(self.x, rhs.x),
            y: BitAndSpec::bitand_spec(self.y, rhs.y),
            z: BitAndSpec::bitand_spec(self.z, rhs.z),
            w: BitAndSpec::bitand_spec(self.w, rhs.w),
        }
    }
}

impl BitAnd for IVec4 {
    type Output = Self;

    /// Lane-wise bitwise and.
    fn bitand(self, rhs: Self) -> (r: Self) {
        IVec4 { x: self.x & rhs.x, y: self.y & rhs.y, z: self.z & rhs.z, w: self.w & rhs.w }
    }
}

impl vstd::std_specs::ops::BitOrSpecImpl for IVec4 {
    open spec fn obeys_bitor_spec() -> bool {
        true
    }

    open spec fn bitor_req(self, rhs: Self) -> bool {
        &&& BitOrSpec::bitor_req(self.x, rhs.x)
        &&& BitOrSpec::bitor_req(self.y, rhs.y)
        &&& BitOrSpec::bitor_req(self.z, rhs.z)
        &&& BitOrSpec::bitor_req(self.w, rhs.w)
    }

    open spec fn bitor_spec(self, rhs: Self) -> Self {
        IVec4 {
            x: BitOrSpec::bitor_spec(self.x, rhs.x),
            y: BitOrSpec::bitor_spec(self.y, rhs.y),
            z: BitOrSpec::bitor_spec(self.z, rhs.z),
            w: BitOrSpec::bitor_spec(self.w, rhs.w),
        }
    }
}

impl BitOr for IVec4 {
    type Output = Self;

    /// Lane-wise bitwise or.
    fn bitor(self, rhs: Self) -> (r: Self) {
        IVec4 { x: self.x | rhs.x, y: self.y | rhs.y, z: self.z | rhs.z, w: self.w | rhs.w }
    }
}

impl vstd::std_specs::ops::BitXorSpecImpl for IVec4 {
    open spec fn obeys_bitxor_spec() -> bool {
        true
    }

    open spec fn bitxor_req(self, rhs: Self) -> bool {
        &&& BitXorSpec::bitxor_req(self.x, rhs.x)
        &&& BitXorSpec::bitxor_req(self.y, rhs.y)
        &&& BitXorSpec::bitxor_req(self.z, rhs.z)
        &&& BitXorSpec::bitxor_req(self.w, rhs.w)
    }

    open spec fn bitxor_spec(self, rhs: Self) -> Self {
        IVec4 {
            x: BitXorSpec::bitxor_spec(self.x, rhs.x),
            y: BitXorSpec::bitxor_spec(self.y, rhs.y),
            z: BitXorSpec::bitxor_spec(self.z, rhs.z),
            w: BitXorSpec::bitxor_spec(self.w, rhs.w),
        }
    }
}

impl BitXor for IVec4 {
    type Output = Self;

    /// Lane-wise bitwise exclusive or.
    fn bitxor(self, rhs: Self) -> (r: Self) {
        IVec4 { x: self.x ^ rhs.x, y: self.y ^ rhs.y, z: self.z ^ rhs.z, w: self.w ^ rhs.w }
    }
}

impl vstd::std_specs::ops::ShlSpecImpl for IVec4 {
    open spec fn obeys_shl_spec() -> bool {
        true
    }

    open spec fn shl_req(self, rhs: Self) -> bool {
        &&& 0 <= rhs.x < 32
        &&& 0 <= rhs.y < 32
        &&& 0 <= rhs.z < 32
        &&& 0 <= rhs.w < 32
    }

    open spec fn shl_spec(self, rhs: Self) -> Self {
        IVec4 {
            x: self.x << rhs.x,
            y: self.y << rhs.y,
            z: self.z << rhs.z,
            w: self.w << rhs.w,
        }
    }
}

impl Shl for IVec4 {
    type Output = Self;

    /// Shifts each lane left by the matching lane of `rhs`, which must hold a bit count
    /// from 0 to 31.
    fn shl(self, rhs: Self) -> (r: Self) {
        IVec4 {
            x: self.x << rhs.x,
            y: self.y << rhs.y,
            z: self.z << rhs.z,
            w: self.w << rhs.w,
        }
    }
}

impl vstd::std_specs::ops::ShrSpecImpl for IVec4 {
    open spec fn obeys_shr_spec() -> bool {
        true
    }

    open spec fn shr_req(self, rhs: Self) -> bool {
        &&& 0 <= rhs.x < 32
        &&& 0 <= rhs.y < 32
        &&& 0 <= rhs.z < 32
        &&& 0 <= rhs.w < 32
    }

    open spec fn shr_spec(self, rhs: Self) -> Self {
        IVec4 {
            x: self.x >> rhs.x,
            y: self.y >> rhs.y,
            z: self.z >> rhs.z,
            w: self.w >> rhs.w,
        }
    }
}

impl Shr for IVec4 {
    type Output = Self;

    /// Shifts each lane right by the matching lane of `rhs`, which must hold a bit count
    /// from 0 to 31. The sign is kept.
    fn shr(self, rhs: Self) -> (r: Self) {
        IVec4 {
            x: self.x >> rhs.x,
            y: self.y >> rhs.y,
            z: self.z >> rhs.z,
            w: self.w >> rhs.w,
        }
    }
}

impl vstd::std_specs::ops::NotSpecImpl for IVec4 {
    open spec fn obeys_not_spec() -> bool {
        true
    }

    open spec fn not_req(self) -> bool {
        &&& NotSpec::not_req(self.x)
        &&& NotSpec::not_req(self.y)
        &&& NotSpec::not_req(self.z)
        &&& NotSpec::not_req(self.w)
    }

    open spec fn not_spec(self) -> Self {
        IVec4 {
            x: NotSpec::not_spec(self.x),
            y: NotSpec::not_spec(self.y),
            z: NotSpec::not_spec(self.z),
            w: NotSpec::not_spec(self.w),
        }
    }
}

impl Not for IVec4 {
    type Output = Self;

    /// Lane-wise bitwise complement.
    fn not(self) -> (r: Self) {
        IVec4 { x: !self.x, y: !self.y, z: !self.z, w: !self.w }
    }
}

impl vstd::std_specs::ops::NegSpecImpl for IVec4 {
    open spec fn obeys_neg_spec() -> bool {
        true
    }

    open spec fn neg_req(self) -> bool {
        &&& NegSpec::neg_req(self.x)
        &&& NegSpec::neg_req(self.y)
        &&& NegSpec::neg_req(self.z)
        &&& NegSpec::neg_req(self.w)
    }

    open spec fn neg_spec(self) -> Self {
        IVec4 {
            x: NegSpec::neg_spec(self.x),
            y: NegSpec::neg_spec(self.y),
            z: NegSpec::neg_spec(self.z),
            w: NegSpec::neg_spec(self.w),
        }
    }
}

impl Neg for IVec4 {
    type Output = Self;

    /// Lane-wise negation. No lane may hold the least `i32`.
    fn neg(self) -> (r: Self) {
        IVec4 { x: -self.x, y: -self.y, z: -self.z, w: -self.w }
    }
}

} // verus!
