use vstd::prelude::*;
use vstd::std_specs::cmp::PartialEqSpecImpl;
use vstd::std_specs::convert::FromSpecImpl;
use vstd::std_specs::ops::{BitAndSpec, BitOrSpec, BitXorSpec};
use core::hash::{Hash, Hasher};
use core::ops::{BitAnd, BitAndAssign, BitOr, BitOrAssign, BitXor, BitXorAssign, Not};

verus! {

/// Bit pattern of a lane that holds `true`: every bit set.
pub const LANE_TRUE: u32 = 0xffff_ffff;

/// Bit pattern of a lane that holds `false`: no bit set.
pub const LANE_FALSE: u32 = 0;

/// The bit pattern that a lane with truth value `b` holds.
pub open spec fn lane_pattern(b: bool) -> u32 {
    if b {
        LANE_TRUE
    } else {
        LANE_FALSE
    }
}

/// The truth value that a lane's bit pattern stands for: its most significant bit.
pub open spec fn lane_truth(pattern: u32) -> bool {
    pattern >> 31 == 1
}

/// The 4-bit number whose bits, from the lowest, are `x`, `y`, `z` and `w`.
pub open spec fn pack_bits(x: bool, y: bool, z: bool, w: bool) -> u32 {
    ((if x { 1int } else { 0 }) + (if y { 2int } else { 0 }) + (if z { 4int } else { 0 }) + (if w {
        8int
    } else {
        0
    })) as u32
}

/// The 4-bit summary of four lanes: bit `i` is set exactly when lane `i` is true.
pub open spec fn bitmask_of(lanes: Seq<bool>) -> u32 {
    pack_bits(lanes[0], lanes[1], lanes[2], lanes[3])
}

/// Whether at least one of four lanes is true.
pub open spec fn any_lane(lanes: Seq<bool>) -> bool {
    lanes[0] || lanes[1] || lanes[2] || lanes[3]
}

/// Whether all of four lanes are true.
pub open spec fn all_lanes(lanes: Seq<bool>) -> bool {
    lanes[0] && lanes[1] && lanes[2] && lanes[3]
}

/// Lane-wise conjunction of two 4-lane masks.
pub open spec fn lanes_and(a: Seq<bool>, b: Seq<bool>) -> Seq<bool> {
    Seq::new(4, |i: int| a[i] && b[i])
}

/// Lane-wise disjunction of two 4-lane masks.
pub open spec fn lanes_or(a: Seq<bool>, b: Seq<bool>) -> Seq<bool> {
    Seq::new(4, |i: int| a[i] || b[i])
}

/// Lane-wise exclusive or of two 4-lane masks.
pub open spec fn lanes_xor(a: Seq<bool>, b: Seq<bool>) -> Seq<bool> {
    Seq::new(4, |i: int| a[i] != b[i])
}

/// Lane-wise negation of a 4-lane mask.
pub open spec fn lanes_not(a: Seq<bool>) -> Seq<bool> {
    Seq::new(4, |i: int| !a[i])
}

/// The text of one lane in the bracketed form: `true` or `false`.
pub open spec fn bool_text(b: bool) -> Seq<char> {
    if b {
        "true"@
    } else {
        "false"@
    }
}

/// The text of one lane in the pattern form: its bit pattern in hexadecimal.
pub open spec fn pattern_text(b: bool) -> Seq<char> {
    if b {
        "0xffffffff"@
    } else {
        "0x0"@
    }
}

/// The bracketed form of four lanes, such as `[true, false, false, true]`.
pub open spec fn display_text(lanes: Seq<bool>) -> Seq<char> {
    "["@ + bool_text(lanes[0]) + ", "@ + bool_text(lanes[1]) + ", "@ + bool_text(lanes[2]) + ", "@
        + bool_text(lanes[3]) + "]"@
}

/// The pattern form of four lanes, such as `BVec4A(0xffffffff, 0x0, 0x0, 0xffffffff)`.
pub open spec fn debug_text(lanes: Seq<bool>) -> Seq<char> {
    "BVec4A("@ + pattern_text(lanes[0]) + ", "@ + pattern_text(lanes[1]) + ", "@ + pattern_text(
        lanes[2],
    ) + ", "@ + pattern_text(lanes[3]) + ")"@
}

/// A 4-lane boolean mask. Each lane is a 32-bit pattern, all ones for `true` and all
/// zeros for `false`.
#[derive(Clone, Copy)]
pub struct BVec4A {
    x: u32,
    y: u32,
    z: u32,
    w: u32,
}

impl View for BVec4A {
    type V = Seq<bool>;

    closed spec fn view(&self) -> Seq<bool> {
        seq![lane_truth(self.x), lane_truth(self.y), lane_truth(self.z), lane_truth(self.w)]
    }
}

impl BVec4A {
    /// Every lane holds one of the two saturated bit patterns.
    #[verifier::type_invariant]
    pub closed spec fn saturated(self) -> bool {
        &&& self.x == LANE_FALSE || self.x == LANE_TRUE
        &&& self.y == LANE_FALSE || self.y == LANE_TRUE
        &&& self.z == LANE_FALSE || self.z == LANE_TRUE
        &&& self.w == LANE_FALSE || self.w == LANE_TRUE
    }

    /// Creates the mask with the given lanes: each lane gets the all-ones pattern for
    /// `true` and the all-zeros pattern for `false`.
    pub fn new(x: bool, y: bool, z: bool, w: bool) -> (r: Self)
        ensures
            r@ == seq![x, y, z, w],
    {
        let r = BVec4A {
            x: if x { LANE_TRUE } else { LANE_FALSE },
            y: if y { LANE_TRUE } else { LANE_FALSE },
            z: if z { LANE_TRUE } else { LANE_FALSE },
            w: if w { LANE_TRUE } else { LANE_FALSE },
        };
        proof {
            assert(lane_truth(LANE_TRUE) && !lane_truth(LANE_FALSE)) by (bit_vector);
            assert(r@ =~= seq![x, y, z, w]);
        }
        r
    }

    /// The mask of the given lanes, for use in contracts.
    pub closed spec fn from_lanes(lanes: Seq<bool>) -> Self {
        BVec4A {
            x: lane_pattern(lanes[0]),
            y: lane_pattern(lanes[1]),
            z: lane_pattern(lanes[2]),
            w: lane_pattern(lanes[3]),
        }
    }

    /// The bitmask of the mask's lanes.
    pub open spec fn spec_bitmask(self) -> u32 {
        bitmask_of(self@)
    }

    /// Whether any lane of the mask is true.
    pub open spec fn spec_any(self) -> bool {
        any_lane(self@)
    }

    /// Whether all lanes of the mask are true.
    pub open spec fn spec_all(self) -> bool {
        all_lanes(self@)
    }

    /// Returns the 4-bit summary of the mask: bit `i`, counted from the lowest, is the most
    /// significant bit of lane `i`, so it is 1 exactly when lane `i` is true.
    #[verifier::when_used_as_spec(spec_bitmask)]
    pub fn bitmask(self) -> (r: u32)
        ensures
            r == bitmask_of(self@),
    {
        let (x, y, z, w) = (self.x, self.y, self.z, self.w);
        let r: u32 = (x >> 31) | ((y >> 31) << 1) | ((z >> 31) << 2) | ((w >> 31) << 3);
        proof {
            assert(r == pack_bits(lane_truth(x), lane_truth(y), lane_truth(z), lane_truth(w)))
                by (bit_vector)
                requires
                    r == (x >> 31) | ((y >> 31) << 1) | ((z >> 31) << 2) | ((w >> 31) << 3),
            ;
        }
        r
    }

    /// Returns true if any of the lanes is true.
    #[verifier::when_used_as_spec(spec_any)]
    pub fn any(self) -> (r: bool)
        ensures
            r == any_lane(self@),
            r == (bitmask_of(self@) != 0),
    {
        self.bitmask() != 0
    }

    /// Returns true if all the lanes are true.
    #[verifier::when_used_as_spec(spec_all)]
    pub fn all(self) -> (r: bool)
        ensures
            r == all_lanes(self@),
            r == (bitmask_of(self@) == 0xf),
    {
        self.bitmask() == 0xf
    }

    /// Decodes the bitmask into one boolean per lane.
    pub fn into_bool_array(self) -> (r: [bool; 4])
        ensures
            r@ == self@,
            forall|i: u32| i < 4 ==> #[trigger] r@[i as int] == ((bitmask_of(self@) >> i) & 1 != 0),
    {
        let bitmask = self.bitmask();
        let r = [(bitmask & 1) != 0, (bitmask & 2) != 0, (bitmask & 4) != 0, (bitmask & 8) != 0];
        proof {
            let m = bitmask_of(self@);
            assert(m < 16);
            assert(((m & 1) != 0) == (m % 2 == 1) && ((m & 2) != 0) == ((m / 2) % 2 == 1)
                && ((m & 4) != 0) == ((m / 4) % 2 == 1) && ((m & 8) != 0) == ((m / 8) % 2 == 1))
                by (bit_vector)
                requires m < 16;
            assert(r@ =~= self@);
            assert forall|i: u32| i < 4 implies #[trigger] r@[i as int] == ((m >> i) & 1 != 0) by {
                lemma_bitmask_bit(self@, i);
            }
        }
        r
    }

    /// Decodes the bitmask into one 32-bit pattern per lane, all ones or all zeros.
    pub fn into_u32_array(self) -> (r: [u32; 4])
        ensures
            r@ == Seq::new(4, |i: int| lane_pattern(self@[i])),
    {
        let b = self.into_bool_array();
        let r = [
            if b[0] { LANE_TRUE } else { LANE_FALSE },
            if b[1] { LANE_TRUE } else { LANE_FALSE },
            if b[2] { LANE_TRUE } else { LANE_FALSE },
            if b[3] { LANE_TRUE } else { LANE_FALSE },
        ];
        assert(r@ =~= Seq::new(4, |i: int| lane_pattern(self@[i])));
        r
    }
}

impl BVec4A {
    /// The mask in bracketed form, one `true` or `false` per lane.
    pub fn to_string(&self) -> (r: String)
        ensures
            r@ == display_text(self@),
    {
        let arr = self.into_bool_array();
        let mut s = String::from_str("[");
        s.append(bool_str(arr[0]));
        s.append(", ");
        s.append(bool_str(arr[1]));
        s.append(", ");
        s.append(bool_str(arr[2]));
        s.append(", ");
        s.append(bool_str(arr[3]));
        s.append("]");
        s
    }

    /// The mask in pattern form, one hexadecimal bit pattern per lane.
    pub fn to_debug_string(&self) -> (r: String)
        ensures
            r@ == debug_text(self@),
    {
        let arr = self.into_u32_array();
        let mut s = String::from_str("BVec4A(");
        s.append(pattern_str(arr[0]));
        s.append(", ");
        s.append(pattern_str(arr[1]));
        s.append(", ");
        s.append(pattern_str(arr[2]));
        s.append(", ");
        s.append(pattern_str(arr[3]));
        s.append(")");
        s
    }
}

fn bool_str(b: bool) -> (r: &'static str)
    ensures
        r@ == bool_text(b),
{
    if b {
        "true"
    } else {
        "false"
    }
}

fn pattern_str(pattern: u32) -> (r: &'static str)
    requires
        pattern == LANE_FALSE || pattern == LANE_TRUE,
    ensures
        r@ == pattern_text(pattern == LANE_TRUE),
{
    if pattern == LANE_TRUE {
        "0xffffffff"
    } else {
        "0x0"
    }
}

impl Default for BVec4A {
    /// The all-false mask.
    fn default() -> (r: Self)
        ensures
            r@ == seq![false, false, false, false],
    {
        BVec4A::new(false, false, false, false)
    }
}

impl PartialEq for BVec4A {
    /// Two masks are equal when their bitmasks are.
    fn eq(&self, rhs: &Self) -> (r: bool) {
        self.bitmask() == rhs.bitmask()
    }
}

impl PartialEqSpecImpl for BVec4A {
    open spec fn obeys_eq_spec() -> bool {
        true
    }

    open spec fn eq_spec(&self, rhs: &Self) -> bool {
        bitmask_of(self@) == bitmask_of(rhs@)
    }
}

impl Eq for BVec4A {}

impl Hash for BVec4A {
    /// Hashes the bitmask, and nothing else of the mask.
    fn hash<H: Hasher>(&self, state: &mut H) {
        hash_bitmask(self.bitmask(), state)
    }
}

/// Feeds `bitmask` to `state` by `u32`'s `Hash::hash`. Nothing is claimed of the state
/// that the hasher is left in.
#[verifier::external_body]
fn hash_bitmask<H: Hasher>(bitmask: u32, state: &mut H) {
    bitmask.hash(state)
}

impl vstd::std_specs::ops::BitAndSpecImpl for BVec4A {
    open spec fn obeys_bitand_spec() -> bool {
        true
    }

    open spec fn bitand_req(self, rhs: Self) -> bool {
        true
    }

    open spec fn bitand_spec(self, rhs: Self) -> Self {
        Self::from_lanes(lanes_and(self@, rhs@))
    }
}

impl BitAnd for BVec4A {
    type Output = Self;

    /// Lane-wise conjunction: the bitwise `&` of the lane patterns.
    fn bitand(self, rhs: Self) -> (r: Self)
        ensures
            r@ == lanes_and(self@, rhs@),
            r.bitmask() == self.bitmask() & rhs.bitmask(),
    {
        proof {
            use_type_invariant(&self);
            use_type_invariant(&rhs);
            lemma_pattern_ops(self.x, rhs.x);
            lemma_pattern_ops(self.y, rhs.y);
            lemma_pattern_ops(self.z, rhs.z);
            lemma_pattern_ops(self.w, rhs.w);
        }
        let r = BVec4A {
            x: self.x & rhs.x,
            y: self.y & rhs.y,
            z: self.z & rhs.z,
            w: self.w & rhs.w,
        };
        proof {
            assert(r@ =~= lanes_and(self@, rhs@));
            lemma_bitmask_distributes(self@, rhs@);
        }
        r
    }
}

impl BitAndAssign for BVec4A {
    /// The in-place form of `&`.
    fn bitand_assign(&mut self, rhs: Self)
        ensures
            *final(self) == old(self).bitand_spec(rhs),
            final(self)@ == lanes_and(old(self)@, rhs@),
            final(self).bitmask() == old(self).bitmask() & rhs.bitmask(),
    {
        *self = *self & rhs;
    }
}

impl vstd::std_specs::ops::BitOrSpecImpl for BVec4A {
    open spec fn obeys_bitor_spec() -> bool {
        true
    }

    open spec fn bitor_req(self, rhs: Self) -> bool {
        true
    }

    open spec fn bitor_spec(self, rhs: Self) -> Self {
        Self::from_lanes(lanes_or(self@, rhs@))
    }
}

impl BitOr for BVec4A {
    type Output = Self;

    /// Lane-wise disjunction: the bitwise `|` of the lane patterns.
    fn bitor(self, rhs: Self) -> (r: Self)
        ensures
            r@ == lanes_or(self@, rhs@),
            r.bitmask() == self.bitmask() | rhs.bitmask(),
    {
        proof {
            use_type_invariant(&self);
            use_type_invariant(&rhs);
            lemma_pattern_ops(self.x, rhs.x);
            lemma_pattern_ops(self.y, rhs.y);
            lemma_pattern_ops(self.z, rhs.z);
            lemma_pattern_ops(self.w, rhs.w);
        }
        let r = BVec4A {
            x: self.x | rhs.x,
            y: self.y | rhs.y,
            z: self.z | rhs.z,
            w: self.w | rhs.w,
        };
        proof {
            assert(r@ =~= lanes_or(self@, rhs@));
            lemma_bitmask_distributes(self@, rhs@);
        }
        r
    }
}

impl BitOrAssign for BVec4A {
    /// The in-place form of `|`.
    fn bitor_assign(&mut self, rhs: Self)
        ensures
            *final(self) == old(self).bitor_spec(rhs),
            final(self)@ == lanes_or(old(self)@, rhs@),
            final(self).bitmask() == old(self).bitmask() | rhs.bitmask(),
    {
        *self = *self | rhs;
    }
}

impl vstd::std_specs::ops::BitXorSpecImpl for BVec4A {
    open spec fn obeys_bitxor_spec() -> bool {
        true
    }

    open spec fn bitxor_req(self, rhs: Self) -> bool {
        true
    }

    open spec fn bitxor_spec(self, rhs: Self) -> Self {
        Self::from_lanes(lanes_xor(self@, rhs@))
    }
}

impl BitXor for BVec4A {
    type Output = Self;

    /// Lane-wise exclusive or: the bitwise `^` of the lane patterns.
    fn bitxor(self, rhs: Self) -> (r: Self)
        ensures
            r@ == lanes_xor(self@, rhs@),
            r.bitmask() == self.bitmask() ^ rhs.bitmask(),
    {
        proof {
            use_type_invariant(&self);
            use_type_invariant(&rhs);
            lemma_pattern_ops(self.x, rhs.x);
            lemma_pattern_ops(self.y, rhs.y);
            lemma_pattern_ops(self.z, rhs.z);
            lemma_pattern_ops(self.w, rhs.w);
        }
        let r = BVec4A {
            x: self.x ^ rhs.x,
            y: self.y ^ rhs.y,
            z: self.z ^ rhs.z,
            w: self.w ^ rhs.w,
        };
        proof {
            assert(r@ =~= lanes_xor(self@, rhs@));
            lemma_bitmask_distributes(self@, rhs@);
        }
        r
    }
}

impl BitXorAssign for BVec4A {
    /// The in-place form of `^`.
    fn bitxor_assign(&mut self, rhs: Self)
        ensures
            *final(self) == old(self).bitxor_spec(rhs),
            final(self)@ == lanes_xor(old(self)@, rhs@),
            final(self).bitmask() == old(self).bitmask() ^ rhs.bitmask(),
    {
        *self = *self ^ rhs;
    }
}

impl vstd::std_specs::ops::NotSpecImpl for BVec4A {
    open spec fn obeys_not_spec() -> bool {
        true
    }

    open spec fn not_req(self) -> bool {
        true
    }

    open spec fn not_spec(self) -> Self {
        Self::from_lanes(lanes_not(self@))
    }
}

impl Not for BVec4A {
    type Output = Self;

    /// Lane-wise negation: each lane's complement, taken as and-not against the all-ones
    /// pattern.
    fn not(self) -> (r: Self)
        ensures
            r@ == lanes_not(self@),
            r.bitmask() == !self.bitmask() & 0xf,
    {
        proof {
            use_type_invariant(&self);
            lemma_pattern_ops(self.x, self.x);
            lemma_pattern_ops(self.y, self.y);
            lemma_pattern_ops(self.z, self.z);
            lemma_pattern_ops(self.w, self.w);
        }
        let r = BVec4A {
            x: !self.x & LANE_TRUE,
            y: !self.y & LANE_TRUE,
            z: !self.z & LANE_TRUE,
            w: !self.w & LANE_TRUE,
        };
        proof {
            assert(r@ =~= lanes_not(self@));
            lemma_bitmask_distributes(self@, self@);
        }
        r
    }
}

impl FromSpecImpl<BVec4A> for [bool; 4] {
    open spec fn obeys_from_spec() -> bool {
        true
    }

    open spec fn from_spec(mask: BVec4A) -> [bool; 4] {
        [mask@[0], mask@[1], mask@[2], mask@[3]]
    }
}

impl From<BVec4A> for [bool; 4] {
    /// One boolean per lane.
    fn from(mask: BVec4A) -> (r: [bool; 4])
        ensures
            r@ == mask@,
    {
        mask.into_bool_array()
    }
}

impl FromSpecImpl<BVec4A> for [u32; 4] {
    open spec fn obeys_from_spec() -> bool {
        true
    }

    open spec fn from_spec(mask: BVec4A) -> [u32; 4] {
        [
            lane_pattern(mask@[0]),
            lane_pattern(mask@[1]),
            lane_pattern(mask@[2]),
            lane_pattern(mask@[3]),
        ]
    }
}

impl From<BVec4A> for [u32; 4] {
    /// One 32-bit pattern per lane, all ones or all zeros.
    fn from(mask: BVec4A) -> (r: [u32; 4])
        ensures
            r@ == Seq::new(4, |i: int| lane_pattern(mask@[i])),
    {
        mask.into_u32_array()
    }
}

/// Every mask has exactly four lanes.
pub broadcast proof fn lemma_four_lanes(mask: BVec4A)
    ensures
        #[trigger] mask@.len() == 4,
{
}

/// The mask that `from_lanes` builds from four lanes holds those lanes, in saturated
/// patterns.
pub broadcast proof fn lemma_from_lanes(lanes: Seq<bool>)
    requires
        lanes.len() == 4,
    ensures
        (#[trigger] BVec4A::from_lanes(lanes))@ == lanes,
        BVec4A::from_lanes(lanes).saturated(),
{
    lemma_pattern_ops(LANE_FALSE, LANE_FALSE);
    assert(BVec4A::from_lanes(lanes)@ =~= lanes);
}

/// Two masks in saturated patterns are the same value exactly when their lanes agree:
/// equality never depends on how a mask was produced.
pub proof fn lemma_saturated_masks_equal(a: BVec4A, b: BVec4A)
    requires
        a.saturated(),
        b.saturated(),
    ensures
        (a@ == b@) <==> a == b,
{
    lemma_pattern_ops(a.x, b.x);
    lemma_pattern_ops(a.y, b.y);
    lemma_pattern_ops(a.z, b.z);
    lemma_pattern_ops(a.w, b.w);
    if a@ == b@ {
        assert(a@[0] == b@[0] && a@[1] == b@[1] && a@[2] == b@[2] && a@[3] == b@[3]);
    }
}

/// The bitmask fits in four bits, and it is the same for two 4-lane masks exactly when
/// their lanes agree.
pub proof fn lemma_bitmask_injective(a: Seq<bool>, b: Seq<bool>)
    requires
        a.len() == 4,
        b.len() == 4,
    ensures
        bitmask_of(a) < 16,
        (bitmask_of(a) == bitmask_of(b)) <==> a == b,
{
    if bitmask_of(a) == bitmask_of(b) {
        assert(a =~= b);
    }
}

/// Bit `i` of the bitmask is set exactly when lane `i` is true.
pub proof fn lemma_bitmask_bit(lanes: Seq<bool>, i: u32)
    requires
        lanes.len() == 4,
        i < 4,
    ensures
        lanes[i as int] == ((bitmask_of(lanes) >> i) & 1 != 0),
{
    let (x, y, z, w) = (lanes[0], lanes[1], lanes[2], lanes[3]);
    assert(i < 4 ==> (((pack_bits(x, y, z, w) >> i) & 1 != 0) == (if i == 0 {
        x
    } else if i == 1 {
        y
    } else if i == 2 {
        z
    } else {
        w
    }))) by (bit_vector);
}

/// The bitmask distributes over the lane-wise operators: the bitmask of a conjunction,
/// disjunction or exclusive or is the bitwise `&`, `|` or `^` of the operands' bitmasks,
/// and the bitmask of a negation is the complement within the four low bits.
pub proof fn lemma_bitmask_distributes(a: Seq<bool>, b: Seq<bool>)
    requires
        a.len() == 4,
        b.len() == 4,
    ensures
        bitmask_of(lanes_and(a, b)) == bitmask_of(a) & bitmask_of(b),
        bitmask_of(lanes_or(a, b)) == bitmask_of(a) | bitmask_of(b),
        bitmask_of(lanes_xor(a, b)) == bitmask_of(a) ^ bitmask_of(b),
        bitmask_of(lanes_not(a)) == !bitmask_of(a) & 0xf,
{
    let (a0, a1, a2, a3) = (a[0], a[1], a[2], a[3]);
    let (b0, b1, b2, b3) = (b[0], b[1], b[2], b[3]);
    assert(pack_bits(a0 && b0, a1 && b1, a2 && b2, a3 && b3) == pack_bits(a0, a1, a2, a3)
        & pack_bits(b0, b1, b2, b3)) by (bit_vector);
    assert(pack_bits(a0 || b0, a1 || b1, a2 || b2, a3 || b3) == pack_bits(a0, a1, a2, a3)
        | pack_bits(b0, b1, b2, b3)) by (bit_vector);
    assert(pack_bits(a0 != b0, a1 != b1, a2 != b2, a3 != b3) == pack_bits(a0, a1, a2, a3)
        ^ pack_bits(b0, b1, b2, b3)) by (bit_vector);
    assert(pack_bits(!a0, !a1, !a2, !a3) == !pack_bits(a0, a1, a2, a3) & 0xf) by (bit_vector);
}

/// On saturated patterns the bitwise operators act as the logical ones on the truth values,
/// and give saturated patterns again.
proof fn lemma_pattern_ops(a: u32, b: u32)
    requires
        a == LANE_FALSE || a == LANE_TRUE,
        b == LANE_FALSE || b == LANE_TRUE,
    ensures
        a == lane_pattern(lane_truth(a)),
        a & b == lane_pattern(lane_truth(a) && lane_truth(b)),
        a | b == lane_pattern(lane_truth(a) || lane_truth(b)),
        a ^ b == lane_pattern(lane_truth(a) != lane_truth(b)),
        (!a) & LANE_TRUE == lane_pattern(!lane_truth(a)),
        lane_truth(lane_pattern(true)),
        !lane_truth(lane_pattern(false)),
{
    assert(lane_truth(LANE_TRUE) && !lane_truth(LANE_FALSE)) by (bit_vector);
    assert(0u32 & 0u32 == 0u32 && 0u32 & 0xffff_ffffu32 == 0u32 && 0xffff_ffffu32 & 0u32 == 0u32
        && 0xffff_ffffu32 & 0xffff_ffffu32 == 0xffff_ffffu32) by (bit_vector);
    assert(0u32 | 0u32 == 0u32 && 0u32 | 0xffff_ffffu32 == 0xffff_ffffu32 && 0xffff_ffffu32 | 0u32
        == 0xffff_ffffu32 && 0xffff_ffffu32 | 0xffff_ffffu32 == 0xffff_ffffu32) by (bit_vector);
    assert(0u32 ^ 0u32 == 0u32 && 0u32 ^ 0xffff_ffffu32 == 0xffff_ffffu32 && 0xffff_ffffu32 ^ 0u32
        == 0xffff_ffffu32 && 0xffff_ffffu32 ^ 0xffff_ffffu32 == 0u32) by (bit_vector);
    assert((!0u32) & 0xffff_ffffu32 == 0xffff_ffffu32 && (!0xffff_ffffu32) & 0xffff_ffffu32 == 0u32)
        by (bit_vector);
}

} // verus!
