use std::collections::hash_map::DefaultHasher;
use std::hash::{Hash, Hasher};
use typed_vector::bvec4a::BVec4A;

fn mask_of(bits: u32) -> BVec4A {
    BVec4A::new(bits & 1 != 0, bits & 2 != 0, bits & 4 != 0, bits & 8 != 0)
}

fn hash_of<T: Hash>(value: &T) -> u64 {
    let mut hasher = DefaultHasher::new();
    value.hash(&mut hasher);
    hasher.finish()
}

#[test]
fn all_true_mask_is_all_and_any() {
    let m = BVec4A::new(true, true, true, true);
    assert!(m.all());
    assert!(m.any());
    assert_eq!(m.bitmask(), 0b1111);
}

#[test]
fn all_false_mask_is_not_any() {
    let m = BVec4A::new(false, false, false, false);
    assert!(!m.any());
    assert!(!m.all());
    assert_eq!(m.bitmask(), 0);
}

#[test]
fn first_lane_is_the_lowest_bit() {
    assert_eq!(BVec4A::new(true, false, false, false).bitmask(), 0b0001);
    assert_eq!(BVec4A::new(false, true, false, false).bitmask(), 0b0010);
    assert_eq!(BVec4A::new(false, false, true, false).bitmask(), 0b0100);
    assert_eq!(BVec4A::new(false, false, false, true).bitmask(), 0b1000);
    assert_eq!(BVec4A::new(true, false, true, true).bitmask(), 0b1101);
}

#[test]
fn partly_true_mask_is_any_but_not_all() {
    let m = BVec4A::new(false, false, true, false);
    assert!(m.any());
    assert!(!m.all());
}

#[test]
fn not_flips_every_lane() {
    let flipped = !BVec4A::new(true, false, true, false);
    assert!(flipped == BVec4A::new(false, true, false, true));
    assert_eq!(flipped.bitmask(), 0b1010);
    assert_eq!(flipped.into_u32_array(), [0, 0xffff_ffff, 0, 0xffff_ffff]);
}

#[test]
fn not_twice_is_the_mask_itself() {
    for bits in 0..16u32 {
        let m = mask_of(bits);
        assert!(!!m == m);
        assert_eq!((!m).bitmask(), !bits & 0xf);
    }
}

#[test]
fn bitmask_distributes_over_and_or_xor() {
    for a in 0..16u32 {
        for b in 0..16u32 {
            let (ma, mb) = (mask_of(a), mask_of(b));
            assert_eq!(ma.bitmask(), a);
            assert_eq!((ma & mb).bitmask(), a & b);
            assert_eq!((ma | mb).bitmask(), a | b);
            assert_eq!((ma ^ mb).bitmask(), a ^ b);
        }
    }
}

#[test]
fn mask_assigning_operators_match_the_plain_ones() {
    for a in 0..16u32 {
        for b in 0..16u32 {
            let mut m = mask_of(a);
            m &= mask_of(b);
            assert!(m == (mask_of(a) & mask_of(b)));
            let mut m = mask_of(a);
            m |= mask_of(b);
            assert!(m == (mask_of(a) | mask_of(b)));
            let mut m = mask_of(a);
            m ^= mask_of(b);
            assert!(m == (mask_of(a) ^ mask_of(b)));
        }
    }
}

#[test]
fn bool_array_lane_is_the_matching_bit() {
    for bits in 0..16u32 {
        let m = mask_of(bits);
        let lanes = m.into_bool_array();
        for i in 0..4 {
            assert_eq!(lanes[i], (m.bitmask() >> i) & 1 != 0);
        }
    }
}

#[test]
fn bool_array_gives_the_lanes_back() {
    assert_eq!(BVec4A::new(true, false, false, true).into_bool_array(), [true, false, false, true]);
    assert_eq!(BVec4A::new(false, true, true, false).into_bool_array(), [false, true, true, false]);
}

#[test]
fn u32_array_holds_saturated_patterns() {
    assert_eq!(
        BVec4A::new(true, false, false, true).into_u32_array(),
        [0xffff_ffff, 0, 0, 0xffff_ffff]
    );
    assert_eq!(BVec4A::new(false, false, false, false).into_u32_array(), [0, 0, 0, 0]);
    for bits in 0..16u32 {
        for lane in mask_of(bits).into_u32_array() {
            assert!(lane == 0 || lane == u32::MAX);
        }
    }
}

#[test]
fn arrays_come_from_masks_by_from() {
    let m = BVec4A::new(false, true, false, true);
    let lanes: [bool; 4] = m.into();
    assert_eq!(lanes, [false, true, false, true]);
    let patterns: [u32; 4] = <[u32; 4]>::from(m);
    assert_eq!(patterns, [0, 0xffff_ffff, 0, 0xffff_ffff]);
}

#[test]
fn default_mask_is_all_false() {
    let m = BVec4A::default();
    assert_eq!(m.bitmask(), 0);
    assert!(m == BVec4A::new(false, false, false, false));
    assert_eq!(m.into_bool_array(), [false; 4]);
}

#[test]
fn masks_with_equal_lanes_are_equal_however_made() {
    let direct = BVec4A::new(true, false, false, true);
    let by_not = !BVec4A::new(false, true, true, false);
    let by_xor = BVec4A::new(true, true, false, false) ^ BVec4A::new(false, true, false, true);
    let by_and_or = (BVec4A::new(true, true, true, true) & BVec4A::new(true, false, false, false))
        | BVec4A::new(false, false, false, true);
    assert!(direct == by_not);
    assert!(direct == by_xor);
    assert!(direct == by_and_or);
    assert_eq!(hash_of(&direct), hash_of(&by_not));
    assert_eq!(hash_of(&direct), hash_of(&by_xor));
    assert_eq!(hash_of(&direct), hash_of(&by_and_or));
}

#[test]
fn masks_with_different_lanes_differ() {
    for a in 0..16u32 {
        for b in 0..16u32 {
            assert_eq!(mask_of(a) == mask_of(b), a == b);
            assert_eq!(mask_of(a) != mask_of(b), a != b);
        }
    }
}

#[test]
fn hash_is_the_hash_of_the_bitmask() {
    for bits in 0..16u32 {
        assert_eq!(hash_of(&mask_of(bits)), hash_of(&bits));
    }
    assert_ne!(hash_of(&mask_of(0b0101)), hash_of(&mask_of(0b1010)));
}

#[test]
fn mask_copies_are_equal_to_the_mask() {
    let m = BVec4A::new(true, true, false, true);
    let copy = m;
    let clone = m.clone();
    assert!(copy == m);
    assert!(clone == m);
}

#[test]
fn bracketed_text_names_each_lane() {
    assert_eq!(BVec4A::new(true, false, false, true).to_string(), "[true, false, false, true]");
    assert_eq!(BVec4A::new(false, true, true, false).to_string(), "[false, true, true, false]");
    assert_eq!(BVec4A::default().to_string(), "[false, false, false, false]");
}

#[test]
fn pattern_text_shows_each_lane_in_hex() {
    assert_eq!(
        BVec4A::new(true, false, false, true).to_debug_string(),
        "BVec4A(0xffffffff, 0x0, 0x0, 0xffffffff)"
    );
    assert_eq!(BVec4A::default().to_debug_string(), "BVec4A(0x0, 0x0, 0x0, 0x0)");
    assert_eq!(
        BVec4A::new(true, false, false, true).to_debug_string(),
        format!("BVec4A({:#x}, {:#x}, {:#x}, {:#x})", u32::MAX, 0, 0, u32::MAX)
    );
}
