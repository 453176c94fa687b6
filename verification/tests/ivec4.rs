use typed_vector::ivec4::IVec4;

#[test]
fn new_and_splat_set_the_lanes() {
    let v = IVec4::new(1, -2, 3, -4);
    assert_eq!((v.x, v.y, v.z, v.w), (1, -2, 3, -4));
    assert_eq!(IVec4::splat(7), IVec4::new(7, 7, 7, 7));
}

#[test]
fn default_vector_is_zero() {
    assert_eq!(IVec4::default(), IVec4::new(0, 0, 0, 0));
}

#[test]
fn vectors_are_equal_when_all_lanes_are() {
    assert!(IVec4::new(1, 2, 3, 4) == IVec4::new(1, 2, 3, 4));
    assert!(IVec4::new(1, 2, 3, 4) != IVec4::new(1, 2, 3, 5));
    assert!(IVec4::new(1, 2, 3, 4) != IVec4::new(0, 2, 3, 4));
}

#[test]
fn arithmetic_is_lane_wise() {
    let a = IVec4::new(7, -7, 100, -100);
    let b = IVec4::new(2, 2, -3, -3);
    assert_eq!(a + b, IVec4::new(9, -5, 97, -103));
    assert_eq!(a - b, IVec4::new(5, -9, 103, -97));
    assert_eq!(a * b, IVec4::new(14, -14, -300, 300));
}

#[test]
fn division_rounds_towards_zero() {
    let a = IVec4::new(7, -7, 100, -100);
    let b = IVec4::new(2, 2, -3, -3);
    assert_eq!(a / b, IVec4::new(3, -3, -33, 33));
    assert_eq!(a % b, IVec4::new(1, -1, 1, -1));
}

#[test]
fn negation_and_complement_are_lane_wise() {
    let a = IVec4::new(7, -7, 0, i32::MAX);
    assert_eq!(-a, IVec4::new(-7, 7, 0, -i32::MAX));
    assert_eq!(!a, IVec4::new(-8, 6, -1, i32::MIN));
}

#[test]
fn bitwise_operators_are_lane_wise() {
    let a = IVec4::new(0b1100, -1, 0, 0x0f0f);
    let b = IVec4::new(0b1010, 0x00ff, -1, 0x00ff);
    assert_eq!(a & b, IVec4::new(0b1000, 0x00ff, 0, 0x000f));
    assert_eq!(a | b, IVec4::new(0b1110, -1, -1, 0x0fff));
    assert_eq!(a ^ b, IVec4::new(0b0110, !0x00ff, -1, 0x0ff0));
}

#[test]
fn shifts_move_each_lane_by_its_own_count() {
    let a = IVec4::new(1, -8, 0x4000_0000, 3);
    assert_eq!(a << IVec4::splat(1), IVec4::new(2, -16, i32::MIN, 6));
    assert_eq!(a >> IVec4::splat(1), IVec4::new(0, -4, 0x2000_0000, 1));
    assert_eq!(a << IVec4::new(0, 1, 0, 4), IVec4::new(1, -16, 0x4000_0000, 48));
    assert_eq!(a >> IVec4::new(0, 1, 30, 1), IVec4::new(1, -4, 1, 1));
    assert_eq!(a << IVec4::splat(0), a);
    assert_eq!(IVec4::splat(-1) >> IVec4::splat(31), IVec4::splat(-1));
}

#[test]
fn a_vector_is_its_own_only_element() {
    let mut v = IVec4::new(1, -2, 3, -4);
    assert_eq!(v[0], v);
    v[0] = IVec4::splat(7);
    assert_eq!(v, IVec4::new(7, 7, 7, 7));
    v[0].x = 1;
    assert_eq!(v, IVec4::new(1, 7, 7, 7));
}
