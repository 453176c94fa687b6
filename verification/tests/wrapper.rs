use std::collections::hash_map::DefaultHasher;
use std::hash::{Hash, Hasher};
use typed_vector::ivec4::IVec4;
use typed_vector::newtype::{FlavorConvertFrom, NewTypeVector, VecFlavor};

struct Position;

struct Velocity;

impl VecFlavor for Position {
    type Backing = IVec4;
}

impl VecFlavor for Velocity {
    type Backing = IVec4;
}

// A position takes raw vectors and scalars; a velocity can be added to a position.
impl FlavorConvertFrom<IVec4> for Position {
    fn vec_backing_from(other: IVec4) -> IVec4 {
        other
    }
}

impl FlavorConvertFrom<i32> for Position {
    fn vec_backing_from(other: i32) -> IVec4 {
        IVec4::splat(other)
    }
}

impl FlavorConvertFrom<NewTypeVector<Velocity>> for Position {
    fn vec_backing_from(other: NewTypeVector<Velocity>) -> IVec4 {
        other.into_raw()
    }
}

// A velocity is made from a pair of positions: the step from the first to the second.
impl FlavorConvertFrom<(NewTypeVector<Position>, NewTypeVector<Position>)> for Velocity {
    fn vec_backing_from(other: (NewTypeVector<Position>, NewTypeVector<Position>)) -> IVec4 {
        other.1.into_raw() - other.0.into_raw()
    }
}

type Pos = NewTypeVector<Position>;

type Vel = NewTypeVector<Velocity>;

fn pos(x: i32, y: i32, z: i32, w: i32) -> Pos {
    Pos::from_raw(IVec4::new(x, y, z, w))
}

fn vel(x: i32, y: i32, z: i32, w: i32) -> Vel {
    Vel::from_raw(IVec4::new(x, y, z, w))
}

fn hash_of<T: Hash>(value: &T) -> u64 {
    let mut hasher = DefaultHasher::new();
    value.hash(&mut hasher);
    hasher.finish()
}

#[test]
fn round_trip_keeps_the_backing_value() {
    for v in [IVec4::new(1, -2, 3, -4), IVec4::default(), IVec4::splat(i32::MIN)] {
        assert_eq!(Pos::from_raw(v).into_raw(), v);
        assert_eq!(*Pos::from_raw(v).raw(), v);
        assert_eq!(Pos::from_raw_ref(&v).into_raw(), v);
    }
}

#[test]
fn converting_to_the_own_flavor_is_the_identity() {
    let p = pos(5, 6, 7, 8);
    assert!(p.into::<Position>() == p);
    assert!(Pos::from(p) == p);
    let v = vel(-1, 0, 1, 2);
    assert!(v.into::<Velocity>() == v);
}

#[test]
fn from_applies_the_declared_rule() {
    assert!(Pos::from(IVec4::new(1, 2, 3, 4)) == pos(1, 2, 3, 4));
    assert!(Pos::from(9) == pos(9, 9, 9, 9));
    assert!(Pos::from(vel(4, 3, 2, 1)) == pos(4, 3, 2, 1));
    assert!(Vel::from((pos(1, 1, 1, 1), pos(4, 6, 8, 10))) == vel(3, 5, 7, 9));
}

#[test]
fn into_applies_the_target_flavors_rule() {
    let v = vel(4, 3, 2, 1);
    let p: Pos = v.into::<Position>();
    assert_eq!(p.into_raw(), IVec4::new(4, 3, 2, 1));
}

#[test]
fn addition_forwards_to_the_backing_vector() {
    let a = IVec4::new(1, 2, 3, 4);
    let b = IVec4::new(10, -20, 30, -40);
    assert_eq!((Pos::from_raw(a) + Pos::from_raw(b)).into_raw(), a + b);
    assert_eq!((Pos::from_raw(a) + Pos::from_raw(b)).into_raw(), IVec4::new(11, -18, 33, -36));
}

#[test]
fn right_operand_goes_through_the_conversion_rule() {
    let p = pos(1, 2, 3, 4);
    assert!(p + vel(1, 1, 1, 1) == pos(2, 3, 4, 5));
    assert!(p + IVec4::new(10, 10, 10, 10) == pos(11, 12, 13, 14));
    assert!(p + 5 == pos(6, 7, 8, 9));
    assert!(p * 3 == pos(3, 6, 9, 12));
    assert!(p - vel(1, 2, 3, 4) == pos(0, 0, 0, 0));
}

#[test]
fn arithmetic_operators_forward() {
    let (a, b) = (IVec4::new(7, -7, 100, -100), IVec4::new(2, 2, -3, -3));
    let (p, q) = (Pos::from_raw(a), Pos::from_raw(b));
    assert_eq!((p - q).into_raw(), IVec4::new(5, -9, 103, -97));
    assert_eq!((p * q).into_raw(), IVec4::new(14, -14, -300, 300));
    assert_eq!((p / q).into_raw(), IVec4::new(3, -3, -33, 33));
    assert_eq!((p % q).into_raw(), IVec4::new(1, -1, 1, -1));
    assert_eq!((-p).into_raw(), IVec4::new(-7, 7, -100, 100));
    assert_eq!((p - q).into_raw(), a - b);
    assert_eq!((p * q).into_raw(), a * b);
    assert_eq!((p / q).into_raw(), a / b);
    assert_eq!((p % q).into_raw(), a % b);
    assert_eq!((-p).into_raw(), -a);
}

#[test]
fn bitwise_operators_forward() {
    let (a, b) = (IVec4::new(0b1100, -1, 0, 0x0f0f), IVec4::new(0b1010, 0x00ff, -1, 0x00ff));
    let (p, q) = (Pos::from_raw(a), Pos::from_raw(b));
    assert_eq!((p & q).into_raw(), IVec4::new(0b1000, 0x00ff, 0, 0x000f));
    assert_eq!((p | q).into_raw(), IVec4::new(0b1110, -1, -1, 0x0fff));
    assert_eq!((p ^ q).into_raw(), IVec4::new(0b0110, !0x00ff, -1, 0x0ff0));
    assert_eq!((!p).into_raw(), IVec4::new(!0b1100, 0, -1, !0x0f0f));
    assert_eq!((p & q).into_raw(), a & b);
    assert_eq!((p | q).into_raw(), a | b);
    assert_eq!((p ^ q).into_raw(), a ^ b);
    assert_eq!((!p).into_raw(), !a);
}

#[test]
fn shifts_convert_the_right_operand_too() {
    let a = IVec4::new(1, -8, 0x4000_0000, 3);
    let p = Pos::from_raw(a);
    assert_eq!((p << 1).into_raw(), IVec4::new(2, -16, i32::MIN, 6));
    assert_eq!((p >> 1).into_raw(), IVec4::new(0, -4, 0x2000_0000, 1));
    assert_eq!((p << 3).into_raw(), a << IVec4::splat(3));
    assert_eq!((p >> 3).into_raw(), a >> IVec4::splat(3));
    assert_eq!((p << vel(0, 1, 0, 4)).into_raw(), IVec4::new(1, -16, 0x4000_0000, 48));
    assert_eq!((p >> IVec4::new(0, 1, 30, 1)).into_raw(), IVec4::new(1, -4, 1, 1));
    assert_eq!((p << pos(1, 1, 1, 1)).into_raw(), a << IVec4::splat(1));
}

#[test]
fn indexed_read_keeps_the_flavor() {
    let p = pos(1, 2, 3, 4);
    let element: Pos = p.index(0);
    assert!(element == p);
    assert_eq!(element.into_raw(), p.raw()[0]);
}

#[test]
fn wrapper_assigning_operators_match_the_plain_ones() {
    let start = pos(7, -7, 100, -100);
    let step = vel(2, 2, -3, -3);
    let mut p = start;
    p += step;
    assert!(p == start + step);
    assert_eq!(p.into_raw(), IVec4::new(9, -5, 97, -103));
    let mut p = start;
    p -= step;
    assert!(p == start - step);
    let mut p = start;
    p *= step;
    assert!(p == start * step);
    let mut p = start;
    p /= step;
    assert!(p == start / step);
    assert_eq!(p.into_raw(), IVec4::new(3, -3, -33, 33));
    let mut p = start;
    p %= step;
    assert!(p == start % step);
    let mut p = start;
    p += 1;
    assert!(p == pos(8, -6, 101, -99));
}

#[test]
fn raw_mut_writes_through_to_the_wrapper() {
    let mut p = pos(1, 2, 3, 4);
    p.raw_mut().x = 10;
    *p.raw_mut() = *p.raw() + IVec4::splat(1);
    assert_eq!(p.into_raw(), IVec4::new(11, 3, 4, 5));
}

#[test]
fn map_raw_wraps_what_the_transform_returns() {
    let p = pos(1, 2, 3, 4);
    assert!(p.map_raw(|v| v * IVec4::splat(2)) == pos(2, 4, 6, 8));
    assert!(p.map_raw(|v| v) == p);
    assert!(p.map_raw(|_| IVec4::default()) == Pos::default());
}

#[test]
fn equality_is_that_of_the_backing_values() {
    assert!(pos(1, 2, 3, 4) == pos(1, 2, 3, 4));
    assert!(pos(1, 2, 3, 4) != pos(1, 2, 3, 5));
    assert_eq!(pos(1, 2, 3, 4) == pos(4, 3, 2, 1), IVec4::new(1, 2, 3, 4) == IVec4::new(4, 3, 2, 1));
}

#[test]
fn default_wraps_the_backing_default() {
    assert_eq!(Pos::default().into_raw(), IVec4::default());
    assert_eq!(Vel::default().into_raw(), IVec4::new(0, 0, 0, 0));
}

#[test]
fn wrapper_copies_hold_the_same_value() {
    let p = pos(1, 2, 3, 4);
    let copy = p;
    let clone = p.clone();
    assert!(copy == p);
    assert_eq!(clone.into_raw(), IVec4::new(1, 2, 3, 4));
}

#[test]
fn hash_is_that_of_the_backing_value() {
    let v = IVec4::new(1, -2, 3, -4);
    assert_eq!(hash_of(&Pos::from_raw(v)), hash_of(&v));
    assert_eq!(hash_of(&Pos::from_raw(v)), hash_of(&Vel::from_raw(v)));
    assert_ne!(hash_of(&pos(1, 2, 3, 4)), hash_of(&pos(4, 3, 2, 1)));
}
