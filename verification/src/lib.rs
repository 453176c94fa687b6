//! Strongly typed vectors and boolean lane masks.
//!
//! [`newtype`] holds the flavor system: a wrapper that tags a backing vector with a
//! compile-time flavor, forwards every operator to the backing vector, and lets two
//! types meet only through a conversion rule that the flavor declares. [`ivec4`] holds
//! a backing vector of four `i32` lanes. [`bvec4a`] holds the 4-lane boolean mask.
pub mod bvec4a;
pub mod ivec4;
pub mod newtype;
