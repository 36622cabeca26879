//! The additive and multiplicative identities of element types, so that
//! generic constructors can fill a matrix with zeros or ones.
use vstd::prelude::*;

verus! {

/// Types with a zero element, the identity of their addition.
pub trait Zero: Sized {
    /// The zero element, as a value.
    spec fn spec_zero() -> Self;

    /// Get the zero element.
    fn zero() -> (r: Self)
        ensures
            r == Self::spec_zero(),
    ;
}

/// Types with a one element, the identity of their multiplication.
pub trait One: Sized {
    /// The one element, as a value.
    spec fn spec_one() -> Self;

    /// Get the one element.
    fn one() -> (r: Self)
        ensures
            r == Self::spec_one(),
    ;
}

impl Zero for u32 {
    open spec fn spec_zero() -> u32 {
        0
    }

    fn zero() -> (r: u32) {
        0
    }
}

impl Zero for i32 {
    open spec fn spec_zero() -> i32 {
        0
    }

    fn zero() -> (r: i32) {
        0
    }
}

impl Zero for u64 {
    open spec fn spec_zero() -> u64 {
        0
    }

    fn zero() -> (r: u64) {
        0
    }
}

impl Zero for i64 {
    open spec fn spec_zero() -> i64 {
        0
    }

    fn zero() -> (r: i64) {
        0
    }
}

impl Zero for bool {
    open spec fn spec_zero() -> bool {
        false
    }

    fn zero() -> (r: bool) {
        false
    }
}

impl One for u32 {
    open spec fn spec_one() -> u32 {
        1
    }

    fn one() -> (r: u32) {
        1
    }
}

impl One for i32 {
    open spec fn spec_one() -> i32 {
        1
    }

    fn one() -> (r: i32) {
        1
    }
}

impl One for u64 {
    open spec fn spec_one() -> u64 {
        1
    }

    fn one() -> (r: u64) {
        1
    }
}

impl One for i64 {
    open spec fn spec_one() -> i64 {
        1
    }

    fn one() -> (r: i64) {
        1
    }
}

impl One for bool {
    open spec fn spec_one() -> bool {
        true
    }

    fn one() -> (r: bool) {
        true
    }
}

} // verus!
