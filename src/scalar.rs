//! Element types that vectors and matrices can compute with.
use vstd::prelude::*;

use crate::zero_one::{One, Zero};

verus! {

/// A ring-like element type: addition, subtraction and multiplication, each
/// defined where its exact result is representable.
///
/// `spec_add`, `spec_sub` and `spec_mul` give the result of each operation,
/// and `add_fits`, `sub_fits` and `mul_fits` say on which operands the
/// operation may be carried out. The proof functions are the algebraic laws
/// that the vector and matrix operations rely on; every implementation proves
/// them.
pub trait Scalar: Zero + One + Sized {
    spec fn spec_add(a: Self, b: Self) -> Self;

    spec fn add_fits(a: Self, b: Self) -> bool;

    spec fn spec_sub(a: Self, b: Self) -> Self;

    spec fn sub_fits(a: Self, b: Self) -> bool;

    spec fn spec_mul(a: Self, b: Self) -> Self;

    spec fn mul_fits(a: Self, b: Self) -> bool;

    /// `self + other`.
    fn plus(&self, other: &Self) -> (r: Self)
        requires
            Self::add_fits(*self, *other),
        ensures
            r == Self::spec_add(*self, *other),
    ;

    /// `self - other`.
    fn minus(&self, other: &Self) -> (r: Self)
        requires
            Self::sub_fits(*self, *other),
        ensures
            r == Self::spec_sub(*self, *other),
    ;

    /// `self * other`.
    fn times(&self, other: &Self) -> (r: Self)
        requires
            Self::mul_fits(*self, *other),
        ensures
            r == Self::spec_mul(*self, *other),
    ;

    /// Addition is commutative, and so is whether it fits.
    proof fn lemma_add_commutative(a: Self, b: Self)
        ensures
            Self::add_fits(a, b) == Self::add_fits(b, a),
            Self::spec_add(a, b) == Self::spec_add(b, a),
    ;

    /// Zero is a two-sided identity of addition.
    proof fn lemma_add_zero(a: Self)
        ensures
            Self::add_fits(a, Self::spec_zero()),
            Self::spec_add(a, Self::spec_zero()) == a,
            Self::add_fits(Self::spec_zero(), a),
            Self::spec_add(Self::spec_zero(), a) == a,
    ;

    /// Every element minus itself is zero.
    proof fn lemma_sub_self(a: Self)
        ensures
            Self::sub_fits(a, a),
            Self::spec_sub(a, a) == Self::spec_zero(),
    ;

    /// Multiplying by zero, on either side, gives zero.
    proof fn lemma_mul_zero(a: Self)
        ensures
            Self::mul_fits(a, Self::spec_zero()),
            Self::spec_mul(a, Self::spec_zero()) == Self::spec_zero(),
            Self::mul_fits(Self::spec_zero(), a),
            Self::spec_mul(Self::spec_zero(), a) == Self::spec_zero(),
    ;

    /// One is a two-sided identity of multiplication.
    proof fn lemma_mul_one(a: Self)
        ensures
            Self::mul_fits(a, Self::spec_one()),
            Self::spec_mul(a, Self::spec_one()) == a,
            Self::mul_fits(Self::spec_one(), a),
            Self::spec_mul(Self::spec_one(), a) == a,
    ;
}

impl Scalar for i32 {
    open spec fn spec_add(a: i32, b: i32) -> i32 {
        (a + b) as i32
    }

    open spec fn add_fits(a: i32, b: i32) -> bool {
        i32::MIN <= a + b <= i32::MAX
    }

    open spec fn spec_sub(a: i32, b: i32) -> i32 {
        (a - b) as i32
    }

    open spec fn sub_fits(a: i32, b: i32) -> bool {
        i32::MIN <= a - b <= i32::MAX
    }

    open spec fn spec_mul(a: i32, b: i32) -> i32 {
        (a * b) as i32
    }

    open spec fn mul_fits(a: i32, b: i32) -> bool {
        i32::MIN <= a * b <= i32::MAX
    }

    fn plus(&self, other: &i32) -> (r: i32) {
        *self + *other
    }

    fn minus(&self, other: &i32) -> (r: i32) {
        *self - *other
    }

    fn times(&self, other: &i32) -> (r: i32) {
        *self * *other
    }

    proof fn lemma_add_commutative(a: i32, b: i32) {
    }

    proof fn lemma_add_zero(a: i32) {
    }

    proof fn lemma_sub_self(a: i32) {
    }

    proof fn lemma_mul_zero(a: i32) {
    }

    proof fn lemma_mul_one(a: i32) {
    }
}

impl Scalar for i64 {
    open spec fn spec_add(a: i64, b: i64) -> i64 {
        (a + b) as i64
    }

    open spec fn add_fits(a: i64, b: i64) -> bool {
        i64::MIN <= a + b <= i64::MAX
    }

    open spec fn spec_sub(a: i64, b: i64) -> i64 {
        (a - b) as i64
    }

    open spec fn sub_fits(a: i64, b: i64) -> bool {
        i64::MIN <= a - b <= i64::MAX
    }

    open spec fn spec_mul(a: i64, b: i64) -> i64 {
        (a * b) as i64
    }

    open spec fn mul_fits(a: i64, b: i64) -> bool {
        i64::MIN <= a * b <= i64::MAX
    }

    fn plus(&self, other: &i64) -> (r: i64) {
        *self + *other
    }

    fn minus(&self, other: &i64) -> (r: i64) {
        *self - *other
    }

    fn times(&self, other: &i64) -> (r: i64) {
        *self * *other
    }

    proof fn lemma_add_commutative(a: i64, b: i64) {
    }

    proof fn lemma_add_zero(a: i64) {
    }

    proof fn lemma_sub_self(a: i64) {
    }

    proof fn lemma_mul_zero(a: i64) {
    }

    proof fn lemma_mul_one(a: i64) {
    }
}

impl Scalar for u32 {
    open spec fn spec_add(a: u32, b: u32) -> u32 {
        (a + b) as u32
    }

    open spec fn add_fits(a: u32, b: u32) -> bool {
        u32::MIN <= a + b <= u32::MAX
    }

    open spec fn spec_sub(a: u32, b: u32) -> u32 {
        (a - b) as u32
    }

    open spec fn sub_fits(a: u32, b: u32) -> bool {
        u32::MIN <= a - b <= u32::MAX
    }

    open spec fn spec_mul(a: u32, b: u32) -> u32 {
        (a * b) as u32
    }

    open spec fn mul_fits(a: u32, b: u32) -> bool {
        u32::MIN <= a * b <= u32::MAX
    }

    fn plus(&self, other: &u32) -> (r: u32) {
        *self + *other
    }

    fn minus(&self, other: &u32) -> (r: u32) {
        *self - *other
    }

    fn times(&self, other: &u32) -> (r: u32) {
        *self * *other
    }

    proof fn lemma_add_commutative(a: u32, b: u32) {
    }

    proof fn lemma_add_zero(a: u32) {
    }

    proof fn lemma_sub_self(a: u32) {
    }

    proof fn lemma_mul_zero(a: u32) {
    }

    proof fn lemma_mul_one(a: u32) {
    }
}

impl Scalar for u64 {
    open spec fn spec_add(a: u64, b: u64) -> u64 {
        (a + b) as u64
    }

    open spec fn add_fits(a: u64, b: u64) -> bool {
        u64::MIN <= a + b <= u64::MAX
    }

    open spec fn spec_sub(a: u64, b: u64) -> u64 {
        (a - b) as u64
    }

    open spec fn sub_fits(a: u64, b: u64) -> bool {
        u64::MIN <= a - b <= u64::MAX
    }

    open spec fn spec_mul(a: u64, b: u64) -> u64 {
        (a * b) as u64
    }

    open spec fn mul_fits(a: u64, b: u64) -> bool {
        u64::MIN <= a * b <= u64::MAX
    }

    fn plus(&self, other: &u64) -> (r: u64) {
        *self + *other
    }

    fn minus(&self, other: &u64) -> (r: u64) {
        *self - *other
    }

    fn times(&self, other: &u64) -> (r: u64) {
        *self * *other
    }

    proof fn lemma_add_commutative(a: u64, b: u64) {
    }

    proof fn lemma_add_zero(a: u64) {
    }

    proof fn lemma_sub_self(a: u64) {
    }

    proof fn lemma_mul_zero(a: u64) {
    }

    proof fn lemma_mul_one(a: u64) {
    }
}

} // verus!
