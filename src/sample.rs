//! Element types that can be drawn at random, for random matrices.
use vstd::prelude::*;

verus! {

/// Relies on `rand::random`: a value drawn from the standard distribution of
/// `T` with the thread-local generator. Nothing is promised of the value.
pub assume_specification<T>[ rand::random::<T> ]() -> (r: T)
    where
        rand::distributions::Standard: rand::distributions::Distribution<T>,
;

/// Element types that can be drawn at random.
pub trait Sample: Sized {
    /// A value drawn at random, uniformly over all values of the type.
    fn sample() -> Self;
}

impl Sample for i32 {
    fn sample() -> i32 {
        rand::random::<i32>()
    }
}

impl Sample for i64 {
    fn sample() -> i64 {
        rand::random::<i64>()
    }
}

impl Sample for u32 {
    fn sample() -> u32 {
        rand::random::<u32>()
    }
}

impl Sample for u64 {
    fn sample() -> u64 {
        rand::random::<u64>()
    }
}

impl Sample for bool {
    fn sample() -> bool {
        rand::random::<bool>()
    }
}

} // verus!
