//! A two-valued element whose addition and subtraction are both exclusive or.
use vstd::prelude::*;
use vstd::std_specs::ops::BitXorSpec;

use crate::zero_one::{One, Zero};

verus! {

/// A bit held in a value of type `T`; adding or subtracting bits takes the
/// exclusive or of their values.
#[derive(Clone, Copy, PartialEq, Debug)]
pub struct Bit<T> {
    value: T,
}

impl<T> View for Bit<T> {
    type V = T;

    closed spec fn view(&self) -> T {
        self.value
    }
}

impl<T: Zero + One> Bit<T> {
    /// The zero bit.
    pub fn zero() -> (r: Bit<T>)
        ensures
            r@ == T::spec_zero(),
    {
        Bit { value: T::zero() }
    }

    /// The one bit.
    pub fn one() -> (r: Bit<T>)
        ensures
            r@ == T::spec_one(),
    {
        Bit { value: T::one() }
    }
}

impl<T> Bit<T> {
    /// The bit holding `value`.
    pub fn from(value: T) -> (r: Bit<T>)
        ensures
            r@ == value,
    {
        Bit { value }
    }

    /// The value the bit holds.
    pub fn value(&self) -> (r: &T)
        ensures
            *r == self@,
    {
        &self.value
    }
}

impl<T: core::ops::BitXor<Output = T>> core::ops::BitXor for Bit<T> {
    type Output = Bit<T>;

    fn bitxor(self, other: Bit<T>) -> (r: Bit<T>)
        ensures
            <T as BitXorSpec>::obeys_bitxor_spec() ==> r@ == self@.bitxor_spec(other@),
    {
        Bit { value: self.value ^ other.value }
    }
}

impl<T: core::ops::BitXor<Output = T>> vstd::std_specs::ops::BitXorSpecImpl for Bit<T> {
    open spec fn obeys_bitxor_spec() -> bool {
        <T as BitXorSpec>::obeys_bitxor_spec()
    }

    open spec fn bitxor_req(self, other: Bit<T>) -> bool {
        self@.bitxor_req(other@)
    }

    closed spec fn bitxor_spec(self, other: Bit<T>) -> Bit<T> {
        Bit { value: self@.bitxor_spec(other@) }
    }
}

impl<T: core::ops::BitXor<Output = T>> core::ops::Add for Bit<T> {
    type Output = Bit<T>;

    fn add(self, other: Bit<T>) -> (r: Bit<T>)
        ensures
            <T as BitXorSpec>::obeys_bitxor_spec() ==> r@ == self@.bitxor_spec(other@),
    {
        self ^ other
    }
}

impl<T: core::ops::BitXor<Output = T>> vstd::std_specs::ops::AddSpecImpl for Bit<T> {
    open spec fn obeys_add_spec() -> bool {
        <T as BitXorSpec>::obeys_bitxor_spec()
    }

    open spec fn add_req(self, other: Bit<T>) -> bool {
        self@.bitxor_req(other@)
    }

    closed spec fn add_spec(self, other: Bit<T>) -> Bit<T> {
        Bit { value: self@.bitxor_spec(other@) }
    }
}

impl<T: core::ops::BitXor<Output = T>> core::ops::Sub for Bit<T> {
    type Output = Bit<T>;

    fn sub(self, other: Bit<T>) -> (r: Bit<T>)
        ensures
            <T as BitXorSpec>::obeys_bitxor_spec() ==> r@ == self@.bitxor_spec(other@),
    {
        self ^ other
    }
}

impl<T: core::ops::BitXor<Output = T>> vstd::std_specs::ops::SubSpecImpl for Bit<T> {
    open spec fn obeys_sub_spec() -> bool {
        <T as BitXorSpec>::obeys_bitxor_spec()
    }

    open spec fn sub_req(self, other: Bit<T>) -> bool {
        self@.bitxor_req(other@)
    }

    closed spec fn sub_spec(self, other: Bit<T>) -> Bit<T> {
        Bit { value: self@.bitxor_spec(other@) }
    }
}

} // verus!
