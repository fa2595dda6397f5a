//! Random numbers from the RDRAND instruction, scaled to a bound.
use crate::math::random::Rand as Scale;
use vstd::prelude::*;

verus! {

/// A number scaled to a bound from 32 random bits.
pub trait Rand<T>: Sized {
    /// What `rand` gives for the 32 random bits `raw`.
    spec fn rand_spec(self, raw: u32) -> T;

    /// The 32 random bits `raw` (RDRAND's), scaled to `self`.
    fn rand(self, raw: u32) -> (r: T)
        ensures
            r == self.rand_spec(raw),
    ;
}

impl Rand<i32> for i32 {
    open spec fn rand_spec(self, raw: u32) -> i32 {
        self.randup_spec(raw)
    }

    fn rand(self, raw: u32) -> (r: i32) {
        self.randup(raw)
    }
}

impl Rand<i16> for i16 {
    open spec fn rand_spec(self, raw: u32) -> i16 {
        self.randup_spec(raw)
    }

    fn rand(self, raw: u32) -> (r: i16) {
        self.randup(raw)
    }
}

impl Rand<i8> for i8 {
    open spec fn rand_spec(self, raw: u32) -> i8 {
        self.randup_spec(raw)
    }

    fn rand(self, raw: u32) -> (r: i8) {
        self.randup(raw)
    }
}

impl Rand<u32> for u32 {
    open spec fn rand_spec(self, raw: u32) -> u32 {
        self.randup_spec(raw)
    }

    fn rand(self, raw: u32) -> (r: u32) {
        self.randup(raw)
    }
}

impl Rand<u16> for u16 {
    open spec fn rand_spec(self, raw: u32) -> u16 {
        self.randup_spec(raw)
    }

    fn rand(self, raw: u32) -> (r: u16) {
        self.randup(raw)
    }
}

impl Rand<u8> for u8 {
    open spec fn rand_spec(self, raw: u32) -> u8 {
        self.randup_spec(raw)
    }

    fn rand(self, raw: u32) -> (r: u8) {
        self.randup(raw)
    }
}

} // verus!
