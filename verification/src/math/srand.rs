//! Pseudo-random numbers from the seeded LFSR table, scaled to a bound.
use crate::math::random::lfsr16::{lfsr16_get_pseudo_number, next_offset, LfsrFibonnaci};
use crate::math::random::Rand as Scale;
use vstd::prelude::*;

verus! {

/// A number scaled to a bound from the next word of the LFSR table.
pub trait Srand<T>: Sized {
    /// What `srand` gives when the next word is `raw`.
    spec fn srand_spec(self, raw: u32) -> T;

    /// The next word of the LFSR table, which must be seeded, scaled to
    /// `self`.
    fn srand(self, lfsr: &mut LfsrFibonnaci) -> (r: T)
        requires
            old(lfsr).wf(),
            old(lfsr).seed() is Some,
        ensures
            final(lfsr).wf(),
            final(lfsr).seed() == old(lfsr).seed(),
            final(lfsr).registers_view() == old(lfsr).registers_view(),
            final(lfsr).offset() == next_offset(old(lfsr).offset()),
            r == self.srand_spec(old(lfsr).registers_view()[old(lfsr).offset() as int]),
    ;
}

impl Srand<i32> for i32 {
    open spec fn srand_spec(self, raw: u32) -> i32 {
        self.randup_spec(raw)
    }

    fn srand(self, lfsr: &mut LfsrFibonnaci) -> (r: i32) {
        let raw = match lfsr16_get_pseudo_number(lfsr) {
            Ok(raw) => raw,
            Err(_) => 0,
        };
        self.randup(raw)
    }
}

impl Srand<i16> for i16 {
    open spec fn srand_spec(self, raw: u32) -> i16 {
        self.randup_spec(raw)
    }

    fn srand(self, lfsr: &mut LfsrFibonnaci) -> (r: i16) {
        let raw = match lfsr16_get_pseudo_number(lfsr) {
            Ok(raw) => raw,
            Err(_) => 0,
        };
        self.randup(raw)
    }
}

impl Srand<i8> for i8 {
    open spec fn srand_spec(self, raw: u32) -> i8 {
        self.randup_spec(raw)
    }

    fn srand(self, lfsr: &mut LfsrFibonnaci) -> (r: i8) {
        let raw = match lfsr16_get_pseudo_number(lfsr) {
            Ok(raw) => raw,
            Err(_) => 0,
        };
        self.randup(raw)
    }
}

impl Srand<u32> for u32 {
    open spec fn srand_spec(self, raw: u32) -> u32 {
        self.randup_spec(raw)
    }

    fn srand(self, lfsr: &mut LfsrFibonnaci) -> (r: u32) {
        let raw = match lfsr16_get_pseudo_number(lfsr) {
            Ok(raw) => raw,
            Err(_) => 0,
        };
        self.randup(raw)
    }
}

impl Srand<u16> for u16 {
    open spec fn srand_spec(self, raw: u32) -> u16 {
        self.randup_spec(raw)
    }

    fn srand(self, lfsr: &mut LfsrFibonnaci) -> (r: u16) {
        let raw = match lfsr16_get_pseudo_number(lfsr) {
            Ok(raw) => raw,
            Err(_) => 0,
        };
        self.randup(raw)
    }
}

impl Srand<u8> for u8 {
    open spec fn srand_spec(self, raw: u32) -> u8 {
        self.randup_spec(raw)
    }

    fn srand(self, lfsr: &mut LfsrFibonnaci) -> (r: u8) {
        let raw = match lfsr16_get_pseudo_number(lfsr) {
            Ok(raw) => raw,
            Err(_) => 0,
        };
        self.randup(raw)
    }
}

} // verus!
