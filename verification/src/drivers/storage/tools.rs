//! The `Sector` and `NbrSectors` newtypes and their conversions from and
//! to byte lengths.
use super::{SECTOR_MASK, SECTOR_SHIFT};
use core::ops::{Add, Sub};
use vstd::prelude::*;

verus! {

/// A number of sectors.
#[derive(Debug, Copy, Clone, PartialEq, Eq, Structural)]
pub struct NbrSectors(pub usize);

/// The number of sectors that hold `u` bytes: `u` over 512, rounded up.
pub open spec fn sectors_for_bytes(u: int) -> int {
    u / 512 + if u % 512 != 0 {
        1int
    } else {
        0int
    }
}

/// The byte length of `n` sectors, as a `u64` (it wraps past `u64::MAX`).
impl From<NbrSectors> for u64 {
    fn from(n: NbrSectors) -> (r: u64) {
        (n.0 as u64) << 9u64
    }
}

impl vstd::std_specs::convert::FromSpecImpl<NbrSectors> for u64 {
    open spec fn obeys_from_spec() -> bool {
        true
    }

    open spec fn from_spec(v: NbrSectors) -> Self {
        (v.0 as u64) << 9u64
    }
}

/// The byte length of `n` sectors, as a `usize` (it wraps past
/// `usize::MAX`).
impl From<NbrSectors> for usize {
    fn from(n: NbrSectors) -> (r: usize) {
        n.0 << 9usize
    }
}

impl vstd::std_specs::convert::FromSpecImpl<NbrSectors> for usize {
    open spec fn obeys_from_spec() -> bool {
        true
    }

    open spec fn from_spec(v: NbrSectors) -> Self {
        v.0 << 9usize
    }
}

/// The number of sectors that hold `u` bytes.
impl From<u64> for NbrSectors {
    fn from(u: u64) -> (r: Self) {
        let rem: u64 = if u & (SECTOR_MASK as u64) != 0 {
            1
        } else {
            0
        };
        proof {
            lemma_sector_bits_u64(u);
        }
        NbrSectors(((u >> 9u64) + rem) as usize)
    }
}

impl vstd::std_specs::convert::FromSpecImpl<u64> for NbrSectors {
    open spec fn obeys_from_spec() -> bool {
        true
    }

    open spec fn from_spec(u: u64) -> Self {
        NbrSectors(sectors_for_bytes(u as int) as usize)
    }
}

/// The number of sectors that hold `u` bytes.
impl From<usize> for NbrSectors {
    fn from(u: usize) -> (r: Self) {
        let rem: usize = if u & SECTOR_MASK != 0 {
            1
        } else {
            0
        };
        proof {
            lemma_sector_bits_usize(u);
        }
        NbrSectors((u >> 9usize) + rem)
    }
}

impl vstd::std_specs::convert::FromSpecImpl<usize> for NbrSectors {
    open spec fn obeys_from_spec() -> bool {
        true
    }

    open spec fn from_spec(u: usize) -> Self {
        NbrSectors(sectors_for_bytes(u as int) as usize)
    }
}

/// The difference of two numbers of sectors; the first must not be the
/// smaller.
impl Sub<NbrSectors> for NbrSectors {
    type Output = Self;

    fn sub(self, other: NbrSectors) -> (r: Self::Output) {
        NbrSectors(self.0 - other.0)
    }
}

impl vstd::std_specs::ops::SubSpecImpl<NbrSectors> for NbrSectors {
    open spec fn obeys_sub_spec() -> bool {
        true
    }

    open spec fn sub_req(self, other: NbrSectors) -> bool {
        self.0 >= other.0
    }

    open spec fn sub_spec(self, other: NbrSectors) -> Self {
        NbrSectors((self.0 - other.0) as usize)
    }
}

/// A sector, by its index.
#[derive(Debug, Copy, Clone, PartialEq, Eq, Structural)]
pub struct Sector(pub usize);

/// The sector holding the byte at `u`.
impl From<u64> for Sector {
    fn from(u: u64) -> (r: Self) {
        proof {
            lemma_sector_bits_u64(u);
        }
        Sector((u >> 9u64) as usize)
    }
}

impl vstd::std_specs::convert::FromSpecImpl<u64> for Sector {
    open spec fn obeys_from_spec() -> bool {
        true
    }

    open spec fn from_spec(u: u64) -> Self {
        Sector((u / 512) as usize)
    }
}

/// The sector `other` sectors after `self`; the sum must fit.
impl Add<NbrSectors> for Sector {
    type Output = Sector;

    fn add(self, other: NbrSectors) -> (r: Self::Output) {
        Sector(self.0 + other.0)
    }
}

impl vstd::std_specs::ops::AddSpecImpl<NbrSectors> for Sector {
    open spec fn obeys_add_spec() -> bool {
        true
    }

    open spec fn add_req(self, other: NbrSectors) -> bool {
        self.0 + other.0 <= usize::MAX
    }

    open spec fn add_spec(self, other: NbrSectors) -> Self {
        Sector((self.0 + other.0) as usize)
    }
}

/// Shifting a byte length by 9 divides it by the size of a sector, and
/// its low 9 bits are the offset within the sector.
proof fn lemma_sector_bits_u64(u: u64)
    by (bit_vector)
    ensures
        u >> 9u64 <= 0x7f_ffff_ffff_ffff,
        u >> 9u64 == u / 512,
        (u & 0x1ff) != 0 <==> u % 512 != 0,
{
}

/// Shifting a byte length by 9 divides it by the size of a sector, and
/// its low 9 bits are the offset within the sector.
pub proof fn lemma_sector_bits_usize(v: usize)
    by (bit_vector)
    ensures
        v <= 0x2000 ==> v << 9usize == v * 512,
        v >> 9usize < 0x80_0000_0000_0000,
        v >> 9usize <= v / 2,
        v >> 9usize == v / 512,
        (v & 0x1ff) != 0 <==> v % 512 != 0,
{
}


/// The sectors that hold `u` bytes hold them with less than one sector to
/// spare.
pub proof fn lemma_sectors_for_bytes_bounds(u: int)
    requires
        0 <= u,
    ensures
        u <= sectors_for_bytes(u) * 512 < u + 512,
{
    assert(u == (u / 512) * 512 + u % 512) by (nonlinear_arith);
    assert(sectors_for_bytes(u) * 512 == (u / 512) * 512 + if u % 512 != 0 {
        512int
    } else {
        0int
    }) by (nonlinear_arith);
}

/// A number of sectors turned into bytes and back is unchanged, where its
/// bytes fit in a `u64`.
pub proof fn lemma_sectors_bytes_roundtrip(n: NbrSectors)
    requires
        n.0 * 512 <= u64::MAX,
    ensures
        <NbrSectors as vstd::std_specs::convert::FromSpec<u64>>::from_spec(
            <u64 as vstd::std_specs::convert::FromSpec<NbrSectors>>::from_spec(n),
        ) == n,
{
    let x = n.0 as u64;
    assert(x <= 0x7f_ffff_ffff_ffff ==> x << 9u64 == x * 512) by (bit_vector);
    assert((n.0 * 512) / 512 == n.0 && (n.0 * 512) % 512 == 0) by (nonlinear_arith);
}

} // verus!
