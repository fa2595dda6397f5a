//! The Initialization Control Words (ICWs) of the 8259 chip.
//!
//! ICW1 starts the initialization procedure on the command port; ICW2, ICW3
//! and the optional ICW4 follow on the data port. Whether ICW4 is needed is
//! told by the icw4_needed flag of ICW1.
use super::{BufferingMode, PICKind, TriggeringMode};
use crate::bits::{bit_of_u8, get_bit_u8, set_bit_u8, set_bits_u8, with_bit_u8, with_bits_u8};
use vstd::prelude::*;

verus! {

/// The grouped Initialization Control Words for one 8259 chip.
#[derive(Debug, Copy, Clone, PartialEq, Eq, Structural)]
pub struct ICWs {
    pub icw1: Option<ICW1>,
    pub icw2: Option<ICW2>,
    pub icw3: Option<ICW3>,
    pub icw4: Option<ICW4>,
}

impl ICWs {
    /// Whether the ICW1 is present and asks for a fourth ICW.
    pub open spec fn icw4_needed_spec(self) -> bool {
        self.icw1 matches Some(icw1) && bit_of_u8(icw1.byte, 0)
    }

    /// Whether the words are complete and ready to be sent: ICW1, ICW2 and
    /// ICW3 are present, and ICW4 too when ICW1 asks for it.
    pub open spec fn is_complete_spec(self) -> bool {
        &&& self.icw1 is Some
        &&& self.icw2 is Some
        &&& self.icw3 is Some
        &&& (self.icw4_needed_spec() ==> self.icw4 is Some)
    }

    /// Creates a fresh aggregation with no word set.
    pub fn new() -> (r: Self)
        ensures
            r.icw1 is None,
            r.icw2 is None,
            r.icw3 is None,
            r.icw4 is None,
    {
        Self { icw1: None, icw2: None, icw3: None, icw4: None }
    }

    /// Adds the first ICW.
    pub fn push_icw1(self, icw: ICW1) -> (r: Self)
        ensures
            r == (Self { icw1: Some(icw), ..self }),
    {
        Self { icw1: Some(icw), ..self }
    }

    /// Adds the second ICW.
    pub fn push_icw2(self, icw: ICW2) -> (r: Self)
        ensures
            r == (Self { icw2: Some(icw), ..self }),
    {
        Self { icw2: Some(icw), ..self }
    }

    /// Adds the third ICW.
    pub fn push_icw3(self, icw: ICW3) -> (r: Self)
        ensures
            r == (Self { icw3: Some(icw), ..self }),
    {
        Self { icw3: Some(icw), ..self }
    }

    /// Adds the fourth ICW; the ICW1 must be present and ask for it.
    pub fn push_icw4(self, icw: ICW4) -> (r: Self)
        requires
            self.icw4_needed_spec(),
        ensures
            r == (Self { icw4: Some(icw), ..self }),
    {
        Self { icw4: Some(icw), ..self }
    }

    /// Whether the ICW1 asks for a fourth ICW; the ICW1 must be present.
    pub(crate) fn icw4_needed(&self) -> (r: bool)
        requires
            self.icw1 is Some,
        ensures
            r == self.icw4_needed_spec(),
    {
        match self.icw1 {
            Some(icw1) => icw1.get_icw4_needed(),
            None => false,
        }
    }

    /// The kind of the chip being configured; the ICW3 must be present.
    pub fn pic_kind(&self) -> (r: PICKind)
        requires
            self.icw3 is Some,
        ensures
            r == self.icw3->Some_0.kind_view(),
    {
        match self.icw3 {
            Some(icw3) => icw3.pic_kind(),
            None => PICKind::Master,
        }
    }

    /// Whether the aggregation is complete and ready to be sent.
    pub fn is_complete(&self) -> (r: bool)
        ensures
            r == self.is_complete_spec(),
    {
        self.icw1.is_some() && self.icw2.is_some() && self.icw3.is_some() && (!self.icw4_needed()
            || self.icw4.is_some())
    }

    /// The number of cascaded lines of a master chip; the ICW3 must be
    /// present and be that of a master.
    pub fn cascaded_lines(&self) -> (r: usize)
        requires
            self.icw3 is Some,
            self.icw3->Some_0.kind_view() == PICKind::Master,
        ensures
            r == self.icw3->Some_0.cascaded_count(),
    {
        match self.icw3 {
            Some(icw3) => icw3.cascaded_lines(),
            None => 0,
        }
    }
}

/// This data structure describes a valid ICW1, which starts the
/// initialization procedure.
#[derive(Debug, Copy, Clone, PartialEq, Eq, Structural)]
pub struct ICW1 {
    pub byte: u8,
}

impl ICW1 {
    /// A fresh ICW1: only bit 4, which must be set, is set.
    pub fn new() -> (r: Self)
        ensures
            r.byte == 0b10000,
    {
        Self { byte: 0b10000 }
    }

    /// Sets whether a fourth ICW will be needed (bit 0).
    pub fn set_icw4_needed(self, value: bool) -> (r: Self)
        ensures
            r.byte == with_bit_u8(self.byte, 0, value),
    {
        Self { byte: set_bit_u8(self.byte, 0, value) }
    }

    /// Whether a fourth ICW will be needed (bit 0).
    pub fn get_icw4_needed(self) -> (r: bool)
        ensures
            r == bit_of_u8(self.byte, 0),
    {
        get_bit_u8(self.byte, 0)
    }

    /// Single mode if `value`, cascading mode otherwise (bit 1).
    pub fn set_single_mode(self, value: bool) -> (r: Self)
        ensures
            r.byte == with_bit_u8(self.byte, 1, value),
    {
        Self { byte: set_bit_u8(self.byte, 1, value) }
    }

    /// Call address interval of 4 if `value`, of 8 otherwise (bit 2).
    pub fn set_call_address_interval(self, value: bool) -> (r: Self)
        ensures
            r.byte == with_bit_u8(self.byte, 2, value),
    {
        Self { byte: set_bit_u8(self.byte, 2, value) }
    }

    /// Sets the triggering mode: bit 3 is set for level triggering.
    pub fn set_triggering_mode(self, mode: TriggeringMode) -> (r: Self)
        ensures
            r.byte == with_bit_u8(self.byte, 3, mode == TriggeringMode::Level),
    {
        let level = match mode {
            TriggeringMode::Level => true,
            TriggeringMode::Edge => false,
        };
        Self { byte: set_bit_u8(self.byte, 3, level) }
    }
}

/// This data structure describes a valid ICW2, which holds the interrupt
/// vector of the chip.
#[derive(Debug, Copy, Clone, PartialEq, Eq, Structural)]
pub struct ICW2 {
    pub byte: u8,
}

impl ICW2 {
    /// A fresh, zeroed ICW2.
    pub fn new() -> (r: Self)
        ensures
            r.byte == 0,
    {
        Self { byte: 0 }
    }

    /// Sets the interrupt vector of the chip: the whole byte is the vector.
    pub fn set_interrupt_vector(self, vector: u8) -> (r: Self)
        ensures
            r.byte == vector,
    {
        Self { byte: vector }
    }
}

/// The number of bits set among the `n` lowest bits of `b`.
pub open spec fn bits_set_below(b: u8, n: nat) -> nat
    decreases n,
{
    if n == 0 {
        0
    } else {
        bits_set_below(b, (n - 1) as nat) + if bit_of_u8(b, (n - 1) as usize) {
            1nat
        } else {
            0nat
        }
    }
}

/// This data structure describes a valid ICW3: the cascaded lines of a
/// master chip (one bit per line), or the identity of a slave chip.
#[derive(Debug, Copy, Clone, PartialEq, Eq, Structural)]
pub struct ICW3 {
    kind: PICKind,
    pub byte: u8,
}

impl ICW3 {
    /// The kind of chip this word is for.
    pub closed spec fn kind_view(self) -> PICKind {
        self.kind
    }

    /// The byte sent to the chip.
    pub closed spec fn byte_view(self) -> u8 {
        self.byte
    }

    /// The byte sent to the chip.
    pub fn byte(&self) -> (r: u8)
        ensures
            r == self.byte_view(),
    {
        self.byte
    }

    /// How many lines of a master chip are cascaded: the bits set in its
    /// byte.
    pub open spec fn cascaded_count(self) -> nat {
        bits_set_below(self.byte_view(), 8)
    }

    /// A fresh ICW3 for a chip of kind `kind`.
    pub fn new(kind: PICKind) -> (r: Self)
        ensures
            r.kind_view() == kind,
            r.byte_view() == 0,
    {
        Self { kind, byte: 0 }
    }

    /// Sets line `line` of a master chip as cascaded, or not, per `value`.
    pub fn set_cascaded_line(self, line: usize, value: bool) -> (r: Self)
        requires
            self.kind_view() == PICKind::Master,
            line <= 7,
        ensures
            r.kind_view() == self.kind_view(),
            r.byte_view() == with_bit_u8(self.byte_view(), line, value),
    {
        Self { kind: self.kind, byte: set_bit_u8(self.byte, line, value) }
    }

    /// Sets the identity of a slave chip: the line of the master it is
    /// cascaded on.
    pub fn set_slave_identity(self, id: u8) -> (r: Self)
        requires
            self.kind_view() == PICKind::Slave,
            id <= 7,
        ensures
            r.kind_view() == self.kind_view(),
            r.byte_view() == id,
    {
        Self { kind: self.kind, byte: id }
    }

    /// The ICW3 of a master chip whose line 2, alone, is cascaded.
    pub closed spec fn master_on_line_2() -> Self {
        ICW3 { kind: PICKind::Master, byte: 0b100 }
    }

    /// The ICW3 of a slave chip cascaded on line 2 of its master.
    pub closed spec fn slave_with_identity_2() -> Self {
        ICW3 { kind: PICKind::Slave, byte: 2 }
    }

    /// A master ICW3 whose byte is 0b100 is `master_on_line_2`.
    pub proof fn lemma_master_on_line_2(w: Self)
        requires
            w.kind_view() == PICKind::Master,
            w.byte_view() == 0b100,
        ensures
            w == Self::master_on_line_2(),
    {
    }

    /// A slave ICW3 whose byte is 2 is `slave_with_identity_2`.
    pub proof fn lemma_slave_with_identity_2(w: Self)
        requires
            w.kind_view() == PICKind::Slave,
            w.byte_view() == 2,
        ensures
            w == Self::slave_with_identity_2(),
    {
    }

    /// What `master_on_line_2` and `slave_with_identity_2` hold: one line
    /// of the master is cascaded.
    pub proof fn lemma_cascade_words()
        ensures
            Self::master_on_line_2().kind_view() == PICKind::Master,
            Self::master_on_line_2().byte_view() == 0b100,
            Self::master_on_line_2().cascaded_count() == 1,
            Self::slave_with_identity_2().kind_view() == PICKind::Slave,
            Self::slave_with_identity_2().byte_view() == 2,
    {
        lemma_bits_of_4();
    }

    /// The number of cascaded lines of a master chip: the lines whose bit
    /// is set.
    pub fn cascaded_lines(&self) -> (r: usize)
        requires
            self.kind_view() == PICKind::Master,
        ensures
            r == self.cascaded_count(),
    {
        let mut n: usize = 0;
        let mut i: usize = 0;
        while i < 8
            invariant
                i <= 8,
                n == bits_set_below(self.byte, i as nat),
                n <= i,
            decreases 8 - i,
        {
            if get_bit_u8(self.byte, i) {
                n = n + 1;
            }
            i = i + 1;
        }
        n
    }

    /// The kind of chip being configured.
    pub fn pic_kind(&self) -> (r: PICKind)
        ensures
            r == self.kind_view(),
    {
        self.kind
    }
}

/// Of the bits of 0b100, only bit 2 is set.
proof fn lemma_bits_of_4()
    ensures
        bits_set_below(0b100u8, 8) == 1,
{
    let x: u8 = 0b100;
    assert(x & (1u8 << 0usize) == 0 && x & (1u8 << 1usize) == 0 && x & (1u8 << 2usize) != 0 && x & (1u8
        << 3usize) == 0 && x & (1u8 << 4usize) == 0 && x & (1u8 << 5usize) == 0 && x & (1u8 << 6usize)
        == 0 && x & (1u8 << 7usize) == 0) by (bit_vector)
        requires
            x == 0b100,
    ;
    reveal_with_fuel(bits_set_below, 9);
}

/// This data structure describes a valid ICW4: the modes of operation.
#[derive(Debug, Copy, Clone, PartialEq, Eq, Structural)]
pub struct ICW4 {
    pub byte: u8,
}

/// The two bits that encode a buffering mode in an ICW4.
pub open spec fn buffering_bits(mode: BufferingMode) -> u8 {
    match mode {
        BufferingMode::NotBuffered => 0b00,
        BufferingMode::SlaveBuffered => 0b10,
        BufferingMode::MasterBuffered => 0b11,
    }
}

impl ICW4 {
    /// A fresh ICW4 in 8086/8088 mode (bit 0), the only one supported.
    pub fn new() -> (r: Self)
        ensures
            r.byte == 0b1,
    {
        Self { byte: 0b1 }
    }

    /// Sets the automatic EOI flag (bit 1).
    pub fn set_automatic_eio(self, value: bool) -> (r: Self)
        ensures
            r.byte == with_bit_u8(self.byte, 1, value),
    {
        Self { byte: set_bit_u8(self.byte, 1, value) }
    }

    /// Sets the buffering mode (bits 2 and 3).
    pub fn set_buffering_mode(self, mode: BufferingMode) -> (r: Self)
        ensures
            r.byte == with_bits_u8(self.byte, 2, 4, buffering_bits(mode)),
    {
        let value: u8 = match mode {
            BufferingMode::NotBuffered => 0b00,
            BufferingMode::SlaveBuffered => 0b10,
            BufferingMode::MasterBuffered => 0b11,
        };
        proof {
            crate::bits::lemma_u8_fits(value);
        }
        Self { byte: set_bits_u8(self.byte, 2, 4, value) }
    }

    /// Enables the special fully nested mode (bit 4).
    pub fn set_special_fully_nested_mode(self, value: bool) -> (r: Self)
        ensures
            r.byte == with_bit_u8(self.byte, 4, value),
    {
        Self { byte: set_bit_u8(self.byte, 4, value) }
    }
}

} // verus!
