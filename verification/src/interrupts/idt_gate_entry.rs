//! Entries of the Interrupt Descriptor Table, as the interrupt
//! crate of the kernel describes them. See https://wiki.osdev.org/IDT.
use crate::bits::{set_bit_u8, set_bits_u8, with_bit_u8, with_bits_u8};
use vstd::prelude::*;

verus! {

/// The type of a gate.
#[derive(Debug, Copy, Clone, PartialEq, Eq, Structural)]
pub enum GateType {
    TaskGate32,
    InterruptGate32,
    TrapGate32,
    InterruptGate16,
    TrapGate16,
    UnknownGate,
}

/// Which gate type a code stands for: 0x5 a 32 bit task gate, 0x6 a 16-bit
/// interrupt gate, 0x7 a 16-bit trap gate, 0xE a 32-bit interrupt gate,
/// 0xF a 32-bit trap gate; any other code is unknown.
pub open spec fn gate_type_of(byte: u8) -> GateType {
    if byte == 0x5 {
        GateType::TaskGate32
    } else if byte == 0x6 {
        GateType::InterruptGate16
    } else if byte == 0x7 {
        GateType::TrapGate16
    } else if byte == 0xE {
        GateType::InterruptGate32
    } else if byte == 0xF {
        GateType::TrapGate32
    } else {
        GateType::UnknownGate
    }
}

/// The code of a gate type; an unknown gate has the code 0xFF.
pub open spec fn gate_code(g: GateType) -> u8 {
    match g {
        GateType::TaskGate32 => 0x5,
        GateType::InterruptGate16 => 0x6,
        GateType::TrapGate16 => 0x7,
        GateType::InterruptGate32 => 0xE,
        GateType::TrapGate32 => 0xF,
        GateType::UnknownGate => 0xFF,
    }
}

impl From<u8> for GateType {
    /// Which gate type a code stands for.
    fn from(byte: u8) -> (r: Self) {
        match byte {
            0x5 => GateType::TaskGate32,
            0x6 => GateType::InterruptGate16,
            0x7 => GateType::TrapGate16,
            0xE => GateType::InterruptGate32,
            0xF => GateType::TrapGate32,
            _ => GateType::UnknownGate,
        }
    }
}

impl vstd::std_specs::convert::FromSpecImpl<u8> for GateType {
    open spec fn obeys_from_spec() -> bool {
        true
    }

    open spec fn from_spec(v: u8) -> Self {
        gate_type_of(v)
    }
}

impl From<GateType> for u8 {
    /// The code of a gate type.
    fn from(g: GateType) -> (r: u8) {
        match g {
            GateType::TaskGate32 => 0x5,
            GateType::InterruptGate16 => 0x6,
            GateType::TrapGate16 => 0x7,
            GateType::InterruptGate32 => 0xE,
            GateType::TrapGate32 => 0xF,
            GateType::UnknownGate => 0xFF,
        }
    }
}

impl vstd::std_specs::convert::FromSpecImpl<GateType> for u8 {
    open spec fn obeys_from_spec() -> bool {
        true
    }

    open spec fn from_spec(v: GateType) -> Self {
        gate_code(v)
    }
}

/// Converting a known gate type to its code and back gives it back.
pub proof fn lemma_gate_code_roundtrip(g: GateType)
    ensures
        gate_type_of(gate_code(g)) == g,
{
}

/// A descriptor of the Interrupt Descriptor Table.
///
/// `type_attr` is laid out as: bit 7 present, bits 5 and 6 the descriptor
/// privilege level, bit 4 the storage segment, bits 0 to 3 its gate type.
#[derive(Debug, Copy, Clone, PartialEq, Eq, Structural)]
pub struct IdtGateEntry {
    pub offset_1: u16,
    pub selector: u16,
    pub _zero: u8,
    pub type_attr: u8,
    pub offset_2: u16,
}

impl IdtGateEntry {
    /// A zeroed entry.
    fn minimal() -> (r: Self)
        ensures
            r == (IdtGateEntry { offset_1: 0, selector: 0, _zero: 0, type_attr: 0, offset_2: 0 }),
    {
        IdtGateEntry { offset_1: 0, selector: 0, _zero: 0, type_attr: 0, offset_2: 0 }
    }

    /// A new entry: present, everything else zeroed.
    pub fn new() -> (r: Self)
        ensures
            r == (IdtGateEntry { offset_1: 0, selector: 0, _zero: 0, type_attr: 0x80, offset_2: 0 }),
    {
        let mut new = Self::minimal();
        new.set_present(true);
        proof {
            crate::bits::lemma_u8_constants(0);
        }
        new
    }

    /// Sets the present flag (bit 7 of `type_attr`).
    pub fn set_present(&mut self, present: bool) -> (r: &mut Self)
        ensures
            *r == (IdtGateEntry { type_attr: with_bit_u8(old(self).type_attr, 7, present), ..*old(self) }),
            *final(self) == *final(r),
    {
        self.type_attr = set_bit_u8(self.type_attr, 7, present);
        self
    }

    /// Sets the storage segment flag (bit 4 of `type_attr`).
    pub fn set_storage_segment(&mut self, storage: bool) -> (r: &mut Self)
        ensures
            *r == (IdtGateEntry { type_attr: with_bit_u8(old(self).type_attr, 4, storage), ..*old(self) }),
            *final(self) == *final(r),
    {
        self.type_attr = set_bit_u8(self.type_attr, 4, storage);
        self
    }

    /// Sets its gate type (bits 0 to 3 of `type_attr`); it must be known.
    pub fn set_gate_type(&mut self, gate_type: GateType) -> (r: &mut Self)
        requires
            gate_type != GateType::UnknownGate,
        ensures
            *r == (IdtGateEntry {
                type_attr: with_bits_u8(old(self).type_attr, 0, 4, gate_code(gate_type)),
                ..*old(self)
            }),
            *final(self) == *final(r),
    {
        let code: u8 = u8::from(gate_type);
        proof {
            crate::bits::lemma_u8_fits(code);
        }
        self.type_attr = set_bits_u8(self.type_attr, 0, 4, code);
        self
    }

    /// Sets the descriptor privilege level (bits 5 and 6 of `type_attr`),
    /// from 0 to 3.
    pub fn set_privilege_level(&mut self, dpl: u8) -> (r: &mut Self)
        requires
            dpl < 4,
        ensures
            *r == (IdtGateEntry { type_attr: with_bits_u8(old(self).type_attr, 5, 7, dpl), ..*old(self) }),
            *final(self) == *final(r),
    {
        proof {
            crate::bits::lemma_u8_fits(dpl);
        }
        self.type_attr = set_bits_u8(self.type_attr, 5, 7, dpl);
        self
    }

    /// Sets the code segment selector of the handler.
    pub fn set_selector(&mut self, selector: u16) -> (r: &mut Self)
        ensures
            *r == (IdtGateEntry { selector, ..*old(self) }),
            *final(self) == *final(r),
    {
        self.selector = selector;
        self
    }

    /// Sets the handler's address: its low half in `offset_1`, its high
    /// half in `offset_2`.
    pub fn set_handler(&mut self, handler: u32) -> (r: &mut Self)
        ensures
            *r == (IdtGateEntry {
                offset_1: handler as u16,
                offset_2: (handler >> 16u32) as u16,
                ..*old(self)
            }),
            *final(self) == *final(r),
    {
        self.offset_1 = handler as u16;
        self.offset_2 = (handler >> 16u32) as u16;
        self
    }
}

} // verus!
