//! The Operation Control Words (OCWs) of the 8259 chip, used once the
//! initialization procedure is over: to change the interrupt masks, to send
//! end-of-interrupt commands, and to read the IRR or the ISR.
use super::PICRegister;
use crate::bits::{set_bit_u8, set_bits_u8, with_bit_u8, with_bits_u8};
use vstd::prelude::*;

verus! {

/// This data structure describes a valid OCW1, which sets the IMR
/// (Interrupt Mask Register).
#[derive(Debug, Copy, Clone, PartialEq, Eq, Structural)]
pub struct OCW1 {
    pub byte: u8,
}

impl OCW1 {
    /// A fresh, zeroed OCW1.
    pub fn new() -> (r: Self)
        ensures
            r.byte == 0,
    {
        Self { byte: 0 }
    }

    /// Sets the mask of interrupt line `line` to `value`; a set mask
    /// disables the line.
    pub fn set_interrupt_mask(self, line: u8, value: bool) -> (r: Self)
        requires
            line < 8,
        ensures
            r.byte == with_bit_u8(self.byte, line as usize, value),
    {
        Self { byte: set_bit_u8(self.byte, line as usize, value) }
    }

    /// Sets the masks of all eight lines at once.
    pub fn set_interrupt_masks(self, masks: u8) -> (r: Self)
        ensures
            r.byte == masks,
    {
        Self { byte: masks }
    }
}

/// This data structure describes a valid OCW2: end-of-interrupt and
/// priority commands.
#[derive(Debug, Copy, Clone, PartialEq, Eq, Structural)]
pub struct OCW2 {
    pub byte: u8,
    ir_level_set: bool,
    command_set: bool,
}

impl OCW2 {
    /// The byte sent to the chip.
    pub closed spec fn byte_view(self) -> u8 {
        self.byte
    }

    /// The byte sent to the chip.
    pub fn byte(&self) -> (r: u8)
        ensures
            r == self.byte_view(),
    {
        self.byte
    }

    /// Whether an IR level was set.
    pub closed spec fn ir_level_view(self) -> bool {
        self.ir_level_set
    }

    /// Whether a command was set.
    pub closed spec fn command_view(self) -> bool {
        self.command_set
    }

    /// A fresh OCW2: zeroed, with neither level nor command set.
    pub fn new() -> (r: Self)
        ensures
            r.byte_view() == 0,
            !r.ir_level_view(),
            !r.command_view(),
    {
        Self { byte: 0, ir_level_set: false, command_set: false }
    }

    /// Sets the IR level to be acted upon (bits 0 to 2).
    pub fn set_ir_level(self, level: u8) -> (r: Self)
        requires
            level < 8,
        ensures
            r.byte_view() == with_bits_u8(self.byte_view(), 0, 3, level),
            r.ir_level_view(),
            r.command_view() == self.command_view(),
    {
        proof {
            crate::bits::lemma_u8_fits(level);
        }
        Self { byte: set_bits_u8(self.byte, 0, 3, level), ir_level_set: true, ..self }
    }

    /// Sets the command (bits 5 to 7).
    fn set_command(self, value: u8) -> (r: Self)
        requires
            value < 8,
        ensures
            r.byte_view() == with_bits_u8(self.byte_view(), 5, 8, value),
            r.command_view(),
            r.ir_level_view() == self.ir_level_view(),
    {
        proof {
            crate::bits::lemma_u8_fits(value);
        }
        Self { byte: set_bits_u8(self.byte, 5, 8, value), command_set: true, ..self }
    }

    /// A non-specific EOI (command 0b001).
    pub fn set_non_specific_eoi(self) -> (r: Self)
        ensures
            r.byte_view() == with_bits_u8(self.byte_view(), 5, 8, 0b001),
            r.command_view(),
            r.ir_level_view() == self.ir_level_view(),
    {
        self.set_command(0b001)
    }

    /// A specific EOI upon the selected IR (command 0b011).
    pub fn set_specific_eoi(self) -> (r: Self)
        ensures
            r.byte_view() == with_bits_u8(self.byte_view(), 5, 8, 0b011),
            r.command_view(),
            r.ir_level_view() == self.ir_level_view(),
    {
        self.set_command(0b011)
    }

    /// Rotation of priorities on non-specific EOI (command 0b101).
    pub fn set_rotate_on_non_specific_eoi(self) -> (r: Self)
        ensures
            r.byte_view() == with_bits_u8(self.byte_view(), 5, 8, 0b101),
            r.command_view(),
            r.ir_level_view() == self.ir_level_view(),
    {
        self.set_command(0b101)
    }

    /// Rotation of priorities in automatic EOI mode: set (command 0b100)
    /// or cleared (command 0b000).
    pub fn set_rotate_in_automatic_eoi_mode(self, value: bool) -> (r: Self)
        ensures
            r.byte_view() == with_bits_u8(
                self.byte_view(),
                5,
                8,
                if value {
                    0b100u8
                } else {
                    0b000u8
                },
            ),
            r.command_view(),
            r.ir_level_view() == self.ir_level_view(),
    {
        if value {
            self.set_command(0b100)
        } else {
            self.set_command(0b000)
        }
    }

    /// Rotation of priorities on specific EOI (command 0b111).
    pub fn set_rotate_on_specific_eoi(self) -> (r: Self)
        ensures
            r.byte_view() == with_bits_u8(self.byte_view(), 5, 8, 0b111),
            r.command_view(),
            r.ir_level_view() == self.ir_level_view(),
    {
        self.set_command(0b111)
    }

    /// A set-priority command (command 0b110).
    pub fn set_priority_command(self) -> (r: Self)
        ensures
            r.byte_view() == with_bits_u8(self.byte_view(), 5, 8, 0b110),
            r.command_view(),
            r.ir_level_view() == self.ir_level_view(),
    {
        self.set_command(0b110)
    }

    /// A no-op command (command 0b010).
    pub fn set_no_op(self) -> (r: Self)
        ensures
            r.byte_view() == with_bits_u8(self.byte_view(), 5, 8, 0b010),
            r.command_view(),
            r.ir_level_view() == self.ir_level_view(),
    {
        self.set_command(0b010)
    }

    /// Whether both an IR level and a command were set.
    pub fn is_complete(&self) -> (r: bool)
        ensures
            r == (self.ir_level_view() && self.command_view()),
    {
        self.ir_level_set && self.command_set
    }
}

/// This data structure describes a valid OCW3, used to select the register
/// (IRR or ISR) read at the next read of the command port.
#[derive(Debug, Copy, Clone, PartialEq, Eq, Structural)]
pub struct OCW3 {
    pub byte: u8,
}

/// The two bits that select a register in an OCW3.
pub open spec fn read_register_bits(register: PICRegister) -> u8 {
    match register {
        PICRegister::InRequest => 0b10,
        PICRegister::InService => 0b11,
        PICRegister::InterruptMasks => 0,
    }
}

impl OCW3 {
    /// A fresh OCW3: only bit 3, which must be set, is set.
    pub fn new() -> (r: Self)
        ensures
            r.byte == with_bit_u8(0, 3, true),
            r.byte == 0b1000,
    {
        let byte = set_bit_u8(0, 3, true);
        proof {
            crate::bits::lemma_u8_constants(0);
        }
        Self { byte }
    }

    /// Selects the register to read (bits 0 and 1); the IMR cannot be
    /// selected this way.
    pub fn set_read_register(self, register: PICRegister) -> (r: Self)
        requires
            register != PICRegister::InterruptMasks,
        ensures
            r.byte == with_bits_u8(self.byte, 0, 2, read_register_bits(register)),
    {
        let bits: u8 = match register {
            PICRegister::InRequest => 0b10,
            PICRegister::InService => 0b11,
            PICRegister::InterruptMasks => 0,
        };
        proof {
            crate::bits::lemma_u8_fits(bits);
        }
        Self { byte: set_bits_u8(self.byte, 0, 2, bits) }
    }

    /// Sets the poll command (bit 2).
    pub fn set_poll_commmand(self) -> (r: Self)
        ensures
            r.byte == with_bit_u8(self.byte, 2, true),
    {
        Self { byte: set_bit_u8(self.byte, 2, true) }
    }

    /// Sets (bits 5 and 6 to 0b11) or clears (0b10) the special mask.
    pub fn set_special_mask(self, value: bool) -> (r: Self)
        ensures
            r.byte == with_bits_u8(
                self.byte,
                5,
                7,
                if value {
                    0b11u8
                } else {
                    0b10u8
                },
            ),
    {
        if value {
            proof {
                crate::bits::lemma_u8_fits(3);
            }
            Self { byte: set_bits_u8(self.byte, 5, 7, 0b11) }
        } else {
            proof {
                crate::bits::lemma_u8_fits(2);
            }
            Self { byte: set_bits_u8(self.byte, 5, 7, 0b10) }
        }
    }
}

} // verus!
