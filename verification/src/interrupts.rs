//! Interrupt handling: the IDT and the legacy PIC interface.

pub mod idt;
pub mod idt_gate_entry;
pub mod interrupt_manager;
pub mod pic_8259;

use crate::bits::{bit_of_u32, get_bit_u32, set_bit_u32, with_bit_u32};
use vstd::prelude::*;

verus! {

/// Whether interrupts are enabled, from the EFLAGS register `eflags`: its
/// interrupt flag, bit 9.
pub fn get_interrupts_state(eflags: u32) -> (r: bool)
    ensures
        r == bit_of_u32(eflags, 9),
{
    get_bit_u32(eflags, 9)
}

/// The EFLAGS register `eflags` once the interrupt state is restored to
/// `state`: `sti` sets its interrupt flag (bit 9), `cli` clears it, and
/// the other bits stay.
pub fn restore_interrupts_state(eflags: u32, state: bool) -> (r: u32)
    ensures
        r == with_bit_u32(eflags, 9, state),
{
    set_bit_u32(eflags, 9, state)
}

/// Once the interrupt state is restored to `state`, reading it gives back
/// `state`, and the other flags are as they were.
pub proof fn lemma_state_after_restore(eflags: u32, state: bool)
    ensures
        bit_of_u32(with_bit_u32(eflags, 9, state), 9) == state,
        forall|other: usize| 0 <= other < 32 && other != 9 ==> #[trigger] bit_of_u32(with_bit_u32(eflags, 9, state), other)
            == bit_of_u32(eflags, other),
{
    crate::bits::lemma_u32_bit_write(eflags, 9, state, 9);
    assert forall|other: usize| 0 <= other < 32 && other != 9 implies #[trigger] bit_of_u32(
        with_bit_u32(eflags, 9, state),
        other,
    ) == bit_of_u32(eflags, other) by {
        crate::bits::lemma_u32_bit_write(eflags, 9, state, other);
    }
}

} // verus!
