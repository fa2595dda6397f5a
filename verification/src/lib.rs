//! Verified pieces of the Turbo Fish kernel: the 8259 PIC control words,
//! the IDT gate entries, the PCI class decoding and configuration space
//! helpers, the ATA/IDE and UDMA register logic, and the small utilities
//! around them.

pub mod bits;
pub mod cpuid;
pub mod drivers;
pub mod early_terminal;
pub mod ffi;
pub mod interrupts;
pub mod io;
pub mod keyboard;
pub mod math;
