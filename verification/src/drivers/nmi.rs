//! The NMI (non-maskable interrupt): enabling and disabling it through bit
//! 7 of the CMOS control port.
use crate::io::{Pio, PortWrite};
use vstd::prelude::*;

verus! {

/// The CMOS control port, whose bit 7 disables the NMI.
pub const CONTROL_PORT: u16 = 0x70;

/// The NMI controller: the CMOS control port.
pub struct Nmi {
    command: Pio<u8>,
}

impl Nmi {
    /// The port of the controller.
    pub closed spec fn command_port(self) -> u16 {
        self.command.port_view()
    }

    /// The controller, on the CMOS control port.
    pub fn new() -> (r: Self)
        ensures
            r.command_port() == CONTROL_PORT,
    {
        Nmi { command: Pio::new(CONTROL_PORT) }
    }

    /// The write that enables the NMI, the control register reading
    /// `current_status`: the status with bit 7 cleared.
    pub fn enable(current_status: u8) -> (w: PortWrite)
        ensures
            w == (PortWrite { port: CONTROL_PORT, value: current_status & 0x7f }),
    {
        let controller = Nmi::new();
        PortWrite { port: controller.command.port(), value: current_status & 0x7f }
    }

    /// The write that disables the NMI, the control register reading
    /// `current_status`: the status with bit 7 set.
    pub fn disable(current_status: u8) -> (w: PortWrite)
        ensures
            w == (PortWrite { port: CONTROL_PORT, value: current_status | 0x80 }),
    {
        let controller = Nmi::new();
        PortWrite { port: controller.command.port(), value: current_status | 0x80 }
    }
}

/// Enabling the NMI clears its disable bit and disabling sets it, and
/// each leaves the seven other bits of the control register as they were:
/// disabling then enabling gives what enabling alone gives.
pub proof fn lemma_nmi_switch(status: u8)
    by (bit_vector)
    ensures
        (status & 0x7f) & 0x80 == 0,
        (status | 0x80) & 0x80 == 0x80,
        (status | 0x80) & 0x7f == status & 0x7f,
        (status & 0x7f) | 0x80 == status | 0x80,
{
}

} // verus!
