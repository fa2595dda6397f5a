//! The legacy interface to the two cascaded 8259 chips: IRQ numbers and
//! the raw command bytes.
use crate::bits::{set_bit_u8, with_bit_u8};
use crate::io::{Pio, PortWrite};
use vstd::prelude::*;

verus! {

/// The sixteen IRQ lines of the two cascaded chips (line 2, the cascade,
/// has no variant).
#[derive(Debug, Copy, Clone, PartialEq, Eq, Structural)]
pub enum Irq {
    /// The System timer, (PIT: Programmable Interval Timer) IRQ.
    SystemTimer,
    /// The Keyboard Controller IRQ.
    KeyboardController,
    /// The Serial Port 2 IRQ (shared with the Serial Port 4, if it is present).
    SerialPortController2,
    /// The Serial Port 1 IRQ (shared with the Serial Port 3, if it is present).
    SerialPortController1,
    /// The IRQ for Parallel Ports 2 and 3, or the Sound card.
    ParallelPort2And3,
    /// The IRQ for the FloppyDisk Controller.
    FloppyDiskController,
    /// The IRQ for the Parallel Port 1.
    ParallelPort1,
    /// The Real Time Clock (RTC) IRQ.
    RealTimeClock,
    /// The IRQ for the Advanced Configuration and Power Interface.
    ACPI,
    /// The IRQ is left open for the use of peripherals.
    Irq10,
    /// The IRQ is left open for the use of peripherals.
    Irq11,
    /// The IRQ for the mouse from the PS/2 Controller.
    MouseOnPS2Controller,
    /// The IRQ for CPU co-processor or integrated floating point unit.
    Irq13,
    /// The IRQ for the Primary ATA Channel.
    PrimaryATAChannel,
    /// The IRQ for the Secondary ATA Channel.
    SecondaryATAChannel,
}

/// The line number of each IRQ.
pub open spec fn irq_line(irq: Irq) -> nat {
    match irq {
        Irq::SystemTimer => 0,
        Irq::KeyboardController => 1,
        Irq::SerialPortController2 => 3,
        Irq::SerialPortController1 => 4,
        Irq::ParallelPort2And3 => 5,
        Irq::FloppyDiskController => 6,
        Irq::ParallelPort1 => 7,
        Irq::RealTimeClock => 8,
        Irq::ACPI => 9,
        Irq::Irq10 => 10,
        Irq::Irq11 => 11,
        Irq::MouseOnPS2Controller => 12,
        Irq::Irq13 => 13,
        Irq::PrimaryATAChannel => 14,
        Irq::SecondaryATAChannel => 15,
    }
}

/// The IRQs take the lines of the PC: each its own line (no two share
/// one), every line but 2 (the cascade) taken, and the lines the PC gives
/// the devices: the timer 0, the keyboard 1, the real time clock 8, the
/// mouse 12, the primary ATA channel 14 and the secondary one 15; the
/// IRQs named by a number are on that line.
pub proof fn lemma_irq_lines(a: Irq, b: Irq, line: nat)
    ensures
        irq_line(a) == irq_line(b) ==> a == b,
        irq_line(a) < 16 && irq_line(a) != 2,
        line < 16 && line != 2 ==> exists|i: Irq| irq_line(i) == line,
        irq_line(Irq::SystemTimer) == 0,
        irq_line(Irq::KeyboardController) == 1,
        irq_line(Irq::RealTimeClock) == 8,
        irq_line(Irq::Irq10) == 10,
        irq_line(Irq::Irq11) == 11,
        irq_line(Irq::MouseOnPS2Controller) == 12,
        irq_line(Irq::Irq13) == 13,
        irq_line(Irq::PrimaryATAChannel) == 14,
        irq_line(Irq::SecondaryATAChannel) == 15,
{
    if line < 16 && line != 2 {
        let i = if line == 0 {
            Irq::SystemTimer
        } else if line == 1 {
            Irq::KeyboardController
        } else if line == 3 {
            Irq::SerialPortController2
        } else if line == 4 {
            Irq::SerialPortController1
        } else if line == 5 {
            Irq::ParallelPort2And3
        } else if line == 6 {
            Irq::FloppyDiskController
        } else if line == 7 {
            Irq::ParallelPort1
        } else if line == 8 {
            Irq::RealTimeClock
        } else if line == 9 {
            Irq::ACPI
        } else if line == 10 {
            Irq::Irq10
        } else if line == 11 {
            Irq::Irq11
        } else if line == 12 {
            Irq::MouseOnPS2Controller
        } else if line == 13 {
            Irq::Irq13
        } else if line == 14 {
            Irq::PrimaryATAChannel
        } else {
            Irq::SecondaryATAChannel
        };
        assert(irq_line(i) == line);
    }
}

impl Irq {
    /// The line number of the IRQ, from 0 to 15.
    pub fn number(self) -> (r: usize)
        ensures
            r == irq_line(self),
            r < 16,
    {
        match self {
            Irq::SystemTimer => 0,
            Irq::KeyboardController => 1,
            Irq::SerialPortController2 => 3,
            Irq::SerialPortController1 => 4,
            Irq::ParallelPort2And3 => 5,
            Irq::FloppyDiskController => 6,
            Irq::ParallelPort1 => 7,
            Irq::RealTimeClock => 8,
            Irq::ACPI => 9,
            Irq::Irq10 => 10,
            Irq::Irq11 => 11,
            Irq::MouseOnPS2Controller => 12,
            Irq::Irq13 => 13,
            Irq::PrimaryATAChannel => 14,
            Irq::SecondaryATAChannel => 15,
        }
    }
}


/// The interrupt vector of the master chip, as the BIOS sets it.
pub const BIOS_PIC_MASTER_IDT_VECTOR: u8 = 0x08;

/// The interrupt vector of the slave chip, as the BIOS sets it.
pub const BIOS_PIC_SLAVE_IDT_VECTOR: u8 = 0x70;

/// The interrupt vector of the master chip in the kernel.
pub const KERNEL_PIC_MASTER_IDT_VECTOR: u8 = 0x20;

/// The interrupt vector of the slave chip in the kernel.
pub const KERNEL_PIC_SLAVE_IDT_VECTOR: u8 = 0x28;

/// The End of Interrupt command.
pub const EOI: u8 = 0x20;

/// The Initialization command.
pub const INIT: u8 = 0x11;

/// The command that selects the Interrupt Request Register for reading.
pub const PIC_READ_IRR: u8 = 0x0a;

/// The command that selects the In-Service Register for reading.
pub const PIC_READ_ISR: u8 = 0x0b;

/// One 8259 chip: its command port and its data port (the next one).
pub struct Pic {
    command: Pio<u8>,
    data: Pio<u8>,
}

impl Pic {
    /// The command port.
    pub closed spec fn command_port(self) -> u16 {
        self.command.port_view()
    }

    /// The data port.
    pub closed spec fn data_port(self) -> u16 {
        self.data.port_view()
    }

    /// The chip whose command port is `port`, its data port being the next.
    pub fn new(port: u16) -> (r: Self)
        requires
            port < 0xffff,
        ensures
            r.command_port() == port,
            r.data_port() == port + 1,
    {
        Pic { command: Pio::new(port), data: Pio::new(port + 1) }
    }

    /// Sets the interrupt masks of the chip: `mask` to the data port.
    pub fn set_interrupt_mask(&self, mask: u8) -> (w: PortWrite)
        ensures
            w == (PortWrite { port: self.data_port(), value: mask }),
    {
        PortWrite { port: self.data.port(), value: mask }
    }

    /// Sends `command` to the command port.
    pub fn command(&self, command: u8) -> (w: PortWrite)
        ensures
            w == (PortWrite { port: self.command_port(), value: command }),
    {
        PortWrite { port: self.command.port(), value: command }
    }
}

/// The two cascaded chips of the PC: the master at 0x20, the slave at
/// 0xA0, and the masks the BIOS left, once saved.
pub struct Pic8259 {
    master: Pic,
    slave: Pic,
    bios_imr: Option<u16>,
}

/// The initialization sequence that puts the master's vectors at
/// `offset_1` and the slave's at `offset_2`, the slave cascaded on line 2
/// of the master, both in 8086 mode.
pub open spec fn idt_vectors_writes(offset_1: u8, offset_2: u8) -> Seq<PortWrite> {
    seq![
        PortWrite { port: 0x20, value: INIT },
        PortWrite { port: 0xA0, value: INIT },
        PortWrite { port: 0x21, value: offset_1 },
        PortWrite { port: 0xA1, value: offset_2 },
        PortWrite { port: 0x21, value: 0b100 },
        PortWrite { port: 0xA1, value: 0b10 },
        PortWrite { port: 0x21, value: 1 },
        PortWrite { port: 0xA1, value: 1 },
    ]
}

impl Pic8259 {
    /// Both chips are at their PC ports.
    pub closed spec fn at_pc_ports(self) -> bool {
        &&& self.master.command_port() == 0x20
        &&& self.master.data_port() == 0x21
        &&& self.slave.command_port() == 0xA0
        &&& self.slave.data_port() == 0xA1
    }

    /// The masks saved at initialization.
    pub closed spec fn bios_imr_view(self) -> Option<u16> {
        self.bios_imr
    }

    /// The two chips at their PC ports, not yet initialized.
    pub fn new() -> (r: Self)
        ensures
            r.at_pc_ports(),
            r.bios_imr_view() is None,
    {
        Self { master: Pic::new(0x20), slave: Pic::new(0xA0), bios_imr: None }
    }

    /// Records the masks the BIOS left (`bios_masks`, as read from the
    /// chips) and puts the vectors at the kernel's.
    pub fn init(&mut self, bios_masks: u16) -> (w: Vec<PortWrite>)
        requires
            old(self).at_pc_ports(),
        ensures
            final(self).at_pc_ports(),
            final(self).bios_imr_view() == Some(bios_masks),
            w@ == idt_vectors_writes(KERNEL_PIC_MASTER_IDT_VECTOR, KERNEL_PIC_SLAVE_IDT_VECTOR),
    {
        self.bios_imr = Some(bios_masks);
        self.set_idt_vectors(KERNEL_PIC_MASTER_IDT_VECTOR, KERNEL_PIC_SLAVE_IDT_VECTOR)
    }

    /// Initializes the chips with the master's vectors at `offset_1` and
    /// the slave's at `offset_2`.
    pub fn set_idt_vectors(&self, offset_1: u8, offset_2: u8) -> (w: Vec<PortWrite>)
        requires
            self.at_pc_ports(),
        ensures
            w@ == idt_vectors_writes(offset_1, offset_2),
    {
        let mut w: Vec<PortWrite> = Vec::new();
        w.push(self.master.command(INIT));
        w.push(self.slave.command(INIT));
        w.push(self.master.set_interrupt_mask(offset_1));
        w.push(self.slave.set_interrupt_mask(offset_2));
        w.push(self.master.set_interrupt_mask(0b100));
        w.push(self.slave.set_interrupt_mask(0b10));
        w.push(self.master.set_interrupt_mask(1));
        w.push(self.slave.set_interrupt_mask(1));
        proof {
            assert(w@ =~= idt_vectors_writes(offset_1, offset_2));
        }
        w
    }

    /// Masks line `irq`, given the current masks of the chip it belongs to
    /// (`chip_mask`): bit `irq` of the master, or `irq - 8` of the slave.
    pub fn disable_irq(&self, irq: Irq, chip_mask: u8) -> (w: PortWrite)
        requires
            self.at_pc_ports(),
        ensures
            irq_line(irq) < 8 ==> w == (PortWrite {
                port: 0x21,
                value: with_bit_u8(chip_mask, irq_line(irq) as usize, true),
            }),
            irq_line(irq) >= 8 ==> w == (PortWrite {
                port: 0xA1,
                value: with_bit_u8(chip_mask, (irq_line(irq) - 8) as usize, true),
            }),
    {
        let nirq = irq.number();
        if nirq < 8 {
            self.master.set_interrupt_mask(set_bit_u8(chip_mask, nirq, true))
        } else {
            self.slave.set_interrupt_mask(set_bit_u8(chip_mask, nirq - 8, true))
        }
    }

    /// Masks every line of both chips.
    pub fn disable_all_irqs(&self) -> (w: Vec<PortWrite>)
        requires
            self.at_pc_ports(),
        ensures
            w@ == seq![PortWrite { port: 0x21, value: 0xff }, PortWrite { port: 0xA1, value: 0xff }],
    {
        let mut w: Vec<PortWrite> = Vec::new();
        w.push(self.master.set_interrupt_mask(0xff));
        w.push(self.slave.set_interrupt_mask(0xff));
        w
    }

    /// Unmasks every line of both chips.
    pub fn enable_all_irqs(&self) -> (w: Vec<PortWrite>)
        requires
            self.at_pc_ports(),
        ensures
            w@ == seq![PortWrite { port: 0x21, value: 0 }, PortWrite { port: 0xA1, value: 0 }],
    {
        let mut w: Vec<PortWrite> = Vec::new();
        w.push(self.master.set_interrupt_mask(0));
        w.push(self.slave.set_interrupt_mask(0));
        w
    }

    /// Ends the interrupt of `irq`: the EOI command to the slave first
    /// when the line is the slave's, then to the master.
    pub fn send_eoi(&self, irq: Irq) -> (w: Vec<PortWrite>)
        requires
            self.at_pc_ports(),
        ensures
            irq_line(irq) < 8 ==> w@ == seq![PortWrite { port: 0x20, value: EOI }],
            irq_line(irq) >= 8 ==> w@ == seq![
                PortWrite { port: 0xA0, value: EOI },
                PortWrite { port: 0x20, value: EOI },
            ],
    {
        let mut w: Vec<PortWrite> = Vec::new();
        if irq.number() >= 8 {
            w.push(self.slave.command(EOI));
        }
        w.push(self.master.command(EOI));
        w
    }
}

} // verus!
