//! The 8259 Programmable Interrupt Controller.
//!
//! A configuration is built from Initialization Control Words (see
//! `icws`); the chips are then steered with Operation Control Words (see
//! `ocws`). The port writes are computed here and performed by the caller,
//! in the order given.
use crate::bits::{bits_of_u16, get_bits_u16, set_bit_u8, with_bit_u8};
use crate::interrupts::pic_8259::{irq_line, Irq};
use crate::io::{Pio, PortWrite};
use vstd::prelude::*;

pub mod icws;
pub mod pic_8259_isr;
pub mod ocws;

use icws::{ICWs, ICW1, ICW2, ICW3, ICW4};
use ocws::{OCW1, OCW2, OCW3};

verus! {

/// The interrupt vector of the master chip, as the BIOS sets it.
pub const BIOS_PIC_MASTER_IDT_VECTOR: u8 = 0x08;

/// The interrupt vector of the slave chip, as the BIOS sets it.
pub const BIOS_PIC_SLAVE_IDT_VECTOR: u8 = 0x70;

/// The interrupt vector of the master chip in the kernel.
pub const KERNEL_PIC_MASTER_IDT_VECTOR: u8 = 0x20;

/// The interrupt vector of the slave chip in the kernel.
pub const KERNEL_PIC_SLAVE_IDT_VECTOR: u8 = 0x28;

/// Describes the triggering mode of interrupts for the chip.
#[derive(Debug, Copy, Clone, PartialEq, Eq, Structural)]
pub enum TriggeringMode {
    Level,
    Edge,
}

/// Describes the kind of 8259 chip: Master or Slave.
#[derive(Debug, Copy, Clone, PartialEq, Eq, Structural)]
pub enum PICKind {
    Master,
    Slave,
}

/// Describes a buffering mode for a 8259 chip.
#[derive(Debug, Copy, Clone, PartialEq, Eq, Structural)]
pub enum BufferingMode {
    NotBuffered,
    SlaveBuffered,
    MasterBuffered,
}

/// Describes a register for a 8259 chip.
#[derive(Debug, Copy, Clone, PartialEq, Eq, Structural)]
pub enum PICRegister {
    InRequest,
    InService,
    InterruptMasks,
}

/// The kind of the chip that a complete ICWs configures.
pub open spec fn kind_of(c: ICWs) -> PICKind {
    c.icw3->Some_0.kind_view()
}

/// Whether `c` configures a slave chip.
pub open spec fn is_slave(c: ICWs) -> bool {
    kind_of(c) == PICKind::Slave
}

/// The configuration of all the chips being configured: at most eight,
/// each complete, with at most one master.
pub struct PicConfiguration {
    configurations: Vec<ICWs>,
    master_index: Option<usize>,
}

impl PicConfiguration {
    /// The chip configurations, in the order they were added.
    pub closed spec fn pics(self) -> Seq<ICWs> {
        self.configurations@
    }

    /// The position of the master chip's configuration, if any.
    pub closed spec fn master(self) -> Option<usize> {
        self.master_index
    }

    /// The configuration is well formed: at most eight chips, each
    /// complete, the master (if any) at its recorded place and all the
    /// others slaves.
    pub closed spec fn wf(self) -> bool {
        &&& self.configurations@.len() <= 8
        &&& forall|i: int|
            0 <= i < self.configurations@.len() ==> (#[trigger] self.configurations@[i]).is_complete_spec()
        &&& match self.master_index {
            Some(m) => {
                &&& m < self.configurations@.len()
                &&& kind_of(self.configurations@[m as int]) == PICKind::Master
                &&& forall|i: int|
                    0 <= i < self.configurations@.len() && i != m ==> is_slave(
                        #[trigger] self.configurations@[i],
                    )
            },
            None => forall|i: int|
                0 <= i < self.configurations@.len() ==> is_slave(#[trigger] self.configurations@[i]),
        }
    }

    /// What every configuration keeps: at most eight chips, each complete,
    /// the master (if any) at its recorded place and all the others slaves.
    pub proof fn lemma_well_formed(self)
        requires
            self.wf(),
        ensures
            self.pics().len() <= 8,
            forall|i: int| 0 <= i < self.pics().len() ==> (#[trigger] self.pics()[i]).is_complete_spec(),
            match self.master() {
                Some(m) => {
                    &&& m < self.pics().len()
                    &&& kind_of(self.pics()[m as int]) == PICKind::Master
                    &&& forall|i: int|
                        0 <= i < self.pics().len() && i != m ==> is_slave(#[trigger] self.pics()[i])
                },
                None => forall|i: int| 0 <= i < self.pics().len() ==> is_slave(#[trigger] self.pics()[i]),
            },
    {
    }

    /// A fresh, empty configuration.
    pub fn new() -> (r: Self)
        ensures
            r.wf(),
            r.pics() == Seq::<ICWs>::empty(),
            r.master() is None,
    {
        PicConfiguration { configurations: Vec::new(), master_index: None }
    }

    /// Adds the configuration of one more chip. There is room for eight,
    /// `config` must be complete, and there can only be one master.
    pub fn add_pic_configuration(&mut self, config: ICWs) -> (r: &mut Self)
        requires
            old(self).wf(),
            old(self).pics().len() < 8,
            config.is_complete_spec(),
            kind_of(config) == PICKind::Master ==> old(self).master() is None,
        ensures
            r.wf(),
            r.pics() == old(self).pics().push(config),
            r.master() == if kind_of(config) == PICKind::Master {
                Some(old(self).pics().len() as usize)
            } else {
                old(self).master()
            },
            *final(self) == *final(r),
    {
        let n = self.configurations.len();
        let kind = config.pic_kind();
        let master_index = match kind {
            PICKind::Master => Some(n),
            PICKind::Slave => self.master_index,
        };
        let mut configurations = self.configurations.clone();
        configurations.push(config);
        proof {
            assert(configurations@ == self.configurations@.push(config));
        }
        *self = PicConfiguration { configurations, master_index };
        self
    }

    /// Whether a master chip configuration was added.
    pub fn has_master(&self) -> (r: bool)
        ensures
            r == self.master() is Some,
    {
        self.master_index.is_some()
    }

    /// The configuration of the master chip; one must have been added.
    pub fn get_master(&self) -> (r: &ICWs)
        requires
            self.wf(),
            self.master() is Some,
        ensures
            *r == self.pics()[self.master()->Some_0 as int],
    {
        match self.master_index {
            Some(m) => &self.configurations[m],
            None => &self.configurations[0],
        }
    }

    /// The number of chips being configured.
    pub fn nbr_pics(&self) -> (r: usize)
        ensures
            r == self.pics().len(),
    {
        self.configurations.len()
    }

    /// Whether the whole configuration is complete: there is at least one
    /// chip, a master among them, and the master has as many cascaded
    /// lines as there are other chips.
    pub fn is_complete(&self) -> (r: bool)
        requires
            self.wf(),
        ensures
            r == (self.pics().len() != 0 && self.master() is Some && self.pics()[self.master()->Some_0 as int].icw3->Some_0.cascaded_count()
                == self.pics().len() - 1),
    {
        let n = self.configurations.len();
        if n == 0 || !self.has_master() {
            return false;
        }
        self.get_master().cascaded_lines() == n - 1
    }

    /// The configurations of the slave chips, in the order they were added.
    pub fn slaves(&self) -> (r: Vec<ICWs>)
        requires
            self.wf(),
        ensures
            r@ == self.pics().filter(|c: ICWs| is_slave(c)),
    {
        let mut out: Vec<ICWs> = Vec::new();
        let mut i: usize = 0;
        while i < self.configurations.len()
            invariant
                i <= self.configurations@.len(),
                forall|k: int|
                    0 <= k < self.configurations@.len() ==> (#[trigger] self.configurations@[k]).is_complete_spec(),
                out@ == self.configurations@.take(i as int).filter(|c: ICWs| is_slave(c)),
            decreases self.configurations@.len() - i,
        {
            let c = self.configurations[i];
            proof {
                assert(self.configurations@.take(i as int + 1) == self.configurations@.take(
                    i as int,
                ).push(c));
                self.configurations@.take(i as int).lemma_filter_push(c, |c: ICWs| is_slave(c));
            }
            match c.pic_kind() {
                PICKind::Slave => out.push(c),
                PICKind::Master => {},
            }
            i = i + 1;
        }
        proof {
            assert(self.configurations@.take(self.configurations@.len() as int) == self.configurations@);
        }
        out
    }
}


/// How to read one register of one chip: an optional OCW3 written to the
/// command port first, then one byte read from `read_port`.
#[derive(Debug, Copy, Clone, PartialEq, Eq, Structural)]
pub struct RegisterRead {
    pub command: Option<PortWrite>,
    pub read_port: u16,
}

/// Represents one 8259 chip: its command port, its data port (the next
/// one), and the configuration it was given.
pub struct Pic {
    command: Pio<u8>,
    data: Pio<u8>,
    configuration: Option<ICWs>,
}

/// The bytes of a configuration, in the order they are sent: ICW1 to the
/// command port, then ICW2 and ICW3 to the data port, and ICW4 there too
/// when ICW1 asks for it.
pub open spec fn configuration_writes(command: u16, data: u16, c: ICWs) -> Seq<PortWrite> {
    let first_three = seq![
        PortWrite { port: command, value: c.icw1->Some_0.byte },
        PortWrite { port: data, value: c.icw2->Some_0.byte },
        PortWrite { port: data, value: c.icw3->Some_0.byte_view() },
    ];
    if c.icw4_needed_spec() {
        first_three.push(PortWrite { port: data, value: c.icw4->Some_0.byte })
    } else {
        first_three
    }
}

impl Pic {
    /// The command port.
    pub closed spec fn command_port(self) -> u16 {
        self.command.port_view()
    }

    /// The data port.
    pub closed spec fn data_port(self) -> u16 {
        self.data.port_view()
    }

    /// The configuration last sent to the chip.
    pub closed spec fn configuration_view(self) -> Option<ICWs> {
        self.configuration
    }

    /// The chip whose command port is `port`, its data port being the next.
    pub fn new(port: u16) -> (r: Self)
        requires
            port < 0xffff,
        ensures
            r.command_port() == port,
            r.data_port() == port + 1,
            r.configuration_view() is None,
    {
        Pic { command: Pio::new(port), data: Pio::new(port + 1), configuration: None }
    }

    /// How the interrupt masks (the IMR) of the chip are read: from its
    /// data port, with no command first.
    pub fn get_interrupt_masks(&self) -> (r: RegisterRead)
        ensures
            r == (RegisterRead { command: None, read_port: self.data_port() }),
    {
        RegisterRead { command: None, read_port: self.data.port() }
    }

    /// Sets the interrupt masks (the IMR) of the chip: an OCW1 holding
    /// `masks`, written to the data port. A set bit disables its line.
    pub fn set_interrupt_masks(&self, masks: u8) -> (w: PortWrite)
        ensures
            w == (PortWrite { port: self.data_port(), value: masks }),
    {
        let ocw1 = OCW1::new().set_interrupt_masks(masks);
        PortWrite { port: self.data.port(), value: ocw1.byte }
    }

    /// The non-specific end of interrupt: an OCW2 at IR level 0 with the
    /// non-specific EOI command (0x20), written to the command port.
    pub fn send_non_specific_eoi(&self) -> (w: PortWrite)
        ensures
            w == (PortWrite { port: self.command_port(), value: 0x20 }),
    {
        let ocw2 = OCW2::new().set_ir_level(0).set_non_specific_eoi();
        proof {
            crate::bits::lemma_u8_constants(0);
        }
        PortWrite { port: self.command.port(), value: ocw2.byte() }
    }

    /// Configures the chip with `config`, which must be complete: ICW1 on
    /// the command port, ICW2 and ICW3 on the data port, then ICW4 there
    /// when ICW1 asks for it; the configuration is recorded.
    pub fn configure(&mut self, config: ICWs) -> (w: Vec<PortWrite>)
        requires
            config.is_complete_spec(),
        ensures
            w@ == configuration_writes(old(self).command_port(), old(self).data_port(), config),
            final(self).command_port() == old(self).command_port(),
            final(self).data_port() == old(self).data_port(),
            final(self).configuration_view() == Some(config),
    {
        let mut w: Vec<PortWrite> = Vec::new();
        match (config.icw1, config.icw2, config.icw3) {
            (Some(icw1), Some(icw2), Some(icw3)) => {
                w.push(PortWrite { port: self.command.port(), value: icw1.byte });
                w.push(PortWrite { port: self.data.port(), value: icw2.byte });
                w.push(PortWrite { port: self.data.port(), value: icw3.byte() });
            },
            _ => {},
        }
        if config.icw4_needed() {
            match config.icw4 {
                Some(icw4) => {
                    w.push(PortWrite { port: self.data.port(), value: icw4.byte });
                },
                None => {},
            }
        }
        self.configuration = Some(config);
        proof {
            assert(w@ == configuration_writes(self.command_port(), self.data_port(), config));
        }
        w
    }

    /// How to read `register` on this chip (see `get_register`).
    pub open spec fn register_read_spec(self, register: PICRegister) -> RegisterRead {
        match register {
            PICRegister::InterruptMasks => RegisterRead { command: None, read_port: self.data_port() },
            PICRegister::InRequest => RegisterRead {
                command: Some(PortWrite { port: self.command_port(), value: 0b1010 }),
                read_port: self.command_port(),
            },
            PICRegister::InService => RegisterRead {
                command: Some(PortWrite { port: self.command_port(), value: 0b1011 }),
                read_port: self.command_port(),
            },
        }
    }

    /// How to read `register`: the IMR is read from the data port with
    /// nothing written first; the IRR and the ISR are selected by an OCW3
    /// on the command port, then read from the command port.
    pub fn get_register(&self, register: PICRegister) -> (r: RegisterRead)
        ensures
            r == self.register_read_spec(register),
            register == PICRegister::InterruptMasks ==> r == (RegisterRead {
                command: None,
                read_port: self.data_port(),
            }),
            register == PICRegister::InRequest ==> r == (RegisterRead {
                command: Some(PortWrite { port: self.command_port(), value: 0b1010 }),
                read_port: self.command_port(),
            }),
            register == PICRegister::InService ==> r == (RegisterRead {
                command: Some(PortWrite { port: self.command_port(), value: 0b1011 }),
                read_port: self.command_port(),
            }),
    {
        match register {
            PICRegister::InterruptMasks => RegisterRead { command: None, read_port: self.data.port() },
            _ => {
                let ocw3 = OCW3::new().set_read_register(register);
                proof {
                    crate::bits::lemma_u8_constants(0);
                }
                RegisterRead {
                    command: Some(PortWrite { port: self.command.port(), value: ocw3.byte }),
                    read_port: self.command.port(),
                }
            },
        }
    }
}

/// The ICWs of a master chip with its vector at `vector`: ICW4 needed,
/// line 2 cascaded, 8086 mode.
pub open spec fn master_icws(vector: u8) -> ICWs {
    ICWs {
        icw1: Some(ICW1 { byte: 0b10001 }),
        icw2: Some(ICW2 { byte: vector }),
        icw3: Some(ICW3::master_on_line_2()),
        icw4: Some(ICW4 { byte: 1 }),
    }
}

/// The ICWs of a slave chip with its vector at `vector`: ICW4 needed,
/// cascaded on line 2 of the master, 8086 mode.
pub open spec fn slave_icws(vector: u8) -> ICWs {
    ICWs {
        icw1: Some(ICW1 { byte: 0b10001 }),
        icw2: Some(ICW2 { byte: vector }),
        icw3: Some(ICW3::slave_with_identity_2()),
        icw4: Some(ICW4 { byte: 1 }),
    }
}

/// The two cascaded 8259 chips of the PC: the master at port 0x20, the
/// slave at port 0xA0, and the masks the BIOS left, once saved.
pub struct Pic8259 {
    master: Pic,
    slave: Pic,
    bios_imr: Option<u16>,
}

/// The combined value of a register of both chips: the master's in bits 0
/// to 7, the slave's in bits 8 to 15.
pub open spec fn combined(master: u8, slave: u8) -> u16 {
    (slave as u16) << 8u16 | master as u16
}

/// The write that sets bit `line` of the interrupt masks of a chip.
pub open spec fn mask_write(port: u16, masks: u8, line: usize, value: bool) -> PortWrite {
    PortWrite { port, value: with_bit_u8(masks, line, value) }
}

impl Pic8259 {
    /// The master chip.
    pub closed spec fn master_view(self) -> Pic {
        self.master
    }

    /// The slave chip.
    pub closed spec fn slave_view(self) -> Pic {
        self.slave
    }

    /// The interrupt masks saved at initialization.
    pub closed spec fn bios_imr_view(self) -> Option<u16> {
        self.bios_imr
    }

    /// Both chips are at their PC ports.
    pub open spec fn at_pc_ports(self) -> bool {
        &&& self.master_view().command_port() == 0x20
        &&& self.master_view().data_port() == 0x21
        &&& self.slave_view().command_port() == 0xA0
        &&& self.slave_view().data_port() == 0xA1
    }

    /// The two chips at their PC ports, not yet initialized.
    pub fn new() -> (r: Self)
        ensures
            r.at_pc_ports(),
            r.bios_imr_view() is None,
            r.master_view().configuration_view() is None,
            r.slave_view().configuration_view() is None,
    {
        Self { master: Pic::new(0x20), slave: Pic::new(0xA0), bios_imr: None }
    }

    /// Whether the masks left by the BIOS were saved, which initialization
    /// does.
    pub fn is_initialized(&self) -> (r: bool)
        ensures
            r == self.bios_imr_view() is Some,
    {
        self.bios_imr.is_some()
    }

    /// The configuration of a master and one slave on its line 2, with
    /// their vectors at `master_vector` and `slave_vector`.
    pub fn basic_pic_configuration(master_vector: u8, slave_vector: u8) -> (r: PicConfiguration)
        ensures
            r.wf(),
            r.pics() == seq![master_icws(master_vector), slave_icws(slave_vector)],
            r.master() == Some(0usize),
    {
        let master_icw1 = ICW1::new().set_icw4_needed(true);
        let master_icw2 = ICW2::new().set_interrupt_vector(master_vector);
        let master_icw3 = ICW3::new(PICKind::Master).set_cascaded_line(2, true);
        let master_icw4 = ICW4::new();
        proof {
            crate::bits::lemma_u8_constants(0);
            ICW3::lemma_master_on_line_2(master_icw3);
        }
        let master_icws = ICWs::new().push_icw1(master_icw1).push_icw2(master_icw2).push_icw3(
            master_icw3,
        ).push_icw4(master_icw4);

        let slave_icw1 = ICW1::new().set_icw4_needed(true);
        let slave_icw2 = ICW2::new().set_interrupt_vector(slave_vector);
        let slave_icw3 = ICW3::new(PICKind::Slave).set_slave_identity(2);
        let slave_icw4 = ICW4::new();
        proof {
            ICW3::lemma_slave_with_identity_2(slave_icw3);
        }
        let slave_icws = ICWs::new().push_icw1(slave_icw1).push_icw2(slave_icw2).push_icw3(
            slave_icw3,
        ).push_icw4(slave_icw4);

        let mut configuration = PicConfiguration::new();
        configuration.add_pic_configuration(master_icws).add_pic_configuration(slave_icws);
        configuration
    }

    /// The configuration the BIOS uses (vectors 0x08 and 0x70).
    pub fn bios_pic_configuration() -> (r: PicConfiguration)
        ensures
            r.wf(),
            r.pics() == seq![master_icws(0x08), slave_icws(0x70)],
            r.master() == Some(0usize),
    {
        Self::basic_pic_configuration(BIOS_PIC_MASTER_IDT_VECTOR, BIOS_PIC_SLAVE_IDT_VECTOR)
    }

    /// The configuration the kernel uses (vectors 0x20 and 0x28).
    pub fn default_pic_configuration() -> (r: PicConfiguration)
        ensures
            r.wf(),
            r.pics() == seq![master_icws(0x20), slave_icws(0x28)],
            r.master() == Some(0usize),
    {
        Self::basic_pic_configuration(KERNEL_PIC_MASTER_IDT_VECTOR, KERNEL_PIC_SLAVE_IDT_VECTOR)
    }

    /// Initializes the chips with `pic_configuration`, which must be
    /// complete and be made of a master and one slave: the master's words
    /// are sent, then the slave's (see `Pic::configure`).
    pub fn initialize(&mut self, pic_configuration: PicConfiguration) -> (w: Vec<PortWrite>)
        requires
            pic_configuration.wf(),
            pic_configuration.pics().len() == 2,
            pic_configuration.master() is Some,
            pic_configuration.pics()[pic_configuration.master()->Some_0 as int].icw3->Some_0.cascaded_count()
                == 1,
        ensures
            ({
                let m = pic_configuration.master()->Some_0 as int;
                let master_conf = pic_configuration.pics()[m];
                let slave_conf = pic_configuration.pics()[1 - m];
                &&& w@ == configuration_writes(
                    old(self).master_view().command_port(),
                    old(self).master_view().data_port(),
                    master_conf,
                ) + configuration_writes(
                    old(self).slave_view().command_port(),
                    old(self).slave_view().data_port(),
                    slave_conf,
                )
                &&& final(self).master_view().configuration_view() == Some(master_conf)
                &&& final(self).slave_view().configuration_view() == Some(slave_conf)
            }),
            final(self).master_view().command_port() == old(self).master_view().command_port(),
            final(self).master_view().data_port() == old(self).master_view().data_port(),
            final(self).slave_view().command_port() == old(self).slave_view().command_port(),
            final(self).slave_view().data_port() == old(self).slave_view().data_port(),
            final(self).bios_imr_view() == old(self).bios_imr_view(),
    {
        let ghost pics = pic_configuration.pics();
        let ghost m = pic_configuration.master()->Some_0 as int;
        proof {
            pic_configuration.lemma_well_formed();
            let pred = |c: ICWs| is_slave(c);
            assert(pics =~= Seq::<ICWs>::empty().push(pics[0]).push(pics[1]));
            Seq::<ICWs>::empty().lemma_filter_push(pics[0], pred);
            Seq::<ICWs>::empty().push(pics[0]).lemma_filter_push(pics[1], pred);
            assert(Seq::<ICWs>::empty().filter(pred) =~= Seq::<ICWs>::empty()) by {
                reveal(Seq::filter);
            }
            assert(pics.filter(pred) =~= seq![pics[1 - m]]);
        }
        let master_conf = *pic_configuration.get_master();
        let slaves_confs = pic_configuration.slaves();
        let mut w = self.master.configure(master_conf);
        let slave_conf = slaves_confs[0];
        let mut sw = self.slave.configure(slave_conf);
        w.append(&mut sw);
        w
    }

    /// Records the masks left by the BIOS (`bios_masks`, as read from the
    /// chips), then initializes the chips with the kernel's configuration
    /// and masks all their lines.
    pub fn init(&mut self, bios_masks: u16) -> (w: Vec<PortWrite>)
        requires
            old(self).at_pc_ports(),
        ensures
            final(self).at_pc_ports(),
            final(self).bios_imr_view() == Some(bios_masks),
            w@ == configuration_writes(0x20, 0x21, master_icws(0x20)) + configuration_writes(
                0xA0,
                0xA1,
                slave_icws(0x28),
            ) + seq![PortWrite { port: 0x21, value: 0xff }, PortWrite { port: 0xA1, value: 0xff }],
    {
        self.bios_imr = Some(bios_masks);
        let conf = Self::default_pic_configuration();
        proof {
            conf.lemma_well_formed();
            ICW3::lemma_cascade_words();
        }
        let mut w = self.initialize(conf);
        let mut off = self.disable_all_irqs();
        w.append(&mut off);
        w
    }

    /// Masks line `irq` on its chip, given `masks`, the current combined
    /// masks: bit `irq` of the master's masks, or bit `irq - 8` of the
    /// slave's, is set.
    pub fn disable_irq(&self, irq: Irq, masks: u16) -> (w: PortWrite)
        ensures
            irq_line(irq) < 8 ==> w == mask_write(
                self.master_view().data_port(),
                masks as u8,
                irq_line(irq) as usize,
                true,
            ),
            irq_line(irq) >= 8 ==> w == mask_write(
                self.slave_view().data_port(),
                (masks >> 8u16) as u8,
                (irq_line(irq) - 8) as usize,
                true,
            ),
    {
        let nirq = irq.number();
        if nirq < 8 {
            let mask = set_bit_u8(masks as u8, nirq, true);
            self.master.set_interrupt_masks(mask)
        } else {
            let mask = set_bit_u8((masks >> 8u16) as u8, nirq - 8, true);
            self.slave.set_interrupt_masks(mask)
        }
    }

    /// Unmasks line `irq` on its chip, given `masks`, the current combined
    /// masks. For a line of the slave, line 2 of the master, on which the
    /// slave is cascaded, is unmasked too. When `func_opt` holds the
    /// address of a handler, it is first recorded for the line in
    /// `handlers`, the table of the 16 handlers the stubs of the lines call.
    pub fn enable_irq(&self, irq: Irq, func_opt: Option<u32>, handlers: &mut Vec<u32>, masks: u16) -> (w: Vec<
        PortWrite,
    >)
        requires
            old(handlers)@.len() == 16,
        ensures
            final(handlers)@ == match func_opt {
                Some(func) => old(handlers)@.update(irq_line(irq) as int, func),
                None => old(handlers)@,
            },
            irq_line(irq) < 8 ==> w@ == seq![
                mask_write(self.master_view().data_port(), masks as u8, irq_line(irq) as usize, false),
            ],
            irq_line(irq) >= 8 ==> w@ == seq![
                mask_write(
                    self.slave_view().data_port(),
                    (masks >> 8u16) as u8,
                    (irq_line(irq) - 8) as usize,
                    false,
                ),
                mask_write(self.master_view().data_port(), masks as u8, 2, false),
            ],
    {
        let nirq = irq.number();
        if let Some(func) = func_opt {
            handlers.set(nirq, func);
        }
        let mut w: Vec<PortWrite> = Vec::new();
        if nirq < 8 {
            let mask = set_bit_u8(masks as u8, nirq, false);
            w.push(self.master.set_interrupt_masks(mask));
        } else {
            let mask = set_bit_u8((masks >> 8u16) as u8, nirq - 8, false);
            w.push(self.slave.set_interrupt_masks(mask));
            let mask = set_bit_u8(masks as u8, 2, false);
            w.push(self.master.set_interrupt_masks(mask));
        }
        w
    }

    /// Masks every line of both chips.
    pub fn disable_all_irqs(&self) -> (w: Vec<PortWrite>)
        ensures
            w@ == seq![
                PortWrite { port: self.master_view().data_port(), value: 0xff },
                PortWrite { port: self.slave_view().data_port(), value: 0xff },
            ],
    {
        let mut w: Vec<PortWrite> = Vec::new();
        w.push(self.master.set_interrupt_masks(0xff));
        w.push(self.slave.set_interrupt_masks(0xff));
        w
    }

    /// Unmasks every line of both chips.
    pub fn enable_all_irqs(&self) -> (w: Vec<PortWrite>)
        ensures
            w@ == seq![
                PortWrite { port: self.master_view().data_port(), value: 0 },
                PortWrite { port: self.slave_view().data_port(), value: 0 },
            ],
    {
        let mut w: Vec<PortWrite> = Vec::new();
        w.push(self.master.set_interrupt_masks(0x0));
        w.push(self.slave.set_interrupt_masks(0x0));
        w
    }

    /// Sets the masks of both chips from the combined `mask`: bits 0 to 7
    /// to the master, bits 8 to 15 to the slave.
    pub fn set_masks(&self, mask: u16) -> (w: Vec<PortWrite>)
        ensures
            w@ == seq![
                PortWrite { port: self.master_view().data_port(), value: mask as u8 },
                PortWrite { port: self.slave_view().data_port(), value: (mask >> 8u16) as u8 },
            ],
    {
        let low = get_bits_u16(mask, 0, 8);
        let high = get_bits_u16(mask, 8, 16);
        proof {
            crate::bits::lemma_u16_halves(mask, 0, 0);
        }
        let mut w: Vec<PortWrite> = Vec::new();
        w.push(self.master.set_interrupt_masks(low as u8));
        w.push(self.slave.set_interrupt_masks(high as u8));
        w
    }

    /// Ends the interrupt of `irq`: a non-specific EOI to the slave first
    /// when the line is the slave's, then to the master in every case.
    pub fn send_eoi(&self, irq: Irq) -> (w: Vec<PortWrite>)
        ensures
            irq_line(irq) < 8 ==> w@ == seq![
                PortWrite { port: self.master_view().command_port(), value: 0x20 },
            ],
            irq_line(irq) >= 8 ==> w@ == seq![
                PortWrite { port: self.slave_view().command_port(), value: 0x20 },
                PortWrite { port: self.master_view().command_port(), value: 0x20 },
            ],
    {
        let mut w: Vec<PortWrite> = Vec::new();
        if irq.number() >= 8 {
            w.push(self.slave.send_non_specific_eoi());
        }
        w.push(self.master.send_non_specific_eoi());
        w
    }

    /// Puts the chips back in the BIOS configuration with the masks saved
    /// at initialization, which must have happened. `current_masks`, the
    /// combined masks read before, is handed back.
    pub fn reset_to_default(&mut self, current_masks: u16) -> (r: (u16, Vec<PortWrite>))
        requires
            old(self).at_pc_ports(),
            old(self).bios_imr_view() is Some,
        ensures
            final(self).at_pc_ports(),
            final(self).bios_imr_view() == old(self).bios_imr_view(),
            r.0 == current_masks,
            r.1@ == configuration_writes(0x20, 0x21, master_icws(0x08)) + configuration_writes(
                0xA0,
                0xA1,
                slave_icws(0x70),
            ) + seq![
                PortWrite { port: 0x21, value: old(self).bios_imr_view()->Some_0 as u8 },
                PortWrite {
                    port: 0xA1,
                    value: (old(self).bios_imr_view()->Some_0 >> 8u16) as u8,
                },
            ],
    {
        let conf = Self::bios_pic_configuration();
        proof {
            conf.lemma_well_formed();
            ICW3::lemma_cascade_words();
        }
        let mut w = self.initialize(conf);
        let bios = match self.bios_imr {
            Some(b) => b,
            None => 0,
        };
        let mut m = self.set_masks(bios);
        w.append(&mut m);
        (current_masks, w)
    }

    /// How to read `register` on both chips: the master's read, then the
    /// slave's.
    pub fn get_pics_register(&self, register: PICRegister) -> (r: (RegisterRead, RegisterRead))
        ensures
            r.0 == self.master_view().register_read_spec(register),
            r.1 == self.slave_view().register_read_spec(register),
    {
        (self.master.get_register(register), self.slave.get_register(register))
    }

    /// The combined IRR, from the master's and the slave's bytes read as
    /// `get_pics_register(PICRegister::InRequest)` tells.
    pub fn get_irr(&self, master: u8, slave: u8) -> (r: u16)
        ensures
            r == combined(master, slave),
    {
        combine(master, slave)
    }

    /// The combined ISR, from the master's and the slave's bytes read as
    /// `get_pics_register(PICRegister::InService)` tells.
    pub fn get_isr(&self, master: u8, slave: u8) -> (r: u16)
        ensures
            r == combined(master, slave),
    {
        combine(master, slave)
    }

    /// The combined IMRs, from the master's and the slave's bytes read as
    /// `get_pics_register(PICRegister::InterruptMasks)` tells.
    pub fn get_masks(&self, master: u8, slave: u8) -> (r: u16)
        ensures
            r == combined(master, slave),
    {
        combine(master, slave)
    }
}

/// The combined value of a register of both chips.
fn combine(master: u8, slave: u8) -> (r: u16)
    ensures
        r == combined(master, slave),
{
    (slave as u16) << 8u16 | master as u16
}

/// Splitting the combined masks into the chips' bytes and combining them
/// again gives back the combined masks; combining bytes and splitting them
/// gives back the bytes.
pub proof fn lemma_combined_masks_roundtrip(mask: u16, master: u8, slave: u8)
    ensures
        combined(mask as u8, (mask >> 8u16) as u8) == mask,
        combined(master, slave) as u8 == master,
        (combined(master, slave) >> 8u16) as u8 == slave,
{
    crate::bits::lemma_u16_halves(mask, master, slave);
}

/// Disabling an IRQ sets the mask bit of its line and enabling it clears
/// it; either leaves the bits of the other lines as they were, and
/// enabling a line just disabled gives what enabling it alone gives.
pub proof fn lemma_irq_mask_switch(port: u16, masks: u8, line: usize, other: usize)
    requires
        line < 8,
        other < 8,
    ensures
        crate::bits::bit_of_u8(mask_write(port, masks, line, true).value, line),
        !crate::bits::bit_of_u8(mask_write(port, masks, line, false).value, line),
        other != line ==> crate::bits::bit_of_u8(mask_write(port, masks, line, true).value, other)
            == crate::bits::bit_of_u8(masks, other),
        other != line ==> crate::bits::bit_of_u8(mask_write(port, masks, line, false).value, other)
            == crate::bits::bit_of_u8(masks, other),
        mask_write(port, mask_write(port, masks, line, true).value, line, false) == mask_write(
            port,
            masks,
            line,
            false,
        ),
{
    crate::bits::lemma_u8_bit_roundtrip(masks, line, true);
    crate::bits::lemma_u8_bit_roundtrip(masks, line, false);
    if other != line {
        crate::bits::lemma_u8_bit_frame(masks, line, true, other);
        crate::bits::lemma_u8_bit_frame(masks, line, false, other);
    }
    crate::bits::lemma_u8_bit_overwrite(masks, line, true, false);
}

} // verus!
