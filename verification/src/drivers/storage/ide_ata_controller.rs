//! The ATA/IDE controller: drives, their identification, the selection of
//! a drive, bounds checks and the register writes of a transfer.
//!
//! See https://wiki.osdev.org/PCI_IDE_Controller and
//! https://wiki.osdev.org/ATA_PIO_Mode.
use super::tools::{NbrSectors, Sector};
use crate::drivers::pci::{bus_master_write, PciConfigWrite, PciType0};
use crate::interrupts::pic_8259::Irq;
use crate::io::{PortWrite, PortWrite32};
use vstd::prelude::*;

pub mod pci_udma;
pub mod pio_polling;
pub mod udma;

use pci_udma::DmaTransfer;
use pio_polling::PioCommand;
use udma::{Channel, Udma, DMA_PRDT_ADDR};

verus! {

/// The errors of the ATA driver.
#[derive(Debug, Copy, Clone, PartialEq, Eq, Structural)]
pub enum AtaError {
    /// Not a valid position
    DeviceNotFound,
    /// Common error Variant
    NotSupported,
    /// Out of bound like always
    OutOfBound,
    /// There is nothing to do
    NothingToDo,
    /// IO error
    IoError,
}

/// The result of the ATA driver.
pub type AtaResult<T> = Result<T, AtaError>;

/// The channel of a drive.
#[derive(Debug, Copy, Clone, PartialEq, Eq, Structural)]
pub enum Rank {
    Primary(Hierarchy),
    Secondary(Hierarchy),
}

/// Master or slave on its channel.
#[derive(Debug, Copy, Clone, PartialEq, Eq, Structural)]
pub enum Hierarchy {
    Master,
    Slave,
}

/// How a drive is addressed.
#[derive(Debug, Copy, Clone, PartialEq, Eq, Structural)]
pub enum Capabilities {
    Lba48,
    Lba28,
    Chs,
}

/// The base register of the primary channel, by default.
pub const PRIMARY_BASE_REGISTER: u16 = 0x01F0;
/// The base register of the secondary channel, by default.
pub const SECONDARY_BASE_REGISTER: u16 = 0x0170;
/// The control register of the primary channel, by default.
pub const PRIMARY_CONTROL_REGISTER: u16 = 0x03f6;
/// The control register of the secondary channel, by default.
pub const SECONDARY_CONTROL_REGISTER: u16 = 0x376;

/// Data Register: read/write PIO data (offset from the base register).
pub const DATA: u16 = 0x0;
/// Error Register (read) and Features Register (write).
pub const FEATURES: u16 = 0x1;
/// Sector Count Register.
pub const SECTOR_COUNT: u16 = 0x2;
/// Sector Number Register or LBA low.
pub const L1_SECTOR: u16 = 0x3;
/// Cylinder Low Register or LBA mid.
pub const L2_CYLINDER: u16 = 0x4;
/// Cylinder High Register or LBA high.
pub const L3_CYLINDER: u16 = 0x5;
/// Drive / Head Register.
pub const SELECTOR: u16 = 0x6;
/// Status Register (read) and Command Register (write).
pub const COMMAND: u16 = 0x7;

/// The IDENTIFY command.
pub const ATA_CMD_IDENTIFY: u8 = 0xEC;
/// The READ SECTORS command.
pub const ATA_CMD_READ_PIO: u8 = 0x20;
/// The READ SECTORS EXT command.
pub const ATA_CMD_READ_PIO_EXT: u8 = 0x24;
/// The WRITE SECTORS command.
pub const ATA_CMD_WRITE_PIO: u8 = 0x30;
/// The WRITE SECTORS EXT command.
pub const ATA_CMD_WRITE_PIO_EXT: u8 = 0x34;
/// The CACHE FLUSH command.
pub const ATA_CMD_CACHE_FLUSH: u8 = 0xE7;
/// The CACHE FLUSH EXT command.
pub const ATA_CMD_CACHE_FLUSH_EXT: u8 = 0xEA;

/// An ATA drive: its registers, how it is addressed, its capacity, its
/// UDMA modes and its place.
#[derive(Debug, Copy, Clone, PartialEq, Eq, Structural)]
pub struct Drive {
    pub command_register: u16,
    pub control_register: u16,
    pub capabilities: Capabilities,
    pub sector_capacity: NbrSectors,
    pub udma_support: u16,
    pub rank: Rank,
}

/// The transfers of a drive in PIO mode: the commands that read or write
/// sectors, each with the writes that set it up; the data moves through
/// the data register between the commands.
pub trait PioIo {
    /// Whether the registers of the drive leave room for their offsets.
    spec fn pio_ready(&self) -> bool;

    /// The commands that read `nbr_sectors` sectors from `start_sector`.
    fn read(&self, start_sector: Sector, nbr_sectors: NbrSectors) -> (r: AtaResult<Vec<PioCommand>>)
        requires
            self.pio_ready(),
    ;

    /// The commands that write `nbr_sectors` sectors from `start_sector`.
    fn write(&self, start_sector: Sector, nbr_sectors: NbrSectors) -> (r: AtaResult<Vec<PioCommand>>)
        requires
            self.pio_ready(),
    ;
}

/// The transfers of a drive through UDMA: the DMA buffers of the channel
/// hold the data, the commands set up and start the transfer.
pub trait DmaIo {
    /// Whether the registers of the drive leave room for their offsets.
    spec fn dma_ready(&self) -> bool;

    /// The transfer that reads sectors from `start_sector` into the DMA
    /// buffers: `nbr_sectors` of them, at most as many as the buffers hold.
    fn read(&self, start_sector: Sector, nbr_sectors: NbrSectors, udma: &mut Udma) -> (r: AtaResult<
        DmaTransfer,
    >)
        requires
            self.dma_ready(),
            old(udma).wf(),
    ;

    /// The transfer that writes sectors from `start_sector`, from the
    /// bytes `data` of the `nbr_sectors` sectors asked for: at most as
    /// many as the DMA buffers hold, copied into them first.
    fn write(&self, start_sector: Sector, nbr_sectors: NbrSectors, data: &Vec<u8>, udma: &mut Udma) -> (r:
        AtaResult<DmaTransfer>)
        requires
            self.dma_ready(),
            old(udma).wf(),
            data@.len() == nbr_sectors.0 * 512,
    ;
}

/// The drive the 256 words `v` of an IDENTIFY answer describe: LBA48 when
/// bit 10 of word 83 is set (capacity in words 100 to 103), else LBA28
/// when words 60 or 61 are not 0 (capacity in those), else CHS (capacity
/// 0). The UDMA modes are word 88.
pub open spec fn identified_drive(rank: Rank, command_register: u16, control_register: u16, v: Seq<u16>) -> Drive {
    if v[83] & 0x400 != 0 {
        Drive {
            capabilities: Capabilities::Lba48,
            sector_capacity: NbrSectors(
                (v[100] + v[101] * 0x1_0000 + v[102] * 0x1_0000_0000 + v[103] * 0x1_0000_0000_0000) as u64 as usize,
            ),
            udma_support: v[88],
            command_register,
            control_register,
            rank,
        }
    } else if v[60] != 0 || v[61] != 0 {
        Drive {
            capabilities: Capabilities::Lba28,
            sector_capacity: NbrSectors((v[60] + v[61] * 0x1_0000) as u64 as usize),
            udma_support: v[88],
            command_register,
            control_register,
            rank,
        }
    } else {
        Drive {
            capabilities: Capabilities::Chs,
            sector_capacity: NbrSectors(0),
            udma_support: v[88],
            command_register,
            control_register,
            rank,
        }
    }
}

/// The master or slave part of a rank.
pub open spec fn hierarchy_of(rank: Rank) -> Hierarchy {
    match rank {
        Rank::Primary(h) => h,
        Rank::Secondary(h) => h,
    }
}

/// Whether `nbr_sectors` sectors from `start_sector` can be read from or
/// written to a drive of `capacity` sectors: none is nothing to do, and
/// they must end within the drive.
pub open spec fn bounds_result(start_sector: Sector, nbr_sectors: NbrSectors, capacity: NbrSectors) -> AtaResult<()> {
    if nbr_sectors.0 == 0 {
        Err(AtaError::NothingToDo)
    } else if start_sector.0 + nbr_sectors.0 > u64::MAX {
        Err(AtaError::OutOfBound)
    } else if start_sector.0 + nbr_sectors.0 > capacity.0 {
        Err(AtaError::OutOfBound)
    } else {
        Ok(())
    }
}

/// Checks that a transfer is within a drive.
pub fn check_bounds(start_sector: Sector, nbr_sectors: NbrSectors, drive_capacity: NbrSectors) -> (r: AtaResult<()>)
    ensures
        r == bounds_result(start_sector, nbr_sectors, drive_capacity),
{
    if nbr_sectors.0 == 0 {
        Err(AtaError::NothingToDo)
    } else if start_sector.0 as u64 > u64::MAX - nbr_sectors.0 as u64 {
        Err(AtaError::OutOfBound)
    } else if start_sector.0 as u64 + nbr_sectors.0 as u64 > drive_capacity.0 as u64 {
        Err(AtaError::OutOfBound)
    } else {
        Ok(())
    }
}

/// Four 16-bit words, least significant first, as a 64-bit number.
fn words_to_u64(w0: u16, w1: u16, w2: u16, w3: u16) -> (r: u64)
    ensures
        r == w0 + w1 * 0x1_0000 + w2 * 0x1_0000_0000 + w3 * 0x1_0000_0000_0000,
{
    let a = w0 as u64;
    let b = w1 as u64;
    let c = w2 as u64;
    let d = w3 as u64;
    assert(b << 16u64 == b * 0x1_0000 && c << 32u64 == c * 0x1_0000_0000 && d << 48u64 == d
        * 0x1_0000_0000_0000) by (bit_vector)
        requires
            b <= 0xffff && c <= 0xffff && d <= 0xffff,
    ;
    a + (b << 16u64) + (c << 32u64) + (d << 48u64)
}

impl Drive {
    /// The writes that select the drive and send it IDENTIFY: 0xA0 (master)
    /// or 0xB0 (slave) to the selector, 0 to the sector count and the three
    /// LBA registers, then 0xEC to the command register.
    pub fn identify_writes(rank: Rank, command_register: u16) -> (w: Vec<PortWrite>)
        requires
            command_register <= 0xffff - 7,
        ensures
            w@ == seq![
                PortWrite {
                    port: (command_register + SELECTOR) as u16,
                    value: if hierarchy_of(rank) == Hierarchy::Master {
                        0xA0u8
                    } else {
                        0xB0u8
                    },
                },
                PortWrite { port: (command_register + SECTOR_COUNT) as u16, value: 0 },
                PortWrite { port: (command_register + L1_SECTOR) as u16, value: 0 },
                PortWrite { port: (command_register + L2_CYLINDER) as u16, value: 0 },
                PortWrite { port: (command_register + L3_CYLINDER) as u16, value: 0 },
                PortWrite { port: (command_register + COMMAND) as u16, value: ATA_CMD_IDENTIFY },
            ],
    {
        let target: u8 = match rank {
            Rank::Primary(Hierarchy::Master) => 0xA0,
            Rank::Primary(Hierarchy::Slave) => 0xB0,
            Rank::Secondary(Hierarchy::Master) => 0xA0,
            Rank::Secondary(Hierarchy::Slave) => 0xB0,
        };
        let mut w: Vec<PortWrite> = Vec::new();
        w.push(PortWrite { port: command_register + SELECTOR, value: target });
        w.push(PortWrite { port: command_register + SECTOR_COUNT, value: 0 });
        w.push(PortWrite { port: command_register + L1_SECTOR, value: 0 });
        w.push(PortWrite { port: command_register + L2_CYLINDER, value: 0 });
        w.push(PortWrite { port: command_register + L3_CYLINDER, value: 0 });
        w.push(PortWrite { port: command_register + COMMAND, value: ATA_CMD_IDENTIFY });
        w
    }

    /// The drive that answered IDENTIFY: none when the status first read
    /// is 0 (no drive) or when the ERR bit ends the polling (`error`);
    /// otherwise the drive the 256 words `v` describe.
    pub fn identify(
        rank: Rank,
        command_register: u16,
        control_register: u16,
        status: u8,
        error: bool,
        v: &Vec<u16>,
    ) -> (r: Option<Drive>)
        requires
            v@.len() == 256,
        ensures
            r == if status == 0 || error {
                None
            } else {
                Some(identified_drive(rank, command_register, control_register, v@))
            },
    {
        if status == 0 || error {
            return None;
        }
        if v[83] & 0x400 != 0 {
            let cap = words_to_u64(v[100], v[101], v[102], v[103]);
            Some(
                Drive {
                    capabilities: Capabilities::Lba48,
                    sector_capacity: NbrSectors(cap as usize),
                    udma_support: v[88],
                    command_register,
                    control_register,
                    rank,
                },
            )
        } else if v[60] != 0 || v[61] != 0 {
            Some(
                Drive {
                    capabilities: Capabilities::Lba28,
                    sector_capacity: NbrSectors(
                        words_to_u64(v[60], v[61], 0, 0) as usize,
                    ),
                    udma_support: v[88],
                    command_register,
                    control_register,
                    rank,
                },
            )
        } else {
            Some(
                Drive {
                    capabilities: Capabilities::Chs,
                    sector_capacity: NbrSectors(0),
                    udma_support: v[88],
                    command_register,
                    control_register,
                    rank,
                },
            )
        }
    }

    /// The writes that set up a LBA48 transfer of `nbr_sectors` sectors
    /// from `start_sector` (the drive must be available first).
    pub fn init_lba48(&self, start_sector: Sector, nbr_sectors: NbrSectors) -> (w: Vec<PortWrite>)
        requires
            self.command_register <= 0xffff - 7,
        ensures
            w@ == lba48_writes(
                self.command_register,
                hierarchy_of(self.rank),
                start_sector.0 as u64,
                nbr_sectors.0 as u64,
            ),
    {
        let start = start_sector.0 as u64;
        let count = nbr_sectors.0 as u64;
        let cmd = self.command_register;
        let mut w: Vec<PortWrite> = Vec::new();
        match self.get_hierarchy() {
            Hierarchy::Master => w.push(PortWrite { port: cmd + SELECTOR, value: 0x40 }),
            Hierarchy::Slave => w.push(PortWrite { port: cmd + SELECTOR, value: 0x50 }),
        }
        w.push(PortWrite { port: cmd + SECTOR_COUNT, value: (count >> 8u64) as u8 });
        w.push(PortWrite { port: cmd + L1_SECTOR, value: (start >> 24u64) as u8 });
        w.push(PortWrite { port: cmd + L2_CYLINDER, value: (start >> 32u64) as u8 });
        w.push(PortWrite { port: cmd + L3_CYLINDER, value: (start >> 40u64) as u8 });
        w.push(PortWrite { port: cmd + SECTOR_COUNT, value: count as u8 });
        w.push(PortWrite { port: cmd + L1_SECTOR, value: start as u8 });
        w.push(PortWrite { port: cmd + L2_CYLINDER, value: (start >> 8u64) as u8 });
        w.push(PortWrite { port: cmd + L3_CYLINDER, value: (start >> 16u64) as u8 });
        proof {
            assert(w@ =~= lba48_writes(cmd, hierarchy_of(self.rank), start, count));
        }
        w
    }

    /// The writes that set up a LBA28 transfer of `nbr_sectors` sectors
    /// from `start_sector` (the drive must be available first).
    pub fn init_lba28(&self, start_sector: Sector, nbr_sectors: NbrSectors) -> (w: Vec<PortWrite>)
        requires
            self.command_register <= 0xffff - 7,
        ensures
            w@ == lba28_writes(
                self.command_register,
                hierarchy_of(self.rank),
                start_sector.0 as u64,
                nbr_sectors.0 as u64,
            ),
    {
        let start = start_sector.0 as u64;
        let count = nbr_sectors.0 as u64;
        let cmd = self.command_register;
        let top: u8 = ((start >> 24u64) as u8) & 0xF;
        let mut w: Vec<PortWrite> = Vec::new();
        match self.get_hierarchy() {
            Hierarchy::Master => w.push(PortWrite { port: cmd + SELECTOR, value: 0xE0 | top }),
            Hierarchy::Slave => w.push(PortWrite { port: cmd + SELECTOR, value: 0xF0 | top }),
        }
        w.push(PortWrite { port: cmd + FEATURES, value: 0 });
        w.push(PortWrite { port: cmd + SECTOR_COUNT, value: count as u8 });
        w.push(PortWrite { port: cmd + L1_SECTOR, value: start as u8 });
        w.push(PortWrite { port: cmd + L2_CYLINDER, value: (start >> 8u64) as u8 });
        w.push(PortWrite { port: cmd + L3_CYLINDER, value: (start >> 16u64) as u8 });
        proof {
            assert(w@ =~= lba28_writes(cmd, hierarchy_of(self.rank), start, count));
        }
        w
    }

    /// The commands of a PIO transfer of `nbr_sectors` sectors from
    /// `start_sector`: the bounds are checked first, a CHS drive is not
    /// supported, and the transfer is split in chunks of 65536 (LBA48) or
    /// 256 (LBA28) sectors.
    pub fn pio_chunks(&self, start_sector: Sector, nbr_sectors: NbrSectors) -> (r: AtaResult<
        Vec<(Sector, NbrSectors)>,
    >)
        ensures
            bounds_result(start_sector, nbr_sectors, self.sector_capacity) matches Err(e) ==> r
                == Err::<Vec<(Sector, NbrSectors)>, AtaError>(e),
            bounds_result(start_sector, nbr_sectors, self.sector_capacity) is Ok
                && self.capabilities == Capabilities::Chs ==> r == Err::<
                Vec<(Sector, NbrSectors)>,
                AtaError,
            >(AtaError::NotSupported),
            bounds_result(start_sector, nbr_sectors, self.sector_capacity) is Ok
                && self.capabilities != Capabilities::Chs ==> (r matches Ok(v) && v@ == chunk_plan(
                start_sector.0 as int,
                nbr_sectors.0 as int,
                chunk_sectors(self.capabilities) as int,
            )),
    {
        match check_bounds(start_sector, nbr_sectors, self.sector_capacity) {
            Err(e) => return Err(e),
            Ok(()) => {},
        }
        let c: usize = match self.capabilities {
            Capabilities::Lba48 => 65536,
            Capabilities::Lba28 => 256,
            Capabilities::Chs => return Err(AtaError::NotSupported),
        };
        let start = start_sector.0;
        let nbr = nbr_sectors.0;
        assert(nbr / c <= nbr / 2) by (nonlinear_arith)
            requires
                c >= 2,
        ;
        let total: usize = nbr / c + if nbr % c != 0 {
            1
        } else {
            0
        };
        let ghost plan = chunk_plan(start as int, nbr as int, c as int);
        proof {
            assert(total == (nbr + c - 1) / (c as int)) by (nonlinear_arith)
                requires
                    total == nbr / c + if nbr % c != 0 {
                        1int
                    } else {
                        0int
                    },
                    c > 0,
            ;
        }
        let mut v: Vec<(Sector, NbrSectors)> = Vec::new();
        let mut k: usize = 0;
        while k < total
            invariant
                c == 65536 || c == 256,
                start + nbr <= self.sector_capacity.0,
                total == (nbr + c - 1) / (c as int),
                k <= total,
                plan == chunk_plan(start as int, nbr as int, c as int),
                v@ == plan.take(k as int),
            decreases total - k,
        {
            proof {
                assert(k * c < nbr) by (nonlinear_arith)
                    requires
                        k < total,
                        total == (nbr + c - 1) / (c as int),
                        c > 0,
                ;
            }
            let off = k * c;
            let left = nbr - off;
            let n = if left < c {
                left
            } else {
                c
            };
            v.push((Sector(start + off), NbrSectors(n)));
            proof {
                assert(v@ =~= plan.take(k as int + 1));
            }
            k = k + 1;
        }
        proof {
            assert(plan.take(total as int) =~= plan);
        }
        Ok(v)
    }

    /// Master or slave.
    pub fn get_hierarchy(&self) -> (r: Hierarchy)
        ensures
            r == hierarchy_of(self.rank),
    {
        match self.rank {
            Rank::Primary(h) => h,
            Rank::Secondary(h) => h,
        }
    }

    /// The write that selects the drive for the next operations: 0xA0
    /// (master) or 0xB0 (slave) to its selector register, once the drive is
    /// available.
    pub fn select_drive(&self) -> (w: PortWrite)
        requires
            self.command_register <= 0xffff - 6,
        ensures
            w == (PortWrite {
                port: (self.command_register + SELECTOR) as u16,
                value: if hierarchy_of(self.rank) == Hierarchy::Master {
                    0xA0u8
                } else {
                    0xB0u8
                },
            }),
    {
        match self.get_hierarchy() {
            Hierarchy::Master => PortWrite { port: self.command_register + SELECTOR, value: 0xA0 },
            Hierarchy::Slave => PortWrite { port: self.command_register + SELECTOR, value: 0xB0 },
        }
    }
}

/// The writes that set up a LBA48 transfer of `count` sectors from
/// `start`: 0x40 (master) or 0x50 (slave) to the selector, the high bytes
/// (count bits 8 to 15, LBA bits 24 to 47), then the low ones (count bits 0
/// to 7, LBA bits 0 to 23).
pub open spec fn lba48_writes(cmd: u16, h: Hierarchy, start: u64, count: u64) -> Seq<PortWrite> {
    seq![
        PortWrite {
            port: (cmd + SELECTOR) as u16,
            value: if h == Hierarchy::Master {
                0x40u8
            } else {
                0x50u8
            },
        },
        PortWrite { port: (cmd + SECTOR_COUNT) as u16, value: (count >> 8u64) as u8 },
        PortWrite { port: (cmd + L1_SECTOR) as u16, value: (start >> 24u64) as u8 },
        PortWrite { port: (cmd + L2_CYLINDER) as u16, value: (start >> 32u64) as u8 },
        PortWrite { port: (cmd + L3_CYLINDER) as u16, value: (start >> 40u64) as u8 },
        PortWrite { port: (cmd + SECTOR_COUNT) as u16, value: count as u8 },
        PortWrite { port: (cmd + L1_SECTOR) as u16, value: start as u8 },
        PortWrite { port: (cmd + L2_CYLINDER) as u16, value: (start >> 8u64) as u8 },
        PortWrite { port: (cmd + L3_CYLINDER) as u16, value: (start >> 16u64) as u8 },
    ]
}

/// The writes that set up a LBA28 transfer of `count` sectors from
/// `start`: 0xE0 (master) or 0xF0 (slave) with LBA bits 24 to 27 to the
/// selector, 0 to the features register, then the count's low byte and
/// LBA bits 0 to 23.
pub open spec fn lba28_writes(cmd: u16, h: Hierarchy, start: u64, count: u64) -> Seq<PortWrite> {
    seq![
        PortWrite {
            port: (cmd + SELECTOR) as u16,
            value: (if h == Hierarchy::Master {
                0xE0u8
            } else {
                0xF0u8
            }) | (((start >> 24u64) as u8) & 0xFu8),
        },
        PortWrite { port: (cmd + FEATURES) as u16, value: 0 },
        PortWrite { port: (cmd + SECTOR_COUNT) as u16, value: count as u8 },
        PortWrite { port: (cmd + L1_SECTOR) as u16, value: start as u8 },
        PortWrite { port: (cmd + L2_CYLINDER) as u16, value: (start >> 8u64) as u8 },
        PortWrite { port: (cmd + L3_CYLINDER) as u16, value: (start >> 16u64) as u8 },
    ]
}

/// The number of sectors of one PIO command: 65536 in LBA48, 256 in LBA28.
pub open spec fn chunk_sectors(c: Capabilities) -> nat {
    match c {
        Capabilities::Lba48 => 65536,
        _ => 256,
    }
}

/// The commands of a PIO transfer of `nbr` sectors from `start`, by
/// chunks of `c` sectors: the `k`-th from `start + k * c`, of `c` sectors
/// or what is left.
pub open spec fn chunk_plan(start: int, nbr: int, c: int) -> Seq<(Sector, NbrSectors)> {
    Seq::new(
        ((nbr + c - 1) / c) as nat,
        |k: int|
            (
                Sector((start + k * c) as usize),
                NbrSectors(
                    (if nbr - k * c < c {
                        nbr - k * c
                    } else {
                        c
                    }) as usize,
                ),
            ),
    )
}

/// A transfer cut in chunks is done whole, in order and in bounds: there
/// is at least one chunk, the first starts at `start`, each moves between
/// one and `c` sectors, each starts where the one before it ends, and the
/// last ends at `start + nbr`.
pub proof fn lemma_chunk_plan_covers(start: int, nbr: int, c: int)
    requires
        0 <= start,
        0 < nbr,
        0 < c,
        start + nbr <= usize::MAX,
    ensures
        chunk_plan(start, nbr, c).len() >= 1,
        chunk_plan(start, nbr, c)[0].0.0 == start,
        forall|k: int|
            0 <= k < chunk_plan(start, nbr, c).len() ==> 1 <= (#[trigger] chunk_plan(
                start,
                nbr,
                c,
            )[k]).1.0 <= c,
        forall|k: int|
            0 <= k < chunk_plan(start, nbr, c).len() - 1 ==> (#[trigger] chunk_plan(
                start,
                nbr,
                c,
            )[k]).0.0 + chunk_plan(start, nbr, c)[k].1.0 == chunk_plan(start, nbr, c)[k + 1].0.0,
        chunk_plan(start, nbr, c).last().0.0 + chunk_plan(start, nbr, c).last().1.0 == start
            + nbr,
{
    let plan = chunk_plan(start, nbr, c);
    let n = (nbr + c - 1) / c;
    assert(n >= 1 && (n - 1) * c < nbr && n * c >= nbr) by (nonlinear_arith)
        requires
            n == (nbr + c - 1) / c,
            nbr > 0,
            c > 0,
    ;
    assert forall|k: int| 0 <= k < plan.len() implies 1 <= (#[trigger] plan[k]).1.0 <= c by {
        assert(0 <= k * c <= (n - 1) * c) by (nonlinear_arith)
            requires
                0 <= k < n,
                c > 0,
        ;
    }
    assert forall|k: int| 0 <= k < plan.len() - 1 implies (#[trigger] plan[k]).0.0 + plan[k].1.0
        == plan[k + 1].0.0 by {
        assert(0 <= k * c && (k + 1) * c <= (n - 1) * c && k * c + c == (k + 1) * c)
            by (nonlinear_arith)
            requires
                0 <= k < n - 1,
                c > 0,
        ;
    }
    assert(0 <= (n - 1) * c && (n - 1) * c + c == n * c) by (nonlinear_arith)
        requires
            n >= 1,
            c > 0,
    ;
    assert(plan.last() == plan[n - 1]);
    assert(plan[0].0.0 == start) by {
        assert(0 * c == 0);
    }
}

/// What the kernel sends to set a controller up: the write that makes it
/// a bus master, the write of the address of the descriptor table of each
/// UDMA channel, and the IRQs of the channels, to be unmasked.
pub struct IdeSetup {
    pub bus_master: PciConfigWrite,
    pub prdt_writes: Vec<PortWrite32>,
    pub irqs: Vec<Irq>,
}

/// The slots of the four drives of a controller, the drive selected, the
/// PCI device of the controller and its UDMA channels.
#[derive(Debug)]
pub struct IdeAtaController {
    pub primary_master: Option<Drive>,
    pub secondary_master: Option<Drive>,
    pub primary_slave: Option<Drive>,
    pub secondary_slave: Option<Drive>,
    pub selected_drive: Option<Rank>,
    pub pci: PciType0,
    pub pci_location: u32,
    pub udma_primary: Option<Udma>,
    pub udma_secondary: Option<Udma>,
}

/// The drive in the slot of `rank`.
pub open spec fn drive_at(c: &IdeAtaController, rank: Rank) -> Option<Drive> {
    match rank {
        Rank::Primary(Hierarchy::Master) => c.primary_master,
        Rank::Primary(Hierarchy::Slave) => c.primary_slave,
        Rank::Secondary(Hierarchy::Master) => c.secondary_master,
        Rank::Secondary(Hierarchy::Slave) => c.secondary_slave,
    }
}

/// Whether the transfers of the drive of `rank` go through UDMA.
pub open spec fn uses_udma(c: &IdeAtaController, rank: Rank) -> bool {
    match rank {
        Rank::Primary(_) => c.udma_primary is Some,
        Rank::Secondary(_) => c.udma_secondary is Some,
    }
}

/// How a transfer is made: with which drive, and whether through UDMA
/// (else in PIO mode).
#[derive(Debug, Copy, Clone, PartialEq, Eq, Structural)]
pub struct AtaTransfer {
    pub drive: Drive,
    pub dma: bool,
}

/// The port of a channel's register from its BAR: the default one when
/// the BAR reads 0 or 1, else the low 16 bits of the BAR.
pub open spec fn port_of_bar(bar: u32, default: u16) -> u16 {
    if bar == 0 || bar == 1 {
        default
    } else {
        bar as u16
    }
}

/// The command register of the primary channel of `pci`.
pub open spec fn primary_base(pci: PciType0) -> u16 {
    port_of_bar(pci.bar0, PRIMARY_BASE_REGISTER)
}

/// The control register of the primary channel of `pci`.
pub open spec fn primary_control(pci: PciType0) -> u16 {
    port_of_bar(pci.bar1, PRIMARY_CONTROL_REGISTER)
}

/// The command register of the secondary channel of `pci`.
pub open spec fn secondary_base(pci: PciType0) -> u16 {
    port_of_bar(pci.bar2, SECONDARY_BASE_REGISTER)
}

/// The control register of the secondary channel of `pci`.
pub open spec fn secondary_control(pci: PciType0) -> u16 {
    port_of_bar(pci.bar3, SECONDARY_CONTROL_REGISTER)
}

/// The bus master port of `pci`: the low 16 bits of BAR 4.
pub open spec fn dma_port_of(pci: PciType0) -> u16 {
    pci.bar4 as u16
}

/// `d` is what probing the drive of `rank` at the registers `cmd` and
/// `ctl` with `identify` gave.
pub open spec fn probed<G: Fn(Rank, u16, u16) -> Option<Drive>>(
    identify: G,
    rank: Rank,
    cmd: u16,
    ctl: u16,
    d: Option<Drive>,
) -> bool {
    call_ensures(identify, (rank, cmd, ctl), d)
}

/// `u` is a UDMA of `channel` with fresh buffers at the bus master port
/// `port`.
pub open spec fn udma_at(u: Option<Udma>, port: u16, channel: Channel) -> bool {
    u matches Some(v) && v.wf() && v.register() == port & 0xfffe && v.channel_view() == channel
}

/// The port of a channel's register from its BAR.
fn register_port(bar: u32, default: u16) -> (r: u16)
    ensures
        r == port_of_bar(bar, default),
{
    if bar == 0 || bar == 1 {
        default
    } else {
        bar as u16
    }
}

impl IdeAtaController {
    /// The controller of the PCI IDE device `pci` found at `pci_location`:
    /// the ports of each channel come from BARs 0 to 3 (the standard ports
    /// when a BAR reads 0 or 1), each drive is probed with `identify`
    /// (rank, command register, control register), and when BAR 4 holds a
    /// bus master port each channel gets its UDMA, the secondary one 8
    /// ports above the primary one. No drive is selected.
    pub fn new<G: Fn(Rank, u16, u16) -> Option<Drive>>(
        pci: PciType0,
        pci_location: u32,
        prdt_addresses: (u32, u32),
        identify: G,
    ) -> (r: (Self, IdeSetup))
        requires
            forall|rank: Rank, cmd: u16, ctl: u16| call_requires(identify, (rank, cmd, ctl)),
            dma_port_of(pci) <= 0xffff - 12,
            pci_location <= 0xffff_fffb,
            prdt_addresses.0 % 128 == 0,
            prdt_addresses.1 % 128 == 0,
        ensures
            probed(
                identify,
                Rank::Primary(Hierarchy::Master),
                primary_base(pci),
                primary_control(pci),
                r.0.primary_master,
            ),
            probed(
                identify,
                Rank::Secondary(Hierarchy::Master),
                secondary_base(pci),
                secondary_control(pci),
                r.0.secondary_master,
            ),
            probed(
                identify,
                Rank::Primary(Hierarchy::Slave),
                primary_base(pci),
                primary_control(pci),
                r.0.primary_slave,
            ),
            probed(
                identify,
                Rank::Secondary(Hierarchy::Slave),
                secondary_base(pci),
                secondary_control(pci),
                r.0.secondary_slave,
            ),
            r.0.selected_drive is None,
            r.0.pci == pci,
            r.0.pci_location == pci_location,
            dma_port_of(pci) == 0 ==> r.0.udma_primary is None && r.0.udma_secondary is None,
            dma_port_of(pci) != 0 ==> udma_at(r.0.udma_primary, dma_port_of(pci), Channel::Primary),
            dma_port_of(pci) != 0 ==> udma_at(
                r.0.udma_secondary,
                (dma_port_of(pci) + 8) as u16,
                Channel::Secondary,
            ),
            r.1.bus_master == bus_master_write(pci, pci_location),
            dma_port_of(pci) == 0 ==> r.1.prdt_writes@.len() == 0 && r.1.irqs@.len() == 0,
            dma_port_of(pci) != 0 ==> r.1.prdt_writes@ == seq![
                PortWrite32 {
                    port: ((dma_port_of(pci) & 0xfffe) + DMA_PRDT_ADDR) as u16,
                    value: prdt_addresses.0,
                },
                PortWrite32 {
                    port: ((((dma_port_of(pci) + 8) as u16) & 0xfffe) + DMA_PRDT_ADDR) as u16,
                    value: prdt_addresses.1,
                },
            ] && r.1.irqs@ == seq![Irq::PrimaryATAChannel, Irq::SecondaryATAChannel],
    {
        let primary_base_register = register_port(pci.bar0, PRIMARY_BASE_REGISTER);
        let primary_control_register = register_port(pci.bar1, PRIMARY_CONTROL_REGISTER);
        let secondary_base_register = register_port(pci.bar2, SECONDARY_BASE_REGISTER);
        let secondary_control_register = register_port(pci.bar3, SECONDARY_CONTROL_REGISTER);
        let dma_port = pci.bar4 as u16;
        let primary_master = identify(
            Rank::Primary(Hierarchy::Master),
            primary_base_register,
            primary_control_register,
        );
        let secondary_master = identify(
            Rank::Secondary(Hierarchy::Master),
            secondary_base_register,
            secondary_control_register,
        );
        let primary_slave = identify(
            Rank::Primary(Hierarchy::Slave),
            primary_base_register,
            primary_control_register,
        );
        let secondary_slave = identify(
            Rank::Secondary(Hierarchy::Slave),
            secondary_base_register,
            secondary_control_register,
        );
        let bus_master = pci.enable_bus_master(pci_location);
        let mut prdt_writes: Vec<PortWrite32> = Vec::new();
        let mut irqs: Vec<Irq> = Vec::new();
        let (udma_primary, udma_secondary) = if dma_port != 0 {
            let (p, pw, pi) = Udma::init(dma_port, Channel::Primary, prdt_addresses.0);
            let (q, qw, qi) = Udma::init(dma_port + 8, Channel::Secondary, prdt_addresses.1);
            prdt_writes.push(pw);
            prdt_writes.push(qw);
            irqs.push(pi);
            irqs.push(qi);
            (Some(p), Some(q))
        } else {
            (None, None)
        };
        (
            IdeAtaController {
                primary_master,
                secondary_master,
                primary_slave,
                secondary_slave,
                selected_drive: None,
                pci_location,
                pci,
                udma_primary,
                udma_secondary,
            },
            IdeSetup { bus_master, prdt_writes, irqs },
        )
    }

}

impl IdeAtaController {
    /// Selects the drive of `rank` for the next transfers: the selection is
    /// kept when there is a drive there, and forgotten otherwise. Returns
    /// the write that selects it, or `DeviceNotFound`.
    pub fn select_drive(&mut self, rank: Rank) -> (r: AtaResult<PortWrite>)
        requires
            forall|k: Rank|
                (#[trigger] drive_at(old(self), k)) matches Some(d) ==> d.command_register <= 0xffff - 6,
        ensures
            final(self).selected_drive == if drive_at(old(self), rank) is Some {
                Some(rank)
            } else {
                None::<Rank>
            },
            final(self).primary_master == old(self).primary_master,
            final(self).primary_slave == old(self).primary_slave,
            final(self).secondary_master == old(self).secondary_master,
            final(self).secondary_slave == old(self).secondary_slave,
            final(self).udma_primary == old(self).udma_primary,
            final(self).udma_secondary == old(self).udma_secondary,
            final(self).pci == old(self).pci,
            final(self).pci_location == old(self).pci_location,
            r == match drive_at(old(self), rank) {
                Some(d) => Ok(
                    PortWrite {
                        port: (d.command_register + SELECTOR) as u16,
                        value: if hierarchy_of(d.rank) == Hierarchy::Master {
                            0xA0u8
                        } else {
                            0xB0u8
                        },
                    },
                ),
                None => Err::<PortWrite, AtaError>(AtaError::DeviceNotFound),
            },
    {
        let present = match rank {
            Rank::Primary(Hierarchy::Master) => self.primary_master.is_some(),
            Rank::Primary(Hierarchy::Slave) => self.primary_slave.is_some(),
            Rank::Secondary(Hierarchy::Master) => self.secondary_master.is_some(),
            Rank::Secondary(Hierarchy::Slave) => self.secondary_slave.is_some(),
        };
        self.selected_drive = if present {
            Some(rank)
        } else {
            None
        };
        match self.get_selected_drive() {
            Some(d) => {
                assert(drive_at(old(self), rank) == Some(d));
                Ok(d.select_drive())
            },
            None => Err(AtaError::DeviceNotFound),
        }
    }

    /// The drive selected, if there is one there.
    fn get_selected_drive(&self) -> (r: Option<Drive>)
        ensures
            r == match self.selected_drive {
                Some(rank) => drive_at(self, rank),
                None => None,
            },
    {
        match self.selected_drive {
            Some(Rank::Primary(Hierarchy::Master)) => self.primary_master,
            Some(Rank::Primary(Hierarchy::Slave)) => self.primary_slave,
            Some(Rank::Secondary(Hierarchy::Master)) => self.secondary_master,
            Some(Rank::Secondary(Hierarchy::Slave)) => self.secondary_slave,
            None => None,
        }
    }

    /// How to read: the selected drive, through UDMA when its channel has
    /// it. `DeviceNotFound` when no drive is selected.
    pub fn read(&self) -> (r: AtaResult<AtaTransfer>)
        ensures
            r == match self.selected_drive {
                Some(rank) => match drive_at(self, rank) {
                    Some(d) => Ok(AtaTransfer { drive: d, dma: uses_udma(self, rank) }),
                    None => Err(AtaError::DeviceNotFound),
                },
                None => Err::<AtaTransfer, AtaError>(AtaError::DeviceNotFound),
            },
    {
        self.transfer()
    }

    /// How to write: the selected drive, through UDMA when its channel has
    /// it. `DeviceNotFound` when no drive is selected.
    pub fn write(&self) -> (r: AtaResult<AtaTransfer>)
        ensures
            r == match self.selected_drive {
                Some(rank) => match drive_at(self, rank) {
                    Some(d) => Ok(AtaTransfer { drive: d, dma: uses_udma(self, rank) }),
                    None => Err(AtaError::DeviceNotFound),
                },
                None => Err::<AtaTransfer, AtaError>(AtaError::DeviceNotFound),
            },
    {
        self.transfer()
    }

    fn transfer(&self) -> (r: AtaResult<AtaTransfer>)
        ensures
            r == match self.selected_drive {
                Some(rank) => match drive_at(self, rank) {
                    Some(d) => Ok(AtaTransfer { drive: d, dma: uses_udma(self, rank) }),
                    None => Err(AtaError::DeviceNotFound),
                },
                None => Err::<AtaTransfer, AtaError>(AtaError::DeviceNotFound),
            },
    {
        let rank = match self.selected_drive {
            Some(rank) => rank,
            None => return Err(AtaError::DeviceNotFound),
        };
        let (drive, dma) = match rank {
            Rank::Primary(h) => (
                match h {
                    Hierarchy::Master => self.primary_master,
                    Hierarchy::Slave => self.primary_slave,
                },
                self.udma_primary.is_some(),
            ),
            Rank::Secondary(h) => (
                match h {
                    Hierarchy::Master => self.secondary_master,
                    Hierarchy::Slave => self.secondary_slave,
                },
                self.udma_secondary.is_some(),
            ),
        };
        match drive {
            Some(d) => Ok(AtaTransfer { drive: d, dma }),
            None => Err(AtaError::DeviceNotFound),
        }
    }
}

} // verus!
