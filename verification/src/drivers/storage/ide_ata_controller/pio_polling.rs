//! The PIO mode of an ATA drive: the commands of a transfer and the
//! decisions taken on the status register while polling.
//!
//! See https://wiki.osdev.org/ATA_PIO_Mode.
use super::{
    bounds_result, chunk_plan, chunk_sectors, hierarchy_of, lba28_writes, lba48_writes, AtaError,
    AtaResult, Capabilities, Drive, PioIo, ATA_CMD_CACHE_FLUSH, ATA_CMD_CACHE_FLUSH_EXT,
    ATA_CMD_READ_PIO, ATA_CMD_READ_PIO_EXT, ATA_CMD_WRITE_PIO, ATA_CMD_WRITE_PIO_EXT, COMMAND,
};
use crate::drivers::storage::tools::{NbrSectors, Sector};
use crate::io::PortWrite;
use vstd::prelude::*;

verus! {

/// Status register: an error occurred.
pub const STATUS_ERR: u8 = 0x1;
/// Status register: the drive has PIO data to transfer, or is ready to
/// accept some.
pub const STATUS_DRQ: u8 = 0x8;
/// Status register: the drive is preparing to send or receive data.
pub const STATUS_BSY: u8 = 0x80;

/// One PIO command of a transfer: the sectors it moves, the writes that
/// set it up, and the command itself.
pub struct PioCommand {
    pub start: Sector,
    pub count: NbrSectors,
    pub setup: Vec<PortWrite>,
    pub command: PortWrite,
}

/// The writes that set up a transfer of `count` sectors from `start` on
/// the drive `d`, as its addressing asks.
pub open spec fn lba_setup(d: Drive, start: Sector, count: NbrSectors) -> Seq<PortWrite> {
    match d.capabilities {
        Capabilities::Lba48 => lba48_writes(
            d.command_register,
            hierarchy_of(d.rank),
            start.0 as u64,
            count.0 as u64,
        ),
        _ => lba28_writes(d.command_register, hierarchy_of(d.rank), start.0 as u64, count.0 as u64),
    }
}

/// The PIO command byte: READ SECTORS (EXT) or WRITE SECTORS (EXT).
pub open spec fn pio_command_byte(c: Capabilities, write: bool) -> u8 {
    match c {
        Capabilities::Lba48 => if write {
            ATA_CMD_WRITE_PIO_EXT
        } else {
            ATA_CMD_READ_PIO_EXT
        },
        _ => if write {
            ATA_CMD_WRITE_PIO
        } else {
            ATA_CMD_READ_PIO
        },
    }
}

/// `cmds` are the commands that carry out `plan` on the drive `d`: one per
/// chunk, with its setup and the read or write command.
pub open spec fn carries_out(d: Drive, plan: Seq<(Sector, NbrSectors)>, cmds: Seq<PioCommand>, write: bool) -> bool {
    &&& cmds.len() == plan.len()
    &&& forall|i: int|
        0 <= i < plan.len() ==> {
            &&& (#[trigger] cmds[i]).start == plan[i].0
            &&& cmds[i].count == plan[i].1
            &&& cmds[i].setup@ == lba_setup(d, plan[i].0, plan[i].1)
            &&& cmds[i].command == PortWrite {
                port: (d.command_register + COMMAND) as u16,
                value: pio_command_byte(d.capabilities, write),
            }
        }
}

/// What a PIO transfer of `nbr` sectors from `start` on `d` gives: the
/// bounds error, `NotSupported` for a CHS drive, or commands that carry out
/// the chunks of the transfer.
pub open spec fn pio_transfer_ok(d: Drive, start: Sector, nbr: NbrSectors, write: bool, r: AtaResult<Vec<PioCommand>>) -> bool {
    match bounds_result(start, nbr, d.sector_capacity) {
        Err(e) => r matches Err(f) && f == e,
        Ok(_) => if d.capabilities == Capabilities::Chs {
            r matches Err(f) && f == AtaError::NotSupported
        } else {
            r matches Ok(v) && carries_out(
                d,
                chunk_plan(start.0 as int, nbr.0 as int, chunk_sectors(d.capabilities) as int),
                v@,
                write,
            )
        },
    }
}

/// What a wait for a sector decides from the status read: an `IoError`
/// when ERR is set, ready when BSY is clear and DRQ set, else wait on.
pub open spec fn busy_wait_spec(status: u8) -> Option<AtaResult<()>> {
    if status & STATUS_ERR != 0 {
        Some(Err(AtaError::IoError))
    } else if status & STATUS_BSY == 0 && status & STATUS_DRQ != 0 {
        Some(Ok(()))
    } else {
        None
    }
}

impl Drive {
    /// The commands of a PIO transfer: the bounds are checked, a CHS drive
    /// is not supported, and each chunk is set up then commanded.
    pub fn pio_transfer(&self, start_sector: Sector, nbr_sectors: NbrSectors, write: bool) -> (r:
        AtaResult<Vec<PioCommand>>)
        requires
            self.command_register <= 0xffff - 7,
        ensures
            pio_transfer_ok(*self, start_sector, nbr_sectors, write, r),
    {
        let plan = match self.pio_chunks(start_sector, nbr_sectors) {
            Ok(plan) => plan,
            Err(e) => return Err(e),
        };
        let ghost c = chunk_sectors(self.capabilities) as int;
        let byte: u8 = match self.capabilities {
            Capabilities::Lba48 => if write {
                ATA_CMD_WRITE_PIO_EXT
            } else {
                ATA_CMD_READ_PIO_EXT
            },
            _ => if write {
                ATA_CMD_WRITE_PIO
            } else {
                ATA_CMD_READ_PIO
            },
        };
        let mut cmds: Vec<PioCommand> = Vec::new();
        let mut i: usize = 0;
        while i < plan.len()
            invariant
                self.command_register <= 0xffff - 7,
                self.capabilities != Capabilities::Chs,
                byte == pio_command_byte(self.capabilities, write),
                plan@ == chunk_plan(start_sector.0 as int, nbr_sectors.0 as int, c),
                c == chunk_sectors(self.capabilities),
                i <= plan@.len(),
                carries_out(*self, plan@.take(i as int), cmds@, write),
            decreases plan@.len() - i,
        {
            let (start, count) = plan[i];
            let setup = match self.capabilities {
                Capabilities::Lba48 => self.init_lba48(start, count),
                _ => self.init_lba28(start, count),
            };
            cmds.push(
                PioCommand {
                    start,
                    count,
                    setup,
                    command: PortWrite { port: self.command_register + COMMAND, value: byte },
                },
            );
            proof {
                assert forall|k: int| 0 <= k < plan@.take(i as int + 1).len() implies {
                    &&& (#[trigger] cmds@[k]).start == plan@.take(i as int + 1)[k].0
                    &&& cmds@[k].count == plan@.take(i as int + 1)[k].1
                    &&& cmds@[k].setup@ == lba_setup(
                        *self,
                        plan@.take(i as int + 1)[k].0,
                        plan@.take(i as int + 1)[k].1,
                    )
                    &&& cmds@[k].command == PortWrite {
                        port: (self.command_register + COMMAND) as u16,
                        value: pio_command_byte(self.capabilities, write),
                    }
                } by {
                    if k < i {
                        assert(plan@.take(i as int + 1)[k] == plan@.take(i as int)[k]);
                    }
                }
            }
            i = i + 1;
        }
        proof {
            assert(plan@.take(plan@.len() as int) =~= plan@);
        }
        Ok(cmds)
    }

    /// What a wait for a sector decides from the status `status` read.
    pub fn busy_wait(status: u8) -> (r: Option<AtaResult<()>>)
        ensures
            r == busy_wait_spec(status),
    {
        if status & STATUS_ERR != 0 {
            Some(Err(AtaError::IoError))
        } else if status & STATUS_BSY == 0 && status & STATUS_DRQ != 0 {
            Some(Ok(()))
        } else {
            None
        }
    }

    /// Whether the drive is still not available to a command, from its
    /// alternate status `status`: BSY or DRQ is set.
    pub fn wait_available(status: u8) -> (r: bool)
        ensures
            r == (status & (STATUS_BSY | STATUS_DRQ) != 0),
    {
        status & (STATUS_BSY | STATUS_DRQ) != 0
    }

    /// Whether the drive is busy, from its status `status`: BSY is set.
    pub fn is_busy(status: u8) -> (r: bool)
        ensures
            r == (status & STATUS_BSY != 0),
    {
        status & STATUS_BSY != 0
    }

    /// The command that flushes the write cache of the drive: CACHE FLUSH
    /// (EXT in LBA48) to its command register, and none for a CHS drive.
    pub fn fflush_write_cache(&self) -> (r: Option<PortWrite>)
        requires
            self.command_register <= 0xffff - 7,
        ensures
            r == match self.capabilities {
                Capabilities::Lba28 => Some(
                    PortWrite {
                        port: (self.command_register + COMMAND) as u16,
                        value: ATA_CMD_CACHE_FLUSH,
                    },
                ),
                Capabilities::Lba48 => Some(
                    PortWrite {
                        port: (self.command_register + COMMAND) as u16,
                        value: ATA_CMD_CACHE_FLUSH_EXT,
                    },
                ),
                Capabilities::Chs => None,
            },
    {
        match self.capabilities {
            Capabilities::Lba28 => Some(
                PortWrite { port: self.command_register + COMMAND, value: ATA_CMD_CACHE_FLUSH },
            ),
            Capabilities::Lba48 => Some(
                PortWrite { port: self.command_register + COMMAND, value: ATA_CMD_CACHE_FLUSH_EXT },
            ),
            Capabilities::Chs => None,
        }
    }
}

impl PioIo for Drive {
    open spec fn pio_ready(&self) -> bool {
        self.command_register <= 0xffff - 7
    }

    /// The commands of a PIO read (see `pio_transfer`).
    fn read(&self, start_sector: Sector, nbr_sectors: NbrSectors) -> (r: AtaResult<Vec<PioCommand>>)
        ensures
            pio_transfer_ok(*self, start_sector, nbr_sectors, false, r),
    {
        self.pio_transfer(start_sector, nbr_sectors, false)
    }

    /// The commands of a PIO write (see `pio_transfer`).
    fn write(&self, start_sector: Sector, nbr_sectors: NbrSectors) -> (r: AtaResult<Vec<PioCommand>>)
        ensures
            pio_transfer_ok(*self, start_sector, nbr_sectors, true, r),
    {
        self.pio_transfer(start_sector, nbr_sectors, true)
    }
}

/// The bytes of the 16-bit words read from the data register, in memory
/// order: the low byte of each word first.
pub fn words_to_bytes(words: &Vec<u16>) -> (r: Vec<u8>)
    requires
        words@.len() * 2 <= usize::MAX,
    ensures
        r@.len() == words@.len() * 2,
        forall|i: int|
            0 <= i < words@.len() ==> r@[2 * i] == words@[i] as u8 && r@[2 * i + 1] == (words@[i]
                >> 8u16) as u8,
{
    let mut r: Vec<u8> = Vec::new();
    let mut i: usize = 0;
    while i < words.len()
        invariant
            i <= words@.len(),
            r@.len() == 2 * i,
            forall|k: int|
                0 <= k < i ==> r@[2 * k] == words@[k] as u8 && r@[2 * k + 1] == (words@[k]
                    >> 8u16) as u8,
        decreases words@.len() - i,
    {
        let w = words[i];
        r.push(w as u8);
        r.push((w >> 8u16) as u8);
        i = i + 1;
    }
    r
}

/// The 16-bit words to write to the data register for `bytes`, in memory
/// order: the low byte of each word first.
pub fn bytes_to_words(bytes: &Vec<u8>) -> (r: Vec<u16>)
    requires
        bytes@.len() % 2 == 0,
    ensures
        r@.len() * 2 == bytes@.len(),
        forall|i: int|
            0 <= i < r@.len() ==> r@[i] == bytes@[2 * i] + bytes@[2 * i + 1] * 256,
{
    let mut r: Vec<u16> = Vec::new();
    let mut i: usize = 0;
    while i + 1 < bytes.len()
        invariant
            bytes@.len() % 2 == 0,
            i % 2 == 0,
            i <= bytes@.len(),
            r@.len() * 2 == i,
            forall|k: int| 0 <= k < r@.len() ==> r@[k] == bytes@[2 * k] + bytes@[2 * k + 1] * 256,
        decreases bytes@.len() - i,
    {
        let lo = bytes[i] as u16;
        let hi = bytes[i + 1] as u16;
        r.push(lo + hi * 256);
        i = i + 2;
    }
    r
}

/// The bytes of words turned back into words give the words again.
pub proof fn lemma_words_bytes_roundtrip(words: Seq<u16>, bytes: Seq<u8>, back: Seq<u16>)
    requires
        bytes.len() == words.len() * 2,
        forall|i: int|
            0 <= i < words.len() ==> bytes[2 * i] == words[i] as u8 && bytes[2 * i + 1] == (words[i]
                >> 8u16) as u8,
        back.len() * 2 == bytes.len(),
        forall|i: int| 0 <= i < back.len() ==> back[i] == bytes[2 * i] + bytes[2 * i + 1] * 256,
    ensures
        back == words,
{
    assert forall|i: int| 0 <= i < words.len() implies back[i] == words[i] by {
        crate::bits::lemma_u16_bytes(words[i], 0, 0);
    }
    assert(back =~= words);
}

} // verus!
