//! The AHCI SATA driver: the ports of the host bus adapter, their command
//! lists and command tables, and the commands of a read.
//!
//! The memory of the adapter and the tables are laid out and mapped by the
//! caller; the library holds their contents and computes what goes in
//! them. See https://wiki.osdev.org/SATA and https://wiki.osdev.org/AHCI.
use super::ide_ata_controller::pci_udma::ATA_CMD_READ_DMA_EXT;
use super::tools::{NbrSectors, Sector};
use crate::bits::{
    bit_of_u16, bit_of_u32, bit_of_u8, bits_of_u16, bits_of_u32, get_bit_u32, get_bit_u8,
    get_bits_u16, get_bits_u32, lemma_u16_fits, lemma_u32_fits, set_bit_u16, set_bit_u32,
    set_bit_u8, set_bits_u16, set_bits_u32, with_bit_u16, with_bit_u32, with_bit_u8,
    with_bits_u16, with_bits_u32,
};
use crate::drivers::pci::{bus_master_write, first_of_class, Pci, PciConfigWrite, PciType0};
use crate::io::MemWrite32;
use crate::drivers::sata_controller::ahci_class;
use vstd::prelude::*;

verus! {

/// The errors of the SATA driver.
#[derive(Debug, Copy, Clone, PartialEq, Eq, Structural)]
pub enum SataError {
    /// no command slot available
    NoSlot,
    TaskFileError,
}

/// The result of the SATA driver.
pub type SataResult<T> = Result<T, SataError>;

/// Port interrupt status: task file error.
pub const HBA_PX_IS_TFES: u32 = 0x4000_0000;
/// Signature of a SATA drive.
pub const SATA_SIG_ATA: u32 = 0x00000101;
/// Signature of a SATAPI drive.
pub const SATA_SIG_ATAPI: u32 = 0xEB140101;
/// Signature of an enclosure management bridge.
pub const SATA_SIG_SEMB: u32 = 0xC33C0101;
/// Signature of a port multiplier.
pub const SATA_SIG_PM: u32 = 0x96690101;
/// The number of entries of a command table.
pub const NBR_PRDT_ENTRIES: usize = 56;
/// The number of ports of an adapter, and of command slots of a port.
pub const NBR_SLOTS: usize = 32;
/// Register FIS, host to device.
pub const FIS_TYPE_REG_H2D: u8 = 0x27;
/// The length of a host to device register FIS, in double words.
pub const H2D_FIS_DWORDS: usize = 5;
/// Where the registers of port 0 are in the memory of the adapter; those
/// of port `i` follow, `PORT_REGS_SIZE` bytes each.
pub const PORTS_OFFSET: u32 = 0x100;
/// The size of the registers of a port.
pub const PORT_REGS_SIZE: u32 = 0x80;
/// Port register: command list base address.
pub const PX_CLB: u32 = 0x0;
/// Port register: received FIS base address.
pub const PX_FB: u32 = 0x8;
/// Port register: interrupt status.
pub const PX_IS: u32 = 0x10;

/// The host capabilities register.
#[derive(Debug, Copy, Clone, PartialEq, Eq, Structural)]
pub struct Cap(pub u32);

impl Cap {
    /// The number of command slots: bits 8 to 12, plus one.
    pub fn get_number_of_command_slots(&self) -> (r: usize)
        ensures
            r == bits_of_u32(self.0, 8, 13) + 1,
    {
        let n = get_bits_u32(self.0, 8, 13);
        proof {
            crate::bits::lemma_u32_field_ranges(self.0);
        }
        (n + 1) as usize
    }
}

/// The flags of a command header: the command FIS length (bits 0 to 4),
/// ATAPI, write (bit 6), prefetchable, reset, BIST, clear busy and the
/// port multiplier port.
#[derive(Debug, Copy, Clone, PartialEq, Eq, Structural)]
pub struct CmdHeaderFlags(pub u16);

impl CmdHeaderFlags {
    /// Sets the direction: write (host to device) or read.
    pub fn set_write(&mut self, w: bool)
        ensures
            final(self).0 == with_bit_u16(old(self).0, 6, w),
    {
        self.0 = set_bit_u16(self.0, 6, w);
    }

    /// The command FIS length in double words.
    pub fn get_command_fis_length(&self) -> (r: usize)
        ensures
            r == bits_of_u16(self.0, 0, 5),
    {
        get_bits_u16(self.0, 0, 5) as usize
    }

    /// Sets the command FIS length in double words, below 32.
    pub fn set_command_fis_length(&mut self, l: usize)
        requires
            l < 32,
        ensures
            final(self).0 == with_bits_u16(old(self).0, 0, 5, l as u16),
    {
        proof {
            lemma_u16_fits(l as u16);
        }
        self.0 = set_bits_u16(self.0, 0, 5, l as u16);
    }
}

/// A command header of a port's command list.
#[derive(Debug, Copy, Clone, PartialEq, Eq, Structural)]
pub struct CmdHeader {
    pub flags: CmdHeaderFlags,
    /// Physical region descriptor table length in entries
    pub prdtl: u16,
    /// Physical region descriptor byte count transferred
    pub prdbc: u32,
    /// Command table descriptor base address
    pub ctba: u32,
    /// Command table descriptor base address upper 32 bits
    pub ctbau: u32,
}

/// The flags of a physical region descriptor: the byte count minus one
/// (bits 0 to 21) and the interrupt on completion (bit 31).
#[derive(Debug, Copy, Clone, PartialEq, Eq, Structural)]
pub struct PrdtFlags(pub u32);

impl PrdtFlags {
    /// The byte count.
    pub fn get_byte_count(&self) -> (r: usize)
        ensures
            r == bits_of_u32(self.0, 0, 22) + 1,
    {
        let n = get_bits_u32(self.0, 0, 22);
        proof {
            crate::bits::lemma_u32_field_ranges(self.0);
        }
        (n + 1) as usize
    }

    /// Sets the byte count, from 1 to 4M.
    pub fn set_byte_count(&mut self, size: usize)
        requires
            1 <= size <= 0x40_0000,
        ensures
            final(self).0 == with_bits_u32(old(self).0, 0, 22, (size - 1) as u32),
    {
        proof {
            lemma_u32_fits((size - 1) as u32);
        }
        self.0 = set_bits_u32(self.0, 0, 22, (size - 1) as u32);
    }

    /// Sets the interrupt on completion.
    pub fn set_interrupt_on_completion(&mut self, value: bool)
        ensures
            final(self).0 == with_bit_u32(old(self).0, 31, value),
    {
        self.0 = set_bit_u32(self.0, 31, value);
    }

    /// The interrupt on completion.
    pub fn get_interrupt_on_completion(&self) -> (r: bool)
        ensures
            r == bit_of_u32(self.0, 31),
    {
        get_bit_u32(self.0, 31)
    }
}

/// A physical region descriptor: where the data goes and how much.
#[derive(Debug, Copy, Clone, PartialEq, Eq, Structural)]
pub struct PrdtEntry {
    /// Data base address
    pub dba: u32,
    /// Data base address upper 32 bits
    pub dbau: u32,
    pub rsv0: u32,
    pub flags: PrdtFlags,
}

/// The flags of a host to device register FIS: the port multiplier and
/// the command bit (bit 7, else a control).
#[derive(Debug, Copy, Clone, PartialEq, Eq, Structural)]
pub struct FisRegH2DFlags(pub u8);

impl FisRegH2DFlags {
    /// Whether the FIS carries a command.
    pub fn get_command(&self) -> (r: bool)
        ensures
            r == bit_of_u8(self.0, 7),
    {
        get_bit_u8(self.0, 7)
    }

    /// Sets whether the FIS carries a command.
    pub fn set_command(&mut self, command: bool)
        ensures
            final(self).0 == with_bit_u8(old(self).0, 7, command),
    {
        self.0 = set_bit_u8(self.0, 7, command);
    }
}

/// A register FIS, host to device.
#[derive(Debug, Copy, Clone, PartialEq, Eq, Structural)]
pub struct FisRegH2D {
    pub fis_type: u8,
    pub flags: FisRegH2DFlags,
    pub command: u8,
    pub featurel: u8,
    pub lba0: u8,
    pub lba1: u8,
    pub lba2: u8,
    pub device: u8,
    pub lba3: u8,
    pub lba4: u8,
    pub lba5: u8,
    pub featureh: u8,
    pub countl: u8,
    pub counth: u8,
    pub icc: u8,
    pub control: u8,
}

/// A command table: the command FIS and the physical region descriptors.
pub struct CmdTbl {
    pub cfis: FisRegH2D,
    pub prdt_entry: Vec<PrdtEntry>,
}

/// Whether `sig` is the signature of a device the driver takes: a SATA or
/// SATAPI drive, an enclosure management bridge or a port multiplier.
pub open spec fn valid_signature(sig: u32) -> bool {
    sig == SATA_SIG_ATA || sig == SATA_SIG_ATAPI || sig == SATA_SIG_SEMB || sig == SATA_SIG_PM
}

/// The ports among the first `n` whose bit is set in `pi` (the ports
/// implemented) and whose signature in `sigs` is valid, in order.
pub open spec fn selected_ports(pi: u32, sigs: Seq<u32>, n: nat) -> Seq<usize>
    decreases n,
{
    if n == 0 {
        Seq::empty()
    } else {
        let k = (n - 1) as nat;
        selected_ports(pi, sigs, k) + if bit_of_u32(pi, k as usize) && valid_signature(sigs[k as int]) {
            seq![k as usize]
        } else {
            Seq::empty()
        }
    }
}

/// The first slot free in `slots` (the slots active or issued), from
/// `i` on.
pub open spec fn free_slot_from(slots: u32, i: nat) -> Option<usize>
    decreases 32 - i,
{
    if i >= 32 {
        None
    } else if !bit_of_u32(slots, i as usize) {
        Some(i as usize)
    } else {
        free_slot_from(slots, i + 1)
    }
}

/// The slot `free_slot_from` finds is free, and among the slots.
pub proof fn lemma_free_slot(slots: u32, i: nat)
    ensures
        free_slot_from(slots, i) matches Some(s) ==> i <= s < NBR_SLOTS && !bit_of_u32(slots, s),
        free_slot_from(slots, i) is None ==> forall|k: usize| i <= k < 32 ==> #[trigger] bit_of_u32(slots, k),
    decreases 32 - i,
{
    if i < 32 {
        lemma_free_slot(slots, i + 1);
    }
}

/// The zeroed command header of slot `j`, pointing to its command table at
/// `table` with all its descriptors.
pub open spec fn fresh_header(table: u32) -> CmdHeader {
    CmdHeader {
        flags: CmdHeaderFlags(0),
        prdtl: NBR_PRDT_ENTRIES as u16,
        prdbc: 0,
        ctba: table,
        ctbau: 0,
    }
}

/// The zeroed FIS.
pub open spec fn zero_fis() -> FisRegH2D {
    FisRegH2D {
        fis_type: 0,
        flags: FisRegH2DFlags(0),
        command: 0,
        featurel: 0,
        lba0: 0,
        lba1: 0,
        lba2: 0,
        device: 0,
        lba3: 0,
        lba4: 0,
        lba5: 0,
        featureh: 0,
        countl: 0,
        counth: 0,
        icc: 0,
        control: 0,
    }
}

/// The zeroed descriptor.
pub open spec fn zero_prdt() -> PrdtEntry {
    PrdtEntry { dba: 0, dbau: 0, rsv0: 0, flags: PrdtFlags(0) }
}

/// The FIS of a read of `nbr` sectors from `start`, written over `f`: a
/// host to device command, the command byte, LBA mode, the 48-bit LBA and
/// the 16-bit count.
pub open spec fn read_fis(f: FisRegH2D, start: Sector, nbr: NbrSectors) -> FisRegH2D {
    FisRegH2D {
        fis_type: FIS_TYPE_REG_H2D,
        flags: FisRegH2DFlags(with_bit_u8(f.flags.0, 7, true)),
        command: ATA_CMD_READ_DMA_EXT,
        device: 0x40,
        lba0: start.0 as u64 as u8,
        lba1: (start.0 as u64 >> 8u64) as u8,
        lba2: (start.0 as u64 >> 16u64) as u8,
        lba3: (start.0 as u64 >> 24u64) as u8,
        lba4: (start.0 as u64 >> 32u64) as u8,
        lba5: (start.0 as u64 >> 40u64) as u8,
        countl: nbr.0 as u64 as u8,
        counth: (nbr.0 as u64 >> 8u64) as u8,
        ..f
    }
}

/// A command issued on a port: the slot it went to, the value that issues
/// it in the command issue register, and the byte count moved.
#[derive(Debug, Copy, Clone, PartialEq, Eq, Structural)]
pub struct SataIssue {
    pub slot: usize,
    pub issue: u32,
    pub size: usize,
}

/// One port of the adapter in use: its number, its command list and its
/// command tables.
pub struct AccessPort {
    pub port: usize,
    pub regs: u32,
    pub cmdlist: Vec<CmdHeader>,
    pub cmdtbl: Vec<CmdTbl>,
}

impl AccessPort {
    /// A command list and command tables for each of the 32 slots, each
    /// table with all its descriptors.
    pub open spec fn wf(self) -> bool {
        &&& self.regs + PORT_REGS_SIZE <= u32::MAX
        &&& self.cmdlist@.len() == NBR_SLOTS
        &&& self.cmdtbl@.len() == NBR_SLOTS
        &&& forall|j: int|
            0 <= j < NBR_SLOTS ==> (#[trigger] self.cmdtbl@[j]).prdt_entry@.len()
                == NBR_PRDT_ENTRIES
    }

    /// The port `port` with zeroed command tables, at the physical
    /// addresses `tables`, each with all its descriptors.
    pub open spec fn is_fresh(self, port: usize, regs: u32, tables: Seq<u32>) -> bool {
        &&& self.wf()
        &&& self.port == port
        &&& self.regs == regs
        &&& forall|j: int|
            0 <= j < NBR_SLOTS ==> #[trigger] self.cmdlist@[j] == fresh_header(tables[j])
        &&& forall|j: int|
            0 <= j < NBR_SLOTS ==> (#[trigger] self.cmdtbl@[j]).cfis == zero_fis() && forall|
                k: int,
            |
                0 <= k < NBR_PRDT_ENTRIES ==> #[trigger] self.cmdtbl@[j].prdt_entry@[k]
                    == zero_prdt()
    }

    /// The port `port`, whose registers are at the physical address
    /// `regs`, with zeroed command tables at the physical addresses
    /// `tables`, each command header pointing to its table with all its
    /// descriptors; with it, the writes of the physical addresses of its
    /// command list (`clb`) and of its received FIS area (`fb`) to the
    /// port's registers.
    pub fn new(port: usize, regs: u32, clb: u32, fb: u32, tables: &Vec<u32>) -> (r: (Self, Vec<MemWrite32>))
        requires
            tables@.len() == NBR_SLOTS,
            regs + PORT_REGS_SIZE <= u32::MAX,
        ensures
            r.0.is_fresh(port, regs, tables@),
            r.1@ == seq![
                MemWrite32 { address: (regs + PX_CLB) as u32, value: clb },
                MemWrite32 { address: (regs + PX_FB) as u32, value: fb },
            ],
    {
        let mut cmdlist: Vec<CmdHeader> = Vec::new();
        let mut cmdtbl: Vec<CmdTbl> = Vec::new();
        let mut j: usize = 0;
        while j < NBR_SLOTS
            invariant
                tables@.len() == NBR_SLOTS,
                j <= NBR_SLOTS,
                cmdlist@.len() == j,
                cmdtbl@.len() == j,
                forall|i: int| 0 <= i < j ==> #[trigger] cmdlist@[i] == fresh_header(tables@[i]),
                forall|i: int|
                    0 <= i < j ==> (#[trigger] cmdtbl@[i]).cfis == zero_fis()
                        && cmdtbl@[i].prdt_entry@.len() == NBR_PRDT_ENTRIES && forall|k: int|
                        0 <= k < NBR_PRDT_ENTRIES ==> #[trigger] cmdtbl@[i].prdt_entry@[k]
                            == zero_prdt(),
            decreases NBR_SLOTS - j,
        {
            let mut prdt: Vec<PrdtEntry> = Vec::new();
            let mut k: usize = 0;
            while k < NBR_PRDT_ENTRIES
                invariant
                    k <= NBR_PRDT_ENTRIES,
                    prdt@.len() == k,
                    forall|i: int| 0 <= i < k ==> #[trigger] prdt@[i] == zero_prdt(),
                decreases NBR_PRDT_ENTRIES - k,
            {
                prdt.push(PrdtEntry { dba: 0, dbau: 0, rsv0: 0, flags: PrdtFlags(0) });
                k = k + 1;
            }
            cmdtbl.push(
                CmdTbl {
                    cfis: FisRegH2D {
                        fis_type: 0,
                        flags: FisRegH2DFlags(0),
                        command: 0,
                        featurel: 0,
                        lba0: 0,
                        lba1: 0,
                        lba2: 0,
                        device: 0,
                        lba3: 0,
                        lba4: 0,
                        lba5: 0,
                        featureh: 0,
                        countl: 0,
                        counth: 0,
                        icc: 0,
                        control: 0,
                    },
                    prdt_entry: prdt,
                },
            );
            cmdlist.push(
                CmdHeader {
                    flags: CmdHeaderFlags(0),
                    prdtl: NBR_PRDT_ENTRIES as u16,
                    prdbc: 0,
                    ctba: tables[j],
                    ctbau: 0,
                },
            );
            j = j + 1;
        }
        let mut writes: Vec<MemWrite32> = Vec::new();
        writes.push(MemWrite32 { address: regs + PX_CLB, value: clb });
        writes.push(MemWrite32 { address: regs + PX_FB, value: fb });
        (AccessPort { port, regs, cmdlist, cmdtbl }, writes)
    }

    /// The first command slot free: a slot is free when neither its bit
    /// in `sact` (active) nor in `ci` (issued) is set.
    pub fn find_cmdslot(sact: u32, ci: u32) -> (r: Option<usize>)
        ensures
            r == free_slot_from(sact | ci, 0),
    {
        let slots: u32 = sact | ci;
        let mut i: usize = 0;
        while i < NBR_SLOTS
            invariant
                i <= NBR_SLOTS,
                slots == sact | ci,
                free_slot_from(slots, 0) == free_slot_from(slots, i as nat),
            decreases NBR_SLOTS - i,
        {
            if !get_bit_u32(slots, i) {
                assert(free_slot_from(slots, i as nat) == Some(i));
                return Some(i);
            }
            i = i + 1;
        }
        None
    }

    /// Sets up a read of `nbr_sectors` sectors from `start_sector` into
    /// the buffer at the physical address `buf`, in the first slot free
    /// (from `sact` and `ci`): its header gets the FIS length and the read
    /// direction, its first descriptor the buffer and the byte count, its
    /// FIS the command. `NoSlot` when every slot is taken, with nothing
    /// changed.
    pub fn read(&mut self, start_sector: Sector, nbr_sectors: NbrSectors, buf: u32, sact: u32, ci: u32) -> (r:
        (MemWrite32, SataResult<SataIssue>))
        requires
            old(self).wf(),
            1 <= nbr_sectors.0 <= 0x2000,
        ensures
            final(self).wf(),
            final(self).port == old(self).port,
            final(self).regs == old(self).regs,
            r.0 == (MemWrite32 { address: (old(self).regs + PX_IS) as u32, value: 0xffff_ffff }),
            free_slot_from(sact | ci, 0) is None ==> r.1 == Err::<SataIssue, SataError>(SataError::NoSlot)
                && final(self).cmdlist@ == old(self).cmdlist@ && final(self).cmdtbl@
                == old(self).cmdtbl@,
            free_slot_from(sact | ci, 0) matches Some(s) ==> r.1 == Ok::<SataIssue, SataError>(
                SataIssue { slot: s, issue: 1u32 << s, size: (nbr_sectors.0 * 512) as usize },
            ) && final(self).read_set_up(*old(self), s, start_sector, nbr_sectors, buf),
    {
        let clear = MemWrite32 { address: self.regs + PX_IS, value: 0xffff_ffff };
        let slot = match AccessPort::find_cmdslot(sact, ci) {
            Some(s) => s,
            None => return (clear, Err(SataError::NoSlot)),
        };
        proof {
            lemma_free_slot(sact | ci, 0);
        }
        let mut header = self.cmdlist[slot];
        header.flags.set_command_fis_length(H2D_FIS_DWORDS);
        header.flags.set_write(false);
        header.prdtl = NBR_PRDT_ENTRIES as u16;
        self.cmdlist.set(slot, header);

        let size: usize = usize::from(nbr_sectors);
        proof {
            super::tools::lemma_sector_bits_usize(nbr_sectors.0);
        }
        let mut entry = self.cmdtbl[slot].prdt_entry[0];
        entry.dba = buf;
        entry.flags.set_byte_count(size);
        entry.flags.set_interrupt_on_completion(true);
        let mut fis = self.cmdtbl[slot].cfis;
        fis.fis_type = FIS_TYPE_REG_H2D;
        fis.flags.set_command(true);
        fis.command = ATA_CMD_READ_DMA_EXT;
        fis.device = 0x40;
        let s = start_sector.0 as u64;
        fis.lba0 = s as u8;
        fis.lba1 = (s >> 8u64) as u8;
        fis.lba2 = (s >> 16u64) as u8;
        fis.lba3 = (s >> 24u64) as u8;
        fis.lba4 = (s >> 32u64) as u8;
        fis.lba5 = (s >> 40u64) as u8;
        let n = nbr_sectors.0 as u64;
        fis.countl = n as u8;
        fis.counth = (n >> 8u64) as u8;
        self.cmdtbl[slot].prdt_entry.set(0, entry);
        self.cmdtbl[slot].cfis = fis;
        (clear, Ok(SataIssue { slot, issue: 1u32 << slot, size }))
    }

    /// `self` is `old` with a read of `nbr` sectors from `start` into the
    /// buffer at `buf` set up in slot `s`; the other slots are unchanged.
    pub open spec fn read_set_up(self, old: AccessPort, s: usize, start: Sector, nbr: NbrSectors, buf: u32) -> bool {
        let h = old.cmdlist@[s as int];
        let e = old.cmdtbl@[s as int].prdt_entry@[0];
        &&& s < NBR_SLOTS
        &&& self.cmdlist@ == old.cmdlist@.update(
            s as int,
            CmdHeader {
                flags: CmdHeaderFlags(
                    with_bit_u16(with_bits_u16(h.flags.0, 0, 5, H2D_FIS_DWORDS as u16), 6, false),
                ),
                prdtl: NBR_PRDT_ENTRIES as u16,
                ..h
            },
        )
        &&& forall|j: int| 0 <= j < NBR_SLOTS && j != s ==> #[trigger] self.cmdtbl@[j] == old.cmdtbl@[j]
        &&& self.cmdtbl@[s as int].cfis == read_fis(old.cmdtbl@[s as int].cfis, start, nbr)
        &&& self.cmdtbl@[s as int].prdt_entry@ == old.cmdtbl@[s as int].prdt_entry@.update(
            0,
            PrdtEntry {
                dba: buf,
                flags: PrdtFlags(
                    with_bit_u32(
                        with_bits_u32(e.flags.0, 0, 22, (nbr.0 * 512 - 1) as u32),
                        31,
                        true,
                    ),
                ),
                ..e
            },
        )
    }

    /// What the registers read while a command in `slot` runs decide: done
    /// when its bit of `ci` is clear, a `TaskFileError` when the task file
    /// error bit of `is` is set, else wait on.
    pub fn read_poll(slot: usize, ci: u32, is: u32) -> (r: Option<SataResult<()>>)
        requires
            slot < NBR_SLOTS,
        ensures
            r == if !bit_of_u32(ci, slot) {
                Some(Ok::<(), SataError>(()))
            } else if is & HBA_PX_IS_TFES != 0 {
                Some(Err(SataError::TaskFileError))
            } else {
                None
            },
    {
        if !get_bit_u32(ci, slot) {
            Some(Ok(()))
        } else if is & HBA_PX_IS_TFES != 0 {
            Some(Err(SataError::TaskFileError))
        } else {
            None
        }
    }
}

/// Where the registers of port `p` are, in the memory of the adapter at
/// `bar5`.
pub open spec fn port_regs(bar5: u32, p: usize) -> u32 {
    (bar5 + PORTS_OFFSET + PORT_REGS_SIZE * p) as u32
}

/// `a` is the port `p` of the adapter at `bar5`, set up fresh with the
/// command tables `tables` gave for it, and `w0`, `w1` the writes of the
/// addresses of its command list and received FIS area that `tables`
/// gave.
pub open spec fn port_from_tables<T: Fn(usize) -> (u32, u32, Vec<u32>)>(
    tables: T,
    bar5: u32,
    p: usize,
    a: AccessPort,
    w0: MemWrite32,
    w1: MemWrite32,
) -> bool {
    exists|t: (u32, u32, Vec<u32>)|
        call_ensures(tables, (p,), t) && a.is_fresh(p, port_regs(bar5, p), t.2@) && w0 == (MemWrite32 {
            address: (port_regs(bar5, p) + PX_CLB) as u32,
            value: t.0,
        }) && w1 == (MemWrite32 { address: (port_regs(bar5, p) + PX_FB) as u32, value: t.1 })
}

/// `ports` are the ports in use that `tables` gave, one for each port of
/// `selected`, in order, and `writes` the two writes of each, in the same
/// order.
pub open spec fn ports_set_up<T: Fn(usize) -> (u32, u32, Vec<u32>)>(
    tables: T,
    bar5: u32,
    selected: Seq<usize>,
    ports: Seq<AccessPort>,
    writes: Seq<MemWrite32>,
) -> bool {
    &&& ports.len() == selected.len()
    &&& writes.len() == 2 * selected.len()
    &&& forall|i: int|
        0 <= i < selected.len() ==> port_from_tables(
            tables,
            bar5,
            selected[i],
            #[trigger] ports[i],
            writes[2 * i],
            writes[2 * i + 1],
        )
}

/// What the kernel sends to set an adapter up: the write that makes it a
/// bus master, and the writes of the addresses of the command list and
/// received FIS area of each port in use.
pub struct SataSetup {
    pub bus_master: PciConfigWrite,
    pub port_writes: Vec<MemWrite32>,
}

/// The SATA controller: its configuration space, where it was found, and
/// the ports in use.
pub struct SataController {
    pub pci: PciType0,
    pub location: u32,
    pub access_ports: Vec<AccessPort>,
}

impl SataController {
    /// The ports in use: those implemented (their bit set in `pi`) whose
    /// signature in `sigs` is valid, in order.
    pub fn select_ports(pi: u32, sigs: &Vec<u32>) -> (r: Vec<usize>)
        requires
            sigs@.len() == NBR_SLOTS,
        ensures
            r@ == selected_ports(pi, sigs@, 32),
            forall|k: int| 0 <= k < r@.len() ==> #[trigger] r@[k] < NBR_SLOTS,
    {
        let mut r: Vec<usize> = Vec::new();
        let mut i: usize = 0;
        while i < NBR_SLOTS
            invariant
                sigs@.len() == NBR_SLOTS,
                i <= NBR_SLOTS,
                r@ == selected_ports(pi, sigs@, i as nat),
                forall|k: int| 0 <= k < r@.len() ==> #[trigger] r@[k] < i,
            decreases NBR_SLOTS - i,
        {
            if get_bit_u32(pi, i) {
                let sig = sigs[i];
                if sig == SATA_SIG_ATA || sig == SATA_SIG_ATAPI || sig == SATA_SIG_SEMB || sig
                    == SATA_SIG_PM {
                    r.push(i);
                }
            }
            proof {
                assert(r@ =~= selected_ports(pi, sigs@, (i + 1) as nat));
            }
            i = i + 1;
        }
        r
    }

    /// The first AHCI controller of the devices found on `pci_bus`, its
    /// configuration space read with `read_config`, the ports implemented
    /// and their signatures read with `read_hba` from the memory of the
    /// adapter at BAR 5, and each port with a valid signature set up with
    /// the addresses `tables` gives for it (command list, received FIS
    /// area, command tables); with it, the writes that set the adapter up
    /// (see `SataSetup`). `None` when there is no such controller.
    pub fn init<
        R: Fn(u32) -> Vec<u32>,
        H: Fn(u32) -> (u32, Vec<u32>),
        T: Fn(usize) -> (u32, u32, Vec<u32>),
    >(pci_bus: &Pci, read_config: R, read_hba: H, tables: T) -> (r: Option<(Self, SataSetup)>)
        requires
            forall|l: u32| call_requires(read_config, (l,)),
            forall|l: u32, v: Vec<u32>|
                call_ensures(read_config, (l,), v) ==> v@.len() == 16 && v@[9] + PORTS_OFFSET
                    + PORT_REGS_SIZE * NBR_SLOTS <= u32::MAX,
            forall|b: u32| call_requires(read_hba, (b,)),
            forall|b: u32, h: (u32, Vec<u32>)| call_ensures(read_hba, (b,), h) ==> h.1@.len() == 32,
            forall|p: usize| call_requires(tables, (p,)),
            forall|p: usize, t: (u32, u32, Vec<u32>)| call_ensures(tables, (p,), t) ==> t.2@.len() == 32,
        ensures
            first_of_class(pci_bus.devices_list.devices(), ahci_class()) is None ==> r is None,
            first_of_class(pci_bus.devices_list.devices(), ahci_class()) matches Some(l) ==> (
            r matches Some((s, setup)) && s.location == l && setup.bus_master == bus_master_write(
                s.pci,
                l,
            ) && exists|v: Vec<u32>, h: (u32, Vec<u32>)|
                call_ensures(read_config, (l,), v) && s.pci == PciType0::from_words_spec(v@)
                    && call_ensures(read_hba, (s.pci.bar5,), h) && ports_set_up(
                    tables,
                    s.pci.bar5,
                    selected_ports(h.0, h.1@, 32),
                    s.access_ports@,
                    setup.port_writes@,
                )),
    {
        let location = match pci_bus.query_device(
            crate::drivers::pci::PciDeviceClass::MassStorageController(
                crate::drivers::pci::MassStorageControllerSubClass::SerialAta(
                    crate::drivers::pci::SerialAtaProgIf::Ahci1,
                ),
            ),
        ) {
            Some(l) => l,
            None => return None,
        };
        proof {
            crate::drivers::pci::lemma_found_location_bound(pci_bus.devices_list.devices(), ahci_class());
        }
        let words = read_config(location);
        let pci = PciType0::from_words(&words);
        let bus_master = pci.enable_bus_master(location);
        let hba = read_hba(pci.bar5);
        let selected = SataController::select_ports(hba.0, &hba.1);
        let mut access_ports: Vec<AccessPort> = Vec::new();
        let mut port_writes: Vec<MemWrite32> = Vec::new();
        let mut i: usize = 0;
        while i < selected.len()
            invariant
                forall|p: usize| call_requires(tables, (p,)),
                forall|p: usize, t: (u32, u32, Vec<u32>)| call_ensures(tables, (p,), t) ==> t.2@.len() == 32,
                pci.bar5 + PORTS_OFFSET + PORT_REGS_SIZE * NBR_SLOTS <= u32::MAX,
                forall|k: int| 0 <= k < selected@.len() ==> #[trigger] selected@[k] < NBR_SLOTS,
                i <= selected@.len(),
                ports_set_up(tables, pci.bar5, selected@.take(i as int), access_ports@, port_writes@),
            decreases selected@.len() - i,
        {
            let p = selected[i];
            let t = tables(p);
            let regs = pci.bar5 + PORTS_OFFSET + PORT_REGS_SIZE * (p as u32);
            let (port, w) = AccessPort::new(p, regs, t.0, t.1, &t.2);
            let ghost before = access_ports@;
            let ghost wbefore = port_writes@;
            access_ports.push(port);
            port_writes.push(w[0]);
            port_writes.push(w[1]);
            proof {
                assert(port_from_tables(tables, pci.bar5, p, port, w@[0], w@[1]));
                let sel = selected@.take(i as int + 1);
                assert forall|k: int| 0 <= k < sel.len() implies port_from_tables(
                    tables,
                    pci.bar5,
                    sel[k],
                    #[trigger] access_ports@[k],
                    port_writes@[2 * k],
                    port_writes@[2 * k + 1],
                ) by {
                    if k < i {
                        assert(sel[k] == selected@.take(i as int)[k]);
                        assert(access_ports@[k] == before[k]);
                        assert(port_writes@[2 * k] == wbefore[2 * k]);
                        assert(port_writes@[2 * k + 1] == wbefore[2 * k + 1]);
                    }
                }
            }
            i = i + 1;
        }
        proof {
            assert(selected@.take(selected@.len() as int) =~= selected@);
        }
        Some((SataController { pci, location, access_ports }, SataSetup { bus_master, port_writes }))
    }

    /// Sets up a read on the first port in use (see `AccessPort::read`).
    pub fn read(&mut self, start_sector: Sector, nbr_sectors: NbrSectors, buf: u32, sact: u32, ci: u32) -> (r:
        (MemWrite32, SataResult<SataIssue>))
        requires
            old(self).access_ports@.len() > 0,
            old(self).access_ports@[0].wf(),
            1 <= nbr_sectors.0 <= 0x2000,
        ensures
            final(self).access_ports@.len() == old(self).access_ports@.len(),
            forall|i: int|
                1 <= i < old(self).access_ports@.len() ==> #[trigger] final(self).access_ports@[i]
                    == old(self).access_ports@[i],
            final(self).access_ports@[0].wf(),
            final(self).access_ports@[0].port == old(self).access_ports@[0].port,
            final(self).access_ports@[0].regs == old(self).access_ports@[0].regs,
            r.0 == (MemWrite32 {
                address: (old(self).access_ports@[0].regs + PX_IS) as u32,
                value: 0xffff_ffff,
            }),
            free_slot_from(sact | ci, 0) is None ==> r.1 == Err::<SataIssue, SataError>(SataError::NoSlot)
                && final(self).access_ports@[0].cmdlist@ == old(self).access_ports@[0].cmdlist@
                && final(self).access_ports@[0].cmdtbl@ == old(self).access_ports@[0].cmdtbl@,
            free_slot_from(sact | ci, 0) matches Some(s) ==> r.1 == Ok::<SataIssue, SataError>(
                SataIssue { slot: s, issue: 1u32 << s, size: (nbr_sectors.0 * 512) as usize },
            ) && final(self).access_ports@[0].read_set_up(
                old(self).access_ports@[0],
                s,
                start_sector,
                nbr_sectors,
                buf,
            ),
            final(self).pci == old(self).pci,
            final(self).location == old(self).location,
    {
        self.access_ports[0].read(start_sector, nbr_sectors, buf, sact, ci)
    }
}

/// Setting the byte count of a descriptor then reading it gives back the
/// count set.
pub proof fn lemma_byte_count_roundtrip(flags: u32, size: usize)
    requires
        1 <= size <= 0x40_0000,
    ensures
        bits_of_u32(with_bits_u32(flags, 0, 22, (size - 1) as u32), 0, 22) + 1 == size,
{
    crate::bits::lemma_u32_fits((size - 1) as u32);
    crate::bits::lemma_u32_bits_roundtrip(flags, 0, 22, (size - 1) as u32);
}

/// Setting the command FIS length of a header then reading it gives back
/// the length set.
pub proof fn lemma_fis_length_roundtrip(flags: u16, l: usize)
    requires
        l < 32,
    ensures
        bits_of_u16(with_bits_u16(flags, 0, 5, l as u16), 0, 5) == l,
{
    crate::bits::lemma_u16_fits(l as u16);
    crate::bits::lemma_u16_bits_roundtrip(flags, 0, 5, l as u16);
}

/// Setting the command bit of a FIS then reading it gives back the value
/// set.
pub proof fn lemma_command_bit_roundtrip(flags: u8, command: bool)
    ensures
        bit_of_u8(with_bit_u8(flags, 7, command), 7) == command,
{
    crate::bits::lemma_u8_bit_roundtrip(flags, 7, command);
}

} // verus!
