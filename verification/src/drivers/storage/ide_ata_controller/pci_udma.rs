//! The transfers of an ATA drive through UDMA, and the decisions taken on
//! the status registers while one runs.
//!
//! A transfer goes: set the direction in the bus master command register,
//! clear the error and interrupt bits of its status register, set up the
//! LBA and the sector count, send the DMA command, start the transfer,
//! wait for the interrupt, then check the status of the bus master and of
//! the drive. See https://wiki.osdev.org/ATA/ATAPI_using_DMA.
use super::pio_polling::{lba_setup, STATUS_ERR};
use super::udma::{DmaStatus, Udma, NBR_DMA_ENTRIES, PRD_SIZE};
use super::{AtaError, AtaResult, Capabilities, DmaIo, Drive, COMMAND};
use crate::drivers::storage::tools::{NbrSectors, Sector};
use crate::io::PortWrite;
use vstd::prelude::*;

verus! {

/// The READ DMA command.
pub const ATA_CMD_READ_DMA: u8 = 0xC8;
/// The READ DMA EXT command.
pub const ATA_CMD_READ_DMA_EXT: u8 = 0x25;
/// The WRITE DMA command.
pub const ATA_CMD_WRITE_DMA: u8 = 0xCA;
/// The WRITE DMA EXT command.
pub const ATA_CMD_WRITE_DMA_EXT: u8 = 0x35;

/// The number of sectors the DMA buffers hold.
pub const DMA_SECTORS: usize = 2048;

/// One UDMA transfer: the sectors it moves (none for an empty request),
/// the writes that set it up and the DMA command.
pub struct DmaTransfer {
    pub sectors: NbrSectors,
    pub setup: Vec<PortWrite>,
    pub command: Option<PortWrite>,
}

/// The DMA command byte: READ DMA (EXT) or WRITE DMA (EXT).
pub open spec fn dma_command_byte(c: Capabilities, write: bool) -> u8 {
    match c {
        Capabilities::Lba48 => if write {
            ATA_CMD_WRITE_DMA_EXT
        } else {
            ATA_CMD_READ_DMA_EXT
        },
        _ => if write {
            ATA_CMD_WRITE_DMA
        } else {
            ATA_CMD_READ_DMA
        },
    }
}

/// The number of sectors one transfer moves for a request of `nbr`: as
/// many as the DMA buffers hold, at most.
pub open spec fn dma_sectors(nbr: NbrSectors) -> usize {
    if nbr.0 < DMA_SECTORS {
        nbr.0
    } else {
        DMA_SECTORS
    }
}

/// What a UDMA transfer of `nbr` sectors from `start` on `d` is: nothing
/// for no sector, `NotSupported` for a CHS drive, else the setup of the
/// sectors the buffers hold and the DMA command.
pub open spec fn dma_transfer_ok(d: Drive, start: Sector, nbr: NbrSectors, write: bool, r: AtaResult<DmaTransfer>) -> bool {
    if nbr.0 == 0 {
        r matches Ok(t) && t.sectors.0 == 0 && t.setup@.len() == 0 && t.command is None
    } else if d.capabilities == Capabilities::Chs {
        r matches Err(e) && e == AtaError::NotSupported
    } else {
        r matches Ok(t) && t.sectors.0 == dma_sectors(nbr) && t.setup@ == lba_setup(
            d,
            start,
            t.sectors,
        ) && t.command == Some(
            PortWrite {
                port: (d.command_register + COMMAND) as u16,
                value: dma_command_byte(d.capabilities, write),
            },
        )
    }
}

impl Drive {
    /// The transfer of a UDMA read or write, as described by
    /// `dma_transfer_ok`.
    fn dma_transfer(&self, start_sector: Sector, nbr_sectors: NbrSectors, udma: &Udma, write: bool) -> (r:
        AtaResult<DmaTransfer>)
        requires
            self.command_register <= 0xffff - 7,
            udma.wf(),
        ensures
            dma_transfer_ok(*self, start_sector, nbr_sectors, write, r),
    {
        if nbr_sectors.0 == 0 {
            return Ok(DmaTransfer { sectors: NbrSectors(0), setup: Vec::new(), command: None });
        }
        let capacity = NbrSectors::from(udma.get_memory_amount());
        assert(capacity.0 == DMA_SECTORS);
        let sectors = if capacity.0 < nbr_sectors.0 {
            capacity
        } else {
            nbr_sectors
        };
        let (setup, byte) = match self.capabilities {
            Capabilities::Lba48 => (
                self.init_lba48(start_sector, sectors),
                if write {
                    ATA_CMD_WRITE_DMA_EXT
                } else {
                    ATA_CMD_READ_DMA_EXT
                },
            ),
            Capabilities::Lba28 => (
                self.init_lba28(start_sector, sectors),
                if write {
                    ATA_CMD_WRITE_DMA
                } else {
                    ATA_CMD_READ_DMA
                },
            ),
            Capabilities::Chs => return Err(AtaError::NotSupported),
        };
        Ok(
            DmaTransfer {
                sectors,
                setup,
                command: Some(PortWrite { port: self.command_register + COMMAND, value: byte }),
            },
        )
    }

    /// What the status of the bus master read just after the start of a
    /// transfer decides: an `IoError` when FAILED is set.
    pub fn dma_started(status: DmaStatus) -> (r: AtaResult<()>)
        ensures
            r == if status.bits & DmaStatus::FAILED != 0 {
                Err(AtaError::IoError)
            } else {
                Ok(())
            },
    {
        if status.bits & DmaStatus::FAILED != 0 {
            Err(AtaError::IoError)
        } else {
            Ok(())
        }
    }

    /// What a status of the bus master read at an interrupt decides: an
    /// `IoError` when FAILED is set, the end of the transfer when IRQ is
    /// set, else wait on.
    pub fn dma_completion(status: DmaStatus) -> (r: Option<AtaResult<()>>)
        ensures
            r == if status.bits & DmaStatus::FAILED != 0 {
                Some(Err(AtaError::IoError))
            } else if status.bits & DmaStatus::IRQ != 0 {
                Some(Ok(()))
            } else {
                None
            },
    {
        if status.bits & DmaStatus::FAILED != 0 {
            Some(Err(AtaError::IoError))
        } else if status.bits & DmaStatus::IRQ != 0 {
            Some(Ok(()))
        } else {
            None
        }
    }

    /// What the status of the drive read at the end of a transfer decides:
    /// an `IoError` when ERR is set.
    pub fn dma_disk_status(status: u8) -> (r: AtaResult<()>)
        ensures
            r == if status & STATUS_ERR != 0 {
                Err(AtaError::IoError)
            } else {
                Ok(())
            },
    {
        if status & STATUS_ERR != 0 {
            Err(AtaError::IoError)
        } else {
            Ok(())
        }
    }
}

impl DmaIo for Drive {
    open spec fn dma_ready(&self) -> bool {
        self.command_register <= 0xffff - 7
    }

    /// The transfer of a UDMA read; once it is done, the data is in the
    /// first bytes of the DMA buffers (see `Udma::copy_out`).
    fn read(&self, start_sector: Sector, nbr_sectors: NbrSectors, udma: &mut Udma) -> (r: AtaResult<
        DmaTransfer,
    >)
        ensures
            dma_transfer_ok(*self, start_sector, nbr_sectors, false, r),
            *final(udma) == *old(udma),
    {
        self.dma_transfer(start_sector, nbr_sectors, udma, false)
    }

    /// The transfer of a UDMA write; the bytes of the sectors it moves are
    /// first copied from `data` into the DMA buffers.
    fn write(&self, start_sector: Sector, nbr_sectors: NbrSectors, data: &Vec<u8>, udma: &mut Udma) -> (r:
        AtaResult<DmaTransfer>)
        ensures
            dma_transfer_ok(*self, start_sector, nbr_sectors, true, r),
            final(udma).wf(),
            final(udma).register() == old(udma).register(),
            final(udma).channel_view() == old(udma).channel_view(),
            forall|k: int|
                0 <= k < NBR_DMA_ENTRIES * PRD_SIZE ==> super::udma::dma_byte(
                    final(udma).memory_view(),
                    k,
                ) == if k < dma_sectors(nbr_sectors) * 512 {
                    data@[k]
                } else {
                    super::udma::dma_byte(old(udma).memory_view(), k)
                },
    {
        let n = if nbr_sectors.0 < DMA_SECTORS {
            nbr_sectors.0
        } else {
            DMA_SECTORS
        };
        let mut chunk: Vec<u8> = Vec::new();
        let mut k: usize = 0;
        while k < n * 512
            invariant
                n <= DMA_SECTORS,
                n * 512 <= data@.len(),
                k <= n * 512,
                chunk@ == data@.take(k as int),
            decreases n * 512 - k,
        {
            chunk.push(data[k]);
            proof {
                assert(chunk@ =~= data@.take(k as int + 1));
            }
            k = k + 1;
        }
        udma.copy_in(&chunk);
        self.dma_transfer(start_sector, nbr_sectors, udma, true)
    }
}

} // verus!
